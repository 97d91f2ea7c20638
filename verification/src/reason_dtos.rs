//! Plain data carriers for the stock-change reason resource.

use vstd::prelude::*;

verus! {

pub struct ReasonDTO {
    pub id: u64,
    pub name: String,
}

impl ReasonDTO {
    pub fn new(id: u64, name: String) -> (r: Self)
        ensures
            r.id == id,
            r.name@ == name@,
    {
        Self { id, name }
    }

    pub fn get_id(&self) -> (r: &u64)
        ensures
            *r == self.id,
    {
        &self.id
    }

    pub fn get_name(&self) -> (r: &String)
        ensures
            r@ == self.name@,
    {
        &self.name
    }
}

pub struct ReasonCreateDTO {
    pub name: String,
}

impl ReasonCreateDTO {
    pub fn get_name(&self) -> (r: &String)
        ensures
            r@ == self.name@,
    {
        &self.name
    }
}

} // verus!
