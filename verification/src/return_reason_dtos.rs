//! Plain data carriers for the return-reason resource.

use vstd::prelude::*;

verus! {

pub struct ReturnReasonDTO {
    pub id: u64,
    pub name: String,
}

impl ReturnReasonDTO {
    pub fn new(id: u64, name: String) -> (r: Self)
        ensures
            r.id == id,
            r.name@ == name@,
    {
        Self { id, name }
    }

    pub fn get_id(&self) -> (r: &u64)
        ensures
            *r == self.id,
    {
        &self.id
    }

    pub fn get_name(&self) -> (r: &String)
        ensures
            r@ == self.name@,
    {
        &self.name
    }
}

pub struct ReturnReasonCreateDTO {
    pub name: String,
}

impl ReturnReasonCreateDTO {
    pub fn get_name(&self) -> (r: &String)
        ensures
            r@ == self.name@,
    {
        &self.name
    }
}

} // verus!
