//! Plain data carriers for the role resource.

use vstd::prelude::*;

verus! {

pub struct RoleCreateDTO {
    pub name: String,
}

impl RoleCreateDTO {
    pub fn new(name: String) -> (r: Self)
        ensures
            r.name@ == name@,
    {
        Self { name }
    }

    pub fn get_name(&self) -> (r: &String)
        ensures
            r@ == self.name@,
    {
        &self.name
    }
}

pub struct RoleDTO {
    pub id: u64,
    pub name: String,
}

impl RoleDTO {
    pub fn new(id: u64, name: String) -> (r: Self)
        ensures
            r.id == id,
            r.name@ == name@,
    {
        Self { id, name }
    }

    pub fn get_id(&self) -> (r: &u64)
        ensures
            *r == self.id,
    {
        &self.id
    }

    pub fn get_name(&self) -> (r: &String)
        ensures
            r@ == self.name@,
    {
        &self.name
    }
}

} // verus!
