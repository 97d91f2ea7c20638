//! Plain data carriers for the category resource.

use vstd::prelude::*;

verus! {

pub struct CategoryDTO {
    pub id: u64,
    pub name: String,
}

impl CategoryDTO {
    pub fn new(id: u64, name: String) -> (r: Self)
        ensures
            r.id == id,
            r.name@ == name@,
    {
        Self { id, name }
    }

    pub fn get_id(&self) -> (r: &u64)
        ensures
            *r == self.id,
    {
        &self.id
    }

    pub fn get_name(&self) -> (r: &String)
        ensures
            r@ == self.name@,
    {
        &self.name
    }
}

pub struct CategoryCreateDTO {
    pub name: String,
}

impl CategoryCreateDTO {
    pub fn get_name(&self) -> (r: &String)
        ensures
            r@ == self.name@,
    {
        &self.name
    }
}

/// A category as listed for viewers, with the stock it holds (absent for
/// an empty category).
pub struct CategoryViewDTO {
    pub id: u64,
    pub name: String,
    pub quantity: Option<u64>,
}

} // verus!
