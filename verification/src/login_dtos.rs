//! Submitted credentials, in the shape an early login route used.

use vstd::prelude::*;

verus! {

pub struct LoginDTO {
    pub username: String,
    pub password: String,
}

impl LoginDTO {
    pub fn get_username(&self) -> (r: &String)
        ensures
            r@ == self.username@,
    {
        &self.username
    }

    pub fn get_password(&self) -> (r: &String)
        ensures
            r@ == self.password@,
    {
        &self.password
    }
}

} // verus!
