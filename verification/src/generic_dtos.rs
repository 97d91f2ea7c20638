//! Shared data carriers for resource queries.

use vstd::prelude::*;

verus! {

/// Result row of an existence query.
pub struct ExistsDTO {
    pub exist: bool,
}

impl ExistsDTO {
    pub fn get_into_exist(self) -> (r: bool)
        ensures
            r == self.exist,
    {
        self.exist
    }
}

} // verus!
