//! Schools in their canonical form.

use crate::client::{get_outcome, PDLClient, PDLError, Request};
use crate::models::school::CleanSchoolParams;
use vstd::prelude::*;

verus! {

/// The path of the operation.
pub const PATH: &'static str = "/school/clean";

/// The dispatcher of the school operations.
pub struct School {
    pub client: PDLClient,
}

impl School {
    /// Normalises what the caller knows of a school.
    pub fn clean(&self, params: CleanSchoolParams) -> (r: Result<Request, PDLError>)
        ensures
            get_outcome(self.client@, PATH@, params.valid(), params.wire(), r),
    {
        self.client.send_get(PATH, params.validate(), &params.fields())
    }
}

} // verus!
