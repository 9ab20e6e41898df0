//! What is known about a job title.

use crate::client::{get_outcome, PDLClient, PDLError, Request};
use crate::models::jobtitle::JobTitleParams;
use vstd::prelude::*;

verus! {

/// The path of the operation.
pub const PATH: &'static str = "/job_title/enrich";

/// The dispatcher of the job title operations.
pub struct JobTitle {
    pub client: PDLClient,
}

impl JobTitle {
    /// Looks up a job title.
    pub fn get(&self, params: JobTitleParams) -> (r: Result<Request, PDLError>)
        ensures
            get_outcome(self.client@, PATH@, params.valid(), params.wire(), r),
    {
        self.client.send_get(PATH, params.validate(), &params.fields())
    }
}

} // verus!
