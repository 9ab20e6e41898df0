//! What is known about a skill.

use crate::client::{get_outcome, PDLClient, PDLError, Request};
use crate::models::skills::SkillParams;
use vstd::prelude::*;

verus! {

/// The path of the operation.
pub const PATH: &'static str = "/skill/enrich";

/// The dispatcher of the skill operations.
pub struct Skill {
    pub client: PDLClient,
}

impl Skill {
    /// Looks up a skill.
    pub fn get(&self, params: SkillParams) -> (r: Result<Request, PDLError>)
        ensures
            get_outcome(self.client@, PATH@, params.valid(), params.wire(), r),
    {
        self.client.send_get(PATH, params.validate(), &params.fields())
    }
}

} // verus!
