//! Locations in their canonical form.

use crate::client::{get_outcome, PDLClient, PDLError, Request};
use crate::models::location::CleanLocationParams;
use vstd::prelude::*;

verus! {

/// The path of the operation.
pub const PATH: &'static str = "/location/clean";

/// The dispatcher of the location operations.
pub struct Location {
    pub client: PDLClient,
}

impl Location {
    /// Normalises a location.
    pub fn clean(&self, params: CleanLocationParams) -> (r: Result<Request, PDLError>)
        ensures
            get_outcome(self.client@, PATH@, params.valid(), params.wire(), r),
    {
        self.client.send_get(PATH, params.validate(), &params.fields())
    }
}

} // verus!
