//! What is known about an IP address.

use crate::client::{get_outcome, PDLClient, PDLError, Request};
use crate::models::ip::IPParams;
use vstd::prelude::*;

verus! {

/// The path of the operation.
pub const PATH: &'static str = "/ip/enrich";

/// The dispatcher of the IP operations.
pub struct IP {
    pub client: PDLClient,
}

impl IP {
    /// Looks up an IP address.
    pub fn get(&self, params: IPParams) -> (r: Result<Request, PDLError>)
        ensures
            get_outcome(self.client@, PATH@, params.valid(), params.wire(), r),
    {
        self.client.send_get(PATH, params.validate(), &params.fields())
    }
}

} // verus!
