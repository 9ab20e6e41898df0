//! Suggestions for the values of a search field.

use crate::client::{get_outcome, PDLClient, PDLError, Request};
use crate::models::autocomplete::AutocompleteParams;
use vstd::prelude::*;

verus! {

/// The path of the operation.
pub const AUTOCOMPLETE_PATH: &'static str = "/autocomplete";

/// The dispatcher of the autocomplete operations.
pub struct Autocomplete {
    pub client: PDLClient,
}

impl Autocomplete {
    /// Suggestions for a field, with the number of records behind each: for
    /// example, schools that start with "stanf".
    pub fn autocomplete(&self, params: AutocompleteParams) -> (r: Result<Request, PDLError>)
        ensures
            get_outcome(self.client@, AUTOCOMPLETE_PATH@, params.valid(), params.wire(), r),
    {
        self.client.send_get(AUTOCOMPLETE_PATH, params.validate(), &params.fields())
    }
}

} // verus!
