//! Parameters of the autocomplete endpoint.

use crate::client::{verdict, verdict_of, PDLError};
use crate::models::common::{flatten, flattened, BaseParams};
use crate::wire::{
    bool_slot, label_slot, present, text_slot, Field, FieldBuilder, Slot, WireFields,
};
use vstd::prelude::*;

verus! {

/// What to complete.
#[derive(Clone, Debug)]
pub struct AutocompleteBaseParams {
    /// The field for which suggestions are wanted.
    pub field: String,
    /// The text that the suggestions begin with.
    pub text: Option<String>,
    /// Whether to titlecase the data of a 200 response.
    pub titlecase: Option<bool>,
    /// Whether to use the beta endpoint.
    pub beta: Option<bool>,
}

impl AutocompleteBaseParams {
    /// The places of the group, in the order of declaration.
    pub open spec fn slots(&self) -> Seq<Slot> {
        seq![
            label_slot("field"@, Some(self.field@)),
            text_slot("text"@, self.text),
            bool_slot("titlecase"@, self.titlecase),
            bool_slot("beta"@, self.beta),
        ]
    }

    /// The fields that go on the wire; `field` is always among them.
    pub open spec fn wire(&self) -> WireFields {
        present(self.slots())
    }

    /// Collects the fields that are set, in the order of declaration.
    pub fn fields(&self) -> (r: Vec<Field>)
        ensures
            r.deep_view() == self.wire(),
    {
        let mut b = FieldBuilder::new();
        b.label("field", Some(self.field.as_str()));
        b.text("text", &self.text);
        b.flag("titlecase", &self.titlecase);
        b.flag("beta", &self.beta);
        assert(b.slots() =~= self.slots());
        b.finish()
    }
}

/// A request for suggestions.
#[derive(Clone, Debug)]
pub struct AutocompleteParams {
    pub base_params: Option<BaseParams>,
    pub autocomplete_base_params: AutocompleteBaseParams,
}

impl AutocompleteParams {
    /// The field is not empty.
    pub open spec fn valid(&self) -> bool {
        self.autocomplete_base_params.field@.len() > 0
    }

    /// Checks the value before anything is sent.
    pub fn validate(&self) -> (r: Result<(), PDLError>)
        ensures
            r == verdict(self.valid()),
    {
        verdict_of(!self.autocomplete_base_params.field.as_str().is_empty())
    }

    /// The fields that go on the wire.
    pub open spec fn wire(&self) -> WireFields {
        flattened(self.base_params, self.autocomplete_base_params.wire(), None)
    }

    /// Collects the fields of the two groups at one level.
    pub fn fields(&self) -> (r: Vec<Field>)
        ensures
            r.deep_view() == self.wire(),
    {
        flatten(&self.base_params, self.autocomplete_base_params.fields(), &None)
    }
}

} // verus!
