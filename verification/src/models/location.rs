//! Parameters of the location endpoint.

use crate::client::{verdict, PDLError};
use crate::models::common::{flatten, flattened, AdditionalParams, BaseParams};
use crate::wire::{present, text_slot, Field, FieldBuilder, Slot, WireFields};
use vstd::prelude::*;

verus! {

/// The location to normalise.
#[derive(Clone, Debug)]
pub struct LocationParams {
    /// The location as the caller has it.
    pub location: Option<String>,
}

impl LocationParams {
    /// The places of the group, in the order of declaration.
    pub open spec fn slots(&self) -> Seq<Slot> {
        seq![text_slot("location"@, self.location)]
    }

    /// The fields that go on the wire.
    pub open spec fn wire(&self) -> WireFields {
        present(self.slots())
    }

    /// Collects the fields that are set.
    pub fn fields(&self) -> (r: Vec<Field>)
        ensures
            r.deep_view() == self.wire(),
    {
        let mut b = FieldBuilder::new();
        b.text("location", &self.location);
        assert(b.slots() =~= self.slots());
        b.finish()
    }
}

/// A request to normalise a location.
#[derive(Clone, Debug)]
pub struct CleanLocationParams {
    pub base_params: Option<BaseParams>,
    pub location_params: LocationParams,
    pub additional_params: Option<AdditionalParams>,
}

impl CleanLocationParams {
    /// The location is given.
    pub open spec fn valid(&self) -> bool {
        self.location_params.location is Some
    }

    /// Checks the value before anything is sent.
    pub fn validate(&self) -> (r: Result<(), PDLError>)
        ensures
            r == verdict(self.valid()),
    {
        if self.location_params.location.is_none() {
            return Err(PDLError::ValidationError);
        }
        Ok(())
    }

    /// The fields that go on the wire.
    pub open spec fn wire(&self) -> WireFields {
        flattened(self.base_params, self.location_params.wire(), self.additional_params)
    }

    /// Collects the fields of the three groups at one level.
    pub fn fields(&self) -> (r: Vec<Field>)
        ensures
            r.deep_view() == self.wire(),
    {
        flatten(&self.base_params, self.location_params.fields(), &self.additional_params)
    }
}

} // verus!
