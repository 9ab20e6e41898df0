//! Parameters of the school endpoint.

use crate::client::{verdict, PDLError};
use crate::models::common::{flatten, flattened, AdditionalParams, BaseParams};
use crate::wire::{present, text_slot, Field, FieldBuilder, Slot, WireFields};
use vstd::prelude::*;

verus! {

/// What identifies a school.
#[derive(Clone, Debug)]
pub struct SchoolParams {
    pub name: Option<String>,
    pub website: Option<String>,
    pub profile: Option<String>,
}

impl Default for SchoolParams {
    fn default() -> (r: Self)
        ensures
            r.name is None,
            r.website is None,
            r.profile is None,
    {
        SchoolParams { name: None, website: None, profile: None }
    }
}

impl SchoolParams {
    /// The places of the group, in the order of declaration.
    pub open spec fn slots(&self) -> Seq<Slot> {
        seq![
            text_slot("name"@, self.name),
            text_slot("website"@, self.website),
            text_slot("profile"@, self.profile),
        ]
    }

    /// The fields that go on the wire.
    pub open spec fn wire(&self) -> WireFields {
        present(self.slots())
    }

    /// Collects the fields that are set, in the order of declaration.
    pub fn fields(&self) -> (r: Vec<Field>)
        ensures
            r.deep_view() == self.wire(),
    {
        let mut b = FieldBuilder::new();
        b.text("name", &self.name);
        b.text("website", &self.website);
        b.text("profile", &self.profile);
        assert(b.slots() =~= self.slots());
        b.finish()
    }
}

/// A request to normalise the name of a school.
#[derive(Clone, Debug)]
pub struct CleanSchoolParams {
    pub base_params: Option<BaseParams>,
    pub school_params: SchoolParams,
    pub additional_params: Option<AdditionalParams>,
}

impl CleanSchoolParams {
    /// The name, the website or the profile is given.
    pub open spec fn valid(&self) -> bool {
        ||| self.school_params.name is Some
        ||| self.school_params.website is Some
        ||| self.school_params.profile is Some
    }

    /// Checks the value before anything is sent.
    pub fn validate(&self) -> (r: Result<(), PDLError>)
        ensures
            r == verdict(self.valid()),
    {
        if self.school_params.name.is_none() && self.school_params.website.is_none()
            && self.school_params.profile.is_none() {
            return Err(PDLError::ValidationError);
        }
        Ok(())
    }

    /// The fields that go on the wire.
    pub open spec fn wire(&self) -> WireFields {
        flattened(self.base_params, self.school_params.wire(), self.additional_params)
    }

    /// Collects the fields of the three groups at one level.
    pub fn fields(&self) -> (r: Vec<Field>)
        ensures
            r.deep_view() == self.wire(),
    {
        flatten(&self.base_params, self.school_params.fields(), &self.additional_params)
    }
}

} // verus!
