//! Parameters of the IP endpoint.

use crate::client::{verdict, PDLError};
use crate::models::common::{flatten, flattened, BaseParams};
use crate::wire::{
    bool_slot, label_slot, present, text_slot, Field, FieldBuilder, Slot, WireFields,
};
use vstd::prelude::*;

verus! {

/// How sure a match has to be.
#[derive(Clone, Copy, Debug, PartialEq, Eq)]
pub enum ConfidenceLevel {
    VeryHigh,
    High,
    Moderate,
    Low,
    VeryLow,
}

impl ConfidenceLevel {
    /// The word that stands for the level on the wire.
    pub open spec fn word(&self) -> Seq<char> {
        match self {
            ConfidenceLevel::VeryHigh => "veryhigh"@,
            ConfidenceLevel::High => "high"@,
            ConfidenceLevel::Moderate => "moderate"@,
            ConfidenceLevel::Low => "low"@,
            ConfidenceLevel::VeryLow => "verylow"@,
        }
    }

    /// The word that stands for the level on the wire.
    pub fn as_str(&self) -> (r: &'static str)
        ensures
            r@ == self.word(),
    {
        match self {
            ConfidenceLevel::VeryHigh => "veryhigh",
            ConfidenceLevel::High => "high",
            ConfidenceLevel::Moderate => "moderate",
            ConfidenceLevel::Low => "low",
            ConfidenceLevel::VeryLow => "verylow",
        }
    }
}

/// The word of an optional level.
pub open spec fn level_word(level: Option<ConfidenceLevel>) -> Option<Seq<char>> {
    match level {
        Some(l) => Some(l.word()),
        None => None,
    }
}

/// The address to look up, and what to return about it.
#[derive(Clone, Debug)]
pub struct IPBaseParams {
    /// The IP address that seeds the enrichment.
    pub ip: Option<String>,
    /// Whether the response should include the location of the address.
    pub return_ip_location: Option<bool>,
    /// Whether the response should include the metadata of the address.
    pub return_ip_metadata: Option<bool>,
    /// Whether the response should include the person fields.
    pub return_person: Option<bool>,
    /// Whether to return metadata and location even if no company is found.
    pub return_if_unmatched: Option<bool>,
    /// Whether to return the updated title tags.
    pub updated_title_roles: Option<bool>,
    /// The least confidence at which data is returned.
    pub min_confidence: Option<ConfidenceLevel>,
}

impl Default for IPBaseParams {
    fn default() -> (r: Self)
        ensures
            r.ip is None,
            r.return_ip_location is None,
            r.return_ip_metadata is None,
            r.return_person is None,
            r.return_if_unmatched is None,
            r.updated_title_roles is None,
            r.min_confidence is None,
    {
        IPBaseParams {
            ip: None,
            return_ip_location: None,
            return_ip_metadata: None,
            return_person: None,
            return_if_unmatched: None,
            updated_title_roles: None,
            min_confidence: None,
        }
    }
}

impl IPBaseParams {
    /// The places of the group, in the order of declaration.
    pub open spec fn slots(&self) -> Seq<Slot> {
        seq![
            text_slot("ip"@, self.ip),
            bool_slot("return_ip_location"@, self.return_ip_location),
            bool_slot("return_ip_metadata"@, self.return_ip_metadata),
            bool_slot("return_person"@, self.return_person),
            bool_slot("return_if_unmatched"@, self.return_if_unmatched),
            bool_slot("updated_title_roles"@, self.updated_title_roles),
            label_slot("min_confidence"@, level_word(self.min_confidence)),
        ]
    }

    /// The fields that go on the wire.
    pub open spec fn wire(&self) -> WireFields {
        present(self.slots())
    }

    /// Collects the fields that are set, in the order of declaration.
    pub fn fields(&self) -> (r: Vec<Field>)
        ensures
            r.deep_view() == self.wire(),
    {
        let mut b = FieldBuilder::new();
        b.text("ip", &self.ip);
        b.flag("return_ip_location", &self.return_ip_location);
        b.flag("return_ip_metadata", &self.return_ip_metadata);
        b.flag("return_person", &self.return_person);
        b.flag("return_if_unmatched", &self.return_if_unmatched);
        b.flag("updated_title_roles", &self.updated_title_roles);
        let level = match &self.min_confidence {
            Some(l) => Some(l.as_str()),
            None => None,
        };
        b.label("min_confidence", level);
        assert(b.slots() =~= self.slots());
        b.finish()
    }
}

/// A request to look up an IP address.
#[derive(Clone, Debug)]
pub struct IPParams {
    pub base_params: Option<BaseParams>,
    pub ip_base_params: IPBaseParams,
}

impl IPParams {
    /// The address is given.
    pub open spec fn valid(&self) -> bool {
        self.ip_base_params.ip is Some
    }

    /// Checks the value before anything is sent.
    pub fn validate(&self) -> (r: Result<(), PDLError>)
        ensures
            r == verdict(self.valid()),
    {
        if self.ip_base_params.ip.is_none() {
            return Err(PDLError::ValidationError);
        }
        Ok(())
    }

    /// The fields that go on the wire.
    pub open spec fn wire(&self) -> WireFields {
        flattened(self.base_params, self.ip_base_params.wire(), None)
    }

    /// Collects the fields of the two groups at one level.
    pub fn fields(&self) -> (r: Vec<Field>)
        ensures
            r.deep_view() == self.wire(),
    {
        flatten(&self.base_params, self.ip_base_params.fields(), &None)
    }
}

} // verus!
