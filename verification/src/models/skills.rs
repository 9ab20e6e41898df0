//! Parameters of the skill endpoint.

use crate::client::{verdict, PDLError};
use crate::models::common::{flatten, flattened, BaseParams};
use crate::wire::{bool_slot, present, text_slot, Field, FieldBuilder, Slot, WireFields};
use vstd::prelude::*;

verus! {

/// The skill to look up.
#[derive(Clone, Debug)]
pub struct SkillBaseParams {
    /// The skill that seeds the enrichment.
    pub skill: Option<String>,
    /// Whether to titlecase the data of a 200 response.
    pub titlecase: Option<bool>,
}

impl SkillBaseParams {
    /// The places of the group, in the order of declaration.
    pub open spec fn slots(&self) -> Seq<Slot> {
        seq![text_slot("skill"@, self.skill), bool_slot("titlecase"@, self.titlecase)]
    }

    /// The fields that go on the wire.
    pub open spec fn wire(&self) -> WireFields {
        present(self.slots())
    }

    /// Collects the fields that are set, in the order of declaration.
    pub fn fields(&self) -> (r: Vec<Field>)
        ensures
            r.deep_view() == self.wire(),
    {
        let mut b = FieldBuilder::new();
        b.text("skill", &self.skill);
        b.flag("titlecase", &self.titlecase);
        assert(b.slots() =~= self.slots());
        b.finish()
    }
}

/// A request to look up a skill.
#[derive(Clone, Debug)]
pub struct SkillParams {
    pub base_params: Option<BaseParams>,
    pub skill_base_params: SkillBaseParams,
}

impl SkillParams {
    /// The skill is given.
    pub open spec fn valid(&self) -> bool {
        self.skill_base_params.skill is Some
    }

    /// Checks the value before anything is sent.
    pub fn validate(&self) -> (r: Result<(), PDLError>)
        ensures
            r == verdict(self.valid()),
    {
        if self.skill_base_params.skill.is_none() {
            return Err(PDLError::ValidationError);
        }
        Ok(())
    }

    /// The fields that go on the wire.
    pub open spec fn wire(&self) -> WireFields {
        flattened(self.base_params, self.skill_base_params.wire(), None)
    }

    /// Collects the fields of the two groups at one level.
    pub fn fields(&self) -> (r: Vec<Field>)
        ensures
            r.deep_view() == self.wire(),
    {
        flatten(&self.base_params, self.skill_base_params.fields(), &None)
    }
}

} // verus!
