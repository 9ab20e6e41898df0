//! Parameters of the job title endpoint.

use crate::client::{verdict, PDLError};
use crate::models::common::{flatten, flattened, BaseParams};
use crate::wire::{present, text_slot, Field, FieldBuilder, Slot, WireFields};
use vstd::prelude::*;

verus! {

/// The job title to look up.
#[derive(Clone, Debug)]
pub struct JobTitleBaseParams {
    /// The job title that seeds the enrichment.
    pub job_title: Option<String>,
}

impl JobTitleBaseParams {
    /// The places of the group, in the order of declaration.
    pub open spec fn slots(&self) -> Seq<Slot> {
        seq![text_slot("job_title"@, self.job_title)]
    }

    /// The fields that go on the wire.
    pub open spec fn wire(&self) -> WireFields {
        present(self.slots())
    }

    /// Collects the fields that are set.
    pub fn fields(&self) -> (r: Vec<Field>)
        ensures
            r.deep_view() == self.wire(),
    {
        let mut b = FieldBuilder::new();
        b.text("job_title", &self.job_title);
        assert(b.slots() =~= self.slots());
        b.finish()
    }
}

/// A request to look up a job title.
#[derive(Clone, Debug)]
pub struct JobTitleParams {
    pub base_params: Option<BaseParams>,
    pub job_title_base_params: JobTitleBaseParams,
}

impl JobTitleParams {
    /// The job title is given.
    pub open spec fn valid(&self) -> bool {
        self.job_title_base_params.job_title is Some
    }

    /// Checks the value before anything is sent.
    pub fn validate(&self) -> (r: Result<(), PDLError>)
        ensures
            r == verdict(self.valid()),
    {
        if self.job_title_base_params.job_title.is_none() {
            return Err(PDLError::ValidationError);
        }
        Ok(())
    }

    /// The fields that go on the wire.
    pub open spec fn wire(&self) -> WireFields {
        flattened(self.base_params, self.job_title_base_params.wire(), None)
    }

    /// Collects the fields of the two groups at one level.
    pub fn fields(&self) -> (r: Vec<Field>)
        ensures
            r.deep_view() == self.wire(),
    {
        flatten(&self.base_params, self.job_title_base_params.fields(), &None)
    }
}

} // verus!
