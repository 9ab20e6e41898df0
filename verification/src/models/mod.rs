//! The parameter values of every endpoint: what a valid one is, and the
//! fields it puts on the wire.

pub mod autocomplete;
pub mod common;
pub mod company;
pub mod ip;
pub mod jobtitle;
pub mod location;
pub mod metadata;
pub mod person;
pub mod school;
pub mod skills;

pub use autocomplete::{AutocompleteBaseParams, AutocompleteParams};
pub use common::{AdditionalParams, BaseParams, SearchBaseParams, SearchParams};
pub use company::{
    BulkEnrichCompanyParams, BulkEnrichSingleCompanyParams, CleanCompanyParams, CompanyParams,
    EnrichCompanyParams,
};
pub use ip::{ConfidenceLevel, IPBaseParams, IPParams};
pub use jobtitle::{JobTitleBaseParams, JobTitleParams};
pub use location::{CleanLocationParams, LocationParams};
pub use metadata::PersonMetadata;
pub use person::{
    BulkEnrichPersonParams, BulkEnrichSinglePersonParams, BulkRetrievePersonParams,
    BulkRetrieveSinglePersonParams, EnrichPersonParams, IdentifyPersonParams, IdentityRule,
    PersonParams, RetrievePersonParams,
};
pub use school::{CleanSchoolParams, SchoolParams};
pub use skills::{SkillBaseParams, SkillParams};
