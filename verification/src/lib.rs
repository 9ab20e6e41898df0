//! Request construction, validation and dispatch for the People Data Labs API.
//!
//! A caller fills in a parameter value, hands it to the dispatcher of its
//! resource family and receives the HTTP request to issue, or the reason why
//! none is issued. The transport's answer is then classified by
//! [`client::PDLClient::receive`].

pub mod api;
pub mod client;
pub mod json;
pub mod models;
pub mod query;
pub mod wire;

pub use api::{Autocomplete, Company, JobTitle, Location, Person, School, Skill, IP};
pub use client::{Method, Outcome, PDLCLientOptions, PDLClient, PDLError, Request};
pub use models::{
    AdditionalParams, AutocompleteBaseParams, AutocompleteParams, BaseParams,
    BulkEnrichCompanyParams, BulkEnrichPersonParams, BulkEnrichSingleCompanyParams,
    BulkEnrichSinglePersonParams, BulkRetrievePersonParams, BulkRetrieveSinglePersonParams,
    CleanCompanyParams, CleanLocationParams, CleanSchoolParams, CompanyParams, ConfidenceLevel,
    EnrichCompanyParams, EnrichPersonParams, IPBaseParams, IPParams, IdentifyPersonParams,
    IdentityRule, JobTitleBaseParams, JobTitleParams, LocationParams, PersonMetadata,
    PersonParams, RetrievePersonParams, SchoolParams, SearchBaseParams, SearchParams,
    SkillBaseParams, SkillParams,
};
pub use wire::{Field, WireValue};

use vstd::prelude::*;

verus! {

/// Every dispatcher, each with the same client settings.
pub struct PDL {
    pub autocomplete: Autocomplete,
    pub company: Company,
    pub ip: IP,
    pub job_title: JobTitle,
    pub location: Location,
    pub person: Person,
    pub school: School,
    pub skill: Skill,
}

impl PDL {
    /// The settings that every dispatcher holds.
    pub open spec fn shares(&self, settings: client::ClientView) -> bool {
        &&& self.autocomplete.client@ == settings
        &&& self.company.client@ == settings
        &&& self.ip.client@ == settings
        &&& self.job_title.client@ == settings
        &&& self.location.client@ == settings
        &&& self.person.client@ == settings
        &&& self.school.client@ == settings
        &&& self.skill.client@ == settings
    }

    /// The dispatchers for a credential, with the default settings.
    pub fn new(api_key: &str) -> (r: PDL)
        ensures
            r.shares(
                client::ClientView {
                    api_key: api_key@,
                    base_url: client::DEFAULT_API_URL@,
                    api_version: client::DEFAULT_API_VERSION@,
                    timeout: client::DEFAULT_TIMEOUT,
                },
            ),
    {
        PDL::with_client(PDLClient::new(api_key).build())
    }

    /// The dispatchers for a client that is already set up.
    pub fn with_client(client: PDLClient) -> (r: PDL)
        ensures
            r.shares(client@),
    {
        PDL {
            autocomplete: Autocomplete { client: client.clone() },
            company: Company { client: client.clone() },
            ip: IP { client: client.clone() },
            job_title: JobTitle { client: client.clone() },
            location: Location { client: client.clone() },
            person: Person { client: client.clone() },
            school: School { client: client.clone() },
            skill: Skill { client },
        }
    }
}

} // verus!
