//! Person records: enrichment, identification, search and retrieval.

use crate::client::{get_outcome, post_outcome, PDLClient, PDLError, Request};
use crate::models::common::SearchParams;
use crate::models::person::{
    BulkEnrichPersonParams, BulkRetrievePersonParams, EnrichPersonParams, IdentifyPersonParams,
    IdentityRule, RetrievePersonParams,
};
use vstd::prelude::*;

verus! {

/// The path of enrichment.
pub const PERSON_ENRICH_PATH: &'static str = "/person/enrich";

/// The path of bulk enrichment.
pub const PERSON_BULK_ENRICH_PATH: &'static str = "/person/bulk";

/// The path of identification.
pub const PERSON_IDENTIFY_PATH: &'static str = "/person/identify";

/// The path of search.
pub const PERSON_SEARCH_PATH: &'static str = "/person/search";

/// The path of retrieval; the identifier of the person follows it.
pub const PERSON_RETRIEVE_PATH: &'static str = "/person/retrieve/";

/// The path of bulk retrieval.
pub const PERSON_BULK_RETRIEVE_PATH: &'static str = "/person/retrieve/bulk";

/// The dispatcher of the person operations.
pub struct Person {
    pub client: PDLClient,
}

impl Person {
    /// Enriches one person.
    pub fn enrich(&self, params: EnrichPersonParams) -> (r: Result<Request, PDLError>)
        ensures
            get_outcome(self.client@, PERSON_ENRICH_PATH@, params.valid(), params.wire(), r),
    {
        self.client.send_get(PERSON_ENRICH_PATH, params.validate(), &params.fields())
    }

    /// Enriches one person, with the caller's choice of what a name needs
    /// beside it.
    pub fn enrich_with(&self, params: EnrichPersonParams, rule: IdentityRule) -> (r: Result<
        Request,
        PDLError,
    >)
        ensures
            get_outcome(
                self.client@,
                PERSON_ENRICH_PATH@,
                params.valid_under(rule),
                params.wire(),
                r,
            ),
    {
        self.client.send_get(PERSON_ENRICH_PATH, params.validate_with(rule), &params.fields())
    }

    /// Enriches several people in one call.
    pub fn bulk_enrich(&self, params: BulkEnrichPersonParams) -> (r: Result<Request, PDLError>)
        ensures
            post_outcome(
                self.client@,
                PERSON_BULK_ENRICH_PATH@,
                params.valid(),
                params.json(),
                r,
            ),
    {
        self.bulk_enrich_with(params, IdentityRule::Signal)
    }

    /// Enriches several people in one call, with the caller's choice of what
    /// a name needs beside it.
    pub fn bulk_enrich_with(&self, params: BulkEnrichPersonParams, rule: IdentityRule) -> (r:
        Result<Request, PDLError>)
        ensures
            post_outcome(
                self.client@,
                PERSON_BULK_ENRICH_PATH@,
                params.valid_under(rule),
                params.json(),
                r,
            ),
    {
        let checked = params.validate_with(rule);
        match checked {
            Ok(()) => self.client.send_post(PERSON_BULK_ENRICH_PATH, checked, params.to_json()),
            Err(e) => Err(e),
        }
    }

    /// Asks for the candidates that match one person.
    pub fn identify(&self, params: IdentifyPersonParams) -> (r: Result<Request, PDLError>)
        ensures
            get_outcome(self.client@, PERSON_IDENTIFY_PATH@, params.valid(), params.wire(), r),
    {
        self.client.send_get(PERSON_IDENTIFY_PATH, params.validate(), &params.fields())
    }

    /// Asks for the candidates that match one person, with the caller's
    /// choice of what a name needs beside it.
    pub fn identify_with(&self, params: IdentifyPersonParams, rule: IdentityRule) -> (r: Result<
        Request,
        PDLError,
    >)
        ensures
            get_outcome(
                self.client@,
                PERSON_IDENTIFY_PATH@,
                params.valid_under(rule),
                params.wire(),
                r,
            ),
    {
        self.client.send_get(PERSON_IDENTIFY_PATH, params.validate_with(rule), &params.fields())
    }

    /// Searches the person records with a structured query or with SQL.
    pub fn search(&self, params: SearchParams) -> (r: Result<Request, PDLError>)
        ensures
            get_outcome(self.client@, PERSON_SEARCH_PATH@, params.valid(), params.wire(), r),
    {
        self.client.send_get(PERSON_SEARCH_PATH, params.validate(), &params.fields())
    }

    /// Fetches the record of one person. The identifier is put behind the
    /// path as it is.
    pub fn retrieve(&self, params: RetrievePersonParams) -> (r: Result<Request, PDLError>)
        ensures
            get_outcome(
                self.client@,
                PERSON_RETRIEVE_PATH@ + params.person_id@,
                params.valid(),
                params.wire(),
                r,
            ),
    {
        let mut url = String::from_str(PERSON_RETRIEVE_PATH);
        url.append(params.person_id.as_str());
        self.client.send_get(url.as_str(), params.validate(), &params.fields())
    }

    /// Fetches the records of several people in one call.
    pub fn bulk_retrieve(&self, params: BulkRetrievePersonParams) -> (r: Result<
        Request,
        PDLError,
    >)
        ensures
            post_outcome(
                self.client@,
                PERSON_BULK_RETRIEVE_PATH@,
                params.valid(),
                params.json(),
                r,
            ),
    {
        let checked = params.validate();
        match checked {
            Ok(()) => self.client.send_post(PERSON_BULK_RETRIEVE_PATH, checked, params.to_json()),
            Err(e) => Err(e),
        }
    }
}

} // verus!
