//! Company records: enrichment, search and cleaning.

use crate::client::{get_outcome, post_outcome, PDLClient, PDLError, Request};
use crate::models::common::SearchParams;
use crate::models::company::{BulkEnrichCompanyParams, CleanCompanyParams, EnrichCompanyParams};
use vstd::prelude::*;

verus! {

/// The path of enrichment.
pub const ENRICH_PATH: &'static str = "/company/enrich";

/// The path of bulk enrichment.
pub const COMPANY_BULK_ENRICH_PATH: &'static str = "/company/enrich/bulk";

/// The path of search.
pub const SEARCH_PATH: &'static str = "/company/search";

/// The path of cleaning.
pub const CLEAN_PATH: &'static str = "/company/clean";

/// The dispatcher of the company operations.
pub struct Company {
    pub client: PDLClient,
}

impl Company {
    /// Enriches one company.
    pub fn enrich(&self, params: EnrichCompanyParams) -> (r: Result<Request, PDLError>)
        ensures
            get_outcome(self.client@, ENRICH_PATH@, params.valid(), params.wire(), r),
    {
        self.client.send_get(ENRICH_PATH, params.validate(), &params.fields())
    }

    /// Enriches several companies in one call.
    pub fn bulk_enrich(&self, params: BulkEnrichCompanyParams) -> (r: Result<Request, PDLError>)
        ensures
            post_outcome(
                self.client@,
                COMPANY_BULK_ENRICH_PATH@,
                params.valid(),
                params.json(),
                r,
            ),
    {
        let checked = params.validate();
        match checked {
            Ok(()) => self.client.send_post(COMPANY_BULK_ENRICH_PATH, checked, params.to_json()),
            Err(e) => Err(e),
        }
    }

    /// Searches the company records with a structured query or with SQL.
    pub fn search(&self, params: SearchParams) -> (r: Result<Request, PDLError>)
        ensures
            get_outcome(self.client@, SEARCH_PATH@, params.valid(), params.wire(), r),
    {
        self.client.send_get(SEARCH_PATH, params.validate(), &params.fields())
    }

    /// Normalises what the caller knows of a company.
    pub fn clean(&self, params: CleanCompanyParams) -> (r: Result<Request, PDLError>)
        ensures
            get_outcome(self.client@, CLEAN_PATH@, params.valid(), params.wire(), r),
    {
        self.client.send_get(CLEAN_PATH, params.validate(), &params.fields())
    }
}

} // verus!
