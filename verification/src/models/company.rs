//! Parameters of the company endpoints.

use crate::client::{serialized, verdict, verdict_of, PDLError};
use crate::json::{
    all_some, brackets, brackets_string, fields_object, fields_object_string, json_object,
    object_string,
};
use crate::models::common::{flatten, flattened, AdditionalParams, BaseParams};
use crate::wire::{
    distinct_slots, entries, lemma_slot_on_wire, list_slot, present, slot_fields, text_slot,
    Field, FieldBuilder, Slot, WireFields,
};
use vstd::prelude::*;

verus! {

/// What identifies a company.
#[derive(Clone, Debug)]
pub struct CompanyParams {
    /// The identifier of the company.
    pub pdl_id: Option<String>,
    /// The name of the company.
    pub name: Option<String>,
    /// A website the company uses.
    pub website: Option<String>,
    /// A social profile of the company.
    pub profile: Option<String>,
    /// The stock ticker of the company.
    pub ticker: Option<String>,
    /// Complete or partial locations of the company; they go out as one text.
    pub location: Option<Vec<String>>,
    pub locality: Option<String>,
    pub region: Option<String>,
    pub country: Option<String>,
    pub street_address: Option<String>,
    pub postal_code: Option<String>,
}

impl Default for CompanyParams {
    fn default() -> (r: Self)
        ensures
            r.pdl_id is None,
            r.name is None,
            r.website is None,
            r.profile is None,
            r.ticker is None,
            r.location is None,
            r.locality is None,
            r.region is None,
            r.country is None,
            r.street_address is None,
            r.postal_code is None,
    {
        CompanyParams {
            pdl_id: None,
            name: None,
            website: None,
            profile: None,
            ticker: None,
            location: None,
            locality: None,
            region: None,
            country: None,
            street_address: None,
            postal_code: None,
        }
    }
}

impl CompanyParams {
    /// One of the fields that name a company is given.
    pub open spec fn has_key_field(&self) -> bool {
        ||| self.pdl_id is Some
        ||| self.name is Some
        ||| self.ticker is Some
        ||| self.website is Some
        ||| self.profile is Some
    }

    /// At least one field is given.
    pub open spec fn valid(&self) -> bool {
        ||| self.has_key_field()
        ||| self.location is Some
        ||| self.locality is Some
        ||| self.region is Some
        ||| self.country is Some
        ||| self.street_address is Some
        ||| self.postal_code is Some
    }

    /// Checks the value before anything is sent.
    pub fn validate(&self) -> (r: Result<(), PDLError>)
        ensures
            r == verdict(self.valid()),
    {
        verdict_of(
            self.pdl_id.is_some() || self.name.is_some() || self.website.is_some()
                || self.profile.is_some() || self.ticker.is_some() || self.location.is_some()
                || self.locality.is_some() || self.region.is_some() || self.country.is_some()
                || self.street_address.is_some() || self.postal_code.is_some(),
        )
    }

    /// The places of the group, in the order of declaration.
    pub open spec fn slots(&self) -> Seq<Slot> {
        seq![
            text_slot("pdl_id"@, self.pdl_id),
            text_slot("name"@, self.name),
            text_slot("website"@, self.website),
            text_slot("profile"@, self.profile),
            text_slot("ticker"@, self.ticker),
            list_slot("location"@, self.location),
            text_slot("locality"@, self.locality),
            text_slot("region"@, self.region),
            text_slot("country"@, self.country),
            text_slot("street_address"@, self.street_address),
            text_slot("postal_code"@, self.postal_code),
        ]
    }

    /// The fields that go on the wire.
    pub open spec fn wire(&self) -> WireFields {
        present(self.slots())
    }

    /// Collects the fields that are set, in the order of declaration.
    pub fn fields(&self) -> (r: Vec<Field>)
        ensures
            r.deep_view() == self.wire(),
    {
        let mut b = FieldBuilder::new();
        b.text("pdl_id", &self.pdl_id);
        b.text("name", &self.name);
        b.text("website", &self.website);
        b.text("profile", &self.profile);
        b.text("ticker", &self.ticker);
        b.list("location", &self.location);
        b.text("locality", &self.locality);
        b.text("region", &self.region);
        b.text("country", &self.country);
        b.text("street_address", &self.street_address);
        b.text("postal_code", &self.postal_code);
        assert(b.slots() =~= self.slots());
        b.finish()
    }
}

/// No two fields of a company share a key.
pub proof fn lemma_company_keys_distinct(company: CompanyParams)
    ensures
        distinct_slots(company.slots()),
{
    reveal_strlit("pdl_id");
    reveal_strlit("name");
    reveal_strlit("website");
    reveal_strlit("profile");
    reveal_strlit("ticker");
    reveal_strlit("location");
    reveal_strlit("locality");
    reveal_strlit("region");
    reveal_strlit("country");
    reveal_strlit("street_address");
    reveal_strlit("postal_code");
    reveal(distinct_slots);
    // Keys differ in their length,
    assert("pdl_id"@.len() == 6);
    assert("name"@.len() == 4);
    assert("website"@.len() == 7);
    assert("profile"@.len() == 7);
    assert("ticker"@.len() == 6);
    assert("location"@.len() == 8);
    assert("locality"@.len() == 8);
    assert("region"@.len() == 6);
    assert("country"@.len() == 7);
    assert("street_address"@.len() == 14);
    assert("postal_code"@.len() == 11);
    // and keys of one length differ in a letter.
    assert("pdl_id"@[0] == 'p' && "ticker"@[0] == 't' && "region"@[0] == 'r');
    assert("website"@[0] == 'w' && "profile"@[0] == 'p' && "country"@[0] == 'c');
    assert("location"@[4] == 't' && "locality"@[4] == 'l');
    let slots = company.slots();
    assert forall|i: int, j: int| 0 <= i < j < slots.len() implies (#[trigger] slots[i]).0 != (
    #[trigger] slots[j]).0 by {
        assert(i == 0 || i == 1 || i == 2 || i == 3 || i == 4 || i == 5 || i == 6 || i == 7 || i
            == 8 || i == 9);
        assert(j == 1 || j == 2 || j == 3 || j == 4 || j == 5 || j == 6 || j == 7 || j == 8 || j
            == 9 || j == 10);
    }
}

/// The locations of a company go out under `location` as one text, joined by
/// a comma and a space in their order; where they are absent there is no
/// field and no key.
pub proof fn lemma_company_locations_on_wire(company: CompanyParams)
    ensures
        entries(company.wire(), "location"@) == slot_fields(
            list_slot("location"@, company.location),
        ),
{
    let slots = company.slots();
    assert(slots[5] == list_slot("location"@, company.location));
    lemma_company_keys_distinct(company);
    lemma_slot_on_wire(slots, 5);
}

/// A request to enrich one company.
#[derive(Clone, Debug)]
pub struct EnrichCompanyParams {
    pub base_params: Option<BaseParams>,
    pub company_params: CompanyParams,
    pub additional_params: Option<AdditionalParams>,
}

impl EnrichCompanyParams {
    /// The identifier, the name, the ticker, the website or the profile of
    /// the company is given.
    pub open spec fn valid(&self) -> bool {
        self.company_params.has_key_field()
    }

    /// Checks the value before anything is sent.
    pub fn validate(&self) -> (r: Result<(), PDLError>)
        ensures
            r == verdict(self.valid()),
    {
        if self.company_params.pdl_id.is_none() && self.company_params.name.is_none()
            && self.company_params.ticker.is_none() && self.company_params.website.is_none()
            && self.company_params.profile.is_none() {
            return Err(PDLError::ValidationError);
        }
        Ok(())
    }

    /// The fields that go on the wire.
    pub open spec fn wire(&self) -> WireFields {
        flattened(self.base_params, self.company_params.wire(), self.additional_params)
    }

    /// Collects the fields of the three groups at one level.
    pub fn fields(&self) -> (r: Vec<Field>)
        ensures
            r.deep_view() == self.wire(),
    {
        flatten(&self.base_params, self.company_params.fields(), &self.additional_params)
    }
}

/// The rule of company enrichment: a name, a ticker, a website or a profile
/// makes a request valid, each on its own, and so does the identifier; with
/// none of the five the request is not valid, whatever else it carries.
pub proof fn lemma_company_enrich_rule(params: EnrichCompanyParams)
    ensures
        params.company_params.name is Some ==> params.valid(),
        params.company_params.ticker is Some ==> params.valid(),
        params.company_params.website is Some ==> params.valid(),
        params.company_params.profile is Some ==> params.valid(),
        params.company_params.pdl_id is Some ==> params.valid(),
        params.company_params.name is None && params.company_params.ticker is None
            && params.company_params.website is None && params.company_params.profile is None
            && params.company_params.pdl_id is None ==> !params.valid(),
{
}

/// One request of a bulk enrichment.
#[derive(Clone, Debug)]
pub struct BulkEnrichSingleCompanyParams {
    pub params: CompanyParams,
}

impl BulkEnrichSingleCompanyParams {
    /// Whether the value may be sent.
    pub open spec fn valid(&self) -> bool {
        self.params.valid()
    }

    /// Checks the value before anything is sent.
    pub fn validate(&self) -> (r: Result<(), PDLError>)
        ensures
            r == verdict(self.valid()),
    {
        self.params.validate()
    }

    /// The request as JSON: the company's fields as one flat object under
    /// `params`.
    pub open spec fn json(&self) -> Option<Seq<char>> {
        match fields_object(self.params.wire()) {
            Some(params) => json_object(seq![("params"@, params)]),
            None => None,
        }
    }

    /// Writes the request as JSON.
    pub fn to_json(&self) -> (r: Result<String, PDLError>)
        ensures
            serialized(self.json(), r),
    {
        let company = self.params.fields();
        match fields_object_string(&company) {
            Ok(text) => {
                let mut members: Vec<(String, String)> = Vec::new();
                members.push((String::from_str("params"), text));
                assert(members.deep_view() =~= seq![("params"@, text@)]);
                object_string(&members)
            },
            Err(e) => Err(e),
        }
    }
}

/// Any number of enrichment requests sent as one.
#[derive(Clone, Debug)]
pub struct BulkEnrichCompanyParams {
    pub requests: Vec<BulkEnrichSingleCompanyParams>,
}

impl BulkEnrichCompanyParams {
    /// Every request is valid; an envelope without a request is valid too.
    pub open spec fn valid(&self) -> bool {
        forall|i: int| 0 <= i < self.requests.len() ==> (#[trigger] self.requests[i]).valid()
    }

    /// Checks the value before anything is sent.
    pub fn validate(&self) -> (r: Result<(), PDLError>)
        ensures
            r == verdict(self.valid()),
    {
        let mut i: usize = 0;
        while i < self.requests.len()
            invariant
                i <= self.requests.len(),
                forall|k: int| 0 <= k < i ==> (#[trigger] self.requests[k]).valid(),
            decreases self.requests.len() - i,
        {
            match self.requests[i].validate() {
                Ok(()) => {},
                Err(e) => {
                    assert(!self.requests[i as int].valid());
                    return Err(e);
                },
            }
            i += 1;
        }
        Ok(())
    }

    /// The requests as JSON, one text for each.
    pub open spec fn items(&self) -> Seq<Option<Seq<char>>> {
        Seq::new(self.requests@.len(), |i: int| self.requests@[i].json())
    }

    /// The body of the call: the array of requests under `requests`.
    pub open spec fn json(&self) -> Option<Seq<char>> {
        match all_some(self.items()) {
            Some(items) => json_object(seq![("requests"@, brackets(items))]),
            None => None,
        }
    }

    /// Writes the body of the call.
    pub fn to_json(&self) -> (r: Result<String, PDLError>)
        ensures
            serialized(self.json(), r),
    {
        let mut items: Vec<String> = Vec::new();
        let mut i: usize = 0;
        while i < self.requests.len()
            invariant
                i <= self.requests.len(),
                items.len() == i,
                forall|k: int|
                    #![trigger self.items()[k]]
                    #![trigger items[k]]
                    0 <= k < i ==> self.items()[k] == Some(items[k]@),
            decreases self.requests.len() - i,
        {
            match self.requests[i].to_json() {
                Ok(text) => {
                    items.push(text);
                },
                Err(e) => {
                    assert(self.items()[i as int] is None);
                    return Err(e);
                },
            }
            i += 1;
        }
        assert(items.deep_view() =~= all_some(self.items())->0);
        let mut members: Vec<(String, String)> = Vec::new();
        members.push((String::from_str("requests"), brackets_string(&items)));
        assert(members.deep_view() =~= seq![("requests"@, brackets(items.deep_view()))]);
        object_string(&members)
    }
}

/// A request to normalise the name of a company.
#[derive(Clone, Debug)]
pub struct CleanCompanyParams {
    /// The name of the company.
    pub name: Option<String>,
    /// A website the company uses.
    pub website: Option<String>,
    /// A social profile of the company.
    pub profile: Option<String>,
}

impl Default for CleanCompanyParams {
    fn default() -> (r: Self)
        ensures
            r.name is None,
            r.website is None,
            r.profile is None,
    {
        CleanCompanyParams { name: None, website: None, profile: None }
    }
}

impl CleanCompanyParams {
    /// The name, the website or the profile is given.
    pub open spec fn valid(&self) -> bool {
        self.name is Some || self.website is Some || self.profile is Some
    }

    /// Checks the value before anything is sent.
    pub fn validate(&self) -> (r: Result<(), PDLError>)
        ensures
            r == verdict(self.valid()),
    {
        if self.name.is_none() && self.website.is_none() && self.profile.is_none() {
            return Err(PDLError::ValidationError);
        }
        Ok(())
    }

    /// The places of the group, in the order of declaration.
    pub open spec fn slots(&self) -> Seq<Slot> {
        seq![
            text_slot("name"@, self.name),
            text_slot("website"@, self.website),
            text_slot("profile"@, self.profile),
        ]
    }

    /// The fields that go on the wire.
    pub open spec fn wire(&self) -> WireFields {
        present(self.slots())
    }

    /// Collects the fields that are set, in the order of declaration.
    pub fn fields(&self) -> (r: Vec<Field>)
        ensures
            r.deep_view() == self.wire(),
    {
        let mut b = FieldBuilder::new();
        b.text("name", &self.name);
        b.text("website", &self.website);
        b.text("profile", &self.profile);
        assert(b.slots() =~= self.slots());
        b.finish()
    }
}

} // verus!
