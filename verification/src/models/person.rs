//! Parameters of the person endpoints.

use crate::client::{serialized, verdict, verdict_of, PDLError};
use crate::json::{
    all_some, brackets, brackets_string, fields_object, fields_object_string, json_object,
    json_quoted, json_values, object_string, quote, to_json_values,
};
use crate::models::common::{
    additional_fields, additional_wire, base_fields, base_wire, flatten, flattened,
    AdditionalParams, BaseParams,
};
use crate::models::metadata::PersonMetadata;
use crate::wire::{
    distinct_slots, entries, lemma_slot_on_wire, list_slot, present, slot_fields, text_slot,
    Field, FieldBuilder, Slot, WireFields,
};
use vstd::prelude::*;

verus! {

/// What identifies a person. Every field is optional; a list holds
/// alternatives and goes out as one text.
#[derive(Clone, Debug)]
pub struct PersonParams {
    pub pdl_id: Option<Vec<String>>,
    pub name: Option<Vec<String>>,
    pub first_name: Option<Vec<String>>,
    pub last_name: Option<Vec<String>>,
    pub middle_name: Option<Vec<String>>,
    pub location: Option<Vec<String>>,
    pub street_address: Option<String>,
    pub locality: Option<String>,
    pub region: Option<String>,
    pub country: Option<String>,
    pub postal_code: Option<Vec<String>>,
    pub company: Option<Vec<String>>,
    pub school: Option<Vec<String>>,
    pub phone: Option<Vec<String>>,
    pub email: Option<Vec<String>>,
    pub email_hash: Option<Vec<String>>,
    pub profile: Option<Vec<String>>,
    pub lid: Option<Vec<String>>,
    pub birth_date: Option<Vec<String>>,
}

/// What a request that names a person without an identifier needs beside the
/// name. Whether school, location and postal code count when they are given,
/// when they are missing, or not at all is an open product question, so the
/// choice is the caller's.
#[derive(Clone, Copy, Debug, PartialEq, Eq)]
pub enum IdentityRule {
    /// A name needs a locality, a region or a company beside it.
    Signal,
    /// As `Signal`; a school, a location or a postal code that is given
    /// serves as well, and so does a LinkedIn id on its own.
    DetailPresent,
    /// As `Signal`; a school, a location or a postal code that is missing
    /// serves as well, and so does a missing LinkedIn id on its own.
    DetailAbsent,
}

impl Default for IdentityRule {
    fn default() -> (r: Self)
        ensures
            r == IdentityRule::Signal,
    {
        IdentityRule::Signal
    }
}

impl Default for PersonParams {
    fn default() -> (r: Self)
        ensures
            r.unset(),
    {
        PersonParams {
            pdl_id: None,
            name: None,
            first_name: None,
            last_name: None,
            middle_name: None,
            location: None,
            street_address: None,
            locality: None,
            region: None,
            country: None,
            postal_code: None,
            company: None,
            school: None,
            phone: None,
            email: None,
            email_hash: None,
            profile: None,
            lid: None,
            birth_date: None,
        }
    }
}

impl PersonParams {
    /// No field is given.
    pub open spec fn unset(&self) -> bool {
        &&& self.pdl_id is None
        &&& self.name is None
        &&& self.first_name is None
        &&& self.last_name is None
        &&& self.middle_name is None
        &&& self.location is None
        &&& self.street_address is None
        &&& self.locality is None
        &&& self.region is None
        &&& self.country is None
        &&& self.postal_code is None
        &&& self.company is None
        &&& self.school is None
        &&& self.phone is None
        &&& self.email is None
        &&& self.email_hash is None
        &&& self.profile is None
        &&& self.lid is None
        &&& self.birth_date is None
    }

    /// One of the fields that identify a person on their own is given.
    pub open spec fn has_identifier(&self) -> bool {
        ||| self.pdl_id is Some
        ||| self.profile is Some
        ||| self.email is Some
        ||| self.phone is Some
        ||| self.email_hash is Some
    }

    /// A full name, or a first and a last name, is given.
    pub open spec fn has_name(&self) -> bool {
        (self.first_name is Some && self.last_name is Some) || self.name is Some
    }

    /// A locality, a region or a company is given.
    pub open spec fn has_signal(&self) -> bool {
        self.locality is Some || self.region is Some || self.company is Some
    }

    /// A school, a location or a postal code is given.
    pub open spec fn has_detail(&self) -> bool {
        self.school is Some || self.location is Some || self.postal_code is Some
    }

    /// A school, a location or a postal code is missing.
    pub open spec fn lacks_detail(&self) -> bool {
        self.school is None || self.location is None || self.postal_code is None
    }

    /// Whether the group identifies a person well enough under the rule.
    pub open spec fn valid_under(&self, rule: IdentityRule) -> bool {
        match rule {
            IdentityRule::Signal => self.has_identifier() || (self.has_name()
                && self.has_signal()),
            IdentityRule::DetailPresent => self.has_identifier() || self.lid is Some || (
            self.has_name() && (self.has_signal() || self.has_detail())),
            IdentityRule::DetailAbsent => self.has_identifier() || self.lid is None || (
            self.has_name() && (self.has_signal() || self.lacks_detail())),
        }
    }

    /// An identifier is given, or a name with a locality, a region or a
    /// company beside it.
    pub open spec fn valid(&self) -> bool {
        self.valid_under(IdentityRule::Signal)
    }

    /// Checks the group under the rule.
    pub fn validate_with(&self, rule: IdentityRule) -> (r: Result<(), PDLError>)
        ensures
            r == verdict(self.valid_under(rule)),
    {
        if self.pdl_id.is_some() {
            return Ok(());
        }
        if self.profile.is_some() {
            return Ok(());
        }
        if self.email.is_some() {
            return Ok(());
        }
        if self.phone.is_some() {
            return Ok(());
        }
        if self.email_hash.is_some() {
            return Ok(());
        }
        let named = (self.first_name.is_some() && self.last_name.is_some())
            || self.name.is_some();
        let signal = self.locality.is_some() || self.region.is_some() || self.company.is_some();
        match rule {
            IdentityRule::Signal => verdict_of(named && signal),
            IdentityRule::DetailPresent => {
                let detail = self.school.is_some() || self.location.is_some()
                    || self.postal_code.is_some();
                verdict_of(self.lid.is_some() || (named && (signal || detail)))
            },
            IdentityRule::DetailAbsent => {
                let missing = self.school.is_none() || self.location.is_none()
                    || self.postal_code.is_none();
                verdict_of(self.lid.is_none() || (named && (signal || missing)))
            },
        }
    }

    /// Checks the value before anything is sent.
    pub fn validate(&self) -> (r: Result<(), PDLError>)
        ensures
            r == verdict(self.valid()),
    {
        self.validate_with(IdentityRule::Signal)
    }

    /// The places of the group, in the order of declaration.
    pub open spec fn slots(&self) -> Seq<Slot> {
        seq![
            list_slot("pdl_id"@, self.pdl_id),
            list_slot("name"@, self.name),
            list_slot("first_name"@, self.first_name),
            list_slot("last_name"@, self.last_name),
            list_slot("middle_name"@, self.middle_name),
            list_slot("location"@, self.location),
            text_slot("street_address"@, self.street_address),
            text_slot("locality"@, self.locality),
            text_slot("region"@, self.region),
            text_slot("country"@, self.country),
            list_slot("postal_code"@, self.postal_code),
            list_slot("company"@, self.company),
            list_slot("school"@, self.school),
            list_slot("phone"@, self.phone),
            list_slot("email"@, self.email),
            list_slot("email_hash"@, self.email_hash),
            list_slot("profile"@, self.profile),
            list_slot("lid"@, self.lid),
            list_slot("birth_date"@, self.birth_date),
        ]
    }

    /// The fields that go on the wire.
    pub open spec fn wire(&self) -> WireFields {
        present(self.slots())
    }

    /// Collects the fields that are set, in the order of declaration.
    pub fn fields(&self) -> (r: Vec<Field>)
        ensures
            r.deep_view() == self.wire(),
    {
        let mut b = FieldBuilder::new();
        b.list("pdl_id", &self.pdl_id);
        b.list("name", &self.name);
        b.list("first_name", &self.first_name);
        b.list("last_name", &self.last_name);
        b.list("middle_name", &self.middle_name);
        b.list("location", &self.location);
        b.text("street_address", &self.street_address);
        b.text("locality", &self.locality);
        b.text("region", &self.region);
        b.text("country", &self.country);
        b.list("postal_code", &self.postal_code);
        b.list("company", &self.company);
        b.list("school", &self.school);
        b.list("phone", &self.phone);
        b.list("email", &self.email);
        b.list("email_hash", &self.email_hash);
        b.list("profile", &self.profile);
        b.list("lid", &self.lid);
        b.list("birth_date", &self.birth_date);
        assert(b.slots() =~= self.slots());
        b.finish()
    }
}

/// No two fields of a person share a key.
pub proof fn lemma_person_keys_distinct(person: PersonParams)
    ensures
        distinct_slots(person.slots()),
{
    reveal_strlit("pdl_id");
    reveal_strlit("name");
    reveal_strlit("first_name");
    reveal_strlit("last_name");
    reveal_strlit("middle_name");
    reveal_strlit("location");
    reveal_strlit("street_address");
    reveal_strlit("locality");
    reveal_strlit("region");
    reveal_strlit("country");
    reveal_strlit("postal_code");
    reveal_strlit("company");
    reveal_strlit("school");
    reveal_strlit("phone");
    reveal_strlit("email");
    reveal_strlit("email_hash");
    reveal_strlit("profile");
    reveal_strlit("lid");
    reveal_strlit("birth_date");
    reveal(distinct_slots);
    // Keys differ in their length,
    assert("pdl_id"@.len() == 6);
    assert("name"@.len() == 4);
    assert("first_name"@.len() == 10);
    assert("last_name"@.len() == 9);
    assert("middle_name"@.len() == 11);
    assert("location"@.len() == 8);
    assert("street_address"@.len() == 14);
    assert("locality"@.len() == 8);
    assert("region"@.len() == 6);
    assert("country"@.len() == 7);
    assert("postal_code"@.len() == 11);
    assert("company"@.len() == 7);
    assert("school"@.len() == 6);
    assert("phone"@.len() == 5);
    assert("email"@.len() == 5);
    assert("email_hash"@.len() == 10);
    assert("profile"@.len() == 7);
    assert("lid"@.len() == 3);
    assert("birth_date"@.len() == 10);
    // and keys of one length differ in a letter.
    assert("pdl_id"@[0] == 'p' && "region"@[0] == 'r' && "school"@[0] == 's');
    assert("first_name"@[0] == 'f' && "email_hash"@[0] == 'e' && "birth_date"@[0] == 'b');
    assert("middle_name"@[0] == 'm' && "postal_code"@[0] == 'p');
    assert("location"@[4] == 't' && "locality"@[4] == 'l');
    assert("country"@[2] == 'u' && "company"@[2] == 'm' && "profile"@[2] == 'o');
    assert("phone"@[0] == 'p' && "email"@[0] == 'e');
    let slots = person.slots();
    assert forall|i: int, j: int| 0 <= i < j < slots.len() implies (#[trigger] slots[i]).0 != (
    #[trigger] slots[j]).0 by {
        assert(i == 0 || i == 1 || i == 2 || i == 3 || i == 4 || i == 5 || i == 6 || i == 7 || i
            == 8 || i == 9 || i == 10 || i == 11 || i == 12 || i == 13 || i == 14 || i == 15 || i
            == 16 || i == 17);
        assert(j == 1 || j == 2 || j == 3 || j == 4 || j == 5 || j == 6 || j == 7 || j == 8 || j
            == 9 || j == 10 || j == 11 || j == 12 || j == 13 || j == 14 || j == 15 || j == 16 || j
            == 17 || j == 18);
    }
}

/// Every list of a person goes out under its own key as one text, its items
/// joined by a comma and a space in their order; a list that is absent
/// leaves no field and no key.
pub proof fn lemma_person_lists_on_wire(person: PersonParams)
    ensures
        entries(person.wire(), "pdl_id"@) == slot_fields(list_slot("pdl_id"@, person.pdl_id)),
        entries(person.wire(), "name"@) == slot_fields(list_slot("name"@, person.name)),
        entries(person.wire(), "first_name"@) == slot_fields(
            list_slot("first_name"@, person.first_name),
        ),
        entries(person.wire(), "last_name"@) == slot_fields(
            list_slot("last_name"@, person.last_name),
        ),
        entries(person.wire(), "middle_name"@) == slot_fields(
            list_slot("middle_name"@, person.middle_name),
        ),
        entries(person.wire(), "location"@) == slot_fields(
            list_slot("location"@, person.location),
        ),
        entries(person.wire(), "postal_code"@) == slot_fields(
            list_slot("postal_code"@, person.postal_code),
        ),
        entries(person.wire(), "company"@) == slot_fields(list_slot("company"@, person.company)),
        entries(person.wire(), "school"@) == slot_fields(list_slot("school"@, person.school)),
        entries(person.wire(), "phone"@) == slot_fields(list_slot("phone"@, person.phone)),
        entries(person.wire(), "email"@) == slot_fields(list_slot("email"@, person.email)),
        entries(person.wire(), "email_hash"@) == slot_fields(
            list_slot("email_hash"@, person.email_hash),
        ),
        entries(person.wire(), "profile"@) == slot_fields(list_slot("profile"@, person.profile)),
        entries(person.wire(), "lid"@) == slot_fields(list_slot("lid"@, person.lid)),
        entries(person.wire(), "birth_date"@) == slot_fields(
            list_slot("birth_date"@, person.birth_date),
        ),
{
    let slots = person.slots();
    lemma_person_keys_distinct(person);
    lemma_slot_on_wire(slots, 0);
    lemma_slot_on_wire(slots, 1);
    lemma_slot_on_wire(slots, 2);
    lemma_slot_on_wire(slots, 3);
    lemma_slot_on_wire(slots, 4);
    lemma_slot_on_wire(slots, 5);
    lemma_slot_on_wire(slots, 10);
    lemma_slot_on_wire(slots, 11);
    lemma_slot_on_wire(slots, 12);
    lemma_slot_on_wire(slots, 13);
    lemma_slot_on_wire(slots, 14);
    lemma_slot_on_wire(slots, 15);
    lemma_slot_on_wire(slots, 16);
    lemma_slot_on_wire(slots, 17);
    lemma_slot_on_wire(slots, 18);
}

/// A request to enrich one person.
#[derive(Clone, Debug)]
pub struct EnrichPersonParams {
    pub base_params: Option<BaseParams>,
    pub person_params: PersonParams,
    pub additional_params: Option<AdditionalParams>,
}

impl Default for EnrichPersonParams {
    fn default() -> (r: Self)
        ensures
            r.base_params is None,
            r.person_params.unset(),
            r.additional_params is None,
    {
        EnrichPersonParams {
            base_params: None,
            person_params: PersonParams::default(),
            additional_params: None,
        }
    }
}

impl EnrichPersonParams {
    /// Whether the value may be sent under the rule.
    pub open spec fn valid_under(&self, rule: IdentityRule) -> bool {
        self.person_params.valid_under(rule)
    }

    /// Whether the value may be sent.
    pub open spec fn valid(&self) -> bool {
        self.person_params.valid()
    }

    /// Checks the request under the rule.
    pub fn validate_with(&self, rule: IdentityRule) -> (r: Result<(), PDLError>)
        ensures
            r == verdict(self.valid_under(rule)),
    {
        self.person_params.validate_with(rule)
    }

    /// Checks the value before anything is sent.
    pub fn validate(&self) -> (r: Result<(), PDLError>)
        ensures
            r == verdict(self.valid()),
    {
        self.person_params.validate()
    }

    /// The fields that go on the wire.
    pub open spec fn wire(&self) -> WireFields {
        flattened(self.base_params, self.person_params.wire(), self.additional_params)
    }

    /// Collects the fields of the three groups at one level.
    pub fn fields(&self) -> (r: Vec<Field>)
        ensures
            r.deep_view() == self.wire(),
    {
        flatten(&self.base_params, self.person_params.fields(), &self.additional_params)
    }
}

/// A request for the candidates that match one person.
#[derive(Clone, Debug)]
pub struct IdentifyPersonParams {
    pub base_params: Option<BaseParams>,
    pub person_params: PersonParams,
    pub additional_params: Option<AdditionalParams>,
}

impl Default for IdentifyPersonParams {
    fn default() -> (r: Self)
        ensures
            r.base_params is None,
            r.person_params.unset(),
            r.additional_params is None,
    {
        IdentifyPersonParams {
            base_params: None,
            person_params: PersonParams::default(),
            additional_params: None,
        }
    }
}

impl IdentifyPersonParams {
    /// Whether the value may be sent under the rule.
    pub open spec fn valid_under(&self, rule: IdentityRule) -> bool {
        self.person_params.valid_under(rule)
    }

    /// Whether the value may be sent.
    pub open spec fn valid(&self) -> bool {
        self.person_params.valid()
    }

    /// Checks the request under the rule.
    pub fn validate_with(&self, rule: IdentityRule) -> (r: Result<(), PDLError>)
        ensures
            r == verdict(self.valid_under(rule)),
    {
        self.person_params.validate_with(rule)
    }

    /// Checks the value before anything is sent.
    pub fn validate(&self) -> (r: Result<(), PDLError>)
        ensures
            r == verdict(self.valid()),
    {
        self.person_params.validate()
    }

    /// The fields that go on the wire.
    pub open spec fn wire(&self) -> WireFields {
        flattened(self.base_params, self.person_params.wire(), self.additional_params)
    }

    /// Collects the fields of the three groups at one level.
    pub fn fields(&self) -> (r: Vec<Field>)
        ensures
            r.deep_view() == self.wire(),
    {
        flatten(&self.base_params, self.person_params.fields(), &self.additional_params)
    }
}

/// A request for the record of one person by its identifier. The identifier
/// becomes part of the path and is no field of the query.
#[derive(Clone, Debug)]
pub struct RetrievePersonParams {
    pub base_params: Option<BaseParams>,
    /// The identifier of the person.
    pub person_id: String,
}

impl RetrievePersonParams {
    /// The identifier is not empty.
    pub open spec fn valid(&self) -> bool {
        self.person_id@.len() > 0
    }

    /// Checks the value before anything is sent.
    pub fn validate(&self) -> (r: Result<(), PDLError>)
        ensures
            r == verdict(self.valid()),
    {
        verdict_of(!self.person_id.as_str().is_empty())
    }

    /// The fields that go on the wire.
    pub open spec fn wire(&self) -> WireFields {
        base_wire(self.base_params)
    }

    /// Collects the fields of the query.
    pub fn fields(&self) -> (r: Vec<Field>)
        ensures
            r.deep_view() == self.wire(),
    {
        base_fields(&self.base_params)
    }
}

/// One request of a bulk enrichment, with the metadata that comes back with
/// its answer.
#[derive(Clone, Debug)]
pub struct BulkEnrichSinglePersonParams {
    pub params: PersonParams,
    pub metadata: Option<PersonMetadata>,
}

impl BulkEnrichSinglePersonParams {
    /// Whether the value may be sent under the rule.
    pub open spec fn valid_under(&self, rule: IdentityRule) -> bool {
        self.params.valid_under(rule)
    }

    /// Whether the value may be sent.
    pub open spec fn valid(&self) -> bool {
        self.params.valid()
    }

    /// Checks the request under the rule.
    pub fn validate_with(&self, rule: IdentityRule) -> (r: Result<(), PDLError>)
        ensures
            r == verdict(self.valid_under(rule)),
    {
        self.params.validate_with(rule)
    }

    /// Checks the value before anything is sent.
    pub fn validate(&self) -> (r: Result<(), PDLError>)
        ensures
            r == verdict(self.valid()),
    {
        self.params.validate()
    }

    /// The members of the request's object: the person's fields as one flat
    /// object under `params`, then the metadata, where there is any, as an
    /// object under `metadata`.
    pub open spec fn members(&self) -> Option<Seq<(Seq<char>, Seq<char>)>> {
        match fields_object(self.params.wire()) {
            Some(params) => match self.metadata {
                Some(metadata) => match fields_object(metadata.wire()) {
                    Some(text) => Some(seq![("params"@, params), ("metadata"@, text)]),
                    None => None,
                },
                None => Some(seq![("params"@, params)]),
            },
            None => None,
        }
    }

    /// The request as JSON.
    pub open spec fn json(&self) -> Option<Seq<char>> {
        match self.members() {
            Some(members) => json_object(members),
            None => None,
        }
    }

    /// Writes the request as JSON.
    pub fn to_json(&self) -> (r: Result<String, PDLError>)
        ensures
            serialized(self.json(), r),
    {
        let mut members: Vec<(String, String)> = Vec::new();
        let person = self.params.fields();
        match fields_object_string(&person) {
            Ok(text) => {
                members.push((String::from_str("params"), text));
            },
            Err(e) => {
                return Err(e);
            },
        }
        match &self.metadata {
            Some(metadata) => {
                let entries = metadata.fields();
                match fields_object_string(&entries) {
                    Ok(text) => {
                        members.push((String::from_str("metadata"), text));
                    },
                    Err(e) => {
                        return Err(e);
                    },
                }
            },
            None => {},
        }
        assert(members.deep_view() =~= self.members()->0);
        object_string(&members)
    }
}

/// One or more enrichment requests sent as one.
#[derive(Clone, Debug)]
pub struct BulkEnrichPersonParams {
    /// A condition on the fields that every answer must have.
    pub requires: Option<String>,
    pub requests: Vec<BulkEnrichSinglePersonParams>,
}

impl BulkEnrichPersonParams {
    /// There is a request, and every request is valid under the rule.
    pub open spec fn valid_under(&self, rule: IdentityRule) -> bool {
        &&& self.requests.len() > 0
        &&& forall|i: int|
            0 <= i < self.requests.len() ==> (#[trigger] self.requests[i]).valid_under(rule)
    }

    /// There is a request, and every request is valid.
    pub open spec fn valid(&self) -> bool {
        self.valid_under(IdentityRule::Signal)
    }

    /// Checks the envelope under the rule: an empty one is refused, and so is
    /// one that holds a request the rule refuses.
    pub fn validate_with(&self, rule: IdentityRule) -> (r: Result<(), PDLError>)
        ensures
            r == verdict(self.valid_under(rule)),
    {
        if self.requests.len() == 0 {
            return Err(PDLError::ValidationError);
        }
        let mut i: usize = 0;
        while i < self.requests.len()
            invariant
                i <= self.requests.len(),
                forall|k: int| 0 <= k < i ==> (#[trigger] self.requests[k]).valid_under(rule),
            decreases self.requests.len() - i,
        {
            match self.requests[i].validate_with(rule) {
                Ok(()) => {},
                Err(e) => {
                    assert(!self.requests[i as int].valid_under(rule));
                    return Err(e);
                },
            }
            i += 1;
        }
        Ok(())
    }

    /// Checks the value before anything is sent.
    pub fn validate(&self) -> (r: Result<(), PDLError>)
        ensures
            r == verdict(self.valid()),
    {
        self.validate_with(IdentityRule::Signal)
    }

    /// The requests as JSON, one text for each.
    pub open spec fn items(&self) -> Seq<Option<Seq<char>>> {
        Seq::new(self.requests@.len(), |i: int| self.requests@[i].json())
    }

    /// The members of the envelope: the condition, where there is one, under
    /// `requires`, then the array of requests under `requests`.
    pub open spec fn members(&self) -> Option<Seq<(Seq<char>, Seq<char>)>> {
        match all_some(self.items()) {
            Some(items) => match self.requires {
                Some(condition) => match json_quoted(condition@) {
                    Some(text) => Some(
                        seq![("requires"@, text), ("requests"@, brackets(items))],
                    ),
                    None => None,
                },
                None => Some(seq![("requests"@, brackets(items))]),
            },
            None => None,
        }
    }

    /// The body of the call.
    pub open spec fn json(&self) -> Option<Seq<char>> {
        match self.members() {
            Some(members) => json_object(members),
            None => None,
        }
    }

    /// Writes the body of the call.
    pub fn to_json(&self) -> (r: Result<String, PDLError>)
        ensures
            serialized(self.json(), r),
    {
        let mut items: Vec<String> = Vec::new();
        let mut i: usize = 0;
        while i < self.requests.len()
            invariant
                i <= self.requests.len(),
                items.len() == i,
                forall|k: int|
                    #![trigger self.items()[k]]
                    #![trigger items[k]]
                    0 <= k < i ==> self.items()[k] == Some(items[k]@),
            decreases self.requests.len() - i,
        {
            match self.requests[i].to_json() {
                Ok(text) => {
                    items.push(text);
                },
                Err(e) => {
                    assert(self.items()[i as int] is None);
                    return Err(e);
                },
            }
            i += 1;
        }
        assert(items.deep_view() =~= all_some(self.items())->0);
        let mut members: Vec<(String, String)> = Vec::new();
        match &self.requires {
            Some(condition) => match quote(condition.as_str()) {
                Ok(text) => {
                    members.push((String::from_str("requires"), text));
                },
                Err(e) => {
                    return Err(e);
                },
            },
            None => {},
        }
        members.push((String::from_str("requests"), brackets_string(&items)));
        assert(members.deep_view() =~= self.members()->0);
        object_string(&members)
    }
}

/// One request of a bulk retrieval, with the metadata that comes back with
/// its answer.
#[derive(Clone, Debug)]
pub struct BulkRetrieveSinglePersonParams {
    /// The identifier of the person.
    pub id: String,
    pub metadata: Option<PersonMetadata>,
}

impl BulkRetrieveSinglePersonParams {
    /// The identifier is not empty.
    pub open spec fn valid(&self) -> bool {
        self.id@.len() > 0
    }

    /// Checks the value before anything is sent.
    pub fn validate(&self) -> (r: Result<(), PDLError>)
        ensures
            r == verdict(self.valid()),
    {
        verdict_of(!self.id.as_str().is_empty())
    }

    /// The members of the request's object: the identifier under `id`, then
    /// the metadata, where there is any, as an object under `metadata`.
    pub open spec fn members(&self) -> Option<Seq<(Seq<char>, Seq<char>)>> {
        match json_quoted(self.id@) {
            Some(id) => match self.metadata {
                Some(metadata) => match fields_object(metadata.wire()) {
                    Some(text) => Some(seq![("id"@, id), ("metadata"@, text)]),
                    None => None,
                },
                None => Some(seq![("id"@, id)]),
            },
            None => None,
        }
    }

    /// The request as JSON.
    pub open spec fn json(&self) -> Option<Seq<char>> {
        match self.members() {
            Some(members) => json_object(members),
            None => None,
        }
    }

    /// Writes the request as JSON.
    pub fn to_json(&self) -> (r: Result<String, PDLError>)
        ensures
            serialized(self.json(), r),
    {
        let mut members: Vec<(String, String)> = Vec::new();
        match quote(self.id.as_str()) {
            Ok(text) => {
                members.push((String::from_str("id"), text));
            },
            Err(e) => {
                return Err(e);
            },
        }
        match &self.metadata {
            Some(metadata) => {
                let entries = metadata.fields();
                match fields_object_string(&entries) {
                    Ok(text) => {
                        members.push((String::from_str("metadata"), text));
                    },
                    Err(e) => {
                        return Err(e);
                    },
                }
            },
            None => {},
        }
        assert(members.deep_view() =~= self.members()->0);
        object_string(&members)
    }
}

/// The most requests that one bulk retrieval may carry.
pub const BULK_RETRIEVE_LIMIT: usize = 100;

/// Up to a hundred retrieval requests sent as one.
#[derive(Clone, Debug)]
pub struct BulkRetrievePersonParams {
    pub base_params: Option<BaseParams>,
    pub requests: Vec<BulkRetrieveSinglePersonParams>,
    pub additional_params: Option<AdditionalParams>,
}

impl Default for BulkRetrievePersonParams {
    fn default() -> (r: Self)
        ensures
            r.base_params is None,
            r.requests@.len() == 0,
            r.additional_params is None,
    {
        BulkRetrievePersonParams {
            base_params: None,
            requests: Vec::new(),
            additional_params: None,
        }
    }
}

impl BulkRetrievePersonParams {
    /// There is a request, there are no more than the limit allows, and every
    /// one of them is valid.
    pub open spec fn valid(&self) -> bool {
        &&& 0 < self.requests.len() <= BULK_RETRIEVE_LIMIT
        &&& forall|i: int| 0 <= i < self.requests.len() ==> (#[trigger] self.requests[i]).valid()
    }

    /// Checks the value before anything is sent.
    pub fn validate(&self) -> (r: Result<(), PDLError>)
        ensures
            r == verdict(self.valid()),
    {
        if self.requests.len() == 0 {
            return Err(PDLError::ValidationError);
        }
        if self.requests.len() > BULK_RETRIEVE_LIMIT {
            return Err(PDLError::ValidationError);
        }
        let mut i: usize = 0;
        while i < self.requests.len()
            invariant
                i <= self.requests.len(),
                forall|k: int| 0 <= k < i ==> (#[trigger] self.requests[k]).valid(),
            decreases self.requests.len() - i,
        {
            match self.requests[i].validate() {
                Ok(()) => {},
                Err(e) => {
                    assert(!self.requests[i as int].valid());
                    return Err(e);
                },
            }
            i += 1;
        }
        Ok(())
    }

    /// The requests as JSON, one text for each.
    pub open spec fn items(&self) -> Seq<Option<Seq<char>>> {
        Seq::new(self.requests@.len(), |i: int| self.requests@[i].json())
    }

    /// The members of the envelope, all at one level: the output options,
    /// the array of requests under `requests`, then the match controls.
    pub open spec fn members(&self) -> Option<Seq<(Seq<char>, Seq<char>)>> {
        match (
            json_values(base_wire(self.base_params)),
            all_some(self.items()),
            json_values(additional_wire(self.additional_params)),
        ) {
            (Some(base), Some(items), Some(additional)) => Some(
                base + seq![("requests"@, brackets(items))] + additional,
            ),
            _ => None,
        }
    }

    /// The body of the call.
    pub open spec fn json(&self) -> Option<Seq<char>> {
        match self.members() {
            Some(members) => json_object(members),
            None => None,
        }
    }

    /// Writes the body of the call.
    pub fn to_json(&self) -> (r: Result<String, PDLError>)
        ensures
            serialized(self.json(), r),
    {
        let mut items: Vec<String> = Vec::new();
        let mut i: usize = 0;
        while i < self.requests.len()
            invariant
                i <= self.requests.len(),
                items.len() == i,
                forall|k: int|
                    #![trigger self.items()[k]]
                    #![trigger items[k]]
                    0 <= k < i ==> self.items()[k] == Some(items[k]@),
            decreases self.requests.len() - i,
        {
            match self.requests[i].to_json() {
                Ok(text) => {
                    items.push(text);
                },
                Err(e) => {
                    assert(self.items()[i as int] is None);
                    return Err(e);
                },
            }
            i += 1;
        }
        assert(items.deep_view() =~= all_some(self.items())->0);
        let base = base_fields(&self.base_params);
        let mut members = match to_json_values(&base) {
            Ok(members) => members,
            Err(e) => {
                return Err(e);
            },
        };
        let ghost first = members.deep_view();
        members.push((String::from_str("requests"), brackets_string(&items)));
        let additional = additional_fields(&self.additional_params);
        let mut last = match to_json_values(&additional) {
            Ok(members) => members,
            Err(e) => {
                return Err(e);
            },
        };
        let ghost second = last.deep_view();
        members.append(&mut last);
        assert(members.deep_view() =~= first + seq![
            ("requests"@, brackets(items.deep_view())),
        ] + second);
        object_string(&members)
    }
}

/// An envelope of enrichment requests fails closed: without a request it is
/// not valid under any rule, and with requests it is valid exactly when every
/// one of them is.
pub proof fn lemma_bulk_enrich_needs_a_request(params: BulkEnrichPersonParams, rule: IdentityRule)
    ensures
        params.requests.len() == 0 ==> !params.valid_under(rule),
        params.requests.len() > 0 ==> (params.valid_under(rule) <==> forall|i: int|
            0 <= i < params.requests.len() ==> (#[trigger] params.requests[i]).params.valid_under(
                rule,
            )),
{
}

/// The bound of a bulk retrieval: no request at all is not valid, more than
/// a hundred are not valid, and one to a hundred are valid exactly when every
/// identifier among them is not empty.
pub proof fn lemma_bulk_retrieve_bound(params: BulkRetrievePersonParams)
    ensures
        params.requests.len() == 0 ==> !params.valid(),
        params.requests.len() > 100 ==> !params.valid(),
        0 < params.requests.len() <= 100 ==> (params.valid() <==> forall|i: int|
            0 <= i < params.requests.len() ==> (#[trigger] params.requests[i]).id@.len() > 0),
{
}

} // verus!
