//! Parameter groups that several endpoints share.

use crate::client::{verdict, verdict_of, PDLError};
use crate::wire::{
    bool_slot, extend, int_slot, join, join_strings, present, text_slot, Field, FieldBuilder,
    Slot, WireFields,
};
use vstd::prelude::*;

verus! {

/// Options that shape the output of any request.
#[derive(Clone, Debug)]
pub struct BaseParams {
    /// Whether the output should have human-readable indentation.
    pub pretty: Option<bool>,
    /// The number of matched records to return, between 1 and 1000.
    pub size: Option<i32>,
}

impl Default for BaseParams {
    fn default() -> (r: Self)
        ensures
            r.pretty is None,
            r.size is None,
    {
        BaseParams { pretty: None, size: None }
    }
}

impl BaseParams {
    /// The places of the group, in the order of declaration.
    pub open spec fn slots(&self) -> Seq<Slot> {
        seq![bool_slot("pretty"@, self.pretty), int_slot("size"@, self.size)]
    }

    /// The fields that go on the wire.
    pub open spec fn wire(&self) -> WireFields {
        present(self.slots())
    }

    /// Collects the fields that are set, in the order of declaration.
    pub fn fields(&self) -> (r: Vec<Field>)
        ensures
            r.deep_view() == self.wire(),
    {
        let mut b = FieldBuilder::new();
        b.flag("pretty", &self.pretty);
        b.number("size", &self.size);
        assert(b.slots() =~= self.slots());
        b.finish()
    }
}

/// Controls on the quality and shape of a match.
#[derive(Clone, Debug)]
pub struct AdditionalParams {
    /// The minimum likelihood score a response must have to return a 200.
    pub min_likelihood: Option<i32>,
    /// The fields and data points a response must have to return a 200.
    pub required: Option<String>,
    /// Whether to titlecase the data of a 200 response.
    pub titlecase: Option<bool>,
    /// A comma-separated list of the fields that the response should include.
    pub data_include: Option<String>,
    /// Whether to report, beside the data, which queried fields were matched.
    pub include_if_matched: Option<bool>,
}

impl Default for AdditionalParams {
    fn default() -> (r: Self)
        ensures
            r.min_likelihood is None,
            r.required is None,
            r.titlecase is None,
            r.data_include is None,
            r.include_if_matched is None,
    {
        AdditionalParams {
            min_likelihood: None,
            required: None,
            titlecase: None,
            data_include: None,
            include_if_matched: None,
        }
    }
}

impl AdditionalParams {
    /// The places of the group, in the order of declaration.
    pub open spec fn slots(&self) -> Seq<Slot> {
        seq![
            int_slot("min_likelihood"@, self.min_likelihood),
            text_slot("required"@, self.required),
            bool_slot("titlecase"@, self.titlecase),
            text_slot("data_include"@, self.data_include),
            bool_slot("include_if_matched"@, self.include_if_matched),
        ]
    }

    /// The fields that go on the wire.
    pub open spec fn wire(&self) -> WireFields {
        present(self.slots())
    }

    /// Collects the fields that are set, in the order of declaration.
    pub fn fields(&self) -> (r: Vec<Field>)
        ensures
            r.deep_view() == self.wire(),
    {
        let mut b = FieldBuilder::new();
        b.number("min_likelihood", &self.min_likelihood);
        b.text("required", &self.required);
        b.flag("titlecase", &self.titlecase);
        b.text("data_include", &self.data_include);
        b.flag("include_if_matched", &self.include_if_matched);
        assert(b.slots() =~= self.slots());
        b.finish()
    }
}

/// The fields of an optional group of output options: none where the group
/// is absent.
pub open spec fn base_wire(base: Option<BaseParams>) -> WireFields {
    match base {
        Some(group) => group.wire(),
        None => Seq::empty(),
    }
}

/// The fields of an optional group of match controls: none where the group
/// is absent.
pub open spec fn additional_wire(additional: Option<AdditionalParams>) -> WireFields {
    match additional {
        Some(group) => group.wire(),
        None => Seq::empty(),
    }
}

/// Collects the fields of an optional group of output options.
pub fn base_fields(base: &Option<BaseParams>) -> (r: Vec<Field>)
    ensures
        r.deep_view() == base_wire(*base),
{
    match base {
        Some(group) => group.fields(),
        None => {
            let out: Vec<Field> = Vec::new();
            assert(out.deep_view() =~= base_wire(*base));
            out
        },
    }
}

/// Collects the fields of an optional group of match controls.
pub fn additional_fields(additional: &Option<AdditionalParams>) -> (r: Vec<Field>)
    ensures
        r.deep_view() == additional_wire(*additional),
{
    match additional {
        Some(group) => group.fields(),
        None => {
            let out: Vec<Field> = Vec::new();
            assert(out.deep_view() =~= additional_wire(*additional));
            out
        },
    }
}

/// One request made of up to three groups: the groups' fields side by side,
/// all at one level.
pub open spec fn flattened(
    base: Option<BaseParams>,
    group: WireFields,
    additional: Option<AdditionalParams>,
) -> WireFields {
    base_wire(base) + group + additional_wire(additional)
}

/// Flattening keeps every field of every group, each as a field of the one
/// request: the output options come first, the resource's own fields follow,
/// the match controls come last, and nothing stands inside anything else.
pub proof fn lemma_flattened_is_flat(
    base: Option<BaseParams>,
    group: WireFields,
    additional: Option<AdditionalParams>,
)
    ensures
        flattened(base, group, additional).len() == base_wire(base).len() + group.len()
            + additional_wire(additional).len(),
        forall|i: int|
            0 <= i < base_wire(base).len() ==> flattened(base, group, additional)[i]
                == #[trigger] base_wire(base)[i],
        forall|i: int|
            0 <= i < group.len() ==> flattened(base, group, additional)[base_wire(base).len() + i]
                == #[trigger] group[i],
        forall|i: int|
            0 <= i < additional_wire(additional).len() ==> flattened(
                base,
                group,
                additional,
            )[base_wire(base).len() + group.len() + i] == #[trigger] additional_wire(additional)[i],
{
}

/// Lays the fields of up to three groups side by side: output options first,
/// then the resource's own fields, then the match controls.
pub fn flatten(
    base: &Option<BaseParams>,
    group: Vec<Field>,
    additional: &Option<AdditionalParams>,
) -> (r: Vec<Field>)
    ensures
        r.deep_view() == flattened(*base, group.deep_view(), *additional),
{
    let mut out = base_fields(base);
    extend(&mut out, group);
    extend(&mut out, additional_fields(additional));
    out
}

/// What a search looks for and where it resumes.
#[derive(Clone, Debug)]
pub struct SearchBaseParams {
    /// An Elasticsearch query, as text.
    pub query: Option<String>,
    /// A SQL query of the form `SELECT * FROM person WHERE ...`.
    pub sql: Option<String>,
    /// An offset for pagination.
    pub from: Option<i32>,
    /// The token that continues an earlier batch.
    pub scroll_token: Option<String>,
    /// The dataset category to return records from.
    pub dataset: Option<String>,
    /// Whether to titlecase the data of a 200 response.
    pub titlecase: Option<bool>,
}

impl Default for SearchBaseParams {
    fn default() -> (r: Self)
        ensures
            r.unset(),
    {
        SearchBaseParams {
            query: None,
            sql: None,
            from: None,
            scroll_token: None,
            dataset: None,
            titlecase: None,
        }
    }
}

impl SearchBaseParams {
    /// No field is given.
    pub open spec fn unset(&self) -> bool {
        &&& self.query is None
        &&& self.sql is None
        &&& self.from is None
        &&& self.scroll_token is None
        &&& self.dataset is None
        &&& self.titlecase is None
    }

    /// The places of the group, in the order of declaration.
    pub open spec fn slots(&self) -> Seq<Slot> {
        seq![
            text_slot("query"@, self.query),
            text_slot("sql"@, self.sql),
            int_slot("from"@, self.from),
            text_slot("scroll_token"@, self.scroll_token),
            text_slot("dataset"@, self.dataset),
            bool_slot("titlecase"@, self.titlecase),
        ]
    }

    /// The fields that go on the wire.
    pub open spec fn wire(&self) -> WireFields {
        present(self.slots())
    }

    /// Collects the fields that are set, in the order of declaration.
    pub fn fields(&self) -> (r: Vec<Field>)
        ensures
            r.deep_view() == self.wire(),
    {
        let mut b = FieldBuilder::new();
        b.text("query", &self.query);
        b.text("sql", &self.sql);
        b.number("from", &self.from);
        b.text("scroll_token", &self.scroll_token);
        b.text("dataset", &self.dataset);
        b.flag("titlecase", &self.titlecase);
        assert(b.slots() =~= self.slots());
        b.finish()
    }
}

/// A search for companies or for people.
#[derive(Clone, Debug)]
pub struct SearchParams {
    pub base_params: Option<BaseParams>,
    pub search_base_params: SearchBaseParams,
    pub additional_params: Option<AdditionalParams>,
}

impl Default for SearchParams {
    fn default() -> (r: Self)
        ensures
            r.base_params is None,
            r.search_base_params.unset(),
            r.additional_params is None,
    {
        SearchParams {
            base_params: None,
            search_base_params: SearchBaseParams::default(),
            additional_params: None,
        }
    }
}

impl SearchParams {
    /// A search carries a structured query or a SQL string, and not both.
    pub open spec fn valid(&self) -> bool {
        (self.search_base_params.query is Some) != (self.search_base_params.sql is Some)
    }

    /// Checks the value before anything is sent.
    pub fn validate(&self) -> (r: Result<(), PDLError>)
        ensures
            r == verdict(self.valid()),
    {
        verdict_of(
            self.search_base_params.query.is_some() != self.search_base_params.sql.is_some(),
        )
    }

    /// The fields that go on the wire.
    pub open spec fn wire(&self) -> WireFields {
        flattened(self.base_params, self.search_base_params.wire(), self.additional_params)
    }

    /// Collects the fields of the three groups at one level.
    pub fn fields(&self) -> (r: Vec<Field>)
        ensures
            r.deep_view() == self.wire(),
    {
        flatten(&self.base_params, self.search_base_params.fields(), &self.additional_params)
    }
}

/// The rule of a search: with a query and a SQL string it is not valid, with
/// neither it is not valid, with exactly one of them it is.
pub proof fn lemma_search_rule(params: SearchParams)
    ensures
        params.search_base_params.query is Some && params.search_base_params.sql is Some
            ==> !params.valid(),
        params.search_base_params.query is None && params.search_base_params.sql is None
            ==> !params.valid(),
        params.search_base_params.query is Some && params.search_base_params.sql is None
            ==> params.valid(),
        params.search_base_params.query is None && params.search_base_params.sql is Some
            ==> params.valid(),
{
}

/// The one text that stands for a list on the wire: its items joined with a
/// comma and a space. Nothing stands for an absent list.
pub fn param_serialize(vec: &Option<Vec<String>>) -> (r: Option<String>)
    ensures
        match *vec {
            Some(items) => r is Some && r->0@ == join(items.deep_view(), ", "@),
            None => r is None,
        },
{
    match vec {
        Some(data) => Some(join_strings(data, ", ")),
        None => None,
    }
}

} // verus!
