//! Optional query parameters: which are sent, and as what text.

use vstd::prelude::*;
use vstd::string::StringExecFns;
use crate::models::{
    ListElectrictyConsumptionQuery, ListGasConsumptionQuery, ListGridSupplyPointsQuery,
    ListUnitRatesQuery, ProductQuery, RetrieveProductQuery,
};
use crate::text::{decimal, decimal_text};

verus! {

/// The value of one query parameter.
#[derive(Clone, Copy)]
pub enum QueryValue<'a> {
    Text(&'a str),
    Flag(bool),
    Number(u32),
}

/// A declared query parameter: its name, and its value when present.
#[derive(Clone, Copy)]
pub struct QueryField<'a> {
    pub name: &'a str,
    pub value: Option<QueryValue<'a>>,
}

/// The natural text of a value: strings verbatim, booleans as `true` or
/// `false`, integers in decimal.
pub open spec fn rendered(v: QueryValue) -> Seq<char> {
    match v {
        QueryValue::Text(s) => s@,
        QueryValue::Flag(b) => if b { "true"@ } else { "false"@ },
        QueryValue::Number(n) => decimal(n as nat),
    }
}

/// The pair that a field contributes, if it is present.
pub open spec fn field_pair(f: QueryField) -> Option<(Seq<char>, Seq<char>)> {
    match f.value {
        Some(v) => Some((f.name@, rendered(v))),
        None => None,
    }
}

/// The query pairs of a field list: one for each present field, in the
/// declared order.
pub open spec fn present_pairs(fields: Seq<QueryField>) -> Seq<(Seq<char>, Seq<char>)> {
    fields.filter_map(|f: QueryField| field_pair(f))
}

/// The text view of a list of pairs.
pub open spec fn pairs_view(v: Seq<(String, String)>) -> Seq<(Seq<char>, Seq<char>)> {
    v.map_values(|p: (String, String)| (p.0@, p.1@))
}

/// The natural text of a value.
pub fn render(v: QueryValue) -> (r: String)
    ensures
        r@ == rendered(v),
{
    match v {
        QueryValue::Text(s) => s.to_owned(),
        QueryValue::Flag(b) => if b {
            String::from_str("true")
        } else {
            String::from_str("false")
        },
        QueryValue::Number(n) => decimal_text(n),
    }
}

/// The `(name, value)` pairs to send: present fields only, in order.
pub fn query_pairs(fields: &Vec<QueryField>) -> (r: Vec<(String, String)>)
    ensures
        pairs_view(r@) == present_pairs(fields@),
{
    let mut r: Vec<(String, String)> = Vec::new();
    let mut i: usize = 0;
    while i < fields.len()
        invariant
            i <= fields@.len(),
            pairs_view(r@) =~= present_pairs(fields@.take(i as int)),
        decreases fields@.len() - i,
    {
        proof {
            lemma_present_pairs_step(fields@, i as int);
        }
        let field = fields[i];
        match field.value {
            Some(v) => {
                let name = field.name.to_owned();
                let text = render(v);
                let ghost before = r@;
                r.push((name, text));
                proof {
                    assert(pairs_view(r@) =~= pairs_view(before).push((name@, text@)));
                }
            },
            None => {},
        }
        i = i + 1;
    }
    proof {
        assert(fields@.take(fields@.len() as int) =~= fields@);
    }
    r
}

proof fn lemma_present_pairs_step(fields: Seq<QueryField>, i: int)
    requires
        0 <= i < fields.len(),
    ensures
        present_pairs(fields.take(i + 1)) == present_pairs(fields.take(i)) + match field_pair(fields[i]) {
            Some(p) => seq![p],
            None => Seq::empty(),
        },
{
    let f = |f: QueryField| field_pair(f);
    fields.lemma_filter_map_take_succ(f, i);
}

/// A field list with no present field yields no pairs.
pub proof fn lemma_absent_fields_yield_nothing(fields: Seq<QueryField>)
    requires
        forall|i: int| 0 <= i < fields.len() ==> (#[trigger] fields[i]).value is None,
    ensures
        present_pairs(fields) == Seq::<(Seq<char>, Seq<char>)>::empty(),
    decreases fields.len(),
{
    if fields.len() > 0 {
        let rest = fields.drop_last();
        assert forall|i: int| 0 <= i < rest.len() implies (#[trigger] rest[i]).value is None by {
            assert(rest[i] == fields[i]);
        }
        lemma_absent_fields_yield_nothing(rest);
        assert(present_pairs(rest) == rest.filter_map(|f: QueryField| field_pair(f)));
    }
}

/// The pairs are exactly the present fields: each present field yields its
/// name with the natural text of its value, every pair comes from a present
/// field, and, where names are distinct, the name of an absent field is
/// never sent.
pub proof fn lemma_pairs_are_present_fields(fields: Seq<QueryField>)
    ensures
        forall|k: int| 0 <= k < fields.len() && (#[trigger] fields[k]).value is Some
            ==> present_pairs(fields).contains((fields[k].name@, rendered(fields[k].value->Some_0))),
        forall|j: int| 0 <= j < present_pairs(fields).len()
            ==> exists|k: int| 0 <= k < fields.len() && field_pair(#[trigger] fields[k]) == Some(#[trigger] present_pairs(fields)[j]),
        (forall|a: int, b: int| 0 <= a < b < fields.len() ==> (#[trigger] fields[a]).name@ != (#[trigger] fields[b]).name@)
            ==> forall|k: int, j: int| 0 <= k < fields.len() && (#[trigger] fields[k]).value is None && 0 <= j < present_pairs(fields).len()
                ==> (#[trigger] present_pairs(fields)[j]).0 != fields[k].name@,
{
    let f = |f: QueryField| field_pair(f);
    assert forall|k: int| 0 <= k < fields.len() && (#[trigger] fields[k]).value is Some
        implies present_pairs(fields).contains((fields[k].name@, rendered(fields[k].value->Some_0))) by {
        lemma_present_field_kept(fields, k);
    }
    assert forall|j: int| 0 <= j < present_pairs(fields).len()
        implies exists|k: int| 0 <= k < fields.len() && field_pair(#[trigger] fields[k]) == Some(#[trigger] present_pairs(fields)[j]) by {
        let p = present_pairs(fields)[j];
        assert(fields.filter_map(f).contains(p));
        fields.lemma_filter_map_contains(f, p);
        let t = choose|t: QueryField| #[trigger] fields.contains(t) && f(t) == Some(p);
        let k = choose|k: int| 0 <= k < fields.len() && fields[k] == t;
        assert(field_pair(fields[k]) == Some(p));
    }
}

proof fn lemma_present_field_kept(fields: Seq<QueryField>, k: int)
    requires
        0 <= k < fields.len(),
        fields[k].value is Some,
    ensures
        present_pairs(fields).contains((fields[k].name@, rendered(fields[k].value->Some_0))),
    decreases fields.len(),
{
    let f = |f: QueryField| field_pair(f);
    let p = (fields[k].name@, rendered(fields[k].value->Some_0));
    let rest = fields.drop_last();
    assert(present_pairs(fields) == fields.filter_map(f));
    assert(present_pairs(rest) == rest.filter_map(f));
    if k == fields.len() - 1 {
        assert(fields.filter_map(f) == rest.filter_map(f) + seq![p]);
        assert((rest.filter_map(f) + seq![p])[rest.filter_map(f).len() as int] == p);
    } else {
        assert(rest[k] == fields[k]);
        lemma_present_field_kept(rest, k);
        let i = choose|i: int| 0 <= i < present_pairs(rest).len() && present_pairs(rest)[i] == p;
        match f(fields.last()) {
            Some(s) => {
                assert((rest.filter_map(f) + seq![s])[i] == p);
            },
            None => {},
        }
    }
}

/// A text parameter.
pub open spec fn text_field<'a>(name: &'a str, v: Option<&'a str>) -> QueryField<'a> {
    QueryField { name, value: match v { Some(s) => Some(QueryValue::Text(s)), None => None } }
}

/// A boolean parameter.
pub open spec fn flag_field<'a>(name: &'a str, v: Option<&'a bool>) -> QueryField<'a> {
    QueryField { name, value: match v { Some(b) => Some(QueryValue::Flag(*b)), None => None } }
}

/// An integer parameter.
pub open spec fn number_field<'a>(name: &'a str, v: Option<u32>) -> QueryField<'a> {
    QueryField { name, value: match v { Some(n) => Some(QueryValue::Number(n)), None => None } }
}

fn text_param<'a>(name: &'a str, v: Option<&'a str>) -> (r: QueryField<'a>)
    ensures
        r == text_field(name, v),
{
    QueryField { name, value: match v { Some(s) => Some(QueryValue::Text(s)), None => None } }
}

fn flag_param<'a>(name: &'a str, v: Option<&'a bool>) -> (r: QueryField<'a>)
    ensures
        r == flag_field(name, v),
{
    QueryField { name, value: match v { Some(b) => Some(QueryValue::Flag(*b)), None => None } }
}

fn number_param<'a>(name: &'a str, v: Option<u32>) -> (r: QueryField<'a>)
    ensures
        r == number_field(name, v),
{
    QueryField { name, value: match v { Some(n) => Some(QueryValue::Number(n)), None => None } }
}

impl<'a> ProductQuery<'a> {
    /// The declared parameters, in order.
    pub open spec fn spec_fields(&self) -> Seq<QueryField<'a>> {
        seq![
            text_field("available_at", self.available_at),
            text_field("brand", self.brand),
            flag_field("is_business", self.is_business),
            flag_field("is_green", self.is_green),
            flag_field("is_historical", self.is_historical),
            flag_field("is_tracker", self.is_tracker),
            flag_field("is_variable", self.is_variable),
            number_field("page", self.page),
        ]
    }

    pub fn fields(&self) -> (r: Vec<QueryField<'a>>)
        ensures
            r@ == self.spec_fields(),
    {
        let mut r: Vec<QueryField<'a>> = Vec::new();
        r.push(text_param("available_at", self.available_at));
        r.push(text_param("brand", self.brand));
        r.push(flag_param("is_business", self.is_business));
        r.push(flag_param("is_green", self.is_green));
        r.push(flag_param("is_historical", self.is_historical));
        r.push(flag_param("is_tracker", self.is_tracker));
        r.push(flag_param("is_variable", self.is_variable));
        r.push(number_param("page", self.page));
        proof {
            assert(r@ =~= self.spec_fields());
        }
        r
    }

    /// The query pairs to send.
    pub fn query_pairs(&self) -> (r: Vec<(String, String)>)
        ensures
            pairs_view(r@) == present_pairs(self.spec_fields()),
    {
        query_pairs(&self.fields())
    }
}

impl<'a> RetrieveProductQuery<'a> {
    /// The declared parameters, in order.
    pub open spec fn spec_fields(&self) -> Seq<QueryField<'a>> {
        seq![text_field("tariffs_active_at", self.tariffs_active_at)]
    }

    pub fn fields(&self) -> (r: Vec<QueryField<'a>>)
        ensures
            r@ == self.spec_fields(),
    {
        let mut r: Vec<QueryField<'a>> = Vec::new();
        r.push(text_param("tariffs_active_at", self.tariffs_active_at));
        proof {
            assert(r@ =~= self.spec_fields());
        }
        r
    }

    /// The query pairs to send.
    pub fn query_pairs(&self) -> (r: Vec<(String, String)>)
        ensures
            pairs_view(r@) == present_pairs(self.spec_fields()),
    {
        query_pairs(&self.fields())
    }
}

impl<'a> ListUnitRatesQuery<'a> {
    /// The declared parameters, in order.
    pub open spec fn spec_fields(&self) -> Seq<QueryField<'a>> {
        seq![
            text_field("period_from", self.period_from),
            text_field("period_to", self.period_to),
            number_field("page", self.page),
            number_field("page_size", self.page_size),
        ]
    }

    pub fn fields(&self) -> (r: Vec<QueryField<'a>>)
        ensures
            r@ == self.spec_fields(),
    {
        let mut r: Vec<QueryField<'a>> = Vec::new();
        r.push(text_param("period_from", self.period_from));
        r.push(text_param("period_to", self.period_to));
        r.push(number_param("page", self.page));
        r.push(number_param("page_size", self.page_size));
        proof {
            assert(r@ =~= self.spec_fields());
        }
        r
    }

    /// The query pairs to send.
    pub fn query_pairs(&self) -> (r: Vec<(String, String)>)
        ensures
            pairs_view(r@) == present_pairs(self.spec_fields()),
    {
        query_pairs(&self.fields())
    }
}

impl<'a> ListElectrictyConsumptionQuery<'a> {
    /// The declared parameters, in order.
    pub open spec fn spec_fields(&self) -> Seq<QueryField<'a>> {
        seq![
            text_field("group_by", self.group_by),
            text_field("period_from", self.period_from),
            text_field("period_to", self.period_to),
            text_field("order_by", self.order_by),
            number_field("page", self.page),
            number_field("page_size", self.page_size),
        ]
    }

    pub fn fields(&self) -> (r: Vec<QueryField<'a>>)
        ensures
            r@ == self.spec_fields(),
    {
        let mut r: Vec<QueryField<'a>> = Vec::new();
        r.push(text_param("group_by", self.group_by));
        r.push(text_param("period_from", self.period_from));
        r.push(text_param("period_to", self.period_to));
        r.push(text_param("order_by", self.order_by));
        r.push(number_param("page", self.page));
        r.push(number_param("page_size", self.page_size));
        proof {
            assert(r@ =~= self.spec_fields());
        }
        r
    }

    /// The query pairs to send.
    pub fn query_pairs(&self) -> (r: Vec<(String, String)>)
        ensures
            pairs_view(r@) == present_pairs(self.spec_fields()),
    {
        query_pairs(&self.fields())
    }
}

impl<'a> ListGasConsumptionQuery<'a> {
    /// The declared parameters, in order.
    pub open spec fn spec_fields(&self) -> Seq<QueryField<'a>> {
        seq![
            text_field("group_by", self.group_by),
            text_field("period_from", self.period_from),
            text_field("period_to", self.period_to),
            text_field("order_by", self.order_by),
            number_field("page", self.page),
            number_field("page_size", self.page_size),
        ]
    }

    pub fn fields(&self) -> (r: Vec<QueryField<'a>>)
        ensures
            r@ == self.spec_fields(),
    {
        let mut r: Vec<QueryField<'a>> = Vec::new();
        r.push(text_param("group_by", self.group_by));
        r.push(text_param("period_from", self.period_from));
        r.push(text_param("period_to", self.period_to));
        r.push(text_param("order_by", self.order_by));
        r.push(number_param("page", self.page));
        r.push(number_param("page_size", self.page_size));
        proof {
            assert(r@ =~= self.spec_fields());
        }
        r
    }

    /// The query pairs to send.
    pub fn query_pairs(&self) -> (r: Vec<(String, String)>)
        ensures
            pairs_view(r@) == present_pairs(self.spec_fields()),
    {
        query_pairs(&self.fields())
    }
}

impl<'a> ListGridSupplyPointsQuery<'a> {
    /// The declared parameters, in order.
    pub open spec fn spec_fields(&self) -> Seq<QueryField<'a>> {
        seq![text_field("postcode", self.postcode), number_field("page", self.page)]
    }

    pub fn fields(&self) -> (r: Vec<QueryField<'a>>)
        ensures
            r@ == self.spec_fields(),
    {
        let mut r: Vec<QueryField<'a>> = Vec::new();
        r.push(text_param("postcode", self.postcode));
        r.push(number_param("page", self.page));
        proof {
            assert(r@ =~= self.spec_fields());
        }
        r
    }

    /// The query pairs to send.
    pub fn query_pairs(&self) -> (r: Vec<(String, String)>)
        ensures
            pairs_view(r@) == present_pairs(self.spec_fields()),
    {
        query_pairs(&self.fields())
    }
}

/// With no filter set, a product query sends no parameters.
pub proof fn lemma_empty_product_query(q: ProductQuery)
    requires
        q.available_at is None,
        q.brand is None,
        q.is_business is None,
        q.is_green is None,
        q.is_historical is None,
        q.is_tracker is None,
        q.is_variable is None,
        q.page is None,
    ensures
        present_pairs(q.spec_fields()) == Seq::<(Seq<char>, Seq<char>)>::empty(),
{
    lemma_absent_fields_yield_nothing(q.spec_fields());
}

/// Without `tariffs_active_at`, a product lookup sends no parameters.
pub proof fn lemma_empty_retrieve_product_query(q: RetrieveProductQuery)
    requires
        q.tariffs_active_at is None,
    ensures
        present_pairs(q.spec_fields()) == Seq::<(Seq<char>, Seq<char>)>::empty(),
{
    lemma_absent_fields_yield_nothing(q.spec_fields());
}

/// With no window or page set, a charge list query sends no parameters.
pub proof fn lemma_empty_unit_rates_query(q: ListUnitRatesQuery)
    requires
        q.period_from is None,
        q.period_to is None,
        q.page is None,
        q.page_size is None,
    ensures
        present_pairs(q.spec_fields()) == Seq::<(Seq<char>, Seq<char>)>::empty(),
{
    lemma_absent_fields_yield_nothing(q.spec_fields());
}

/// With no option set, an electricity consumption query sends no parameters.
pub proof fn lemma_empty_electricity_consumption_query(q: ListElectrictyConsumptionQuery)
    requires
        q.group_by is None,
        q.period_from is None,
        q.period_to is None,
        q.order_by is None,
        q.page is None,
        q.page_size is None,
    ensures
        present_pairs(q.spec_fields()) == Seq::<(Seq<char>, Seq<char>)>::empty(),
{
    lemma_absent_fields_yield_nothing(q.spec_fields());
}

/// With no option set, a gas consumption query sends no parameters.
pub proof fn lemma_empty_gas_consumption_query(q: ListGasConsumptionQuery)
    requires
        q.group_by is None,
        q.period_from is None,
        q.period_to is None,
        q.order_by is None,
        q.page is None,
        q.page_size is None,
    ensures
        present_pairs(q.spec_fields()) == Seq::<(Seq<char>, Seq<char>)>::empty(),
{
    lemma_absent_fields_yield_nothing(q.spec_fields());
}

/// With no postcode or page set, a grid supply point query sends no
/// parameters.
pub proof fn lemma_empty_grid_supply_points_query(q: ListGridSupplyPointsQuery)
    requires
        q.postcode is None,
        q.page is None,
    ensures
        present_pairs(q.spec_fields()) == Seq::<(Seq<char>, Seq<char>)>::empty(),
{
    lemma_absent_fields_yield_nothing(q.spec_fields());
}

} // verus!
