use vstd::prelude::*;

use crate::time::{rfc3339_of, format_rfc3339, Timestamp};

verus! {

/// One condition of a query's `filter` list.
pub enum Filter {
    /// A time-range condition on one field, inclusive on both ends. The
    /// bounds are held as their RFC 3339 text.
    Range { field: String, gte: String, lte: String },
    /// A filter taken verbatim from configuration: one JSON object, as text.
    /// The library never looks inside it.
    Raw { json: String },
}

/// The mathematical value of a `Filter`: the same shape over sequences of
/// characters.
pub enum FilterView {
    Range { field: Seq<char>, gte: Seq<char>, lte: Seq<char> },
    Raw { json: Seq<char> },
}

impl View for Filter {
    type V = FilterView;

    open spec fn view(&self) -> FilterView {
        match self {
            Filter::Range { field, gte, lte } => FilterView::Range {
                field: field@,
                gte: gte@,
                lte: lte@,
            },
            Filter::Raw { json } => FilterView::Raw { json: json@ },
        }
    }
}

impl Clone for Filter {
    fn clone(&self) -> (r: Self)
        ensures
            r@ == self@,
    {
        match self {
            Filter::Range { field, gte, lte } => Filter::Range {
                field: field.clone(),
                gte: gte.clone(),
                lte: lte.clone(),
            },
            Filter::Raw { json } => Filter::Raw { json: json.clone() },
        }
    }
}

impl PartialEq for Filter {
    fn eq(&self, other: &Filter) -> (r: bool) {
        match (self, other) {
            (
                Filter::Range { field, gte, lte },
                Filter::Range { field: field2, gte: gte2, lte: lte2 },
            ) => field.eq(field2) && gte.eq(gte2) && lte.eq(lte2),
            (Filter::Raw { json }, Filter::Raw { json: json2 }) => json.eq(json2),
            _ => false,
        }
    }
}

impl vstd::std_specs::cmp::PartialEqSpecImpl for Filter {
    open spec fn obeys_eq_spec() -> bool {
        true
    }

    open spec fn eq_spec(&self, other: &Filter) -> bool {
        self@ == other@
    }
}

/// The views of a sequence of filters.
pub open spec fn filters_view(s: Seq<Filter>) -> Seq<FilterView> {
    s.map_values(|f: Filter| f@)
}

/// `s` wrapped in double quotes.
pub open spec fn quoted(s: Seq<char>) -> Seq<char> {
    "\""@ + s + "\""@
}

/// The JSON text of one filter: a range filter renders as the object the
/// backend expects, a raw filter stands verbatim.
pub open spec fn spec_render_filter(f: FilterView) -> Seq<char> {
    match f {
        FilterView::Range { field, gte, lte } => "{\"range\":{"@ + quoted(field) + ":{\"gte\":"@
            + quoted(gte) + ",\"lte\":"@ + quoted(lte) + "}}}"@,
        FilterView::Raw { json } => json,
    }
}

fn push_quoted(s: &mut String, t: &str)
    ensures
        final(s)@ == old(s)@ + quoted(t@),
{
    s.append("\"");
    s.append(t);
    s.append("\"");
}

impl Filter {
    /// The JSON text of this filter.
    pub fn render(&self) -> (r: String)
        ensures
            r@ == spec_render_filter(self@),
    {
        match self {
            Filter::Range { field, gte, lte } => {
                let mut s = String::from_str("{\"range\":{");
                push_quoted(&mut s, field.as_str());
                s.append(":{\"gte\":");
                push_quoted(&mut s, gte.as_str());
                s.append(",\"lte\":");
                push_quoted(&mut s, lte.as_str());
                s.append("}}}");
                s
            },
            Filter::Raw { json } => json.clone(),
        }
    }
}

/// The range filter built for `field` and the bounds `from` and `to`: its
/// `gte` and `lte` values are the RFC 3339 texts of the two instants. Same
/// arguments, same value.
pub open spec fn spec_range_filter(field: Seq<char>, from: Timestamp, to: Timestamp) -> FilterView {
    FilterView::Range {
        field,
        gte: rfc3339_of(from.millis as int),
        lte: rfc3339_of(to.millis as int),
    }
}

/// Builds the time-range filter for one query window: both bounds inclusive,
/// encoded as RFC 3339 timestamps. `from == to` is not special-cased.
pub fn range_query(field: String, from: Timestamp, to: Timestamp) -> (r: Filter)
    requires
        from.wf(),
        to.wf(),
    ensures
        r@ == spec_range_filter(field@, from, to),
{
    Filter::Range { field, gte: format_rfc3339(from), lte: format_rfc3339(to) }
}

/// Building a range filter is pure: two filters built from the same field
/// and the same bounds are the same value, and render to the same text.
pub proof fn lemma_range_filter_deterministic(
    a: Filter,
    b: Filter,
    field: Seq<char>,
    from: Timestamp,
    to: Timestamp,
)
    requires
        a@ == spec_range_filter(field, from, to),
        b@ == spec_range_filter(field, from, to),
    ensures
        a@ == b@,
        spec_render_filter(a@) == spec_render_filter(b@),
{
}

/// Appends one filter to a copy of `base`. `base` itself is never touched:
/// the result is a fresh sequence, so filter lists of two windows never share
/// backing storage.
pub fn add_filter(base: &Vec<Filter>, additional: Filter) -> (r: Vec<Filter>)
    ensures
        filters_view(r@) == filters_view(base@).push(additional@),
{
    let mut new_filters = base.clone();
    proof {
        assert(filters_view(new_filters@) =~= filters_view(base@));
    }
    new_filters.push(additional);
    proof {
        assert(filters_view(new_filters@) =~= filters_view(base@).push(additional@));
    }
    new_filters
}

/// The views of an optional path segment.
pub open spec fn spec_opt_str(o: Option<String>) -> Option<Seq<char>> {
    match o {
        Some(s) => Some(s@),
        None => None,
    }
}

/// The URL path of a query: the index, the collection type when one is set,
/// and the endpoint suffix, separated by slashes.
pub open spec fn spec_endpoint_path(
    index: Seq<char>,
    doc_type: Option<Seq<char>>,
    suffix: Seq<char>,
) -> Seq<char> {
    match doc_type {
        Some(d) => index + "/"@ + d + "/"@ + suffix,
        None => index + "/"@ + suffix,
    }
}

fn build_path(index: &String, doc_type: &Option<String>, suffix: &str) -> (r: String)
    ensures
        r@ == spec_endpoint_path(index@, spec_opt_str(*doc_type), suffix@),
{
    let mut s = index.clone();
    s.append("/");
    match doc_type {
        Some(d) => {
            s.append(d.as_str());
            s.append("/");
        },
        None => {},
    }
    s.append(suffix);
    s
}

/// The character of one decimal digit.
pub open spec fn spec_digit_char(d: int) -> char {
    if d == 0 {
        '0'
    } else if d == 1 {
        '1'
    } else if d == 2 {
        '2'
    } else if d == 3 {
        '3'
    } else if d == 4 {
        '4'
    } else if d == 5 {
        '5'
    } else if d == 6 {
        '6'
    } else if d == 7 {
        '7'
    } else if d == 8 {
        '8'
    } else {
        '9'
    }
}

/// The decimal text of a non-negative number, without leading zeros.
pub open spec fn spec_decimal(n: int) -> Seq<char>
    recommends
        0 <= n,
    decreases n,
{
    if n < 10 {
        seq![spec_digit_char(n)]
    } else {
        spec_decimal(n / 10) + seq![spec_digit_char(n % 10)]
    }
}

fn push_digit(s: &mut String, d: u32)
    requires
        d < 10,
    ensures
        final(s)@ == old(s)@ + seq![spec_digit_char(d as int)],
{
    proof {
        reveal_strlit("0");
        reveal_strlit("1");
        reveal_strlit("2");
        reveal_strlit("3");
        reveal_strlit("4");
        reveal_strlit("5");
        reveal_strlit("6");
        reveal_strlit("7");
        reveal_strlit("8");
        reveal_strlit("9");
    }
    match d {
        0 => s.append("0"),
        1 => s.append("1"),
        2 => s.append("2"),
        3 => s.append("3"),
        4 => s.append("4"),
        5 => s.append("5"),
        6 => s.append("6"),
        7 => s.append("7"),
        8 => s.append("8"),
        _ => s.append("9"),
    }
}

fn push_decimal(s: &mut String, n: u32)
    ensures
        final(s)@ == old(s)@ + spec_decimal(n as int),
    decreases n,
{
    if n >= 10 {
        push_decimal(s, n / 10);
    }
    push_digit(s, n % 10);
}

/// The filter list rendered as JSON array elements: each filter's text, with
/// commas in between.
pub open spec fn spec_join_filters(fs: Seq<FilterView>) -> Seq<char>
    decreases fs.len(),
{
    if fs.len() == 0 {
        Seq::empty()
    } else if fs.len() == 1 {
        spec_render_filter(fs[0])
    } else {
        spec_join_filters(fs.drop_last()) + ","@ + spec_render_filter(fs.last())
    }
}

fn push_filters(s: &mut String, filters: &Vec<Filter>)
    ensures
        final(s)@ == old(s)@ + spec_join_filters(filters_view(filters@)),
{
    let ghost s0 = s@;
    let mut i: usize = 0;
    while i < filters.len()
        invariant
            i <= filters.len(),
            s@ == s0 + spec_join_filters(filters_view(filters@).take(i as int)),
        decreases filters.len() - i,
    {
        if i > 0 {
            s.append(",");
        }
        let rendered = filters[i].render();
        s.append(rendered.as_str());
        proof {
            let fv = filters_view(filters@);
            assert(fv.take(i as int + 1).drop_last() =~= fv.take(i as int));
            assert(fv.take(i as int + 1).last() == fv[i as int]);
            assert(s@ =~= s0 + spec_join_filters(fv.take(i as int + 1)));
        }
        i += 1;
    }
    proof {
        assert(filters_view(filters@).take(filters@.len() as int) =~= filters_view(filters@));
    }
}

/// The request body of a scalar count query.
pub open spec fn spec_count_payload(filters: Seq<FilterView>) -> Seq<char> {
    "{\"query\":{\"bool\":{\"filter\":["@ + spec_join_filters(filters) + "]}}}"@
}

/// The request body of a grouped terms query: no hits, the same filtered
/// query, and a terms aggregation over `key` bounded to `count` buckets.
pub open spec fn spec_terms_payload(
    filters: Seq<FilterView>,
    key: Seq<char>,
    count: int,
) -> Seq<char> {
    "{\"size\":0,\"query\":{\"bool\":{\"filter\":["@ + spec_join_filters(filters)
        + "]}},\"aggregations\":{\"group_by_key\":{\"terms\":{\"field\":"@ + quoted(key)
        + ",\"count\":"@ + spec_decimal(count) + "}}}}"@
}

/// One query shape the backend understands: a URL path and a JSON body,
/// with the response type it answers with.
pub trait Query {
    type Response;

    /// The path this query is posted to.
    spec fn spec_path(&self) -> Seq<char>;

    /// The body this query posts.
    spec fn spec_payload(&self) -> Seq<char>;

    /// The URL path, relative to the backend's base endpoint.
    fn path(&self) -> (r: String)
        ensures
            r@ == self.spec_path(),
    ;

    /// The JSON body.
    fn payload(&self) -> (r: String)
        ensures
            r@ == self.spec_payload(),
    ;
}

/// Asks how many documents match the filters; answered with a single count.
pub struct CountQuery {
    pub index: String,
    pub doc_type: Option<String>,
    pub filters: Vec<Filter>,
}

/// The answer to a `CountQuery`.
pub struct CountQueryResponse {
    pub count: u64,
}

impl Query for CountQuery {
    type Response = CountQueryResponse;

    open spec fn spec_path(&self) -> Seq<char> {
        spec_endpoint_path(self.index@, spec_opt_str(self.doc_type), "_count"@)
    }

    open spec fn spec_payload(&self) -> Seq<char> {
        spec_count_payload(filters_view(self.filters@))
    }

    fn path(&self) -> (r: String) {
        build_path(&self.index, &self.doc_type, "_count")
    }

    fn payload(&self) -> (r: String) {
        let mut s = String::from_str("{\"query\":{\"bool\":{\"filter\":[");
        push_filters(&mut s, &self.filters);
        s.append("]}}}");
        s
    }
}

/// Asks for per-group document counts: the matching documents, grouped by
/// `key`, reported as the top `count` buckets.
pub struct TermsCountQuery {
    pub index: String,
    pub doc_type: Option<String>,
    pub filters: Vec<Filter>,
    pub key: String,
    pub count: u32,
}

/// One group of a terms aggregation: its key and how many documents fell in.
pub struct Buckets {
    pub key: String,
    pub doc_count: u64,
}

/// The aggregation result: the top buckets, with the backend's error-budget
/// metadata, which is carried but not acted on.
pub struct GroupByKey {
    pub doc_count_error_upper_bound: i64,
    pub sum_other_doc_count: i64,
    pub buckets: Vec<Buckets>,
}

pub struct Aggregations {
    pub group_by_key: GroupByKey,
}

/// The answer to a `TermsCountQuery`.
pub struct TermsCountQueryResponse {
    pub aggregations: Aggregations,
}

impl Query for TermsCountQuery {
    type Response = TermsCountQueryResponse;

    open spec fn spec_path(&self) -> Seq<char> {
        spec_endpoint_path(self.index@, spec_opt_str(self.doc_type), "_search"@)
    }

    open spec fn spec_payload(&self) -> Seq<char> {
        spec_terms_payload(filters_view(self.filters@), self.key@, self.count as int)
    }

    fn path(&self) -> (r: String) {
        build_path(&self.index, &self.doc_type, "_search")
    }

    fn payload(&self) -> (r: String) {
        let mut s = String::from_str("{\"size\":0,\"query\":{\"bool\":{\"filter\":[");
        push_filters(&mut s, &self.filters);
        s.append("]}},\"aggregations\":{\"group_by_key\":{\"terms\":{\"field\":");
        push_quoted(&mut s, self.key.as_str());
        s.append(",\"count\":");
        push_decimal(&mut s, self.count);
        s.append("}}}}");
        s
    }
}

} // verus!
