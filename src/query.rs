//! OData query builder: accumulates query facets and renders them as a
//! query string in a fixed facet order.

use vstd::prelude::*;
use crate::encoding::{url_encode, url_encoded};
use crate::text::{
    decimal, decimal_string, join, join_strings, split_at_char, split_on, trim, trimmed, views, words,
    words_of,
};

verus! {

/// Sort order for `$orderby`.
#[derive(Debug, Clone, Copy, PartialEq, Eq, Structural)]
pub enum SortOrder {
    Asc,
    Desc,
}

/// The facets of a query as mathematical values.
pub struct QueryModel {
    pub filter: Option<Seq<char>>,
    pub select: Option<Seq<Seq<char>>>,
    pub expand: Option<Seq<Seq<char>>>,
    pub orderby: Option<Seq<(Seq<char>, SortOrder)>>,
    pub top: Option<u32>,
    pub skip: Option<u32>,
    pub count: bool,
    pub search: Option<Seq<char>>,
}

/// OData query builder for constructing query parameters.
#[derive(Debug)]
pub struct ODataQuery {
    filter: Option<String>,
    select: Option<Vec<String>>,
    expand: Option<Vec<String>>,
    orderby: Option<Vec<(String, SortOrder)>>,
    top: Option<u32>,
    skip: Option<u32>,
    count: bool,
    search: Option<String>,
}

/// The query with no facet set.
pub open spec fn empty_model() -> QueryModel {
    QueryModel {
        filter: None,
        select: None,
        expand: None,
        orderby: None,
        top: None,
        skip: None,
        count: false,
        search: None,
    }
}

/// The view of an optional list of strings.
pub open spec fn opt_views(o: Option<Vec<String>>) -> Option<Seq<Seq<char>>> {
    match o {
        Some(v) => Some(views(v@)),
        None => None,
    }
}

/// The view of an ordering entry.
pub open spec fn order_view(e: (String, SortOrder)) -> (Seq<char>, SortOrder) {
    (e.0@, e.1)
}

/// The text of a sort direction.
pub open spec fn direction(o: SortOrder) -> Seq<char> {
    match o {
        SortOrder::Asc => "asc"@,
        SortOrder::Desc => "desc"@,
    }
}

/// One `$orderby` entry: the field, a space, the direction.
pub open spec fn order_entry(e: (Seq<char>, SortOrder)) -> Seq<char> {
    e.0 + " "@ + direction(e.1)
}

/// The orderings already present, or none.
pub open spec fn orderings(q: QueryModel) -> Seq<(Seq<char>, SortOrder)> {
    match q.orderby {
        Some(o) => o,
        None => Seq::empty(),
    }
}

/// `p` with `o` appended when present.
pub open spec fn push_opt(p: Seq<Seq<char>>, o: Option<Seq<char>>) -> Seq<Seq<char>> {
    match o {
        Some(x) => p.push(x),
        None => p,
    }
}

/// The view of an optional string.
pub open spec fn opt_view(o: Option<String>) -> Option<Seq<char>> {
    match o {
        Some(s) => Some(s@),
        None => None,
    }
}

/// The `$filter` parameter, if set.
pub open spec fn filter_param(q: QueryModel) -> Option<Seq<char>> {
    match q.filter {
        Some(f) => Some("$filter="@ + url_encoded(f)),
        None => None,
    }
}

/// The `$select` parameter, if set.
pub open spec fn select_param(q: QueryModel) -> Option<Seq<char>> {
    match q.select {
        Some(s) => Some("$select="@ + join(s, ","@)),
        None => None,
    }
}

/// The `$expand` parameter, if set.
pub open spec fn expand_param(q: QueryModel) -> Option<Seq<char>> {
    match q.expand {
        Some(e) => Some("$expand="@ + join(e, ","@)),
        None => None,
    }
}

/// The `$orderby` parameter, if set: the entries in the order they were added.
pub open spec fn orderby_param(q: QueryModel) -> Option<Seq<char>> {
    match q.orderby {
        Some(o) => Some("$orderby="@ + join(o.map_values(|e| order_entry(e)), ","@)),
        None => None,
    }
}

/// The `$top` parameter, if set.
pub open spec fn top_param(q: QueryModel) -> Option<Seq<char>> {
    match q.top {
        Some(t) => Some("$top="@ + decimal(t as nat)),
        None => None,
    }
}

/// The `$skip` parameter, if set.
pub open spec fn skip_param(q: QueryModel) -> Option<Seq<char>> {
    match q.skip {
        Some(t) => Some("$skip="@ + decimal(t as nat)),
        None => None,
    }
}

/// The `$count` parameter, if set.
pub open spec fn count_param(q: QueryModel) -> Option<Seq<char>> {
    if q.count { Some("$count=true"@) } else { None }
}

/// The `$search` parameter, if set.
pub open spec fn search_param(q: QueryModel) -> Option<Seq<char>> {
    match q.search {
        Some(f) => Some("$search="@ + url_encoded(f)),
        None => None,
    }
}

/// The parameters of a query, in facet order: filter, select, expand,
/// orderby, top, skip, count, search.
pub open spec fn query_params(q: QueryModel) -> Seq<Seq<char>> {
    push_opt(push_opt(push_opt(push_opt(push_opt(push_opt(push_opt(push_opt(
        Seq::empty(), filter_param(q)), select_param(q)), expand_param(q)), orderby_param(q)),
        top_param(q)), skip_param(q)), count_param(q)), search_param(q))
}

/// The rendered query string: empty without parameters, else `?` and the
/// parameters joined by `&`.
pub open spec fn query_string(q: QueryModel) -> Seq<char> {
    if query_params(q).len() == 0 {
        Seq::empty()
    } else {
        "?"@ + join(query_params(q), "&"@)
    }
}

impl View for ODataQuery {
    type V = QueryModel;

    closed spec fn view(&self) -> QueryModel {
        QueryModel {
            filter: match self.filter {
                Some(f) => Some(f@),
                None => None,
            },
            select: opt_views(self.select),
            expand: opt_views(self.expand),
            orderby: match self.orderby {
                Some(o) => Some(o@.map_values(|e: (String, SortOrder)| order_view(e))),
                None => None,
            },
            top: self.top,
            skip: self.skip,
            count: self.count,
            search: match self.search {
                Some(s) => Some(s@),
                None => None,
            },
        }
    }
}

fn clone_text(o: &Option<String>) -> (r: Option<String>)
    ensures
        opt_view(r) == opt_view(*o),
{
    match o {
        Some(s) => Some(s.clone()),
        None => None,
    }
}

fn clone_list(o: &Option<Vec<String>>) -> (r: Option<Vec<String>>)
    ensures
        opt_views(r) == opt_views(*o),
{
    match o {
        Some(v) => {
            let mut out: Vec<String> = Vec::new();
            let mut i: usize = 0;
            while i < v.len()
                invariant
                    i <= v.len(),
                    views(out@) =~= views(v@).subrange(0, i as int),
                decreases v.len() - i,
            {
                let c = v[i].clone();
                let ghost before = out@;
                out.push(c);
                proof {
                    assert(views(out@) =~= views(before).push(c@));
                    assert(views(v@).subrange(0, i + 1) =~= views(v@).subrange(0, i as int).push(
                        v@[i as int]@,
                    ));
                }
                i = i + 1;
            }
            proof {
                assert(views(v@).subrange(0, v.len() as int) =~= views(v@));
            }
            Some(out)
        },
        None => None,
    }
}

fn clone_orders(o: &Vec<(String, SortOrder)>) -> (r: Vec<(String, SortOrder)>)
    ensures
        r@.map_values(|e: (String, SortOrder)| order_view(e)) == o@.map_values(
            |e: (String, SortOrder)| order_view(e),
        ),
{
    let mut out: Vec<(String, SortOrder)> = Vec::new();
    let mut i: usize = 0;
    while i < o.len()
        invariant
            i <= o.len(),
            out@.map_values(|e: (String, SortOrder)| order_view(e)) =~= o@.subrange(0, i as int).map_values(
                |e: (String, SortOrder)| order_view(e),
            ),
        decreases o.len() - i,
    {
        let c = o[i].0.clone();
        let ghost before = out@;
        out.push((c, o[i].1));
        proof {
            assert(out@.map_values(|e: (String, SortOrder)| order_view(e)) =~= before.map_values(
                |e: (String, SortOrder)| order_view(e),
            ).push((c@, o@[i as int].1)));
            assert(o@.subrange(0, i + 1) =~= o@.subrange(0, i as int).push(o@[i as int]));
            assert(o@.subrange(0, i + 1).map_values(|e: (String, SortOrder)| order_view(e)) =~= o@.subrange(
                0,
                i as int,
            ).map_values(|e: (String, SortOrder)| order_view(e)).push(order_view(o@[i as int])));
        }
        i = i + 1;
    }
    proof {
        assert(o@.subrange(0, o.len() as int) =~= o@);
    }
    out
}

impl Clone for ODataQuery {
    /// A copy with the same facets.
    fn clone(&self) -> (r: Self)
        ensures
            r@ == self@,
    {
        let orderby = match &self.orderby {
            Some(o) => Some(clone_orders(o)),
            None => None,
        };
        ODataQuery {
            filter: clone_text(&self.filter),
            select: clone_list(&self.select),
            expand: clone_list(&self.expand),
            orderby,
            top: self.top,
            skip: self.skip,
            count: self.count,
            search: clone_text(&self.search),
        }
    }
}

fn direction_text(o: SortOrder) -> (r: &'static str)
    ensures
        r@ == direction(o),
{
    match o {
        SortOrder::Asc => "asc",
        SortOrder::Desc => "desc",
    }
}

/// The `$orderby` parameter for the given entries.
fn render_orderby(o: &Vec<(String, SortOrder)>) -> (r: String)
    ensures
        r@ == "$orderby="@ + join(
            o@.map_values(|e: (String, SortOrder)| order_view(e)).map_values(|e| order_entry(e)),
            ","@,
        ),
{
    let mut entries: Vec<String> = Vec::new();
    let mut i: usize = 0;
    while i < o.len()
        invariant
            i <= o.len(),
            views(entries@) =~= o@.subrange(0, i as int).map_values(
                |e: (String, SortOrder)| order_entry(order_view(e)),
            ),
        decreases o.len() - i,
    {
        let entry = o[i].0.clone().concat(" ").concat(direction_text(o[i].1));
        let ghost before = views(entries@);
        entries.push(entry);
        proof {
            assert(o@.subrange(0, i + 1) =~= o@.subrange(0, i as int).push(o@[i as int]));
            assert(views(entries@) =~= before.push(entry@));
        }
        i = i + 1;
    }
    proof {
        assert(o@.subrange(0, o.len() as int) =~= o@);
        assert(views(entries@) =~= o@.map_values(|e: (String, SortOrder)| order_view(e)).map_values(
            |e| order_entry(e),
        ));
    }
    "$orderby=".to_owned().concat(join_strings(&entries, ",").as_str())
}

impl ODataQuery {
    /// Create a new empty query.
    pub fn new() -> (r: Self)
        ensures
            r@ == empty_model(),
    {
        ODataQuery {
            filter: None,
            select: None,
            expand: None,
            orderby: None,
            top: None,
            skip: None,
            count: false,
            search: None,
        }
    }

    /// Set the `$filter` expression.
    pub fn filter(self, filter: &str) -> (r: Self)
        ensures
            r@ == (QueryModel { filter: Some(filter@), ..self@ }),
    {
        ODataQuery { filter: Some(filter.to_owned()), ..self }
    }

    /// Set the `$select` fields.
    pub fn select(self, fields: Vec<String>) -> (r: Self)
        ensures
            r@ == (QueryModel { select: Some(views(fields@)), ..self@ }),
    {
        ODataQuery { select: Some(fields), ..self }
    }

    /// Set the `$expand` relations.
    pub fn expand(self, relations: Vec<String>) -> (r: Self)
        ensures
            r@ == (QueryModel { expand: Some(views(relations@)), ..self@ }),
    {
        ODataQuery { expand: Some(relations), ..self }
    }

    /// Append an `$orderby` entry after those already present.
    pub fn orderby(self, field: &str, order: SortOrder) -> (r: Self)
        ensures
            r@ == (QueryModel { orderby: Some(orderings(self@).push((field@, order))), ..self@ }),
    {
        let ghost prev = orderings(self@);
        let mut orders: Vec<(String, SortOrder)> = match self.orderby {
            Some(o) => o,
            None => Vec::new(),
        };
        let ghost before = orders@;
        proof {
            assert(before.map_values(|e: (String, SortOrder)| order_view(e)) =~= prev);
        }
        orders.push((field.to_owned(), order));
        proof {
            assert(orders@.map_values(|e: (String, SortOrder)| order_view(e)) =~= prev.push(
                (field@, order),
            ));
        }
        ODataQuery { orderby: Some(orders), ..self }
    }

    /// Set the `$top` limit.
    pub fn top(self, limit: u32) -> (r: Self)
        ensures
            r@ == (QueryModel { top: Some(limit), ..self@ }),
    {
        ODataQuery { top: Some(limit), ..self }
    }

    /// Set the `$skip` offset.
    pub fn skip(self, offset: u32) -> (r: Self)
        ensures
            r@ == (QueryModel { skip: Some(offset), ..self@ }),
    {
        ODataQuery { skip: Some(offset), ..self }
    }

    /// Ask for the total count with `$count=true`.
    pub fn count(self) -> (r: Self)
        ensures
            r@ == (QueryModel { count: true, ..self@ }),
    {
        ODataQuery { count: true, ..self }
    }

    /// Set the `$search` expression.
    pub fn search(self, search: &str) -> (r: Self)
        ensures
            r@ == (QueryModel { search: Some(search@), ..self@ }),
    {
        ODataQuery { search: Some(search.to_owned()), ..self }
    }

    /// Build the query string for a URL.
    pub fn to_query_string(&self) -> (r: String)
        ensures
            r@ == query_string(self@),
    {
        let mut params: Vec<String> = Vec::new();
        proof {
            assert(views(params@) =~= Seq::<Seq<char>>::empty());
        }
        push_param(&mut params, self.filter_text());
        push_param(&mut params, self.select_text());
        push_param(&mut params, self.expand_text());
        push_param(&mut params, self.orderby_text());
        push_param(&mut params, self.top_text());
        push_param(&mut params, self.skip_text());
        push_param(&mut params, self.count_text());
        push_param(&mut params, self.search_text());
        assert(views(params@) == query_params(self@));
        if params.len() == 0 {
            String::new()
        } else {
            "?".to_owned().concat(join_strings(&params, "&").as_str())
        }
    }

    fn filter_text(&self) -> (r: Option<String>)
        ensures
            opt_view(r) == filter_param(self@),
    {
        match &self.filter {
            Some(f) => Some("$filter=".to_owned().concat(url_encode(f.as_str()).as_str())),
            None => None,
        }
    }

    fn select_text(&self) -> (r: Option<String>)
        ensures
            opt_view(r) == select_param(self@),
    {
        match &self.select {
            Some(s) => Some("$select=".to_owned().concat(join_strings(s, ",").as_str())),
            None => None,
        }
    }

    fn expand_text(&self) -> (r: Option<String>)
        ensures
            opt_view(r) == expand_param(self@),
    {
        match &self.expand {
            Some(e) => Some("$expand=".to_owned().concat(join_strings(e, ",").as_str())),
            None => None,
        }
    }

    fn orderby_text(&self) -> (r: Option<String>)
        ensures
            opt_view(r) == orderby_param(self@),
    {
        match &self.orderby {
            Some(o) => Some(render_orderby(o)),
            None => None,
        }
    }

    fn top_text(&self) -> (r: Option<String>)
        ensures
            opt_view(r) == top_param(self@),
    {
        match self.top {
            Some(t) => Some("$top=".to_owned().concat(decimal_string(t as u64).as_str())),
            None => None,
        }
    }

    fn skip_text(&self) -> (r: Option<String>)
        ensures
            opt_view(r) == skip_param(self@),
    {
        match self.skip {
            Some(t) => Some("$skip=".to_owned().concat(decimal_string(t as u64).as_str())),
            None => None,
        }
    }

    fn count_text(&self) -> (r: Option<String>)
        ensures
            opt_view(r) == count_param(self@),
    {
        if self.count {
            Some("$count=true".to_owned())
        } else {
            None
        }
    }

    fn search_text(&self) -> (r: Option<String>)
        ensures
            opt_view(r) == search_param(self@),
    {
        match &self.search {
            Some(f) => Some("$search=".to_owned().concat(url_encode(f.as_str()).as_str())),
            None => None,
        }
    }
}

fn push_param(params: &mut Vec<String>, p: Option<String>)
    ensures
        views(final(params)@) == push_opt(views(old(params)@), opt_view(p)),
{
    if let Some(x) = p {
        params.push(x);
        proof {
            assert(views(final(params)@) =~= views(old(params)@).push(x@));
        }
    }
}

/// A comma-separated list: the pieces between commas, each trimmed.
pub open spec fn comma_list(s: Seq<char>) -> Seq<Seq<char>> {
    split_on(s, ',').map_values(|x: Seq<char>| trim(x))
}

/// Whether a word reads `desc` in any letter case.
pub open spec fn is_desc_word(w: Seq<char>) -> bool {
    w.len() == 4 && (w[0] == 'd' || w[0] == 'D') && (w[1] == 'e' || w[1] == 'E') && (w[2] == 's'
        || w[2] == 'S') && (w[3] == 'c' || w[3] == 'C')
}

/// An ordering written as `field`, `field asc` or `field desc`: the first
/// word is the field (empty if there is none); the order is descending only
/// when the second word reads `desc`.
pub open spec fn parse_ordering(o: Seq<char>) -> (Seq<char>, SortOrder) {
    let w = words(o);
    (
        if w.len() > 0 { w[0] } else { Seq::empty() },
        if w.len() > 1 && is_desc_word(w[1]) { SortOrder::Desc } else { SortOrder::Asc },
    )
}

/// The query built from optional textual facets.
pub open spec fn query_from_options(
    filter: Option<Seq<char>>,
    select: Option<Seq<char>>,
    expand: Option<Seq<char>>,
    orderby: Option<Seq<char>>,
    top: Option<u32>,
    skip: Option<u32>,
) -> QueryModel {
    QueryModel {
        filter: filter,
        select: match select {
            Some(s) => Some(comma_list(s)),
            None => None,
        },
        expand: match expand {
            Some(e) => Some(comma_list(e)),
            None => None,
        },
        orderby: match orderby {
            Some(o) => Some(seq![parse_ordering(o)]),
            None => None,
        },
        top: top,
        skip: skip,
        count: false,
        search: None,
    }
}

/// Splits at commas and trims each piece.
pub fn comma_separated(s: &str) -> (r: Vec<String>)
    ensures
        views(r@) == comma_list(s@),
{
    let pieces = split_at_char(s, ',');
    let mut out: Vec<String> = Vec::new();
    let mut i: usize = 0;
    while i < pieces.len()
        invariant
            i <= pieces.len(),
            views(out@) =~= views(pieces@).subrange(0, i as int).map_values(
                |x: Seq<char>| trim(x),
            ),
        decreases pieces.len() - i,
    {
        let t = trimmed(pieces[i].as_str());
        let ghost before = views(out@);
        out.push(t);
        proof {
            assert(views(pieces@).subrange(0, i + 1) =~= views(pieces@).subrange(0, i as int).push(
                pieces@[i as int]@,
            ));
            assert(views(out@) =~= before.push(t@));
        }
        i = i + 1;
    }
    proof {
        assert(views(pieces@).subrange(0, pieces.len() as int) =~= views(pieces@));
    }
    out
}

fn is_desc(w: &str) -> (r: bool)
    ensures
        r == is_desc_word(w@),
{
    if w.unicode_len() != 4 {
        return false;
    }
    let a = w.get_char(0);
    let b = w.get_char(1);
    let c = w.get_char(2);
    let d = w.get_char(3);
    (a == 'd' || a == 'D') && (b == 'e' || b == 'E') && (c == 's' || c == 'S') && (d == 'c' || d
        == 'C')
}

/// Reads an ordering written as `field`, `field asc` or `field desc`.
pub fn ordering_of(o: &str) -> (r: (String, SortOrder))
    ensures
        (r.0@, r.1) == parse_ordering(o@),
{
    let w = words_of(o);
    let field = if w.len() > 0 {
        w[0].clone()
    } else {
        String::new()
    };
    let order = if w.len() > 1 && is_desc(w[1].as_str()) {
        SortOrder::Desc
    } else {
        SortOrder::Asc
    };
    proof {
        if w.len() > 0 {
            assert(views(w@)[0] == w@[0]@);
        }
        if w.len() > 1 {
            assert(views(w@)[1] == w@[1]@);
        }
    }
    (field, order)
}

/// `r` is the query built from optional textual facets: none without any
/// facet, else the query of `query_from_options`.
pub open spec fn is_built_query(
    r: Option<ODataQuery>,
    filter: Option<String>,
    select: Option<String>,
    expand: Option<String>,
    orderby: Option<String>,
    top: Option<u32>,
    skip: Option<u32>,
) -> bool {
    &&& (filter is None && select is None && expand is None && orderby is None && top is None
        && skip is None) <==> r is None
    &&& r is Some ==> r->Some_0@ == query_from_options(
        opt_view(filter),
        opt_view(select),
        opt_view(expand),
        opt_view(orderby),
        top,
        skip,
    )
}

/// Builds a query from textual facets as tool parameters give them: `select`
/// and `expand` are comma-separated lists, `orderby` is `field [asc|desc]`.
/// `None` when no facet is given.
pub fn build_odata_query(
    filter: Option<String>,
    select: Option<String>,
    expand: Option<String>,
    orderby: Option<String>,
    top: Option<u32>,
    skip: Option<u32>,
) -> (r: Option<ODataQuery>)
    ensures
        is_built_query(r, filter, select, expand, orderby, top, skip),
{
    if filter.is_none() && select.is_none() && expand.is_none() && orderby.is_none()
        && top.is_none() && skip.is_none() {
        return None;
    }
    let mut query = ODataQuery::new();
    if let Some(f) = filter {
        query = query.filter(f.as_str());
    }
    if let Some(s) = select {
        query = query.select(comma_separated(s.as_str()));
    }
    if let Some(e) = expand {
        query = query.expand(comma_separated(e.as_str()));
    }
    if let Some(o) = orderby {
        let (field, order) = ordering_of(o.as_str());
        query = query.orderby(field.as_str(), order);
    }
    if let Some(t) = top {
        query = query.top(t);
    }
    if let Some(s) = skip {
        query = query.skip(s);
    }
    Some(query)
}

/// Rendering depends on the facets alone: the same query, or a clone of it
/// (whose view is equal), renders the same text every time, and a query
/// without facets renders as the empty string.
pub proof fn lemma_rendering_deterministic(a: QueryModel, b: QueryModel)
    requires
        a == b,
    ensures
        query_string(a) == query_string(b),
        query_string(empty_model()) == Seq::<char>::empty(),
{
    assert(query_params(empty_model()) =~= Seq::<Seq<char>>::empty());
}

/// A filter is rendered percent-encoded: the `$filter` parameter is the
/// encoding of the expression, which holds no raw quote, ampersand or space.
pub proof fn lemma_filter_is_encoded(q: QueryModel, i: int)
    requires
        q.filter is Some,
        0 <= i < url_encoded(q.filter->Some_0).len(),
    ensures
        filter_param(q) == Some("$filter="@ + url_encoded(q.filter->Some_0)),
        url_encoded(q.filter->Some_0)[i] != '\'',
        url_encoded(q.filter->Some_0)[i] != '&',
        url_encoded(q.filter->Some_0)[i] != ' ',
        query_params(q)[0] == "$filter="@ + url_encoded(q.filter->Some_0),
{
    crate::encoding::lemma_encoded_chars(vstd::utf8::encode_utf8(q.filter->Some_0), i);
}

/// Successive `orderby` calls keep their call order: after ordering by `f1`
/// and then by `f2` on an empty query, the query string is `?$orderby=`
/// followed by the entry for `f1`, a comma, and the entry for `f2`, each
/// entry being the field, a space and the direction.
pub proof fn lemma_orderby_call_order(
    f1: Seq<char>,
    o1: SortOrder,
    f2: Seq<char>,
    o2: SortOrder,
    q1: QueryModel,
    q2: QueryModel,
)
    requires
        q1 == (QueryModel { orderby: Some(orderings(empty_model()).push((f1, o1))), ..empty_model() }),
        q2 == (QueryModel { orderby: Some(orderings(q1).push((f2, o2))), ..q1 }),
    ensures
        query_string(q2) == "?"@ + ("$orderby="@ + (order_entry((f1, o1)) + ","@ + order_entry(
            (f2, o2),
        ))),
{
    let entries = seq![(f1, o1), (f2, o2)];
    assert(orderings(q1) =~= seq![(f1, o1)]);
    assert(q2.orderby->Some_0 =~= entries);
    let rendered = entries.map_values(|e| order_entry(e));
    assert(rendered =~= seq![order_entry((f1, o1)), order_entry((f2, o2))]);
    assert(rendered.drop_last() =~= seq![order_entry((f1, o1))]);
    assert(join(rendered.drop_last(), ","@) == order_entry((f1, o1)));
    assert(rendered.last() == order_entry((f2, o2)));
    let p = "$orderby="@ + join(rendered, ","@);
    assert(query_params(q2) =~= seq![p]);
    assert(join(query_params(q2), "&"@) == p);
}

} // verus!
