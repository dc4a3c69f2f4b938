//! A query builder for the UK coronavirus dashboard data service: filters and
//! result fields are checked against closed sets before they are accepted, and
//! turned into a single request address.
use vstd::prelude::*;

pub mod json;
pub mod laws;
pub mod pattern;
pub mod structures;
pub mod text;

use crate::json::{json_parses, parse_json};
use crate::pattern::{compile, regex_compiles, regex_matches};
use crate::structures::{ApiError, ApiErrorKind, AreaType, Filters, Structures};
use crate::text::{contains_str, join, joined};

verus! {

/// The address of the data service.
pub const ENDPOINT: &'static str = "https://api.coronavirus.data.gov.uk/v1/data";

/// The form of a date filter's value: a four-digit year, a month and a day,
/// the last two with or without a leading zero. A date filter whose value does
/// not match is refused.
pub const DATE_PATTERN: &'static str = r"^\d{4}\-(0?[1-9]|1[012])\-(0?[1-9]|[12][0-9]|3[01])$";

/// A key and a value, as characters.
pub type Entry = (Seq<char>, Seq<char>);

/// The characters of each key and value.
pub open spec fn entry_views(v: Seq<(String, String)>) -> Seq<Entry> {
    v.map_values(|e: (String, String)| (e.0@, e.1@))
}

/// No key occurs twice.
pub open spec fn keys_unique(s: Seq<Entry>) -> bool {
    forall|i: int, j: int|
        0 <= i < s.len() && 0 <= j < s.len() && #[trigger] s[i].0 == #[trigger] s[j].0 ==> i == j
}

/// Some entry has key `k`.
pub open spec fn has_key(s: Seq<Entry>, k: Seq<char>) -> bool {
    exists|i: int| 0 <= i < s.len() && #[trigger] s[i].0 == k
}

/// `s` with `k` mapped to `v`: the entry of `k` replaced where it stands, or a
/// new entry at the end.
pub open spec fn upsert(s: Seq<Entry>, k: Seq<char>, v: Seq<char>) -> Seq<Entry> {
    if has_key(s, k) {
        s.update(choose|i: int| 0 <= i < s.len() && #[trigger] s[i].0 == k, (k, v))
    } else {
        s.push((k, v))
    }
}

/// One filter in the address: `name=value`.
pub open spec fn filter_pair(e: Entry) -> Seq<char> {
    e.0 + "="@ + e.1
}

/// One result field in the address: `"field":"alias"`.
pub open spec fn structure_pair(e: Entry) -> Seq<char> {
    "\""@ + e.0 + "\":\""@ + e.1 + "\""@
}

/// Each filter as it stands in the address.
pub open spec fn filter_pairs(f: Seq<Entry>) -> Seq<Seq<char>> {
    f.map_values(|e: Entry| filter_pair(e))
}

/// Each result field as it stands in the address.
pub open spec fn structure_pairs(s: Seq<Entry>) -> Seq<Seq<char>> {
    s.map_values(|e: Entry| structure_pair(e))
}

/// The `filters` parameter, where there are filters.
pub open spec fn filters_segment(f: Seq<Entry>) -> Seq<char> {
    if f.len() == 0 {
        Seq::empty()
    } else {
        "?filters="@ + joined(filter_pairs(f), ";"@)
    }
}

/// The `structure` parameter, where there are result fields; it opens the
/// query string where no filter came before it.
pub open spec fn structure_segment(f: Seq<Entry>, s: Seq<Entry>) -> Seq<char> {
    if s.len() == 0 {
        Seq::empty()
    } else {
        (if f.len() == 0 {
            "?"@
        } else {
            "&"@
        }) + "structure={"@ + joined(structure_pairs(s), ","@) + "}"@
    }
}

/// The fixed end of every address: JSON, first page.
pub open spec fn query_suffix() -> Seq<char> {
    "&format=json&page=1"@
}

/// The address that asks for filters `f` and result fields `s`.
pub open spec fn query_url(f: Seq<Entry>, s: Seq<Entry>) -> Seq<char> {
    ENDPOINT@ + filters_segment(f) + structure_segment(f, s) + query_suffix()
}

/// Maps `k` to `val` in `v`, replacing the entry of `k` where there is one.
fn upsert_entry(v: &mut Vec<(String, String)>, k: String, val: String)
    requires
        keys_unique(entry_views(old(v)@)),
    ensures
        entry_views(final(v)@) == upsert(entry_views(old(v)@), k@, val@),
{
    let ghost s = entry_views(v@);
    let mut i: usize = 0;
    while i < v.len()
        invariant
            0 <= i <= v.len(),
            v@ == old(v)@,
            s == entry_views(v@),
            keys_unique(s),
            forall|j: int| 0 <= j < i ==> #[trigger] s[j].0 != k@,
        decreases v.len() - i,
    {
        if v[i].0 == k {
            proof {
                assert(s[i as int].0 == k@);
                assert(has_key(s, k@));
                let c = choose|c: int| 0 <= c < s.len() && #[trigger] s[c].0 == k@;
                assert(c == i);
            }
            let ghost key = k@;
            let ghost value = val@;
            v.set(i, (k, val));
            assert(entry_views(v@) =~= s.update(i as int, (key, value)));
            return;
        }
        i += 1;
    }
    let ghost key = k@;
    let ghost value = val@;
    assert(!has_key(s, k@));
    v.push((k, val));
    assert(entry_views(v@) =~= s.push((key, value)));
}

/// Upserting keeps keys unique, and keeps a property that every entry and the
/// new one have.
proof fn lemma_upsert_keeps(s: Seq<Entry>, k: Seq<char>, v: Seq<char>, p: spec_fn(Entry) -> bool)
    requires
        keys_unique(s),
        forall|i: int| 0 <= i < s.len() ==> p(#[trigger] s[i]),
        p((k, v)),
    ensures
        keys_unique(upsert(s, k, v)),
        forall|i: int| 0 <= i < upsert(s, k, v).len() ==> p(#[trigger] upsert(s, k, v)[i]),
{
    let t = upsert(s, k, v);
    if has_key(s, k) {
        let c = choose|i: int| 0 <= i < s.len() && #[trigger] s[i].0 == k;
        assert forall|i: int, j: int|
            0 <= i < t.len() && 0 <= j < t.len() && #[trigger] t[i].0 == #[trigger] t[j].0 implies i == j by {
            if i == c && j != c {
                assert(s[j].0 == k);
            } else if j == c && i != c {
                assert(s[i].0 == k);
            }
        }
    } else {
        assert forall|i: int, j: int|
            0 <= i < t.len() && 0 <= j < t.len() && #[trigger] t[i].0 == #[trigger] t[j].0 implies i == j by {
            if i == s.len() && j < s.len() {
                assert(s[j].0 == k);
            } else if j == s.len() && i < s.len() {
                assert(s[i].0 == k);
            }
        }
    }
}

/// `value` has the form of a date.
pub open spec fn is_date(value: Seq<char>) -> bool {
    regex_compiles(DATE_PATTERN@) && regex_matches(DATE_PATTERN@, value)
}

/// Why setting filter `name` to `value` is refused, if it is; `date_ok` says
/// whether `value` has the form of a date.
pub open spec fn filter_error(name: Seq<char>, value: Seq<char>, date_ok: bool) -> Option<ApiErrorKind> {
    if !Filters::names().contains(name) {
        Some(ApiErrorKind::InvalidFilter)
    } else if name == "areaType"@ && !AreaType::names().contains(value) {
        Some(ApiErrorKind::InvalidFilterValue)
    } else if name == "date"@ && !date_ok {
        Some(ApiErrorKind::InvalidFilterValue)
    } else {
        None
    }
}

/// The message of a refused filter: what was given, and what is allowed.
pub open spec fn filter_message(name: Seq<char>, value: Seq<char>) -> Seq<char> {
    if !Filters::names().contains(name) {
        "Invalid filter name provided: "@ + name + "\nNeeds to be one of: "@ + joined(
            Filters::names(),
            ", "@,
        )
    } else if name == "areaType"@ {
        "Invalid area type provided: "@ + value + "\nNeeds to be one of: "@ + joined(
            AreaType::names(),
            ", "@,
        )
    } else {
        "Invalid date provided: "@ + value + "\nNeeds to be in the format YYYY-MM-DD"@
    }
}

/// The message of a refused result field: what was given, and what is allowed.
pub open spec fn structure_message(name: Seq<char>) -> Seq<char> {
    "Invalid structure name provided: "@ + name + "\nNeeds to be one of: "@ + joined(
        Structures::names(),
        ", "@,
    )
}

/// A filter that a query may hold.
pub open spec fn valid_filter(e: Entry) -> bool {
    filter_error(e.0, e.1, is_date(e.1)) is None
}

/// A result field that a query may ask for.
pub open spec fn valid_structure(e: Entry) -> bool {
    Structures::names().contains(e.0)
}

/// Whether `value` has the form of a date.
fn date_matches(value: &String) -> (r: bool)
    ensures
        r == is_date(value@),
{
    match compile(DATE_PATTERN) {
        Some(p) => p.is_match(value.as_str()),
        None => false,
    }
}

/// Decides whether filter `name` may be set to `value`, where `date_ok` says
/// whether `value` has the form of a date; on refusal, says why.
pub fn check_filter(name: &String, value: &String, date_ok: bool) -> (r: Result<(), ApiError>)
    ensures
        match filter_error(name@, value@, date_ok) {
            None => r is Ok,
            Some(k) => (r matches Err(e) && e.kind == k && e.msg@ == filter_message(name@, value@)),
        },
{
    if !contains_str(&Filters::to_vec(), name) {
        let mut msg = String::from_str("Invalid filter name provided: ");
        msg.append(name.as_str());
        msg.append("\nNeeds to be one of: ");
        msg.append(join(&Filters::to_vec(), ", ").as_str());
        return Err(ApiError { kind: ApiErrorKind::InvalidFilter, msg });
    }
    if *name == String::from_str("areaType") {
        if !contains_str(&AreaType::to_vec(), value) {
            let mut msg = String::from_str("Invalid area type provided: ");
            msg.append(value.as_str());
            msg.append("\nNeeds to be one of: ");
            msg.append(join(&AreaType::to_vec(), ", ").as_str());
            return Err(ApiError { kind: ApiErrorKind::InvalidFilterValue, msg });
        }
    }
    if *name == String::from_str("date") && !date_ok {
        let mut msg = String::from_str("Invalid date provided: ");
        msg.append(value.as_str());
        msg.append("\nNeeds to be in the format YYYY-MM-DD");
        proof {
            reveal_strlit("date");
            reveal_strlit("areaType");
            assert("date"@[0] != "areaType"@[0]);
        }
        return Err(ApiError { kind: ApiErrorKind::InvalidFilterValue, msg });
    }
    Ok(())
}

/// A query in the making: the filters that narrow it and the result fields
/// that it asks for, each under its own key.
pub struct Cov19api {
    filters: Vec<(String, String)>,
    structure: Vec<(String, String)>,
}

impl Cov19api {
    /// The filters, as name and value, in the order they were first set.
    pub closed spec fn filter_entries(&self) -> Seq<Entry> {
        entry_views(self.filters@)
    }

    /// The result fields, as field and alias, in the order they were first set.
    pub closed spec fn structure_entries(&self) -> Seq<Entry> {
        entry_views(self.structure@)
    }

    /// No name is set twice, and every filter and field was accepted.
    pub open spec fn wf(&self) -> bool {
        &&& keys_unique(self.filter_entries())
        &&& keys_unique(self.structure_entries())
        &&& forall|i: int|
            0 <= i < self.filter_entries().len() ==> valid_filter(#[trigger] self.filter_entries()[i])
        &&& forall|i: int|
            0 <= i < self.structure_entries().len() ==> valid_structure(
                #[trigger] self.structure_entries()[i],
            )
    }

    /// A query with no filter and no result field.
    pub fn new() -> (r: Cov19api)
        ensures
            r.wf(),
            r.filter_entries() == Seq::<Entry>::empty(),
            r.structure_entries() == Seq::<Entry>::empty(),
    {
        let r = Cov19api { filters: Vec::new(), structure: Vec::new() };
        assert(r.filter_entries() =~= Seq::<Entry>::empty());
        assert(r.structure_entries() =~= Seq::<Entry>::empty());
        r
    }

    /// Removes every filter and every result field.
    pub fn clear(&mut self)
        ensures
            final(self).wf(),
            final(self).filter_entries() == Seq::<Entry>::empty(),
            final(self).structure_entries() == Seq::<Entry>::empty(),
    {
        self.filters.clear();
        self.structure.clear();
        assert(self.filter_entries() =~= Seq::<Entry>::empty());
        assert(self.structure_entries() =~= Seq::<Entry>::empty());
    }

    /// Sets filter `filter_name` to `filter_value`, replacing an earlier value
    /// of it. Refused where the name is not a filter, where an area type is not
    /// one of `AreaType`, or where a date does not have the form of a date.
    pub fn set_filter_string(
        &mut self,
        filter_name: String,
        filter_value: String,
    ) -> (r: Result<(), ApiError>)
        requires
            old(self).wf(),
        ensures
            final(self).wf(),
            final(self).structure_entries() == old(self).structure_entries(),
            match filter_error(filter_name@, filter_value@, is_date(filter_value@)) {
                None => r is Ok && final(self).filter_entries() == upsert(
                    old(self).filter_entries(),
                    filter_name@,
                    filter_value@,
                ),
                Some(k) => (r matches Err(e) && e.kind == k && e.msg@ == filter_message(
                    filter_name@,
                    filter_value@,
                )) && final(self).filter_entries() == old(self).filter_entries(),
            },
    {
        let date_ok = if filter_name == String::from_str("date") {
            date_matches(&filter_value)
        } else {
            true
        };
        match check_filter(&filter_name, &filter_value, date_ok) {
            Ok(()) => {
                proof {
                    lemma_upsert_keeps(
                        self.filter_entries(),
                        filter_name@,
                        filter_value@,
                        |e: Entry| valid_filter(e),
                    );
                }
                upsert_entry(&mut self.filters, filter_name, filter_value);
                Ok(())
            },
            Err(e) => Err(e),
        }
    }

    /// Sets filter `filter_name` to `filter_value`, replacing an earlier value
    /// of it. Refused where an area type is not one of `AreaType`, or where a
    /// date does not have the form of a date.
    pub fn set_filter_enum(
        &mut self,
        filter_name: Filters,
        filter_value: String,
    ) -> (r: Result<(), ApiError>)
        requires
            old(self).wf(),
        ensures
            final(self).wf(),
            final(self).structure_entries() == old(self).structure_entries(),
            match filter_error(filter_name.spec_name(), filter_value@, is_date(filter_value@)) {
                None => r is Ok && final(self).filter_entries() == upsert(
                    old(self).filter_entries(),
                    filter_name.spec_name(),
                    filter_value@,
                ),
                Some(k) => (r matches Err(e) && e.kind == k && e.msg@ == filter_message(
                    filter_name.spec_name(),
                    filter_value@,
                )) && final(self).filter_entries() == old(self).filter_entries(),
            },
            r matches Err(e) ==> e.kind == ApiErrorKind::InvalidFilterValue,
    {
        proof {
            filter_name.lemma_listed();
        }
        self.set_filter_string(String::from_str(filter_name.name()), filter_value)
    }

    /// Asks for result field `structure_name` under its own name.
    pub fn set_structure_string(&mut self, structure_name: String) -> (r: Result<(), ApiError>)
        requires
            old(self).wf(),
        ensures
            final(self).wf(),
            final(self).filter_entries() == old(self).filter_entries(),
            if Structures::names().contains(structure_name@) {
                r is Ok && final(self).structure_entries() == upsert(
                    old(self).structure_entries(),
                    structure_name@,
                    structure_name@,
                )
            } else {
                (r matches Err(e) && e.kind == ApiErrorKind::InvalidStructure && e.msg@
                    == structure_message(structure_name@)) && final(self).structure_entries()
                    == old(self).structure_entries()
            },
    {
        self.set_structure_string_rename(structure_name.clone(), structure_name)
    }

    /// Asks for result field `structure_name` under the name `return_name`,
    /// replacing an earlier request of the field. Refused where the name is not
    /// one of `Structures`.
    pub fn set_structure_string_rename(
        &mut self,
        structure_name: String,
        return_name: String,
    ) -> (r: Result<(), ApiError>)
        requires
            old(self).wf(),
        ensures
            final(self).wf(),
            final(self).filter_entries() == old(self).filter_entries(),
            if Structures::names().contains(structure_name@) {
                r is Ok && final(self).structure_entries() == upsert(
                    old(self).structure_entries(),
                    structure_name@,
                    return_name@,
                )
            } else {
                (r matches Err(e) && e.kind == ApiErrorKind::InvalidStructure && e.msg@
                    == structure_message(structure_name@)) && final(self).structure_entries()
                    == old(self).structure_entries()
            },
    {
        if !contains_str(&Structures::to_vec(), &structure_name) {
            let mut msg = String::from_str("Invalid structure name provided: ");
            msg.append(structure_name.as_str());
            msg.append("\nNeeds to be one of: ");
            msg.append(join(&Structures::to_vec(), ", ").as_str());
            return Err(ApiError { kind: ApiErrorKind::InvalidStructure, msg });
        }
        proof {
            lemma_upsert_keeps(
                self.structure_entries(),
                structure_name@,
                return_name@,
                |e: Entry| valid_structure(e),
            );
        }
        upsert_entry(&mut self.structure, structure_name, return_name);
        Ok(())
    }

    /// Asks for result field `structure_name` under its own name.
    pub fn set_structure_enum(&mut self, structure_name: Structures) -> (r: Result<(), ApiError>)
        requires
            old(self).wf(),
        ensures
            final(self).wf(),
            final(self).filter_entries() == old(self).filter_entries(),
            r is Ok,
            final(self).structure_entries() == upsert(
                old(self).structure_entries(),
                structure_name.spec_name(),
                structure_name.spec_name(),
            ),
    {
        proof {
            structure_name.lemma_listed();
        }
        self.set_structure_string(String::from_str(structure_name.name()))
    }

    /// The address that asks for this query's filters and result fields.
    pub fn request_url(&self) -> (r: String)
        ensures
            r@ == query_url(self.filter_entries(), self.structure_entries()),
    {
        let mut url = String::from_str(ENDPOINT);
        if self.filters.len() > 0 {
            url.append("?filters=");
            push_filter_pairs(&mut url, &self.filters);
        }
        if self.structure.len() > 0 {
            url.append(if self.filters.len() == 0 {
                "?"
            } else {
                "&"
            });
            url.append("structure={");
            push_structure_pairs(&mut url, &self.structure);
            url.append("}");
        }
        url.append("&format=json&page=1");
        assert(url@ =~= query_url(self.filter_entries(), self.structure_entries()));
        url
    }
}

impl Default for Cov19api {
    /// A query with no filter and no result field.
    fn default() -> (r: Cov19api)
        ensures
            r.wf(),
            r.filter_entries() == Seq::<Entry>::empty(),
            r.structure_entries() == Seq::<Entry>::empty(),
    {
        Cov19api::new()
    }
}

/// Appends the filters as `name=value`, separated by `;`.
fn push_filter_pairs(out: &mut String, v: &Vec<(String, String)>)
    ensures
        final(out)@ == old(out)@ + joined(filter_pairs(entry_views(v@)), ";"@),
{
    let ghost start = out@;
    let ghost ps = filter_pairs(entry_views(v@));
    let mut i: usize = 0;
    while i < v.len()
        invariant
            0 <= i <= v.len(),
            ps == filter_pairs(entry_views(v@)),
            out@ == start + joined(ps.take(i as int), ";"@),
        decreases v.len() - i,
    {
        proof {
            assert(ps.take(i + 1).drop_last() =~= ps.take(i as int));
        }
        if i > 0 {
            out.append(";");
        }
        out.append(v[i].0.as_str());
        out.append("=");
        out.append(v[i].1.as_str());
        proof {
            assert(ps[i as int] == v@[i as int].0@ + "="@ + v@[i as int].1@);
            assert(ps.take(i + 1)[i as int] == ps[i as int]);
            assert(out@ =~= start + joined(ps.take(i + 1), ";"@));
        }
        i += 1;
    }
    assert(ps.take(v.len() as int) =~= ps);
}

/// Appends the result fields as `"field":"alias"`, separated by `,`.
fn push_structure_pairs(out: &mut String, v: &Vec<(String, String)>)
    ensures
        final(out)@ == old(out)@ + joined(structure_pairs(entry_views(v@)), ","@),
{
    let ghost start = out@;
    let ghost ps = structure_pairs(entry_views(v@));
    let mut i: usize = 0;
    while i < v.len()
        invariant
            0 <= i <= v.len(),
            ps == structure_pairs(entry_views(v@)),
            out@ == start + joined(ps.take(i as int), ","@),
        decreases v.len() - i,
    {
        proof {
            assert(ps.take(i + 1).drop_last() =~= ps.take(i as int));
        }
        if i > 0 {
            out.append(",");
        }
        out.append("\"");
        out.append(v[i].0.as_str());
        out.append("\":\"");
        out.append(v[i].1.as_str());
        out.append("\"");
        proof {
            assert(ps[i as int] == "\""@ + v@[i as int].0@ + "\":\""@ + v@[i as int].1@ + "\""@);
            assert(ps.take(i + 1)[i as int] == ps[i as int]);
            assert(out@ =~= start + joined(ps.take(i + 1), ","@));
        }
        i += 1;
    }
    assert(ps.take(v.len() as int) =~= ps);
}

/// Turns what the transport handed back into the answer: the error of a
/// failed request, or the body read as JSON.
pub fn read_response(response: Result<String, String>) -> (r: Result<serde_json::Value, ApiError>)
    ensures
        match response {
            Err(m) => (r matches Err(e) && e.kind == ApiErrorKind::TransportError && e.msg@ == m@),
            Ok(body) => (r is Ok <==> json_parses(body@)) && (r matches Err(e) ==> e.kind
                == ApiErrorKind::DecodeError && e.msg@ == "Response body is not valid JSON"@),
        },
{
    match response {
        Err(m) => Err(ApiError { kind: ApiErrorKind::TransportError, msg: m }),
        Ok(body) => match parse_json(body.as_str()) {
            Ok(v) => Ok(v),
            Err(_) => Err(
                ApiError {
                    kind: ApiErrorKind::DecodeError,
                    msg: String::from_str("Response body is not valid JSON"),
                },
            ),
        },
    }
}

/// The address of a sample query: nations, England, cases by sex.
pub fn test() -> (r: String)
    ensures
        r@ == query_url(
            seq![("areaType"@, "nation"@), ("areaName"@, "england"@)],
            seq![("maleCases"@, "maleCases"@), ("femaleCases"@, "femaleCases"@)],
        ),
{
    let mut api = Cov19api::new();
    let area_type = String::from_str(AreaType::nation.name());
    proof {
        AreaType::nation.lemma_listed();
        reveal_strlit("areaType");
        reveal_strlit("areaName");
        reveal_strlit("date");
        reveal_strlit("maleCases");
        reveal_strlit("femaleCases");
        assert(!has_key(seq![("areaType"@, "nation"@)], "areaName"@)) by {
            assert("areaType"@[4] != "areaName"@[4]);
        }
        assert(!has_key(seq![("maleCases"@, "maleCases"@)], "femaleCases"@)) by {
            assert("maleCases"@[0] != "femaleCases"@[0]);
        }
        assert("areaName"@[0] != "date"@[0]);
    }
    let _ = api.set_filter_enum(Filters::areaType, area_type);
    assert(api.filter_entries() =~= seq![("areaType"@, "nation"@)]);
    let _ = api.set_filter_enum(Filters::areaName, String::from_str("england"));
    assert(api.filter_entries() =~= seq![("areaType"@, "nation"@), ("areaName"@, "england"@)]);
    let _ = api.set_structure_enum(Structures::maleCases);
    assert(api.structure_entries() =~= seq![("maleCases"@, "maleCases"@)]);
    let _ = api.set_structure_enum(Structures::femaleCases);
    assert(api.structure_entries() =~= seq![("maleCases"@, "maleCases"@), ("femaleCases"@, "femaleCases"@)]);
    api.request_url()
}

} // verus!
