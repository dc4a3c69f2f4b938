//! What holds of every query, stated over the contracts of the builder.
use vstd::prelude::*;

use crate::structures::{ApiErrorKind, AreaType, Filters};
use crate::text::joined;
use crate::{
    filter_error, filter_pair, filter_pairs, has_key, keys_unique, query_suffix, query_url,
    structure_pair, structure_pairs, upsert, Cov19api, Entry, ENDPOINT,
};

verus! {

/// A name outside the filter names is refused as an unknown filter, whatever
/// the value.
pub proof fn lemma_unknown_filter_refused(name: Seq<char>, value: Seq<char>, date_ok: bool)
    requires
        !Filters::names().contains(name),
    ensures
        filter_error(name, value, date_ok) == Some(ApiErrorKind::InvalidFilter),
{
}

/// An area type is accepted exactly when it is one of `AreaType`.
pub proof fn lemma_area_type_checked(value: Seq<char>, date_ok: bool)
    ensures
        filter_error("areaType"@, value, date_ok) == if AreaType::names().contains(value) {
            None
        } else {
            Some(ApiErrorKind::InvalidFilterValue)
        },
{
    Filters::areaType.lemma_listed();
    reveal_strlit("areaType");
    reveal_strlit("date");
    assert("areaType"@[0] != "date"@[0]);
}

/// An area name or an area code may be any value.
pub proof fn lemma_area_name_and_code_unrestricted(value: Seq<char>, date_ok: bool)
    ensures
        filter_error("areaName"@, value, date_ok) is None,
        filter_error("areaCode"@, value, date_ok) is None,
{
    Filters::areaName.lemma_listed();
    Filters::areaCode.lemma_listed();
    reveal_strlit("areaName");
    reveal_strlit("areaCode");
    reveal_strlit("areaType");
    reveal_strlit("date");
    assert("areaName"@[4] != "areaType"@[4]);
    assert("areaCode"@[4] != "areaType"@[4]);
    assert("areaName"@[0] != "date"@[0]);
    assert("areaCode"@[0] != "date"@[0]);
}

/// Setting the area type to `nation` is accepted, and setting it a second
/// time changes nothing: the query then holds one entry for the area type,
/// with value `nation`.
pub proof fn lemma_set_area_type_twice(api: Cov19api)
    requires
        api.wf(),
    ensures
        filter_error("areaType"@, "nation"@, true) is None,
        ({
            let once = upsert(api.filter_entries(), "areaType"@, "nation"@);
            &&& upsert(once, "areaType"@, "nation"@) == once
            &&& keys_unique(once)
            &&& exists|i: int| 0 <= i < once.len() && once[i] == ("areaType"@, "nation"@)
        }),
{
    Filters::areaType.lemma_listed();
    crate::structures::AreaType::nation.lemma_listed();
    let s = api.filter_entries();
    let once = upsert(s, "areaType"@, "nation"@);
    crate::lemma_upsert_keeps(s, "areaType"@, "nation"@, |e: Entry| true);
    if has_key(s, "areaType"@) {
        let c = choose|i: int| 0 <= i < s.len() && #[trigger] s[i].0 == "areaType"@;
        assert(once[c] == ("areaType"@, "nation"@));
        assert(once[c].0 == "areaType"@);
        assert(has_key(once, "areaType"@));
        let d = choose|i: int| 0 <= i < once.len() && #[trigger] once[i].0 == "areaType"@;
        assert(d == c);
        assert(upsert(once, "areaType"@, "nation"@) =~= once);
    } else {
        let c = s.len() as int;
        assert(once[c] == ("areaType"@, "nation"@));
        assert(once[c].0 == "areaType"@);
        assert(has_key(once, "areaType"@));
        let d = choose|i: int| 0 <= i < once.len() && #[trigger] once[i].0 == "areaType"@;
        assert(d == c);
        assert(upsert(once, "areaType"@, "nation"@) =~= once);
    }
}

/// A query with no filter and no result field is the bare address with the
/// fixed end.
pub proof fn lemma_empty_query_url()
    ensures
        query_url(Seq::empty(), Seq::empty()) == ENDPOINT@ + "&format=json&page=1"@,
{
    assert(query_url(Seq::empty(), Seq::empty()) =~= ENDPOINT@ + query_suffix());
}

/// Two filters and one result field, the filters in either order: the address
/// holds both filters joined by `;`, then the result field, then the fixed end.
pub proof fn lemma_two_filters_one_field(f: Seq<Entry>, a: Entry, b: Entry, field: Seq<char>)
    requires
        f == seq![a, b] || f == seq![b, a],
    ensures
        query_url(f, seq![(field, field)]) == ENDPOINT@ + ("?filters="@ + (filter_pair(f[0]) + ";"@
            + filter_pair(f[1]))) + ("&"@ + "structure={"@ + structure_pair((field, field)) + "}"@)
            + "&format=json&page=1"@,
{
    let s = seq![(field, field)];
    let ps = filter_pairs(f);
    assert(ps.drop_last() =~= seq![filter_pair(f[0])]);
    assert(joined(ps, ";"@) == joined(ps.drop_last(), ";"@) + ";"@ + filter_pair(f[1]));
    assert(joined(ps.drop_last(), ";"@) == filter_pair(f[0]));
    assert(crate::filters_segment(f) == "?filters="@ + (filter_pair(f[0]) + ";"@ + filter_pair(f[1])));
    assert(structure_pairs(s) =~= seq![structure_pair((field, field))]);
    assert(joined(structure_pairs(s), ","@) == structure_pair((field, field)));
    assert(crate::structure_segment(f, s) == "&"@ + "structure={"@ + structure_pair((field, field)) + "}"@);
}

} // verus!
