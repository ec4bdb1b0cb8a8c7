use vstd::prelude::*;
use vstd::string::*;

use crate::consts::{
    TOPO_PROP_GROUP, TOPO_PROP_GROUP_DSTAB, TOPO_PROP_GROUP_NAME, TOPO_PROP_GROUP_NSTAB,
    TOPO_PROP_GROUP_VERSION, TOPO_PROP_VAL, TOPO_PROP_VAL_NAME, TOPO_PROP_VAL_TYPE,
    TOPO_PROP_VAL_VAL, TOPO_TYPE_BOOLEAN, TOPO_TYPE_DOUBLE, TOPO_TYPE_FMRI, TOPO_TYPE_FMRI_ARRAY,
    TOPO_TYPE_INT32, TOPO_TYPE_INT32_ARRAY, TOPO_TYPE_INT64, TOPO_TYPE_INT64_ARRAY,
    TOPO_TYPE_SIZE, TOPO_TYPE_STRING, TOPO_TYPE_STRING_ARRAY, TOPO_TYPE_TIME, TOPO_TYPE_UINT32,
    TOPO_TYPE_UINT32_ARRAY, TOPO_TYPE_UINT64, TOPO_TYPE_UINT64_ARRAY,
};
use crate::error::ErrorView;
use crate::nvlist::{int32_read, named, string_read, uint32_read, NvListData, NvPairData};
use crate::property::{
    bad_fmri_test, decode_spec, group_fails_test, group_key, group_key_test, group_list_fails_test,
    group_properties, is_group_entry, node_groups, null_string_test, parse_group_spec,
    parse_groups_spec, parse_property_spec, prop_key, prop_key_test, prop_unreadable_test,
    PropValueView, PropertyGroupView, PropertyView,
};
use crate::seqs::{first_where, last_where, lemma_first_where, lemma_last_where};
use crate::text::debug_text;

verus! {

/// The entry names of property and property-group nvlists are pairwise
/// different texts.
proof fn lemma_entry_names_distinct()
    ensures
        TOPO_PROP_VAL_NAME@ != TOPO_PROP_VAL_TYPE@,
        TOPO_PROP_VAL_NAME@ != TOPO_PROP_VAL_VAL@,
        TOPO_PROP_VAL_TYPE@ != TOPO_PROP_VAL_VAL@,
        TOPO_PROP_VAL@ != TOPO_PROP_GROUP_NAME@,
        TOPO_PROP_VAL@ != TOPO_PROP_GROUP_NSTAB@,
        TOPO_PROP_VAL@ != TOPO_PROP_GROUP_DSTAB@,
        TOPO_PROP_VAL@ != TOPO_PROP_GROUP_VERSION@,
        TOPO_PROP_GROUP_NAME@ != TOPO_PROP_GROUP_NSTAB@,
        TOPO_PROP_GROUP_NAME@ != TOPO_PROP_GROUP_DSTAB@,
        TOPO_PROP_GROUP_NAME@ != TOPO_PROP_GROUP_VERSION@,
        TOPO_PROP_GROUP_NSTAB@ != TOPO_PROP_GROUP_DSTAB@,
        TOPO_PROP_GROUP_NSTAB@ != TOPO_PROP_GROUP_VERSION@,
        TOPO_PROP_GROUP_DSTAB@ != TOPO_PROP_GROUP_VERSION@,
{
    reveal_strlit("property-name");
    reveal_strlit("property-type");
    reveal_strlit("property-value");
    reveal_strlit("property");
    reveal_strlit("property-group-name");
    reveal_strlit("property-group-name-stability");
    reveal_strlit("property-group-data-stability");
    reveal_strlit("property-group-version");
    assert(TOPO_PROP_VAL_NAME@[9] != TOPO_PROP_VAL_TYPE@[9]);
    assert(TOPO_PROP_VAL_NAME@.len() != TOPO_PROP_VAL_VAL@.len());
    assert(TOPO_PROP_VAL_TYPE@.len() != TOPO_PROP_VAL_VAL@.len());
    assert(TOPO_PROP_VAL@.len() != TOPO_PROP_GROUP_NAME@.len());
    assert(TOPO_PROP_VAL@.len() != TOPO_PROP_GROUP_NSTAB@.len());
    assert(TOPO_PROP_VAL@.len() != TOPO_PROP_GROUP_DSTAB@.len());
    assert(TOPO_PROP_VAL@.len() != TOPO_PROP_GROUP_VERSION@.len());
    assert(TOPO_PROP_GROUP_NAME@.len() != TOPO_PROP_GROUP_NSTAB@.len());
    assert(TOPO_PROP_GROUP_NAME@.len() != TOPO_PROP_GROUP_DSTAB@.len());
    assert(TOPO_PROP_GROUP_NAME@.len() != TOPO_PROP_GROUP_VERSION@.len());
    assert(TOPO_PROP_GROUP_NSTAB@[15] != TOPO_PROP_GROUP_DSTAB@[15]);
    assert(TOPO_PROP_GROUP_NSTAB@.len() != TOPO_PROP_GROUP_VERSION@.len());
    assert(TOPO_PROP_GROUP_DSTAB@.len() != TOPO_PROP_GROUP_VERSION@.len());
}

/// A decoded value is exactly what the accessor of the nvpair type its
/// `TOPO_TYPE_*` code stands for read from the value pair: the same scalar,
/// the same text, the same duplicated FMRI, the same elements in the same
/// order.
pub proof fn decode_carries_what_was_read<F>(p: NvPairData<F>)
    ensures
        p.reads.boolean_value matches Ok(v) ==> decode_spec(TOPO_TYPE_BOOLEAN, p) == Ok::<PropValueView<F>, ErrorView>(PropValueView::Boolean(v)),
        p.reads.int32 matches Ok(v) ==> decode_spec(TOPO_TYPE_INT32, p) == Ok::<PropValueView<F>, ErrorView>(PropValueView::Int32(v)),
        p.reads.uint32 matches Ok(v) ==> decode_spec(TOPO_TYPE_UINT32, p) == Ok::<PropValueView<F>, ErrorView>(PropValueView::UInt32(v)),
        p.reads.int64 matches Ok(v) ==> decode_spec(TOPO_TYPE_INT64, p) == Ok::<PropValueView<F>, ErrorView>(PropValueView::Int64(v)),
        p.reads.int64 matches Ok(v) ==> decode_spec(TOPO_TYPE_TIME, p) == Ok::<PropValueView<F>, ErrorView>(PropValueView::Time(v)),
        p.reads.uint64 matches Ok(v) ==> decode_spec(TOPO_TYPE_UINT64, p) == Ok::<PropValueView<F>, ErrorView>(PropValueView::UInt64(v)),
        p.reads.uint64 matches Ok(v) ==> decode_spec(TOPO_TYPE_SIZE, p) == Ok::<PropValueView<F>, ErrorView>(PropValueView::Size(v)),
        p.reads.double matches Ok(v) ==> decode_spec(TOPO_TYPE_DOUBLE, p) == Ok::<PropValueView<F>, ErrorView>(PropValueView::Double(v)),
        p.reads.string matches Ok(Some(s)) ==> decode_spec(TOPO_TYPE_STRING, p) == Ok::<PropValueView<F>, ErrorView>(PropValueView::String(s@)),
        p.reads.nvlist matches Ok(n) ==> (n.copy matches Some(Ok(f))
            ==> decode_spec(TOPO_TYPE_FMRI, p) == Ok::<PropValueView<F>, ErrorView>(PropValueView::Fmri(f))),
        p.reads.int32_array matches Ok(v) ==> decode_spec(TOPO_TYPE_INT32_ARRAY, p) == Ok::<PropValueView<F>, ErrorView>(PropValueView::Int32Array(v@)),
        p.reads.uint32_array matches Ok(v) ==> decode_spec(TOPO_TYPE_UINT32_ARRAY, p) == Ok::<PropValueView<F>, ErrorView>(PropValueView::UInt32Array(v@)),
        p.reads.int64_array matches Ok(v) ==> decode_spec(TOPO_TYPE_INT64_ARRAY, p) == Ok::<PropValueView<F>, ErrorView>(PropValueView::Int64Array(v@)),
        p.reads.uint64_array matches Ok(v) ==> decode_spec(TOPO_TYPE_UINT64_ARRAY, p) == Ok::<PropValueView<F>, ErrorView>(PropValueView::UInt64Array(v@)),
        p.reads.string_array matches Ok(v) ==> ((forall|i: int| 0 <= i < v@.len() ==> #[trigger] v@[i] is Some)
            ==> decode_spec(TOPO_TYPE_STRING_ARRAY, p) == Ok::<PropValueView<F>, ErrorView>(
                PropValueView::StringArray(v@.map_values(|o: Option<String>| o->0@)))),
        p.reads.nvlist_array matches Ok(v) ==> ((forall|i: int| 0 <= i < v@.len() ==> #[trigger] v@[i] matches Some(Ok(_)))
            ==> decode_spec(TOPO_TYPE_FMRI_ARRAY, p) == Ok::<PropValueView<F>, ErrorView>(
                PropValueView::FmriArray(v@.map_values(|o: Option<Result<F, i32>>| o->0->Ok_0)))),
{
    if let Ok(v) = p.reads.string_array {
        lemma_first_where(v@, null_string_test());
        let b = first_where(v@, null_string_test());
        if (forall|i: int| 0 <= i < v@.len() ==> #[trigger] v@[i] is Some) && b < v@.len() {
            assert(v@[b] is Some);
        }
    }
    if let Ok(v) = p.reads.nvlist_array {
        lemma_first_where(v@, bad_fmri_test::<F>());
        let b = first_where(v@, bad_fmri_test::<F>());
        if (forall|i: int| 0 <= i < v@.len() ==> #[trigger] v@[i] matches Some(Ok(_))) && b < v@.len() {
            assert(v@[b] matches Some(Ok(_)));
        }
    }
}

/// `last_where` is the index `i` where `q` holds when no later element
/// satisfies it.
proof fn lemma_last_at<A>(s: Seq<A>, q: spec_fn(A) -> bool, i: int)
    requires
        0 <= i < s.len(),
        q(s[i]),
        forall|m: int| i < m < s.len() ==> !q(#[trigger] s[m]),
    ensures
        last_where(s, q) == i,
{
    lemma_last_where(s, q);
    let w = last_where(s, q);
    if w < i {
        assert(!q(s[i]));
    }
    if w > i {
        assert(!q(s[w]));
    }
}

/// A property's name is the text of its last `property-name` entry and its
/// value is the last `property-value` entry decoded with exactly the code
/// its last `property-type` entry holds, whenever every name and type entry
/// reads.
pub proof fn property_is_its_value_decoded_by_its_type<F>(l: NvListData<F>, i: int, j: int, k: int)
    requires
        0 <= i < l.pairs@.len(),
        0 <= j < l.pairs@.len(),
        0 <= k < l.pairs@.len(),
        named(l.pairs@[i], TOPO_PROP_VAL_NAME@),
        named(l.pairs@[j], TOPO_PROP_VAL_TYPE@),
        named(l.pairs@[k], TOPO_PROP_VAL_VAL@),
        forall|m: int| i < m < l.pairs@.len() ==> !named(#[trigger] l.pairs@[m], TOPO_PROP_VAL_NAME@),
        forall|m: int| j < m < l.pairs@.len() ==> !named(#[trigger] l.pairs@[m], TOPO_PROP_VAL_TYPE@),
        forall|m: int| k < m < l.pairs@.len() ==> !named(#[trigger] l.pairs@[m], TOPO_PROP_VAL_VAL@),
        forall|m: int| 0 <= m < l.pairs@.len() && named(#[trigger] l.pairs@[m], TOPO_PROP_VAL_NAME@)
            ==> string_read(l.pairs@[m]) is Ok,
        forall|m: int| 0 <= m < l.pairs@.len() && named(#[trigger] l.pairs@[m], TOPO_PROP_VAL_TYPE@)
            ==> uint32_read(l.pairs@[m]) is Ok,
    ensures
        parse_property_spec(l) == (match decode_spec(uint32_read(l.pairs@[j])->Ok_0, l.pairs@[k]) {
            Ok(v) => Ok::<PropertyView<F>, ErrorView>(PropertyView { name: string_read(l.pairs@[i])->Ok_0, value: v }),
            Err(e) => Err(e),
        }),
{
    let s = l.pairs@;
    lemma_entry_names_distinct();
    lemma_first_where(s, prop_unreadable_test::<F>());
    let b = first_where(s, prop_unreadable_test::<F>());
    if b < s.len() {
        assert(prop_unreadable_test::<F>()(s[b]));
        assert(false);
    }
    assert forall|m: int| i < m < s.len() implies !prop_key_test::<F>(1)(#[trigger] s[m]) by {
        assert(!named(s[m], TOPO_PROP_VAL_NAME@));
    }
    assert forall|m: int| j < m < s.len() implies !prop_key_test::<F>(2)(#[trigger] s[m]) by {
        assert(!named(s[m], TOPO_PROP_VAL_TYPE@));
    }
    assert forall|m: int| k < m < s.len() implies !prop_key_test::<F>(3)(#[trigger] s[m]) by {
        assert(!named(s[m], TOPO_PROP_VAL_VAL@));
    }
    assert(prop_key(s[j]) == 2);
    assert(prop_key(s[k]) == 3);
    lemma_last_at(s, prop_key_test::<F>(1), i);
    lemma_last_at(s, prop_key_test::<F>(2), j);
    lemma_last_at(s, prop_key_test::<F>(3), k);
}

/// Whether every name and type entry of property nvlist `s` reads (as a
/// string and as a `uint32`).
pub open spec fn prop_entries_read<F>(s: Seq<NvPairData<F>>) -> bool {
    &&& forall|m: int| 0 <= m < s.len() && named(#[trigger] s[m], TOPO_PROP_VAL_NAME@)
        ==> string_read(s[m]) is Ok
    &&& forall|m: int| 0 <= m < s.len() && named(#[trigger] s[m], TOPO_PROP_VAL_TYPE@)
        ==> uint32_read(s[m]) is Ok
}

/// Whether no entry of `s` is named `key`.
pub open spec fn none_named<F>(s: Seq<NvPairData<F>>, key: Seq<char>) -> bool {
    forall|m: int| 0 <= m < s.len() ==> !named(#[trigger] s[m], key)
}

/// A property nvlist whose name and type entries read fails for what it
/// lacks, checked in order: no name entry is `property missing name`; a name
/// but no type entry is `property missing type`; a name and a type but no
/// value entry is `property "<name>" missing value`, naming the last name.
pub proof fn property_reports_what_it_lacks<F>(l: NvListData<F>, i: int)
    requires
        prop_entries_read(l.pairs@),
    ensures
        none_named(l.pairs@, TOPO_PROP_VAL_NAME@) ==> parse_property_spec(l)
            == Err::<PropertyView<F>, ErrorView>(ErrorView::Topo("property missing name"@)),
        !none_named(l.pairs@, TOPO_PROP_VAL_NAME@) && none_named(l.pairs@, TOPO_PROP_VAL_TYPE@)
            ==> parse_property_spec(l) == Err::<PropertyView<F>, ErrorView>(ErrorView::Topo("property missing type"@)),
        last_named(l.pairs@, i, TOPO_PROP_VAL_NAME@) && !none_named(l.pairs@, TOPO_PROP_VAL_TYPE@)
            && none_named(l.pairs@, TOPO_PROP_VAL_VAL@) ==> parse_property_spec(l)
            == Err::<PropertyView<F>, ErrorView>(ErrorView::Topo(
                "property "@ + debug_text(string_read(l.pairs@[i])->Ok_0) + " missing value"@)),
{
    let s = l.pairs@;
    lemma_entry_names_distinct();
    lemma_first_where(s, prop_unreadable_test::<F>());
    let b = first_where(s, prop_unreadable_test::<F>());
    if b < s.len() {
        assert(prop_unreadable_test::<F>()(s[b]));
        assert(false);
    }
    lemma_last_where(s, prop_key_test::<F>(1));
    lemma_last_where(s, prop_key_test::<F>(2));
    lemma_last_where(s, prop_key_test::<F>(3));
    let w1 = last_where(s, prop_key_test::<F>(1));
    let w2 = last_where(s, prop_key_test::<F>(2));
    let w3 = last_where(s, prop_key_test::<F>(3));
    if !none_named(s, TOPO_PROP_VAL_NAME@) {
        let m = choose|m: int| 0 <= m < s.len() && named(#[trigger] s[m], TOPO_PROP_VAL_NAME@);
        assert(prop_key_test::<F>(1)(s[m]));
    }
    if !none_named(s, TOPO_PROP_VAL_TYPE@) {
        let m = choose|m: int| 0 <= m < s.len() && named(#[trigger] s[m], TOPO_PROP_VAL_TYPE@);
        assert(prop_key_test::<F>(2)(s[m]));
    }
    if w1 >= 0 {
        assert(named(s[w1], TOPO_PROP_VAL_NAME@));
    }
    if w2 >= 0 {
        assert(named(s[w2], TOPO_PROP_VAL_TYPE@));
    }
    if w3 >= 0 {
        assert(named(s[w3], TOPO_PROP_VAL_VAL@));
    }
    if last_named(s, i, TOPO_PROP_VAL_NAME@) {
        assert forall|m: int| i < m < s.len() implies !prop_key_test::<F>(1)(#[trigger] s[m]) by {
            assert(!named(s[m], TOPO_PROP_VAL_NAME@));
        }
        lemma_last_at(s, prop_key_test::<F>(1), i);
    }
}

/// The first name or type entry of a property nvlist that does not read ends
/// the parse with that entry's own read error.
pub proof fn property_fails_at_first_unreadable_entry<F>(l: NvListData<F>, b: int)
    requires
        0 <= b < l.pairs@.len(),
        prop_entries_read(l.pairs@.take(b)),
        named(l.pairs@[b], TOPO_PROP_VAL_NAME@) && string_read(l.pairs@[b]) is Err
            || named(l.pairs@[b], TOPO_PROP_VAL_TYPE@) && uint32_read(l.pairs@[b]) is Err,
    ensures
        named(l.pairs@[b], TOPO_PROP_VAL_NAME@) ==> parse_property_spec(l)
            == Err::<PropertyView<F>, ErrorView>(string_read(l.pairs@[b])->Err_0),
        named(l.pairs@[b], TOPO_PROP_VAL_TYPE@) ==> parse_property_spec(l)
            == Err::<PropertyView<F>, ErrorView>(uint32_read(l.pairs@[b])->Err_0),
{
    let s = l.pairs@;
    lemma_entry_names_distinct();
    lemma_first_where(s, prop_unreadable_test::<F>());
    let f = first_where(s, prop_unreadable_test::<F>());
    assert(prop_unreadable_test::<F>()(s[b]));
    if f < b {
        assert(s.take(b)[f] == s[f]);
        assert(prop_unreadable_test::<F>()(s[f]));
        assert(false);
    }
}

/// A `property` entry of a group that reads as an nvlist.
pub open spec fn is_property_entry<F>(p: NvPairData<F>) -> bool {
    named(p, TOPO_PROP_VAL@) && p.reads.nvlist is Ok
}

/// The property an entry's nvlist parses to.
pub open spec fn entry_property<F>(p: NvPairData<F>) -> PropertyView<F> {
    parse_property_spec(p.reads.nvlist->Ok_0.contents)->Ok_0
}

proof fn lemma_group_properties_filter<F>(s: Seq<NvPairData<F>>)
    ensures
        group_properties(s) == s.filter(|p: NvPairData<F>| is_property_entry(p)).map_values(
            |p: NvPairData<F>| entry_property(p)),
    decreases s.len(),
{
    reveal(Seq::filter);
    lemma_entry_names_distinct();
    if s.len() > 0 {
        lemma_group_properties_filter(s.drop_last());
        let p = s.last();
        let pred = |p: NvPairData<F>| is_property_entry(p);
        let f = |p: NvPairData<F>| entry_property(p);
        let sub = s.drop_last().filter(pred);
        assert(group_key(p) == 5 <==> named(p, TOPO_PROP_VAL@));
        if pred(p) {
            assert(sub.push(p).map_values(f) =~= sub.map_values(f).push(f(p)));
        }
    }
}

/// A group's properties are exactly the parses of its `property` entries
/// that read as an nvlist, in order and whatever their value types; and when
/// the group parses, each of those entries parses.
pub proof fn group_keeps_every_property<F>(l: NvListData<F>)
    ensures
        parse_group_spec(l) matches Ok(g) ==> g.properties == l.pairs@.filter(
            |p: NvPairData<F>| is_property_entry(p)).map_values(|p: NvPairData<F>| entry_property(p)),
        parse_group_spec(l) is Ok ==> forall|m: int| 0 <= m < l.pairs@.len() && is_property_entry(#[trigger] l.pairs@[m])
            ==> parse_property_spec(l.pairs@[m].reads.nvlist->Ok_0.contents) is Ok,
{
    let s = l.pairs@;
    lemma_entry_names_distinct();
    lemma_group_properties_filter(s);
    lemma_first_where(s, group_fails_test::<F>());
    assert forall|m: int| 0 <= m < s.len() && is_property_entry(#[trigger] s[m]) && parse_group_spec(l) is Ok
        implies parse_property_spec(s[m].reads.nvlist->Ok_0.contents) is Ok by {
        assert(group_key(s[m]) == 5);
        assert(!group_fails_test::<F>()(s[m]));
    }
}

/// Whether `s[i]` is the last entry of `s` named `key`.
pub open spec fn last_named<F>(s: Seq<NvPairData<F>>, i: int, key: Seq<char>) -> bool {
    &&& 0 <= i < s.len()
    &&& named(s[i], key)
    &&& forall|m: int| i < m < s.len() ==> !named(#[trigger] s[m], key)
}

/// A parsed group takes its name from its last name entry, and each of its
/// name stability, data stability and version from its last entry of that
/// kind: the value that entry reads as, `None` when it does not read.
pub proof fn group_fields_are_their_last_entries<F>(l: NvListData<F>, i: int)
    ensures
        parse_group_spec(l) matches Ok(g) ==> (last_named(l.pairs@, i, TOPO_PROP_GROUP_NAME@)
            ==> g.name == string_read(l.pairs@[i])->Ok_0),
        parse_group_spec(l) matches Ok(g) ==> (last_named(l.pairs@, i, TOPO_PROP_GROUP_NSTAB@)
            ==> g.name_stability == string_read(l.pairs@[i]).ok()),
        parse_group_spec(l) matches Ok(g) ==> (last_named(l.pairs@, i, TOPO_PROP_GROUP_DSTAB@)
            ==> g.data_stability == string_read(l.pairs@[i]).ok()),
        parse_group_spec(l) matches Ok(g) ==> (last_named(l.pairs@, i, TOPO_PROP_GROUP_VERSION@)
            ==> g.version == int32_read(l.pairs@[i]).ok()),
{
    let s = l.pairs@;
    lemma_entry_names_distinct();
    if 0 <= i < s.len() {
        if last_named(s, i, TOPO_PROP_GROUP_NAME@) {
            assert forall|m: int| i < m < s.len() implies !group_key_test::<F>(1)(#[trigger] s[m]) by {
                assert(!named(s[m], TOPO_PROP_GROUP_NAME@));
            }
            lemma_last_at(s, group_key_test::<F>(1), i);
        }
        if last_named(s, i, TOPO_PROP_GROUP_NSTAB@) {
            assert forall|m: int| i < m < s.len() implies !group_key_test::<F>(2)(#[trigger] s[m]) by {
                assert(!named(s[m], TOPO_PROP_GROUP_NSTAB@));
            }
            assert(group_key(s[i]) == 2);
            lemma_last_at(s, group_key_test::<F>(2), i);
        }
        if last_named(s, i, TOPO_PROP_GROUP_DSTAB@) {
            assert forall|m: int| i < m < s.len() implies !group_key_test::<F>(3)(#[trigger] s[m]) by {
                assert(!named(s[m], TOPO_PROP_GROUP_DSTAB@));
            }
            assert(group_key(s[i]) == 3);
            lemma_last_at(s, group_key_test::<F>(3), i);
        }
        if last_named(s, i, TOPO_PROP_GROUP_VERSION@) {
            assert forall|m: int| i < m < s.len() implies !group_key_test::<F>(4)(#[trigger] s[m]) by {
                assert(!named(s[m], TOPO_PROP_GROUP_VERSION@));
            }
            assert(group_key(s[i]) == 4);
            lemma_last_at(s, group_key_test::<F>(4), i);
        }
    }
}

/// A group nvlist without a name entry, whose property entries all parse,
/// fails with `property group missing name`.
pub proof fn group_without_name_is_reported<F>(l: NvListData<F>)
    requires
        none_named(l.pairs@, TOPO_PROP_GROUP_NAME@),
        forall|m: int| 0 <= m < l.pairs@.len() && is_property_entry(#[trigger] l.pairs@[m])
            ==> parse_property_spec(l.pairs@[m].reads.nvlist->Ok_0.contents) is Ok,
    ensures
        parse_group_spec(l) == Err::<PropertyGroupView<F>, ErrorView>(ErrorView::Topo("property group missing name"@)),
{
    let s = l.pairs@;
    lemma_entry_names_distinct();
    lemma_first_where(s, group_fails_test::<F>());
    let b = first_where(s, group_fails_test::<F>());
    if b < s.len() {
        assert(group_fails_test::<F>()(s[b]));
        assert(group_key(s[b]) == 5 ==> is_property_entry(s[b]));
        assert(false);
    }
    lemma_last_where(s, group_key_test::<F>(1));
    let w = last_where(s, group_key_test::<F>(1));
    if w >= 0 {
        assert(named(s[w], TOPO_PROP_GROUP_NAME@));
    }
}

/// The first entry of a group nvlist that fails (a name entry that does not
/// read, or a property entry whose nvlist does not parse) ends the parse
/// with that entry's own error.
pub proof fn group_fails_at_first_bad_entry<F>(l: NvListData<F>, b: int)
    requires
        0 <= b < l.pairs@.len(),
        forall|m: int| 0 <= m < b && named(#[trigger] l.pairs@[m], TOPO_PROP_GROUP_NAME@)
            ==> string_read(l.pairs@[m]) is Ok,
        forall|m: int| 0 <= m < b && is_property_entry(#[trigger] l.pairs@[m])
            ==> parse_property_spec(l.pairs@[m].reads.nvlist->Ok_0.contents) is Ok,
    ensures
        named(l.pairs@[b], TOPO_PROP_GROUP_NAME@) && string_read(l.pairs@[b]) is Err ==> parse_group_spec(l)
            == Err::<PropertyGroupView<F>, ErrorView>(string_read(l.pairs@[b])->Err_0),
        is_property_entry(l.pairs@[b]) && parse_property_spec(l.pairs@[b].reads.nvlist->Ok_0.contents) is Err
            ==> parse_group_spec(l) == Err::<PropertyGroupView<F>, ErrorView>(
                parse_property_spec(l.pairs@[b].reads.nvlist->Ok_0.contents)->Err_0),
{
    let s = l.pairs@;
    lemma_entry_names_distinct();
    lemma_first_where(s, group_fails_test::<F>());
    let f = first_where(s, group_fails_test::<F>());
    if group_fails_test::<F>()(s[b]) && f < b {
        assert(group_fails_test::<F>()(s[f]));
        assert(group_key(s[f]) == 5 ==> is_property_entry(s[f]));
        assert(false);
    }
    if named(s[b], TOPO_PROP_GROUP_NAME@) && string_read(s[b]) is Err {
        assert(group_fails_test::<F>()(s[b]));
    }
    if is_property_entry(s[b]) && parse_property_spec(s[b].reads.nvlist->Ok_0.contents) is Err {
        assert(group_key(s[b]) == 5);
        assert(group_fails_test::<F>()(s[b]));
    }
}

/// The first `property-group` entry of a node's property nvlist whose group
/// fails to parse ends the parse with that group's own error.
pub proof fn node_fails_at_first_bad_group<F>(l: NvListData<F>, b: int)
    requires
        0 <= b < l.pairs@.len(),
        is_group_list_entry(l.pairs@[b]),
        parse_group_spec(l.pairs@[b].reads.nvlist->Ok_0.contents) is Err,
        forall|m: int| 0 <= m < b && is_group_list_entry(#[trigger] l.pairs@[m])
            ==> parse_group_spec(l.pairs@[m].reads.nvlist->Ok_0.contents) is Ok,
    ensures
        parse_groups_spec(l) == Err::<Seq<PropertyGroupView<F>>, ErrorView>(
            parse_group_spec(l.pairs@[b].reads.nvlist->Ok_0.contents)->Err_0),
{
    let s = l.pairs@;
    lemma_first_where(s, group_list_fails_test::<F>());
    let f = first_where(s, group_list_fails_test::<F>());
    assert(group_list_fails_test::<F>()(s[b]));
    if f < b {
        assert(group_list_fails_test::<F>()(s[f]));
        assert(false);
    }
}

/// The group an entry's nvlist parses to.
pub open spec fn entry_group<F>(p: NvPairData<F>) -> PropertyGroupView<F> {
    parse_group_spec(p.reads.nvlist->Ok_0.contents)->Ok_0
}

/// A `property-group` entry of a node's property nvlist that reads as an
/// nvlist.
pub open spec fn is_group_list_entry<F>(p: NvPairData<F>) -> bool {
    named(p, TOPO_PROP_GROUP@) && p.reads.nvlist is Ok
}

proof fn lemma_node_groups_filter<F>(s: Seq<NvPairData<F>>)
    ensures
        node_groups(s) == s.filter(|p: NvPairData<F>| is_group_list_entry(p)).map_values(
            |p: NvPairData<F>| entry_group(p)),
    decreases s.len(),
{
    reveal(Seq::filter);
    if s.len() > 0 {
        lemma_node_groups_filter(s.drop_last());
        let p = s.last();
        let pred = |p: NvPairData<F>| is_group_list_entry(p);
        let f = |p: NvPairData<F>| entry_group(p);
        let sub = s.drop_last().filter(pred);
        assert(is_group_entry(p) == pred(p));
        if pred(p) {
            assert(sub.push(p).map_values(f) =~= sub.map_values(f).push(f(p)));
        }
    }
}

/// A node's groups are exactly the parses of its `property-group` entries
/// that read as an nvlist: the i-th group is the parse of the i-th such
/// entry, properties included; and when the node's list parses, each of
/// those entries parses.
pub proof fn node_groups_are_their_entries_parsed<F>(l: NvListData<F>)
    ensures
        parse_groups_spec(l) matches Ok(gs) ==> gs == l.pairs@.filter(
            |p: NvPairData<F>| is_group_list_entry(p)).map_values(|p: NvPairData<F>| entry_group(p)),
        parse_groups_spec(l) is Ok ==> forall|m: int| 0 <= m < l.pairs@.len() && is_group_list_entry(#[trigger] l.pairs@[m])
            ==> parse_group_spec(l.pairs@[m].reads.nvlist->Ok_0.contents) is Ok,
{
    let s = l.pairs@;
    lemma_node_groups_filter(s);
    lemma_first_where(s, group_list_fails_test::<F>());
    assert forall|m: int| 0 <= m < s.len() && is_group_list_entry(#[trigger] s[m]) && parse_groups_spec(l) is Ok
        implies parse_group_spec(s[m].reads.nvlist->Ok_0.contents) is Ok by {
        assert(!group_list_fails_test::<F>()(s[m]));
    }
}

} // verus!
