use vstd::prelude::*;
use vstd::string::*;

use crate::consts::{
    DATA_TYPE_BOOLEAN_VALUE, DATA_TYPE_DOUBLE, DATA_TYPE_INT32, DATA_TYPE_INT32_ARRAY,
    DATA_TYPE_INT64, DATA_TYPE_INT64_ARRAY, DATA_TYPE_NVLIST, DATA_TYPE_NVLIST_ARRAY,
    DATA_TYPE_STRING, DATA_TYPE_STRING_ARRAY, DATA_TYPE_UINT32, DATA_TYPE_UINT32_ARRAY,
    DATA_TYPE_UINT64, DATA_TYPE_UINT64_ARRAY, TOPO_TYPE_BOOLEAN,
    TOPO_TYPE_DOUBLE, TOPO_TYPE_FMRI, TOPO_TYPE_FMRI_ARRAY, TOPO_TYPE_INT32,
    TOPO_TYPE_INT32_ARRAY, TOPO_TYPE_INT64, TOPO_TYPE_INT64_ARRAY, TOPO_TYPE_SIZE,
    TOPO_TYPE_STRING, TOPO_TYPE_STRING_ARRAY, TOPO_TYPE_TIME, TOPO_TYPE_UINT32,
    TOPO_TYPE_UINT32_ARRAY, TOPO_TYPE_UINT64, TOPO_TYPE_UINT64_ARRAY, TOPO_PROP_VAL_NAME,
    TOPO_PROP_VAL_TYPE, TOPO_PROP_VAL_VAL, TOPO_PROP_GROUP_NAME, TOPO_PROP_GROUP_NSTAB,
    TOPO_PROP_GROUP_DSTAB, TOPO_PROP_GROUP_VERSION, TOPO_PROP_VAL, TOPO_PROP_GROUP,
};
use crate::error::{c_string_check, errmsg_spec, errmsg_text, Error, ErrorView};
use crate::handle::opt_text;
use crate::nvlist::{
    int32_read, is_named, named, read_error, read_error_view, read_int32, read_string, read_uint32,
    refusal, string_read, uint32_read, NvListData, NvPairData,
};
use crate::seqs::{
    first_where, last_where, lemma_first_where, lemma_first_where_prefix, lemma_first_where_step,
    lemma_last_where, lemma_last_where_step,
};
use crate::text::{debug_quoted, debug_text, decimal_i32, decimal_int};

verus! {

/// A property value, decoded from libtopo's `TOPO_TYPE_*` codes; `F` is the
/// owned FMRI an FMRI-typed value holds.
///
/// A `double` is kept as its IEEE-754 bit pattern.
#[derive(Debug)]
pub enum PropValue<F> {
    Boolean(bool),
    Int32(i32),
    UInt32(u32),
    Int64(i64),
    UInt64(u64),
    Double(u64),
    String(String),
    Fmri(F),
    /// A `TOPO_TYPE_TIME` value, an int64 timestamp at the nvpair layer.
    Time(i64),
    /// A `TOPO_TYPE_SIZE` value, a uint64 size in bytes at the nvpair layer.
    Size(u64),
    Int32Array(Vec<i32>),
    UInt32Array(Vec<u32>),
    Int64Array(Vec<i64>),
    UInt64Array(Vec<u64>),
    StringArray(Vec<String>),
    /// A `TOPO_TYPE_FMRI_ARRAY` value, each entry an independently owned FMRI.
    FmriArray(Vec<F>),
    /// An unknown `TOPO_TYPE_*` code.
    Unknown { type_code: u32 },
}

/// The value of a [`PropValue`], its strings and vectors taken as sequences.
pub enum PropValueView<F> {
    Boolean(bool),
    Int32(i32),
    UInt32(u32),
    Int64(i64),
    UInt64(u64),
    Double(u64),
    String(Seq<char>),
    Fmri(F),
    Time(i64),
    Size(u64),
    Int32Array(Seq<i32>),
    UInt32Array(Seq<u32>),
    Int64Array(Seq<i64>),
    UInt64Array(Seq<u64>),
    StringArray(Seq<Seq<char>>),
    FmriArray(Seq<F>),
    Unknown { type_code: u32 },
}

impl<F> View for PropValue<F> {
    type V = PropValueView<F>;

    open spec fn view(&self) -> PropValueView<F> {
        match self {
            PropValue::Boolean(b) => PropValueView::Boolean(*b),
            PropValue::Int32(v) => PropValueView::Int32(*v),
            PropValue::UInt32(v) => PropValueView::UInt32(*v),
            PropValue::Int64(v) => PropValueView::Int64(*v),
            PropValue::UInt64(v) => PropValueView::UInt64(*v),
            PropValue::Double(v) => PropValueView::Double(*v),
            PropValue::String(s) => PropValueView::String(s@),
            PropValue::Fmri(f) => PropValueView::Fmri(*f),
            PropValue::Time(v) => PropValueView::Time(*v),
            PropValue::Size(v) => PropValueView::Size(*v),
            PropValue::Int32Array(v) => PropValueView::Int32Array(v@),
            PropValue::UInt32Array(v) => PropValueView::UInt32Array(v@),
            PropValue::Int64Array(v) => PropValueView::Int64Array(v@),
            PropValue::UInt64Array(v) => PropValueView::UInt64Array(v@),
            PropValue::StringArray(v) => PropValueView::StringArray(v@.map_values(|s: String| s@)),
            PropValue::FmriArray(v) => PropValueView::FmriArray(v@),
            PropValue::Unknown { type_code } => PropValueView::Unknown { type_code: *type_code },
        }
    }
}

/// A result's value, with the error taken by its view.
pub open spec fn result_view<T: View>(r: Result<T, Error>) -> Result<T::V, ErrorView> {
    match r {
        Ok(v) => Ok(v@),
        Err(e) => Err(e@),
    }
}

/// A null entry of a string array.
pub open spec fn null_string_entry(o: Option<String>) -> bool {
    o is None
}

/// The test for a null entry of a string array.
pub open spec fn null_string_test() -> spec_fn(Option<String>) -> bool {
    |o: Option<String>| null_string_entry(o)
}

/// The test for an FMRI-array entry that is null or failed to duplicate.
pub open spec fn bad_fmri_test<F>() -> spec_fn(Option<Result<F, i32>>) -> bool {
    |o: Option<Result<F, i32>>| bad_fmri_entry(o)
}

/// An FMRI-array entry that is null or failed to duplicate.
pub open spec fn bad_fmri_entry<F>(o: Option<Result<F, i32>>) -> bool {
    match o {
        None => true,
        Some(c) => c is Err,
    }
}

/// Whether array entry `o` is present and was duplicated as `f`.
pub open spec fn copied_as<F>(o: Option<Result<F, i32>>, f: F) -> bool {
    o == Some(Ok::<F, i32>(f))
}

/// The message when duplicating an FMRI value failed with `rc`.
pub open spec fn fmri_dup_failed_text(rc: i32) -> Seq<char> {
    "nvlist_dup failed for FMRI: "@ + decimal_int(rc as int)
}

/// The message when duplicating an entry of an FMRI array failed with `rc`.
pub open spec fn fmri_array_dup_failed_text(rc: i32) -> Seq<char> {
    "nvlist_dup failed in FMRI array: "@ + decimal_int(rc as int)
}

/// Decoding a string-array pair: its strings, or a failure at the first null entry.
pub open spec fn decode_string_array<F>(v: Seq<Option<String>>) -> Result<PropValueView<F>, ErrorView> {
    if first_where(v, null_string_test()) < v.len() {
        Err(ErrorView::Topo("null entry in string array"@))
    } else {
        Ok(PropValueView::StringArray(v.map_values(|o: Option<String>| o->0@)))
    }
}

/// Decoding an FMRI-array pair: the duplicated FMRIs, or a failure at the
/// first entry that is null or failed to duplicate.
pub open spec fn decode_fmri_array<F>(v: Seq<Option<Result<F, i32>>>) -> Result<PropValueView<F>, ErrorView> {
    let i = first_where(v, bad_fmri_test::<F>());
    if i < v.len() {
        match v[i] {
            None => Err(ErrorView::Topo("null nvlist in FMRI array"@)),
            Some(c) => Err(ErrorView::Topo(fmri_array_dup_failed_text(c->Err_0))),
        }
    } else {
        Ok(PropValueView::FmriArray(v.map_values(|o: Option<Result<F, i32>>| o->0->Ok_0)))
    }
}

/// What decoding the value pair `p` as libtopo type `type_code` gives: the
/// pair read with the accessor of the nvpair type that `type_code` stands
/// for, or the read error carrying the code with which that accessor refused
/// the pair; any other code gives [`PropValue::Unknown`] without reading the
/// pair.
pub open spec fn decode_spec<F>(type_code: u32, p: NvPairData<F>) -> Result<PropValueView<F>, ErrorView> {
    if type_code == TOPO_TYPE_BOOLEAN {
        match p.reads.boolean_value {
            Ok(v) => Ok(PropValueView::Boolean(v)),
            Err(rc) => Err(read_error_view(p, DATA_TYPE_BOOLEAN_VALUE, rc)),
        }
    } else if type_code == TOPO_TYPE_INT32 {
        match p.reads.int32 {
            Ok(v) => Ok(PropValueView::Int32(v)),
            Err(rc) => Err(read_error_view(p, DATA_TYPE_INT32, rc)),
        }
    } else if type_code == TOPO_TYPE_UINT32 {
        match p.reads.uint32 {
            Ok(v) => Ok(PropValueView::UInt32(v)),
            Err(rc) => Err(read_error_view(p, DATA_TYPE_UINT32, rc)),
        }
    } else if type_code == TOPO_TYPE_INT64 {
        match p.reads.int64 {
            Ok(v) => Ok(PropValueView::Int64(v)),
            Err(rc) => Err(read_error_view(p, DATA_TYPE_INT64, rc)),
        }
    } else if type_code == TOPO_TYPE_UINT64 {
        match p.reads.uint64 {
            Ok(v) => Ok(PropValueView::UInt64(v)),
            Err(rc) => Err(read_error_view(p, DATA_TYPE_UINT64, rc)),
        }
    } else if type_code == TOPO_TYPE_DOUBLE {
        match p.reads.double {
            Ok(v) => Ok(PropValueView::Double(v)),
            Err(rc) => Err(read_error_view(p, DATA_TYPE_DOUBLE, rc)),
        }
    } else if type_code == TOPO_TYPE_STRING {
        match string_read(p) {
            Ok(s) => Ok(PropValueView::String(s)),
            Err(e) => Err(e),
        }
    } else if type_code == TOPO_TYPE_FMRI {
        match p.reads.nvlist {
            Ok(n) => match n.copy {
                Some(Ok(f)) => Ok(PropValueView::Fmri(f)),
                Some(Err(rc)) => Err(ErrorView::Topo(fmri_dup_failed_text(rc))),
                None => Err(read_error_view(p, DATA_TYPE_NVLIST, 0)),
            },
            Err(rc) => Err(read_error_view(p, DATA_TYPE_NVLIST, rc)),
        }
    } else if type_code == TOPO_TYPE_TIME {
        match p.reads.int64 {
            Ok(v) => Ok(PropValueView::Time(v)),
            Err(rc) => Err(read_error_view(p, DATA_TYPE_INT64, rc)),
        }
    } else if type_code == TOPO_TYPE_SIZE {
        match p.reads.uint64 {
            Ok(v) => Ok(PropValueView::Size(v)),
            Err(rc) => Err(read_error_view(p, DATA_TYPE_UINT64, rc)),
        }
    } else if type_code == TOPO_TYPE_INT32_ARRAY {
        match p.reads.int32_array {
            Ok(v) => Ok(PropValueView::Int32Array(v@)),
            Err(rc) => Err(read_error_view(p, DATA_TYPE_INT32_ARRAY, rc)),
        }
    } else if type_code == TOPO_TYPE_UINT32_ARRAY {
        match p.reads.uint32_array {
            Ok(v) => Ok(PropValueView::UInt32Array(v@)),
            Err(rc) => Err(read_error_view(p, DATA_TYPE_UINT32_ARRAY, rc)),
        }
    } else if type_code == TOPO_TYPE_INT64_ARRAY {
        match p.reads.int64_array {
            Ok(v) => Ok(PropValueView::Int64Array(v@)),
            Err(rc) => Err(read_error_view(p, DATA_TYPE_INT64_ARRAY, rc)),
        }
    } else if type_code == TOPO_TYPE_UINT64_ARRAY {
        match p.reads.uint64_array {
            Ok(v) => Ok(PropValueView::UInt64Array(v@)),
            Err(rc) => Err(read_error_view(p, DATA_TYPE_UINT64_ARRAY, rc)),
        }
    } else if type_code == TOPO_TYPE_STRING_ARRAY {
        match p.reads.string_array {
            Ok(v) => decode_string_array(v@),
            Err(rc) => Err(read_error_view(p, DATA_TYPE_STRING_ARRAY, rc)),
        }
    } else if type_code == TOPO_TYPE_FMRI_ARRAY {
        match p.reads.nvlist_array {
            Ok(v) => decode_fmri_array(v@),
            Err(rc) => Err(read_error_view(p, DATA_TYPE_NVLIST_ARRAY, rc)),
        }
    } else {
        Ok(PropValueView::Unknown { type_code })
    }
}

/// The strings of a string array, failing at the first null entry.
fn decode_strings<F>(v: &Vec<Option<String>>) -> (r: Result<PropValue<F>, Error>)
    ensures
        result_view(r) == decode_string_array::<F>(v@),
{
    let ghost p = null_string_test();
    let mut out: Vec<String> = Vec::new();
    let mut i: usize = 0;
    while i < v.len()
        invariant
            p == null_string_test(),
            i <= v@.len(),
            first_where(v@.take(i as int), p) == i,
            out@.len() == i,
            forall|j: int| 0 <= j < i ==> v@[j] == Some(#[trigger] out@[j]),
        decreases v@.len() - i,
    {
        proof {
            lemma_first_where_step(v@, p, i as int);
        }
        match &v[i] {
            Some(text) => {
                let c = text.clone();
                let ghost old_out = out@;
                out.push(c);
                assert(v@[i as int] == Some(c));
                assert forall|j: int| 0 <= j < i + 1 implies v@[j] == Some(#[trigger] out@[j]) by {
                    if j < i {
                        assert(out@[j] == old_out[j]);
                    }
                }
            },
            None => {
                proof {
                    lemma_first_where_prefix(v@, p, i + 1);
                }
                return Err(Error::Topo(String::from_str("null entry in string array")));
            },
        }
        i = i + 1;
    }
    proof {
        assert(v@.take(v@.len() as int) =~= v@);
        assert(out@.map_values(|s: String| s@) =~= v@.map_values(|o: Option<String>| o->0@));
    }
    Ok(PropValue::StringArray(out))
}

/// The duplicated FMRIs of an FMRI array, failing at the first entry that is
/// null or failed to duplicate.
fn decode_fmris<F>(entries: Vec<Option<Result<F, i32>>>) -> (r: Result<PropValue<F>, Error>)
    ensures
        result_view(r) == decode_fmri_array(entries@),
{
    let ghost orig = entries@;
    let ghost p = bad_fmri_test::<F>();
    let mut v = entries;
    let mut out: Vec<F> = Vec::new();
    let ghost mut k: int = 0;
    while v.len() > 0
        invariant
            p == bad_fmri_test::<F>(),
            orig == entries@,
            0 <= k <= orig.len(),
            v@ == orig.skip(k),
            first_where(orig.take(k), p) == k,
            out@.len() == k,
            forall|j: int| 0 <= j < k ==> copied_as(orig[j], #[trigger] out@[j]),
        decreases v@.len(),
    {
        proof {
            lemma_first_where_step(orig, p, k);
        }
        let e = v.remove(0);
        assert(e == orig[k]);
        let c = match e {
            Some(c) => c,
            None => {
                proof {
                    lemma_first_where_prefix(orig, p, k + 1);
                }
                return Err(Error::Topo(String::from_str("null nvlist in FMRI array")));
            },
        };
        let f = match c {
            Ok(f) => f,
            Err(rc) => {
                proof {
                    lemma_first_where_prefix(orig, p, k + 1);
                }
                let d = decimal_i32(rc);
                return Err(Error::Topo(String::from_str("nvlist_dup failed in FMRI array: ").concat(d.as_str())));
            },
        };
        assert(orig[k] == Some(Ok::<F, i32>(f)));
        let ghost old_out = out@;
        out.push(f);
        assert forall|j: int| 0 <= j < k + 1 implies copied_as(orig[j], #[trigger] out@[j]) by {
            if j < k {
                assert(out@[j] == old_out[j]);
            }
        }
        proof {
            k = k + 1;
            assert(v@ =~= orig.skip(k));
        }
    }
    proof {
        assert(orig.skip(k).len() == 0);
        assert(orig.take(k) =~= orig);
        assert(out@ =~= orig.map_values(|o: Option<Result<F, i32>>| o->0->Ok_0));
    }
    Ok(PropValue::FmriArray(out))
}

/// Decode the value pair `p` of a property whose `property-type` is
/// `type_code`.
///
/// The pair is read with the accessor of the nvpair type that `type_code`
/// stands for; when that accessor refused the pair, the read error carries
/// its return code (no value is made up). An FMRI is duplicated into an
/// independently owned `F`. Any other code gives [`PropValue::Unknown`].
pub fn decode_prop_value<F>(type_code: u32, p: NvPairData<F>) -> (r: Result<PropValue<F>, Error>)
    ensures
        result_view(r) == decode_spec(type_code, p),
{
    let NvPairData { name, reads } = p;
    if type_code == TOPO_TYPE_BOOLEAN {
        match reads.boolean_value {
            Ok(v) => Ok(PropValue::Boolean(v)),
            Err(rc) => Err(read_error(&name, DATA_TYPE_BOOLEAN_VALUE, rc)),
        }
    } else if type_code == TOPO_TYPE_INT32 {
        match reads.int32 {
            Ok(v) => Ok(PropValue::Int32(v)),
            Err(rc) => Err(read_error(&name, DATA_TYPE_INT32, rc)),
        }
    } else if type_code == TOPO_TYPE_UINT32 {
        match reads.uint32 {
            Ok(v) => Ok(PropValue::UInt32(v)),
            Err(rc) => Err(read_error(&name, DATA_TYPE_UINT32, rc)),
        }
    } else if type_code == TOPO_TYPE_INT64 {
        match reads.int64 {
            Ok(v) => Ok(PropValue::Int64(v)),
            Err(rc) => Err(read_error(&name, DATA_TYPE_INT64, rc)),
        }
    } else if type_code == TOPO_TYPE_UINT64 {
        match reads.uint64 {
            Ok(v) => Ok(PropValue::UInt64(v)),
            Err(rc) => Err(read_error(&name, DATA_TYPE_UINT64, rc)),
        }
    } else if type_code == TOPO_TYPE_DOUBLE {
        match reads.double {
            Ok(v) => Ok(PropValue::Double(v)),
            Err(rc) => Err(read_error(&name, DATA_TYPE_DOUBLE, rc)),
        }
    } else if type_code == TOPO_TYPE_STRING {
        match reads.string {
            Ok(Some(s)) => Ok(PropValue::String(s)),
            Ok(None) => Err(read_error(&name, DATA_TYPE_STRING, 0)),
            Err(rc) => Err(read_error(&name, DATA_TYPE_STRING, rc)),
        }
    } else if type_code == TOPO_TYPE_FMRI {
        match reads.nvlist {
            Ok(n) => match n.copy {
                Some(Ok(f)) => Ok(PropValue::Fmri(f)),
                Some(Err(rc)) => {
                    let d = decimal_i32(rc);
                    Err(Error::Topo(String::from_str("nvlist_dup failed for FMRI: ").concat(d.as_str())))
                },
                None => Err(read_error(&name, DATA_TYPE_NVLIST, 0)),
            },
            Err(rc) => Err(read_error(&name, DATA_TYPE_NVLIST, rc)),
        }
    } else if type_code == TOPO_TYPE_TIME {
        match reads.int64 {
            Ok(v) => Ok(PropValue::Time(v)),
            Err(rc) => Err(read_error(&name, DATA_TYPE_INT64, rc)),
        }
    } else if type_code == TOPO_TYPE_SIZE {
        match reads.uint64 {
            Ok(v) => Ok(PropValue::Size(v)),
            Err(rc) => Err(read_error(&name, DATA_TYPE_UINT64, rc)),
        }
    } else if type_code == TOPO_TYPE_INT32_ARRAY {
        match reads.int32_array {
            Ok(v) => Ok(PropValue::Int32Array(v)),
            Err(rc) => Err(read_error(&name, DATA_TYPE_INT32_ARRAY, rc)),
        }
    } else if type_code == TOPO_TYPE_UINT32_ARRAY {
        match reads.uint32_array {
            Ok(v) => Ok(PropValue::UInt32Array(v)),
            Err(rc) => Err(read_error(&name, DATA_TYPE_UINT32_ARRAY, rc)),
        }
    } else if type_code == TOPO_TYPE_INT64_ARRAY {
        match reads.int64_array {
            Ok(v) => Ok(PropValue::Int64Array(v)),
            Err(rc) => Err(read_error(&name, DATA_TYPE_INT64_ARRAY, rc)),
        }
    } else if type_code == TOPO_TYPE_UINT64_ARRAY {
        match reads.uint64_array {
            Ok(v) => Ok(PropValue::UInt64Array(v)),
            Err(rc) => Err(read_error(&name, DATA_TYPE_UINT64_ARRAY, rc)),
        }
    } else if type_code == TOPO_TYPE_STRING_ARRAY {
        match reads.string_array {
            Ok(v) => decode_strings(&v),
            Err(rc) => Err(read_error(&name, DATA_TYPE_STRING_ARRAY, rc)),
        }
    } else if type_code == TOPO_TYPE_FMRI_ARRAY {
        match reads.nvlist_array {
            Ok(v) => decode_fmris(v),
            Err(rc) => Err(read_error(&name, DATA_TYPE_NVLIST_ARRAY, rc)),
        }
    } else {
        Ok(PropValue::Unknown { type_code })
    }
}

/// A single property of a property group: its name and decoded value.
#[derive(Debug)]
pub struct Property<F> {
    pub name: String,
    pub value: PropValue<F>,
}

/// The value of a [`Property`].
pub struct PropertyView<F> {
    pub name: Seq<char>,
    pub value: PropValueView<F>,
}

impl<F> View for Property<F> {
    type V = PropertyView<F>;

    open spec fn view(&self) -> PropertyView<F> {
        PropertyView { name: self.name@, value: self.value@ }
    }
}

/// Which entry of a property nvlist pair `p` is: 1 for `property-name`, 2
/// for `property-type`, 3 for `property-value`, 0 for anything else
/// (including a pair without a name).
pub open spec fn prop_key<F>(p: NvPairData<F>) -> int {
    if named(p, TOPO_PROP_VAL_NAME@) {
        1
    } else if named(p, TOPO_PROP_VAL_TYPE@) {
        2
    } else if named(p, TOPO_PROP_VAL_VAL@) {
        3
    } else {
        0
    }
}

/// The test for a property entry of kind `k`.
pub open spec fn prop_key_test<F>(k: int) -> spec_fn(NvPairData<F>) -> bool {
    |p: NvPairData<F>| prop_key(p) == k
}

/// A `property-name` entry that does not read as a string, or a
/// `property-type` entry that does not read as a `uint32`: the failed read
/// ends the parse.
pub open spec fn prop_entry_unreadable<F>(p: NvPairData<F>) -> bool {
    (prop_key(p) == 1 && string_read(p) is Err) || (prop_key(p) == 2 && uint32_read(p) is Err)
}

/// The test for an unreadable property entry.
pub open spec fn prop_unreadable_test<F>() -> spec_fn(NvPairData<F>) -> bool {
    |p: NvPairData<F>| prop_entry_unreadable(p)
}

/// The property name found in the pairs: that of the last `property-name`.
pub open spec fn scan_prop_name<F>(s: Seq<NvPairData<F>>) -> Option<Seq<char>> {
    let i = last_where(s, prop_key_test::<F>(1));
    if i >= 0 { Some(string_read(s[i])->Ok_0) } else { None }
}

/// The property type found in the pairs: that of the last `property-type`.
pub open spec fn scan_prop_type<F>(s: Seq<NvPairData<F>>) -> Option<u32> {
    let i = last_where(s, prop_key_test::<F>(2));
    if i >= 0 { Some(uint32_read(s[i])->Ok_0) } else { None }
}

/// The message of a property without a value.
pub open spec fn missing_value_text(name: Seq<char>) -> Seq<char> {
    "property "@ + debug_text(name) + " missing value"@
}

/// What parsing a property nvlist gives.
///
/// The pairs are visited in order; an unreadable `property-name` or
/// `property-type` ends the parse with its read error. Otherwise the last
/// `property-name`, `property-type` and `property-value` entries count; any
/// missing one is an error, checked in that order; the value is decoded as
/// the type says.
pub open spec fn parse_property_spec<F>(l: NvListData<F>) -> Result<PropertyView<F>, ErrorView> {
    let s = l.pairs@;
    let b = first_where(s, prop_unreadable_test::<F>());
    if b < s.len() {
        if prop_key(s[b]) == 1 {
            Err(string_read(s[b])->Err_0)
        } else {
            Err(uint32_read(s[b])->Err_0)
        }
    } else {
        let vi = last_where(s, prop_key_test::<F>(3));
        match scan_prop_name(s) {
            None => Err(ErrorView::Topo("property missing name"@)),
            Some(name) => match scan_prop_type(s) {
                None => Err(ErrorView::Topo("property missing type"@)),
                Some(t) => if vi < 0 {
                    Err(ErrorView::Topo(missing_value_text(name)))
                } else {
                    match decode_spec(t, s[vi]) {
                        Ok(v) => Ok(PropertyView { name, value: v }),
                        Err(e) => Err(e),
                    }
                },
            },
        }
    }
}

/// Parse a single-property nvlist into a [`Property`].
///
/// libtopo property nvlists carry three entries: `property-name` (string),
/// `property-type` (uint32) and `property-value` (typed value). Any missing
/// entry results in an `Err` return.
pub fn parse_property<F>(list: NvListData<F>) -> (r: Result<Property<F>, Error>)
    ensures
        result_view(r) == parse_property_spec(list),
{
    let ghost s = list.pairs@;
    let ghost bad = prop_unreadable_test::<F>();
    let mut pairs = list.pairs;
    let mut name: Option<String> = None;
    let mut type_code: Option<u32> = None;
    let mut value_at: Option<usize> = None;
    let mut i: usize = 0;
    while i < pairs.len()
        invariant
            s == list.pairs@,
            bad == prop_unreadable_test::<F>(),
            pairs@ == s,
            i <= s.len(),
            first_where(s.take(i as int), bad) == i,
            opt_text(name) == scan_prop_name(s.take(i as int)),
            type_code == scan_prop_type(s.take(i as int)),
            value_at matches Some(j) ==> j as int == last_where(s.take(i as int), prop_key_test::<F>(3)),
            value_at is None ==> last_where(s.take(i as int), prop_key_test::<F>(3)) == -1,
        decreases s.len() - i,
    {
        let ghost ii = i as int;
        proof {
            lemma_first_where_step(s, bad, ii);
            lemma_last_where_step(s, prop_key_test::<F>(1), ii);
            lemma_last_where_step(s, prop_key_test::<F>(2), ii);
            lemma_last_where_step(s, prop_key_test::<F>(3), ii);
            assert(s.take(ii + 1)[ii] == s[ii]);
            lemma_last_where(s.take(ii), prop_key_test::<F>(1));
            lemma_last_where(s.take(ii), prop_key_test::<F>(2));
            assert forall|j: int| 0 <= j < ii implies #[trigger] s.take(ii + 1)[j] == s.take(ii)[j] by {}
        }
        let p = &pairs[i];
        if is_named(p, TOPO_PROP_VAL_NAME) {
            match read_string(p) {
                Ok(v) => {
                    name = Some(v);
                },
                Err(e) => {
                    proof {
                        lemma_first_where_prefix(s, bad, ii + 1);
                    }
                    return Err(e);
                },
            }
        } else if is_named(p, TOPO_PROP_VAL_TYPE) {
            match read_uint32(p) {
                Ok(v) => {
                    type_code = Some(v);
                },
                Err(e) => {
                    proof {
                        lemma_first_where_prefix(s, bad, ii + 1);
                    }
                    return Err(e);
                },
            }
        } else if is_named(p, TOPO_PROP_VAL_VAL) {
            value_at = Some(i);
        }
        i = i + 1;
    }
    proof {
        assert(s.take(s.len() as int) =~= s);
        lemma_last_where(s, prop_key_test::<F>(3));
    }
    let name = match name {
        Some(n) => n,
        None => {
            return Err(Error::Topo(String::from_str("property missing name")));
        },
    };
    let type_code = match type_code {
        Some(t) => t,
        None => {
            return Err(Error::Topo(String::from_str("property missing type")));
        },
    };
    let value_at = match value_at {
        Some(j) => j,
        None => {
            let q = debug_quoted(name.as_str());
            return Err(Error::Topo(String::from_str("property ").concat(q.as_str()).concat(" missing value")));
        },
    };
    let value_pair = pairs.remove(value_at);
    match decode_prop_value(type_code, value_pair) {
        Ok(value) => Ok(Property { name, value }),
        Err(e) => Err(e),
    }
}

/// A property group on a node.
#[derive(Debug)]
pub struct PropertyGroup<F> {
    pub name: String,
    /// libtopo's per-group name-stability label (e.g. `"Private"`,
    /// `"Stable"`); `None` if the entry was absent or unreadable.
    pub name_stability: Option<String>,
    /// libtopo's per-group data-stability label; `None` if the entry was
    /// absent or unreadable.
    pub data_stability: Option<String>,
    /// libtopo's per-group version; `None` if the entry was absent or
    /// unreadable.
    pub version: Option<i32>,
    pub properties: Vec<Property<F>>,
}

/// The value of a [`PropertyGroup`].
pub struct PropertyGroupView<F> {
    pub name: Seq<char>,
    pub name_stability: Option<Seq<char>>,
    pub data_stability: Option<Seq<char>>,
    pub version: Option<i32>,
    pub properties: Seq<PropertyView<F>>,
}

impl<F> View for PropertyGroup<F> {
    type V = PropertyGroupView<F>;

    open spec fn view(&self) -> PropertyGroupView<F> {
        PropertyGroupView {
            name: self.name@,
            name_stability: opt_text(self.name_stability),
            data_stability: opt_text(self.data_stability),
            version: self.version,
            properties: self.properties@.map_values(|p: Property<F>| p@),
        }
    }
}

/// Which entry of a property-group nvlist pair `p` is: 1 for the name, 2 for
/// the name stability, 3 for the data stability, 4 for the version, 5 for a
/// property, 0 for anything else.
pub open spec fn group_key<F>(p: NvPairData<F>) -> int {
    if named(p, TOPO_PROP_GROUP_NAME@) {
        1
    } else if named(p, TOPO_PROP_GROUP_NSTAB@) {
        2
    } else if named(p, TOPO_PROP_GROUP_DSTAB@) {
        3
    } else if named(p, TOPO_PROP_GROUP_VERSION@) {
        4
    } else if named(p, TOPO_PROP_VAL@) {
        5
    } else {
        0
    }
}

/// The test for a group entry of kind `k`.
pub open spec fn group_key_test<F>(k: int) -> spec_fn(NvPairData<F>) -> bool {
    |p: NvPairData<F>| group_key(p) == k
}

/// A group entry that ends the parse: a name that does not read as a
/// string, or a property nvlist that fails to parse.
pub open spec fn group_entry_fails<F>(p: NvPairData<F>) -> bool {
    (group_key(p) == 1 && string_read(p) is Err) || (group_key(p) == 5 && (p.reads.nvlist matches Ok(n)
        && parse_property_spec(n.contents) is Err))
}

/// The test for a group entry that ends the parse.
pub open spec fn group_fails_test<F>() -> spec_fn(NvPairData<F>) -> bool {
    |p: NvPairData<F>| group_entry_fails(p)
}

/// The error with which a failing group entry ends the parse.
pub open spec fn group_entry_error<F>(p: NvPairData<F>) -> ErrorView {
    if group_key(p) == 1 {
        string_read(p)->Err_0
    } else {
        parse_property_spec(p.reads.nvlist->Ok_0.contents)->Err_0
    }
}

/// The text of the last group entry of kind `k`, if that entry reads as a
/// string.
pub open spec fn last_group_string<F>(s: Seq<NvPairData<F>>, k: int) -> Option<Seq<char>> {
    let i = last_where(s, group_key_test::<F>(k));
    if i >= 0 && string_read(s[i]) is Ok { Some(string_read(s[i])->Ok_0) } else { None }
}

/// The version of the last version entry, if that entry reads as an `int32`.
pub open spec fn last_group_version<F>(s: Seq<NvPairData<F>>) -> Option<i32> {
    let i = last_where(s, group_key_test::<F>(4));
    if i >= 0 && int32_read(s[i]) is Ok { Some(int32_read(s[i])->Ok_0) } else { None }
}

/// The properties of the property entries (those that read as an nvlist), in
/// order.
pub open spec fn group_properties<F>(s: Seq<NvPairData<F>>) -> Seq<PropertyView<F>>
    decreases s.len(),
{
    if s.len() == 0 {
        Seq::empty()
    } else {
        let rest = group_properties(s.drop_last());
        let p = s.last();
        if group_key(p) == 5 && p.reads.nvlist is Ok {
            rest.push(parse_property_spec(p.reads.nvlist->Ok_0.contents)->Ok_0)
        } else {
            rest
        }
    }
}

/// What parsing a property-group nvlist gives.
///
/// The pairs are visited in order; a name that does not read as a string or
/// a property that fails to parse ends the parse with its error. Otherwise
/// the group's name is the last name entry (missing: an error); each of the
/// stabilities and the version comes from its last entry, `None` if absent
/// or unreadable; the properties are those of the property entries that
/// read as an nvlist, in order.
pub open spec fn parse_group_spec<F>(l: NvListData<F>) -> Result<PropertyGroupView<F>, ErrorView> {
    let s = l.pairs@;
    let b = first_where(s, group_fails_test::<F>());
    if b < s.len() {
        Err(group_entry_error(s[b]))
    } else {
        match last_group_string(s, 1) {
            None => Err(ErrorView::Topo("property group missing name"@)),
            Some(name) => Ok(PropertyGroupView {
                name,
                name_stability: last_group_string(s, 2),
                data_stability: last_group_string(s, 3),
                version: last_group_version(s),
                properties: group_properties(s),
            }),
        }
    }
}

proof fn lemma_last_group_step<F>(s: Seq<NvPairData<F>>, i: int, k: int)
    requires
        0 <= i < s.len(),
    ensures
        last_group_string(s.take(i + 1), k) == (if group_key(s[i]) == k {
            if string_read(s[i]) is Ok { Some(string_read(s[i])->Ok_0) } else { None }
        } else {
            last_group_string(s.take(i), k)
        }),
        last_group_version(s.take(i + 1)) == (if group_key(s[i]) == 4 {
            if int32_read(s[i]) is Ok { Some(int32_read(s[i])->Ok_0) } else { None }
        } else {
            last_group_version(s.take(i))
        }),
{
    lemma_last_where_step(s, group_key_test::<F>(k), i);
    lemma_last_where_step(s, group_key_test::<F>(4), i);
    lemma_last_where(s.take(i), group_key_test::<F>(k));
    lemma_last_where(s.take(i), group_key_test::<F>(4));
    assert(s.take(i + 1)[i] == s[i]);
    assert forall|j: int| 0 <= j < i implies #[trigger] s.take(i + 1)[j] == s.take(i)[j] by {}
}

/// Parse a property-group nvlist into a [`PropertyGroup`].
///
/// Expected entries: (string) `property-group-name`, (string)
/// `property-group-name-stability`, (string)
/// `property-group-data-stability`, (int32) `property-group-version`, plus
/// zero or more (nvlist) `property` entries. If the group name is missing,
/// returns `Err`; the stability strings and version come back as `None` if
/// absent or unreadable.
pub fn parse_property_group<F>(list: NvListData<F>) -> (r: Result<PropertyGroup<F>, Error>)
    ensures
        result_view(r) == parse_group_spec(list),
{
    let ghost s = list.pairs@;
    let ghost bad = group_fails_test::<F>();
    let mut pairs = list.pairs;
    let mut name: Option<String> = None;
    let mut name_stability: Option<String> = None;
    let mut data_stability: Option<String> = None;
    let mut version: Option<i32> = None;
    let mut properties: Vec<Property<F>> = Vec::new();
    let ghost mut k: int = 0;
    while pairs.len() > 0
        invariant
            s == list.pairs@,
            bad == group_fails_test::<F>(),
            0 <= k <= s.len(),
            pairs@ == s.skip(k),
            first_where(s.take(k), bad) == k,
            opt_text(name) == last_group_string(s.take(k), 1),
            opt_text(name_stability) == last_group_string(s.take(k), 2),
            opt_text(data_stability) == last_group_string(s.take(k), 3),
            version == last_group_version(s.take(k)),
            properties@.map_values(|p: Property<F>| p@) == group_properties(s.take(k)),
        decreases pairs@.len(),
    {
        proof {
            lemma_first_where_step(s, bad, k);
            lemma_last_group_step(s, k, 1);
            lemma_last_group_step(s, k, 2);
            lemma_last_group_step(s, k, 3);
            assert(s.take(k + 1).drop_last() =~= s.take(k));
            assert(s.take(k + 1).last() == s[k]);
        }
        let p = pairs.remove(0);
        assert(p == s[k]);
        if is_named(&p, TOPO_PROP_GROUP_NAME) {
            match read_string(&p) {
                Ok(v) => {
                    name = Some(v);
                },
                Err(e) => {
                    proof {
                        lemma_first_where_prefix(s, bad, k + 1);
                    }
                    return Err(e);
                },
            }
        } else if is_named(&p, TOPO_PROP_GROUP_NSTAB) {
            name_stability = match read_string(&p) {
                Ok(v) => Some(v),
                Err(_) => None,
            };
        } else if is_named(&p, TOPO_PROP_GROUP_DSTAB) {
            data_stability = match read_string(&p) {
                Ok(v) => Some(v),
                Err(_) => None,
            };
        } else if is_named(&p, TOPO_PROP_GROUP_VERSION) {
            version = match read_int32(&p) {
                Ok(v) => Some(v),
                Err(_) => None,
            };
        } else if is_named(&p, TOPO_PROP_VAL) {
            match p.reads.nvlist {
                Ok(n) => {
                    match parse_property(n.contents) {
                        Ok(prop) => {
                            let ghost old_props = properties@;
                            properties.push(prop);
                            assert(properties@.map_values(|q: Property<F>| q@)
                                =~= old_props.map_values(|q: Property<F>| q@).push(prop@));
                        },
                        Err(e) => {
                            proof {
                                lemma_first_where_prefix(s, bad, k + 1);
                            }
                            return Err(e);
                        },
                    }
                },
                _ => {},
            }
        }
        proof {
            k = k + 1;
            assert(pairs@ =~= s.skip(k));
        }
    }
    proof {
        assert(s.skip(k).len() == 0);
        assert(s.take(k) =~= s);
    }
    match name {
        Some(name) => Ok(PropertyGroup { name, name_stability, data_stability, version, properties }),
        None => Err(Error::Topo(String::from_str("property group missing name"))),
    }
}

/// A group entry of a node's property nvlist: named `property-group` and
/// reading as an nvlist.
pub open spec fn is_group_entry<F>(p: NvPairData<F>) -> bool {
    named(p, TOPO_PROP_GROUP@) && p.reads.nvlist is Ok
}

/// A group entry whose group fails to parse.
pub open spec fn group_list_fails<F>(p: NvPairData<F>) -> bool {
    is_group_entry(p) && parse_group_spec(p.reads.nvlist->Ok_0.contents) is Err
}

/// The test for a group entry whose group fails to parse.
pub open spec fn group_list_fails_test<F>() -> spec_fn(NvPairData<F>) -> bool {
    |p: NvPairData<F>| group_list_fails(p)
}

/// The groups of the group entries, in order.
pub open spec fn node_groups<F>(s: Seq<NvPairData<F>>) -> Seq<PropertyGroupView<F>>
    decreases s.len(),
{
    if s.len() == 0 {
        Seq::empty()
    } else {
        let rest = node_groups(s.drop_last());
        let p = s.last();
        if is_group_entry(p) {
            rest.push(parse_group_spec(p.reads.nvlist->Ok_0.contents)->Ok_0)
        } else {
            rest
        }
    }
}

/// What parsing a node's property nvlist gives: the first group that fails
/// to parse ends it with its error; otherwise the groups of the
/// `property-group` entries that read as an nvlist, in order (other entries are
/// skipped).
pub open spec fn parse_groups_spec<F>(l: NvListData<F>) -> Result<Seq<PropertyGroupView<F>>, ErrorView> {
    let s = l.pairs@;
    let b = first_where(s, group_list_fails_test::<F>());
    if b < s.len() {
        Err(parse_group_spec(s[b].reads.nvlist->Ok_0.contents)->Err_0)
    } else {
        Ok(node_groups(s))
    }
}

/// The groups of a result, taken by their views.
pub open spec fn groups_result_view<F>(r: Result<Vec<PropertyGroup<F>>, Error>) -> Result<Seq<PropertyGroupView<F>>, ErrorView> {
    match r {
        Ok(v) => Ok(v@.map_values(|g: PropertyGroup<F>| g@)),
        Err(e) => Err(e@),
    }
}

/// Parse a node's property nvlist (what `topo_prop_getprops` gives) into its
/// property groups.
pub fn parse_property_groups<F>(list: NvListData<F>) -> (r: Result<Vec<PropertyGroup<F>>, Error>)
    ensures
        groups_result_view(r) == parse_groups_spec(list),
{
    let ghost s = list.pairs@;
    let ghost bad = group_list_fails_test::<F>();
    let mut pairs = list.pairs;
    let mut groups: Vec<PropertyGroup<F>> = Vec::new();
    let ghost mut k: int = 0;
    while pairs.len() > 0
        invariant
            s == list.pairs@,
            bad == group_list_fails_test::<F>(),
            0 <= k <= s.len(),
            pairs@ == s.skip(k),
            first_where(s.take(k), bad) == k,
            groups@.map_values(|g: PropertyGroup<F>| g@) == node_groups(s.take(k)),
        decreases pairs@.len(),
    {
        proof {
            lemma_first_where_step(s, bad, k);
            assert(s.take(k + 1).drop_last() =~= s.take(k));
            assert(s.take(k + 1).last() == s[k]);
        }
        let p = pairs.remove(0);
        assert(p == s[k]);
        if is_named(&p, TOPO_PROP_GROUP) {
            match p.reads.nvlist {
                Ok(n) => {
                    match parse_property_group(n.contents) {
                        Ok(g) => {
                            let ghost old_groups = groups@;
                            groups.push(g);
                            assert(groups@.map_values(|q: PropertyGroup<F>| q@)
                                =~= old_groups.map_values(|q: PropertyGroup<F>| q@).push(g@));
                        },
                        Err(e) => {
                            proof {
                                lemma_first_where_prefix(s, bad, k + 1);
                            }
                            return Err(e);
                        },
                    }
                },
                _ => {},
            }
        }
        proof {
            k = k + 1;
            assert(pairs@ =~= s.skip(k));
        }
    }
    proof {
        assert(s.skip(k).len() == 0);
        assert(s.take(k) =~= s);
    }
    Ok(groups)
}

/// The outcome of `topo_prop_getprops`: the node's property groups parsed
/// from the nvlist it returned, else [`Error::Topo`] with the message for
/// `err` when it returned NULL.
pub fn property_groups_outcome<F>(props: Option<NvListData<F>>, err: i32, err_text: Option<String>) -> (r: Result<Vec<PropertyGroup<F>>, Error>)
    ensures
        props matches Some(l) ==> groups_result_view(r) == parse_groups_spec(l),
        props is None ==> (r matches Err(e)
            && e@ == ErrorView::Topo(errmsg_spec(err as int, opt_text(err_text)))),
{
    match props {
        Some(l) => parse_property_groups(l),
        None => Err(Error::Topo(errmsg_text(err, err_text))),
    }
}

/// The value of a property result.
pub open spec fn property_value_of<F>(r: Result<PropertyView<F>, ErrorView>) -> Result<PropValueView<F>, ErrorView> {
    match r {
        Ok(p) => Ok(p.value),
        Err(e) => Err(e),
    }
}

/// The outcome of `topo_prop_getprop` for one property: when it returned
/// zero and an nvlist, the value parsed from that nvlist; else
/// [`Error::Topo`] with the message for `err`.
pub fn property_outcome<F>(rc: i32, prop: Option<NvListData<F>>, err: i32, err_text: Option<String>) -> (r: Result<PropValue<F>, Error>)
    ensures
        rc == 0 && prop is Some ==> result_view(r) == property_value_of(parse_property_spec(prop->0)),
        !(rc == 0 && prop is Some) ==> (r matches Err(e)
            && e@ == ErrorView::Topo(errmsg_spec(err as int, opt_text(err_text)))),
{
    if rc != 0 {
        return Err(Error::Topo(errmsg_text(err, err_text)));
    }
    match prop {
        Some(l) => match parse_property(l) {
            Ok(p) => Ok(p.value),
            Err(e) => Err(e),
        },
        None => Err(Error::Topo(errmsg_text(err, err_text))),
    }
}

/// Whether a property's group and name may be handed to libtopo: the
/// group is checked first, then the name, each failing at its first NUL
/// byte.
pub fn property_args_check(group: &str, name: &str) -> (r: Result<(), Error>)
    ensures
        r is Ok <==> (!group.spec_bytes().contains(0u8) && !name.spec_bytes().contains(0u8)),
        group.spec_bytes().contains(0u8) ==> (r matches Err(e) && e@ == ErrorView::Nul(
            first_where(group.spec_bytes(), nul_test()) as usize)),
        !group.spec_bytes().contains(0u8) && name.spec_bytes().contains(0u8) ==> (r matches Err(e)
            && e@ == ErrorView::Nul(first_where(name.spec_bytes(), nul_test()) as usize)),
{
    match c_string_check(group) {
        Ok(()) => {},
        Err(e) => {
            proof {
                lemma_first_nul(group.spec_bytes(), e@->Nul_0 as int);
            }
            return Err(e);
        },
    }
    match c_string_check(name) {
        Ok(()) => {},
        Err(e) => {
            proof {
                lemma_first_nul(name.spec_bytes(), e@->Nul_0 as int);
            }
            return Err(e);
        },
    }
    Ok(())
}

/// The test for a NUL byte.
pub open spec fn nul_test() -> spec_fn(u8) -> bool {
    |b: u8| b == 0u8
}

proof fn lemma_first_nul(s: Seq<u8>, p: int)
    requires
        0 <= p < s.len(),
        s[p] == 0u8,
        forall|j: int| 0 <= j < p ==> s[j] != 0u8,
    ensures
        first_where(s, nul_test()) == p,
        s.contains(0u8),
{
    lemma_first_where(s, nul_test());
    let f = first_where(s, nul_test());
    if f < p {
        assert(s[f] == 0u8);
    }
    if f > p {
        assert(!nul_test()(s[p]));
    }
}

/// The nvpair type that libtopo property type `t` is read as, if `t` is a
/// type this crate decodes.
pub open spec fn expected_data_type(t: u32) -> Option<i32> {
    if t == TOPO_TYPE_BOOLEAN { Some(DATA_TYPE_BOOLEAN_VALUE) }
    else if t == TOPO_TYPE_INT32 { Some(DATA_TYPE_INT32) }
    else if t == TOPO_TYPE_UINT32 { Some(DATA_TYPE_UINT32) }
    else if t == TOPO_TYPE_INT64 { Some(DATA_TYPE_INT64) }
    else if t == TOPO_TYPE_UINT64 { Some(DATA_TYPE_UINT64) }
    else if t == TOPO_TYPE_DOUBLE { Some(DATA_TYPE_DOUBLE) }
    else if t == TOPO_TYPE_STRING { Some(DATA_TYPE_STRING) }
    else if t == TOPO_TYPE_FMRI { Some(DATA_TYPE_NVLIST) }
    else if t == TOPO_TYPE_TIME { Some(DATA_TYPE_INT64) }
    else if t == TOPO_TYPE_SIZE { Some(DATA_TYPE_UINT64) }
    else if t == TOPO_TYPE_INT32_ARRAY { Some(DATA_TYPE_INT32_ARRAY) }
    else if t == TOPO_TYPE_UINT32_ARRAY { Some(DATA_TYPE_UINT32_ARRAY) }
    else if t == TOPO_TYPE_INT64_ARRAY { Some(DATA_TYPE_INT64_ARRAY) }
    else if t == TOPO_TYPE_UINT64_ARRAY { Some(DATA_TYPE_UINT64_ARRAY) }
    else if t == TOPO_TYPE_STRING_ARRAY { Some(DATA_TYPE_STRING_ARRAY) }
    else if t == TOPO_TYPE_FMRI_ARRAY { Some(DATA_TYPE_NVLIST_ARRAY) }
    else { None }
}

/// Decoding never makes a value up: a property type this crate does not
/// model decodes to `Unknown` with its code, without reading the value; a
/// modelled type whose accessor refused the value pair is the read error for
/// that pair and that nvpair type, carrying the accessor's return code as it
/// came.
pub proof fn decode_by_type<F>(t: u32, p: NvPairData<F>)
    ensures
        expected_data_type(t) is None ==> decode_spec(t, p) == Ok::<PropValueView<F>, ErrorView>(
            PropValueView::Unknown { type_code: t }),
        expected_data_type(t) matches Some(d) ==> (refusal(p, d) matches Some(rc)
            ==> decode_spec(t, p) == Err::<PropValueView<F>, ErrorView>(read_error_view(p, d, rc))),
{
}

/// Any missing entry of a property nvlist makes the parse fail: without a
/// `property-name`, a `property-type` or a `property-value` entry there is
/// no property.
pub proof fn property_missing_entry_is_error<F>(l: NvListData<F>)
    requires
        forall|i: int| 0 <= i < l.pairs@.len() ==> !named(#[trigger] l.pairs@[i], TOPO_PROP_VAL_NAME@)
            || forall|i: int| 0 <= i < l.pairs@.len() ==> !named(#[trigger] l.pairs@[i], TOPO_PROP_VAL_TYPE@)
            || forall|i: int| 0 <= i < l.pairs@.len() ==> !named(#[trigger] l.pairs@[i], TOPO_PROP_VAL_VAL@),
    ensures
        parse_property_spec(l) is Err,
{
    let s = l.pairs@;
    lemma_last_where(s, prop_key_test::<F>(1));
    lemma_last_where(s, prop_key_test::<F>(2));
    lemma_last_where(s, prop_key_test::<F>(3));
}

/// A property-group nvlist without a name entry is an error; a group that
/// parses has absent stabilities and version as `None`.
pub proof fn group_name_required_and_optional_fields<F>(l: NvListData<F>)
    ensures
        (forall|i: int| 0 <= i < l.pairs@.len() ==> !named(#[trigger] l.pairs@[i], TOPO_PROP_GROUP_NAME@))
            ==> parse_group_spec(l) is Err,
        parse_group_spec(l) is Ok && (forall|i: int| 0 <= i < l.pairs@.len()
            ==> !named(#[trigger] l.pairs@[i], TOPO_PROP_GROUP_NSTAB@))
            ==> parse_group_spec(l)->Ok_0.name_stability is None,
        parse_group_spec(l) is Ok && (forall|i: int| 0 <= i < l.pairs@.len()
            ==> !named(#[trigger] l.pairs@[i], TOPO_PROP_GROUP_DSTAB@))
            ==> parse_group_spec(l)->Ok_0.data_stability is None,
        parse_group_spec(l) is Ok && (forall|i: int| 0 <= i < l.pairs@.len()
            ==> !named(#[trigger] l.pairs@[i], TOPO_PROP_GROUP_VERSION@))
            ==> parse_group_spec(l)->Ok_0.version is None,
{
    let s = l.pairs@;
    lemma_last_where(s, group_key_test::<F>(1));
    lemma_last_where(s, group_key_test::<F>(2));
    lemma_last_where(s, group_key_test::<F>(3));
    lemma_last_where(s, group_key_test::<F>(4));
}

} // verus!
