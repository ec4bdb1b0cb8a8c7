use vstd::prelude::*;

use crate::consts::{
    DATA_TYPE_BOOLEAN_VALUE, DATA_TYPE_DOUBLE, DATA_TYPE_INT32, DATA_TYPE_INT32_ARRAY,
    DATA_TYPE_INT64, DATA_TYPE_INT64_ARRAY, DATA_TYPE_NVLIST, DATA_TYPE_NVLIST_ARRAY,
    DATA_TYPE_STRING, DATA_TYPE_STRING_ARRAY, DATA_TYPE_UINT32, DATA_TYPE_UINT32_ARRAY,
    DATA_TYPE_UINT64, DATA_TYPE_UINT64_ARRAY,
};
use crate::error::{Error, ErrorView, NvError, NvErrorView};
use crate::text::text_or_empty;

verus! {

/// What each `nvpair_value_*` accessor that the property parsers use
/// returned for one nvpair: the value it gave, or its nonzero return code.
///
/// libnvpair refuses an accessor whose type the pair does not hold; the code
/// it returned is kept as it came. A `double` is kept as its IEEE-754 bit
/// pattern. An array the accessor gave as NULL or with no elements is
/// empty.
#[verifier::reject_recursive_types(F)]
pub struct PairReads<F> {
    pub boolean_value: Result<bool, i32>,
    pub int32: Result<i32, i32>,
    pub uint32: Result<u32, i32>,
    pub int64: Result<i64, i32>,
    pub uint64: Result<u64, i32>,
    pub double: Result<u64, i32>,
    /// `Ok(None)` when the accessor returned zero and a NULL string.
    pub string: Result<Option<String>, i32>,
    pub nvlist: Result<NestedList<F>, i32>,
    pub int32_array: Result<Vec<i32>, i32>,
    pub uint32_array: Result<Vec<u32>, i32>,
    pub int64_array: Result<Vec<i64>, i32>,
    pub uint64_array: Result<Vec<u64>, i32>,
    /// `None` where the array held a NULL string.
    pub string_array: Result<Vec<Option<String>>, i32>,
    /// Per entry: `None` where the array held a NULL nvlist, else the outcome
    /// of duplicating the entry into an owned `F` (`Err` holds the return
    /// code of `nvlist_dup`).
    pub nvlist_array: Result<Vec<Option<Result<F, i32>>>, i32>,
}

/// An nvlist that `nvpair_value_nvlist` gave: the pairs `nvlist_next_nvpair`
/// visits in it, and `None` when the pointer was NULL, else the outcome of
/// duplicating it into an owned `F` (`Err` holds the return code of
/// `nvlist_dup`).
#[verifier::reject_recursive_types(F)]
pub struct NestedList<F> {
    pub contents: NvListData<F>,
    pub copy: Option<Result<F, i32>>,
}

/// One nvpair: its name (`None` when `nvpair_name` gave a null pointer) and
/// what the accessors gave for it.
#[verifier::reject_recursive_types(F)]
pub struct NvPairData<F> {
    pub name: Option<String>,
    pub reads: PairReads<F>,
}

/// An nvlist: its pairs in the order `nvlist_next_nvpair` visits them.
#[verifier::reject_recursive_types(F)]
pub struct NvListData<F> {
    pub pairs: Vec<NvPairData<F>>,
}

/// A pair name as text, empty when the name is null.
pub open spec fn name_text(n: Option<String>) -> Seq<char> {
    match n {
        Some(n) => n@,
        None => Seq::<char>::empty(),
    }
}

/// The pair's name as text, empty when the name is null.
pub open spec fn pair_name_text<F>(p: NvPairData<F>) -> Seq<char> {
    name_text(p.name)
}

/// Whether the pair is named `key`.
pub open spec fn named<F>(p: NvPairData<F>, key: Seq<char>) -> bool {
    p.name matches Some(n) && n@ == key
}

/// The error of reading pair `p` as `type_code` when the accessor returned
/// `errno`.
pub open spec fn read_error_view<F>(p: NvPairData<F>, type_code: i32, errno: i32) -> ErrorView {
    ErrorView::NvPair(NvErrorView::ValueReadFailed { pair_name: pair_name_text(p), type_code, errno })
}

/// The code with which the accessor for nvpair type `type_code` refused pair
/// `p`, if it did (`None` also for a type the parsers never read).
pub open spec fn refusal<F>(p: NvPairData<F>, type_code: i32) -> Option<i32> {
    let r = p.reads;
    if type_code == DATA_TYPE_BOOLEAN_VALUE { r.boolean_value.err() }
    else if type_code == DATA_TYPE_INT32 { r.int32.err() }
    else if type_code == DATA_TYPE_UINT32 { r.uint32.err() }
    else if type_code == DATA_TYPE_INT64 { r.int64.err() }
    else if type_code == DATA_TYPE_UINT64 { r.uint64.err() }
    else if type_code == DATA_TYPE_DOUBLE { r.double.err() }
    else if type_code == DATA_TYPE_STRING { r.string.err() }
    else if type_code == DATA_TYPE_NVLIST { r.nvlist.err() }
    else if type_code == DATA_TYPE_INT32_ARRAY { r.int32_array.err() }
    else if type_code == DATA_TYPE_UINT32_ARRAY { r.uint32_array.err() }
    else if type_code == DATA_TYPE_INT64_ARRAY { r.int64_array.err() }
    else if type_code == DATA_TYPE_UINT64_ARRAY { r.uint64_array.err() }
    else if type_code == DATA_TYPE_STRING_ARRAY { r.string_array.err() }
    else if type_code == DATA_TYPE_NVLIST_ARRAY { r.nvlist_array.err() }
    else { None }
}

/// The [`Error::NvPair`] for a failed read, as type `type_code`, of the pair
/// named `name`, when the accessor returned `errno`.
pub fn read_error(name: &Option<String>, type_code: i32, errno: i32) -> (e: Error)
    ensures
        e@ == ErrorView::NvPair(NvErrorView::ValueReadFailed { pair_name: name_text(*name), type_code, errno }),
{
    let n = match name {
        Some(n) => Some(n.clone()),
        None => None,
    };
    Error::NvPair(NvError::ValueReadFailed { pair_name: text_or_empty(n), type_code, errno })
}

/// Whether pair `p` has the name `key` (compared as text).
pub fn is_named<F>(p: &NvPairData<F>, key: &str) -> (r: bool)
    ensures
        r == named(*p, key@),
{
    match &p.name {
        Some(n) => crate::text::str_eq(n.as_str(), key),
        None => false,
    }
}

/// Reading pair `p` as a string: the text, or the read error with the
/// accessor's return code (zero when it gave a NULL string).
pub open spec fn string_read<F>(p: NvPairData<F>) -> Result<Seq<char>, ErrorView> {
    match p.reads.string {
        Ok(Some(s)) => Ok(s@),
        Ok(None) => Err(read_error_view(p, DATA_TYPE_STRING, 0)),
        Err(rc) => Err(read_error_view(p, DATA_TYPE_STRING, rc)),
    }
}

/// Reading pair `p` as a `uint32`: the value, or the read error with the
/// accessor's return code.
pub open spec fn uint32_read<F>(p: NvPairData<F>) -> Result<u32, ErrorView> {
    match p.reads.uint32 {
        Ok(v) => Ok(v),
        Err(rc) => Err(read_error_view(p, DATA_TYPE_UINT32, rc)),
    }
}

/// Reading pair `p` as an `int32`: the value, or the read error with the
/// accessor's return code.
pub open spec fn int32_read<F>(p: NvPairData<F>) -> Result<i32, ErrorView> {
    match p.reads.int32 {
        Ok(v) => Ok(v),
        Err(rc) => Err(read_error_view(p, DATA_TYPE_INT32, rc)),
    }
}

/// A string read, with the error taken by its view.
pub open spec fn string_result_view(r: Result<String, Error>) -> Result<Seq<char>, ErrorView> {
    match r {
        Ok(s) => Ok(s@),
        Err(e) => Err(e@),
    }
}

/// An error taken by its view.
pub open spec fn error_result_view<T>(r: Result<T, Error>) -> Result<T, ErrorView> {
    match r {
        Ok(v) => Ok(v),
        Err(e) => Err(e@),
    }
}

/// Read pair `p` as a string (`nvpair_value_string`).
pub fn read_string<F>(p: &NvPairData<F>) -> (r: Result<String, Error>)
    ensures
        string_result_view(r) == string_read(*p),
{
    match &p.reads.string {
        Ok(Some(s)) => Ok(s.clone()),
        Ok(None) => Err(read_error(&p.name, DATA_TYPE_STRING, 0)),
        Err(rc) => Err(read_error(&p.name, DATA_TYPE_STRING, *rc)),
    }
}

/// Read pair `p` as a `uint32` (`nvpair_value_uint32`).
pub fn read_uint32<F>(p: &NvPairData<F>) -> (r: Result<u32, Error>)
    ensures
        error_result_view(r) == uint32_read(*p),
{
    match p.reads.uint32 {
        Ok(v) => Ok(v),
        Err(rc) => Err(read_error(&p.name, DATA_TYPE_UINT32, rc)),
    }
}

/// Read pair `p` as an `int32` (`nvpair_value_int32`).
pub fn read_int32<F>(p: &NvPairData<F>) -> (r: Result<i32, Error>)
    ensures
        error_result_view(r) == int32_read(*p),
{
    match p.reads.int32 {
        Ok(v) => Ok(v),
        Err(rc) => Err(read_error(&p.name, DATA_TYPE_INT32, rc)),
    }
}

} // verus!
