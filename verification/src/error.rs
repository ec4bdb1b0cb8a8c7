use vstd::prelude::*;
use vstd::string::*;

use crate::text::{debug_quoted, debug_text, decimal_i32, decimal_int};

verus! {

/// Error returned when reading an nvpair value fails.
///
/// It has the variants of `illumos_nvpair::NvError`, to which the bindings
/// convert it.
#[derive(Debug)]
pub enum NvError {
    /// A `nvpair_value_*` accessor returned a non-zero error code.
    ValueReadFailed { pair_name: String, type_code: i32, errno: i32 },
    /// An accessor returned a null pointer where a valid one was required.
    NullPointer { pair_name: String, type_code: i32 },
    /// `nvpair_name` returned a null pointer for a pair.
    NullName,
}

/// The value of an [`NvError`], its strings taken as character sequences.
pub enum NvErrorView {
    ValueReadFailed { pair_name: Seq<char>, type_code: i32, errno: i32 },
    NullPointer { pair_name: Seq<char>, type_code: i32 },
    NullName,
}

impl View for NvError {
    type V = NvErrorView;

    open spec fn view(&self) -> NvErrorView {
        match self {
            NvError::ValueReadFailed { pair_name, type_code, errno } => NvErrorView::ValueReadFailed {
                pair_name: pair_name@,
                type_code: *type_code,
                errno: *errno,
            },
            NvError::NullPointer { pair_name, type_code } => NvErrorView::NullPointer {
                pair_name: pair_name@,
                type_code: *type_code,
            },
            NvError::NullName => NvErrorView::NullName,
        }
    }
}

/// Errors returned by `libtopo` operations.
#[derive(Debug)]
pub enum Error {
    /// `topo_open` returned NULL; the libtopo message.
    Open(String),
    /// A libtopo call failed; the message.
    Topo(String),
    /// A string passed to a C API contained an interior NUL byte, at this
    /// byte position.
    Nul(usize),
    /// Reading a value from an nvlist failed.
    NvPair(NvError),
    /// [`crate::SnapshotGuard::begin_snapshot`] was called a second time on the same
    /// handle: re-snapshotting one handle makes libtopo dereference freed
    /// memory (illumos issue 18110).
    SnapshotAlreadyTaken,
}

/// The value of an [`Error`], its strings taken as character sequences.
pub enum ErrorView {
    Open(Seq<char>),
    Topo(Seq<char>),
    Nul(usize),
    NvPair(NvErrorView),
    SnapshotAlreadyTaken,
}

impl View for Error {
    type V = ErrorView;

    open spec fn view(&self) -> ErrorView {
        match self {
            Error::Open(m) => ErrorView::Open(m@),
            Error::Topo(m) => ErrorView::Topo(m@),
            Error::Nul(p) => ErrorView::Nul(*p),
            Error::NvPair(e) => ErrorView::NvPair(e@),
            Error::SnapshotAlreadyTaken => ErrorView::SnapshotAlreadyTaken,
        }
    }
}

impl From<NvError> for Error {
    fn from(e: NvError) -> (r: Error) {
        Error::NvPair(e)
    }
}

impl vstd::std_specs::convert::FromSpecImpl<NvError> for Error {
    open spec fn obeys_from_spec() -> bool {
        true
    }

    open spec fn from_spec(e: NvError) -> Error {
        Error::NvPair(e)
    }
}

/// The text of an [`NvError`].
pub open spec fn nv_error_text(e: NvErrorView) -> Seq<char> {
    match e {
        NvErrorView::ValueReadFailed { pair_name, type_code, errno } =>
            "nvpair_value failed for pair "@ + debug_text(pair_name) + " (type "@
                + decimal_int(type_code as int) + "): errno "@ + decimal_int(errno as int),
        NvErrorView::NullPointer { pair_name, type_code } =>
            "nvpair_value returned null for pair "@ + debug_text(pair_name) + " (type "@
                + decimal_int(type_code as int) + ")"@,
        NvErrorView::NullName => "nvpair_name returned null"@,
    }
}

/// The text of an [`Error`].
pub open spec fn error_text(e: ErrorView) -> Seq<char> {
    match e {
        ErrorView::Open(m) => "failed to open libtopo handle: "@ + m,
        ErrorView::Topo(m) => "libtopo: "@ + m,
        ErrorView::Nul(_) => "interior nul byte in string argument"@,
        ErrorView::NvPair(nv) => nv_error_text(nv),
        ErrorView::SnapshotAlreadyTaken => snapshot_taken_text(),
    }
}

/// The text of [`Error::SnapshotAlreadyTaken`].
pub open spec fn snapshot_taken_text() -> Seq<char> {
    "a snapshot has already been taken on this TopoHdl; re-snapshotting the same handle dereferences freed memory in libtopo (illumos issue 18110: https://www.illumos.org/issues/18110). Open a fresh TopoHdl for each snapshot."@
}

impl NvError {
    /// The error's text, as its `Display` writes it.
    pub fn message(&self) -> (r: String)
        ensures
            r@ == nv_error_text(self@),
    {
        match self {
            NvError::ValueReadFailed { pair_name, type_code, errno } => {
                let q = debug_quoted(pair_name.as_str());
                let t = decimal_i32(*type_code);
                let n = decimal_i32(*errno);
                String::from_str("nvpair_value failed for pair ").concat(q.as_str()).concat(
                    " (type ",
                ).concat(t.as_str()).concat("): errno ").concat(n.as_str())
            },
            NvError::NullPointer { pair_name, type_code } => {
                let q = debug_quoted(pair_name.as_str());
                let t = decimal_i32(*type_code);
                String::from_str("nvpair_value returned null for pair ").concat(q.as_str()).concat(
                    " (type ",
                ).concat(t.as_str()).concat(")")
            },
            NvError::NullName => String::from_str("nvpair_name returned null"),
        }
    }
}

impl Error {
    /// The error's text, as its `Display` writes it.
    pub fn message(&self) -> (r: String)
        ensures
            r@ == error_text(self@),
    {
        match self {
            Error::Open(m) => String::from_str("failed to open libtopo handle: ").concat(m.as_str()),
            Error::Topo(m) => String::from_str("libtopo: ").concat(m.as_str()),
            Error::Nul(_) => String::from_str("interior nul byte in string argument"),
            Error::NvPair(e) => e.message(),
            Error::SnapshotAlreadyTaken => String::from_str(
                "a snapshot has already been taken on this TopoHdl; re-snapshotting the same handle dereferences freed memory in libtopo (illumos issue 18110: https://www.illumos.org/issues/18110). Open a fresh TopoHdl for each snapshot.",
            ),
        }
    }
}

/// Whether `s` may be handed to C as a NUL-terminated string: it fails with
/// [`Error::Nul`] at the first NUL byte, as `CString::new` does.
pub fn c_string_check(s: &str) -> (r: Result<(), Error>)
    ensures
        r is Ok <==> forall|j: int| 0 <= j < s.spec_bytes().len() ==> s.spec_bytes()[j] != 0u8,
        r matches Err(e) ==> (e@ matches ErrorView::Nul(p) && p < s.spec_bytes().len()
            && s.spec_bytes()[p as int] == 0u8
            && forall|j: int| 0 <= j < p ==> s.spec_bytes()[j] != 0u8),
{
    let b = s.as_bytes();
    let mut i: usize = 0;
    while i < b.len()
        invariant
            b@ == s.spec_bytes(),
            i <= b@.len(),
            forall|j: int| 0 <= j < i ==> b@[j] != 0u8,
        decreases b@.len() - i,
    {
        if b[i] == 0 {
            return Err(Error::Nul(i));
        }
        i = i + 1;
    }
    Ok(())
}

/// The message for a libtopo error code: libtopo's own text when it has one
/// (`msg`, what `topo_strerror(err)` gave), else `unknown libtopo error (err)`.
pub fn errmsg_text(err: i32, msg: Option<String>) -> (r: String)
    ensures
        r@ == errmsg_spec(err as int, match msg {
            Some(m) => Some(m@),
            None => None,
        }),
{
    match msg {
        Some(m) => m,
        None => {
            let d = decimal_i32(err);
            String::from_str("unknown libtopo error (").concat(d.as_str()).concat(")")
        },
    }
}

/// The message for libtopo error `err` given libtopo's text for it, if any.
pub open spec fn errmsg_spec(err: int, msg: Option<Seq<char>>) -> Seq<char> {
    match msg {
        Some(m) => m,
        None => "unknown libtopo error ("@ + decimal_int(err) + ")"@,
    }
}

/// A libtopo error always has a message: libtopo's own text when it gives
/// one, unchanged; otherwise a non-empty text that names the code.
pub proof fn errmsg_never_empty(err: int, msg: Option<Seq<char>>)
    ensures
        msg matches Some(m) ==> errmsg_spec(err, msg) == m,
        msg is None ==> errmsg_spec(err, msg).len() > 0,
{
}

} // verus!
