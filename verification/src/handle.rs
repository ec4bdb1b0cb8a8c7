use vstd::prelude::*;
use vstd::string::*;

use crate::error::{errmsg_spec, errmsg_text, Error, ErrorView};
use crate::text::{decimal_i32, decimal_int};

verus! {

/// The optional text of a string, as a character sequence.
pub open spec fn opt_text(t: Option<String>) -> Option<Seq<char>> {
    match t {
        Some(m) => Some(m@),
        None => None,
    }
}

/// Whether a handle may still take its snapshot.
///
/// libtopo's `pciebus.so` enumerator keeps pointers into the tnodes of a
/// released snapshot until the handle is closed, so a second
/// `topo_snap_hold` on one handle dereferences freed memory (illumos issue
/// 18110). A handle therefore takes at most one snapshot; open a fresh handle
/// for each snapshot.
#[derive(Clone, Copy)]
pub struct SnapshotGuard {
    taken: bool,
}

impl View for SnapshotGuard {
    type V = bool;

    /// Whether a snapshot has been asked for on this handle.
    closed spec fn view(&self) -> bool {
        self.taken
    }
}

impl SnapshotGuard {
    /// The guard of a handle just opened.
    pub fn new() -> (g: SnapshotGuard)
        ensures
            !g@,
    {
        SnapshotGuard { taken: false }
    }

    /// Whether a snapshot has been asked for on this handle.
    pub fn is_taken(&self) -> (r: bool)
        ensures
            r == self@,
    {
        self.taken
    }

    /// Ask to take the handle's snapshot: allowed once, refused with
    /// [`Error::SnapshotAlreadyTaken`] ever after, whether or not the first
    /// attempt then succeeded.
    pub fn begin_snapshot(&mut self) -> (r: Result<(), Error>)
        ensures
            final(self)@,
            r is Ok <==> !old(self)@,
            r matches Err(e) ==> e@ == ErrorView::SnapshotAlreadyTaken,
    {
        if self.taken {
            return Err(Error::SnapshotAlreadyTaken);
        }
        self.taken = true;
        Ok(())
    }
}

/// A handle takes at most one snapshot: on a fresh handle the first request
/// is allowed, and the request after it, whether or not the snapshot then
/// succeeded, is refused with [`Error::SnapshotAlreadyTaken`]. The two
/// requests are calls of [`SnapshotGuard::begin_snapshot`]: the first turns
/// `fresh` into `between` and answers `r1`, the second turns `between` into
/// `after` and answers `r2`.
pub proof fn snapshot_at_most_once(
    fresh: SnapshotGuard,
    between: SnapshotGuard,
    r1: Result<(), Error>,
    after: SnapshotGuard,
    r2: Result<(), Error>,
)
    requires
        !fresh@,
        between@,
        r1 is Ok <==> !fresh@,
        after@,
        r2 is Ok <==> !between@,
        r2 matches Err(e) ==> e@ == ErrorView::SnapshotAlreadyTaken,
    ensures
        r1 is Ok,
        r2 matches Err(e) && e@ == ErrorView::SnapshotAlreadyTaken,
{
}

/// The outcome of a libtopo call that returns `rc` and fills `out`: the value
/// when `rc` is zero and `out` was filled, else [`Error::Topo`] with the
/// message for the call's error code `err` (`err_text` is what
/// `topo_strerror(err)` gave).
pub fn call_outcome<T>(rc: i32, out: Option<T>, err: i32, err_text: Option<String>) -> (r: Result<T, Error>)
    ensures
        rc == 0 && out is Some ==> r == Ok::<T, Error>(out->0),
        !(rc == 0 && out is Some) ==> (r matches Err(e)
            && e@ == ErrorView::Topo(errmsg_spec(err as int, opt_text(err_text)))),
{
    if rc != 0 {
        return Err(Error::Topo(errmsg_text(err, err_text)));
    }
    match out {
        Some(v) => Ok(v),
        None => Err(Error::Topo(errmsg_text(err, err_text))),
    }
}

/// The outcome of a libtopo call that returns a pointer, NULL on failure:
/// the value, else [`Error::Topo`] with the message for `err`.
pub fn present_outcome<T>(out: Option<T>, err: i32, err_text: Option<String>) -> (r: Result<T, Error>)
    ensures
        out is Some ==> r == Ok::<T, Error>(out->0),
        out is None ==> (r matches Err(e)
            && e@ == ErrorView::Topo(errmsg_spec(err as int, opt_text(err_text)))),
{
    call_outcome(0, out, err, err_text)
}

/// The outcome of `topo_open`: the handle, else [`Error::Open`] with the
/// message for `err`.
pub fn open_outcome<T>(hdl: Option<T>, err: i32, err_text: Option<String>) -> (r: Result<T, Error>)
    ensures
        hdl is Some ==> r == Ok::<T, Error>(hdl->0),
        hdl is None ==> (r matches Err(e)
            && e@ == ErrorView::Open(errmsg_spec(err as int, opt_text(err_text)))),
{
    match hdl {
        Some(h) => Ok(h),
        None => Err(Error::Open(errmsg_text(err, err_text))),
    }
}

/// The outcome of a libtopo call that only returns a status (such as
/// `topo_fmri_expand`): success when `rc` is zero.
pub fn status_outcome(rc: i32, err: i32, err_text: Option<String>) -> (r: Result<(), Error>)
    ensures
        rc == 0 ==> r is Ok,
        rc != 0 ==> (r matches Err(e)
            && e@ == ErrorView::Topo(errmsg_spec(err as int, opt_text(err_text)))),
{
    if rc != 0 {
        Err(Error::Topo(errmsg_text(err, err_text)))
    } else {
        Ok(())
    }
}

/// The message of a predicate that returned a negative value.
pub open spec fn negative_query_text(name: Seq<char>, ret: i32) -> Seq<char> {
    name + " returned "@ + decimal_int(ret as int)
}

/// The outcome of an FMRI predicate (`topo_fmri_present`,
/// `topo_fmri_replaced`, `topo_fmri_unusable`, named `name`) that returned
/// `ret` and set `err`: an error code first, then a negative return, else
/// whether `ret` is non-zero.
pub fn bool_query_outcome(name: &str, ret: i32, err: i32, err_text: Option<String>) -> (r: Result<bool, Error>)
    ensures
        err != 0 ==> (r matches Err(e)
            && e@ == ErrorView::Topo(errmsg_spec(err as int, opt_text(err_text)))),
        err == 0 && ret < 0 ==> (r matches Err(e) && e@ == ErrorView::Topo(negative_query_text(name@, ret))),
        err == 0 && ret >= 0 ==> r == Ok::<bool, Error>(ret != 0),
{
    if err != 0 {
        return Err(Error::Topo(errmsg_text(err, err_text)));
    }
    if ret < 0 {
        let d = decimal_i32(ret);
        return Err(Error::Topo(String::from_str(name).concat(" returned ").concat(d.as_str())));
    }
    Ok(ret != 0)
}

} // verus!
