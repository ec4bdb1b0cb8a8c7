use vstd::prelude::*;
use vstd::string::*;

use crate::consts::{TOPO_WALK_ERR, TOPO_WALK_NEXT, TOPO_WALK_TERMINATE};
use crate::error::{Error, ErrorView};
use crate::text::{decimal_i32, decimal_int};

verus! {

/// Decision returned from a walk visitor.
#[derive(Debug, Clone, Copy, PartialEq, Eq, Structural)]
pub enum WalkAction {
    /// Continue to the next node.
    Continue,
    /// Stop the walk; remaining nodes are not visited.
    Stop,
}

/// The code a walker callback hands back to libtopo for the visitor's answer.
pub open spec fn visit_code(outcome: Result<WalkAction, Error>) -> i32 {
    match outcome {
        Ok(WalkAction::Continue) => TOPO_WALK_NEXT,
        Ok(WalkAction::Stop) => TOPO_WALK_TERMINATE,
        Err(_) => TOPO_WALK_ERR,
    }
}

/// What a walk has kept between the callbacks: the error a visitor returned,
/// which the walk hands back to its caller.
pub struct WalkState {
    error: Option<Error>,
}

impl WalkState {
    /// The error a visitor returned, if any.
    pub closed spec fn pending(&self) -> Option<Error> {
        self.error
    }

    /// The state after one visit that answered `outcome`.
    pub open spec fn after_visit(self, outcome: Result<WalkAction, Error>) -> Option<Error> {
        match outcome {
            Err(e) => Some(e),
            Ok(_) => self.pending(),
        }
    }

    /// A walk that has visited nothing yet.
    pub fn new() -> (s: WalkState)
        ensures
            s.pending() is None,
    {
        WalkState { error: None }
    }

    /// Record one visitor answer and give the code the callback returns to
    /// libtopo: `Continue` goes on, `Stop` ends the walk, an error ends it
    /// and is kept for the caller.
    pub fn visit(&mut self, outcome: Result<WalkAction, Error>) -> (code: i32)
        ensures
            code == visit_code(outcome),
            final(self).pending() == old(self).after_visit(outcome),
    {
        match outcome {
            Ok(WalkAction::Continue) => TOPO_WALK_NEXT,
            Ok(WalkAction::Stop) => TOPO_WALK_TERMINATE,
            Err(e) => {
                self.error = Some(e);
                TOPO_WALK_ERR
            },
        }
    }

    /// The result of the walk once `topo_walk_step` returned `status`: a
    /// visitor's error first; else success when the status is
    /// `TOPO_WALK_NEXT` or `TOPO_WALK_TERMINATE`; else a failure naming the
    /// status.
    pub fn finish(self, status: i32) -> (r: Result<(), Error>)
        ensures
            is_walk_result(self.pending(), status, r),
    {
        match self.error {
            Some(e) => Err(e),
            None => {
                if status == TOPO_WALK_NEXT || status == TOPO_WALK_TERMINATE {
                    Ok(())
                } else {
                    let d = decimal_i32(status);
                    let m = String::from_str("topo_walk_step failed: status=").concat(d.as_str());
                    Err(Error::Topo(m))
                }
            },
        }
    }
}

/// The message of a walk whose step returned an unexpected status.
pub open spec fn walk_failed_text(status: i32) -> Seq<char> {
    "topo_walk_step failed: status="@ + decimal_int(status as int)
}

/// Whether `r` is the result of a walk that kept `pending` and whose step
/// returned `status`: the visitor's error itself; else success for
/// `TOPO_WALK_NEXT` and `TOPO_WALK_TERMINATE`; else a [`Error::Topo`] naming
/// the status.
pub open spec fn is_walk_result(pending: Option<Error>, status: i32, r: Result<(), Error>) -> bool {
    match pending {
        Some(e) => r == Err::<(), Error>(e),
        None => if status == TOPO_WALK_NEXT || status == TOPO_WALK_TERMINATE {
            r is Ok
        } else {
            r matches Err(x) && x@ == ErrorView::Topo(walk_failed_text(status))
        },
    }
}

/// A visitor's error flows through the walk unchanged: once a visit answers
/// `Err(e)`, libtopo is told to stop (`TOPO_WALK_ERR`) and the walk returns
/// exactly `e`, whatever status the step reports.
pub proof fn walk_error_propagates(s: WalkState, e: Error, status: i32, r: Result<(), Error>)
    requires
        is_walk_result(s.after_visit(Err(e)), status, r),
    ensures
        visit_code(Err(e)) == TOPO_WALK_ERR,
        r == Err::<(), Error>(e),
{
}

/// `Stop` ends the walk after the node that answered it (libtopo is told
/// `TOPO_WALK_TERMINATE`), `Continue` goes on (`TOPO_WALK_NEXT`); a walk whose
/// visitors only answered these and whose step reported one of these codes
/// succeeds.
pub proof fn walk_actions_succeed(s: WalkState, a: WalkAction, r: Result<(), Error>)
    requires
        s.pending() is None,
        is_walk_result(s.after_visit(Ok(a)), visit_code(Ok(a)), r),
    ensures
        a == WalkAction::Stop ==> visit_code(Ok(a)) == TOPO_WALK_TERMINATE,
        a == WalkAction::Continue ==> visit_code(Ok(a)) == TOPO_WALK_NEXT,
        r is Ok,
{
}

} // verus!
