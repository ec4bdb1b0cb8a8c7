use libtopo::consts::TOPO_WALK_ERR;
use libtopo::{
    c_string_check, errmsg_text, Error, NvError, PropValue, Scheme, SnapshotGuard, WalkAction,
    WalkState,
};

#[test]
fn scheme_as_cstr() {
    assert_eq!(Scheme::Hc.as_cstr(), "hc");
    assert_eq!(Scheme::Mem.as_cstr(), "mem");
    assert_eq!(Scheme::Cpu.as_cstr(), "cpu");
    assert_eq!(Scheme::Sw.as_cstr(), "sw");
    assert_eq!(Scheme::Legacy.as_cstr(), "legacy-hc");
}

#[test]
fn topo_errmsg_returns_nonempty_string() {
    for err in [0, 100, -1, 9999] {
        let s = errmsg_text(err, None);
        assert!(!s.is_empty(), "topo_errmsg({err}) was empty");
    }
}

#[test]
fn error_display_open() {
    let e = Error::Open("nope".into());
    assert_eq!(e.message(), "failed to open libtopo handle: nope");
}

#[test]
fn error_display_topo() {
    let e = Error::Topo("kaboom".into());
    assert_eq!(e.message(), "libtopo: kaboom");
}

#[test]
fn error_from_nulerror() {
    let e = c_string_check("with\0nul").unwrap_err();
    assert!(matches!(e, Error::Nul(_)));
}

#[test]
fn error_from_nverror() {
    let nv_err = NvError::NullName;
    let e: Error = nv_err.into();
    assert!(matches!(e, Error::NvPair(_)));
}

#[test]
fn walk_action_eq() {
    assert_eq!(WalkAction::Continue, WalkAction::Continue);
    assert_ne!(WalkAction::Continue, WalkAction::Stop);
}

#[test]
fn resnapshot_same_handle_returns_error() {
    let mut hdl = SnapshotGuard::new();
    assert!(hdl.begin_snapshot().is_ok(), "first snapshot");
    let second = hdl.begin_snapshot();
    assert!(
        matches!(second, Err(Error::SnapshotAlreadyTaken)),
        "expected Err(SnapshotAlreadyTaken) on second snapshot"
    );
}

#[test]
fn walk_propagates_closure_error() {
    let mut walk = WalkState::new();
    let nul_err = c_string_check("with\0nul").unwrap_err();
    let mut closure_called = false;
    let code = {
        closure_called = true;
        walk.visit(Err(nul_err))
    };
    assert_eq!(code, TOPO_WALK_ERR);
    match walk.finish(TOPO_WALK_ERR) {
        Err(Error::Nul(_)) => assert!(closure_called),
        other => panic!("expected Nul sentinel error, got {other:?}"),
    }
}

#[test]
fn prop_value_debug_unknown() {
    let v = PropValue::<u32>::Unknown { type_code: 9999 };
    let s = format!("{v:?}");
    assert!(
        s.contains("9999"),
        "expected Debug to mention the type code, got {s:?}"
    );
}
