use libtopo::consts::{TOPO_WALK_ERR, TOPO_WALK_NEXT, TOPO_WALK_TERMINATE};
use libtopo::{Error, Scheme, SnapshotGuard, WalkAction, WalkState};

#[test]
fn visitor_answers_become_walker_codes() {
    let mut w = WalkState::new();
    assert_eq!(w.visit(Ok(WalkAction::Continue)), TOPO_WALK_NEXT);
    assert_eq!(w.visit(Ok(WalkAction::Stop)), TOPO_WALK_TERMINATE);
    assert!(w.finish(TOPO_WALK_TERMINATE).is_ok());
}

#[test]
fn walk_succeeds_on_next_or_terminate() {
    assert!(WalkState::new().finish(TOPO_WALK_NEXT).is_ok());
    assert!(WalkState::new().finish(TOPO_WALK_TERMINATE).is_ok());
}

#[test]
fn walk_fails_on_other_status() {
    match WalkState::new().finish(TOPO_WALK_ERR) {
        Err(Error::Topo(m)) => assert_eq!(m, "topo_walk_step failed: status=-1"),
        other => panic!("unexpected {other:?}"),
    }
    match WalkState::new().finish(42) {
        Err(Error::Topo(m)) => assert_eq!(m, "topo_walk_step failed: status=42"),
        other => panic!("unexpected {other:?}"),
    }
}

#[test]
fn visitor_error_wins_over_status() {
    let mut w = WalkState::new();
    assert_eq!(w.visit(Ok(WalkAction::Continue)), TOPO_WALK_NEXT);
    assert_eq!(w.visit(Err(Error::Topo("bad node".to_string()))), TOPO_WALK_ERR);
    match w.finish(TOPO_WALK_NEXT) {
        Err(Error::Topo(m)) => assert_eq!(m, "bad node"),
        other => panic!("unexpected {other:?}"),
    }
}

#[test]
fn snapshot_guard_refuses_after_a_failed_first_attempt_too() {
    let mut g = SnapshotGuard::new();
    assert!(!g.is_taken());
    assert!(g.begin_snapshot().is_ok());
    assert!(g.is_taken());
    // whatever became of the first snapshot, later requests are refused
    for _ in 0..3 {
        assert!(matches!(g.begin_snapshot(), Err(Error::SnapshotAlreadyTaken)));
    }
}

#[test]
fn every_scheme_has_its_own_name() {
    let all = [
        (Scheme::Hc, "hc"),
        (Scheme::Mem, "mem"),
        (Scheme::Cpu, "cpu"),
        (Scheme::Dev, "dev"),
        (Scheme::Mod, "mod"),
        (Scheme::Svc, "svc"),
        (Scheme::Sw, "sw"),
        (Scheme::Zfs, "zfs"),
        (Scheme::Pcie, "pcie"),
        (Scheme::Path, "path"),
        (Scheme::Fmd, "fmd"),
        (Scheme::Pkg, "pkg"),
        (Scheme::Legacy, "legacy-hc"),
    ];
    for (i, (a, name)) in all.iter().enumerate() {
        assert_eq!(a.as_cstr(), *name);
        for (b, _) in all.iter().skip(i + 1) {
            assert_ne!(a.as_cstr(), b.as_cstr());
        }
    }
}
