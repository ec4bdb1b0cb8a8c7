use libtopo::{
    bool_query_outcome, c_string_check, call_outcome, decimal_i32, errmsg_text, open_outcome,
    present_outcome, status_outcome, str_eq, text_or_empty, Error, NvError,
};

#[test]
fn decimal_text_of_integers() {
    assert_eq!(decimal_i32(0), "0");
    assert_eq!(decimal_i32(7), "7");
    assert_eq!(decimal_i32(10), "10");
    assert_eq!(decimal_i32(-1), "-1");
    assert_eq!(decimal_i32(9999), "9999");
    assert_eq!(decimal_i32(i32::MAX), "2147483647");
    assert_eq!(decimal_i32(i32::MIN), "-2147483648");
}

#[test]
fn strings_compare_by_characters() {
    assert!(str_eq("property-name", "property-name"));
    assert!(!str_eq("property-name", "property-type"));
    assert!(!str_eq("property", "property-value"));
    assert!(str_eq("", ""));
}

#[test]
fn nul_position_is_the_first_nul_byte() {
    assert!(c_string_check("hc:///chassis=0").is_ok());
    assert!(matches!(c_string_check("with\0nul\0"), Err(Error::Nul(4))));
    assert!(matches!(c_string_check("\0"), Err(Error::Nul(0))));
    // positions count bytes, not characters
    assert!(matches!(c_string_check("é\0"), Err(Error::Nul(2))));
}

#[test]
fn errmsg_prefers_libtopo_text() {
    assert_eq!(errmsg_text(3, Some("no such node".to_string())), "no such node");
    assert_eq!(errmsg_text(9999, None), "unknown libtopo error (9999)");
    assert_eq!(errmsg_text(-1, None), "unknown libtopo error (-1)");
}

#[test]
fn empty_text_for_missing_strings() {
    assert_eq!(text_or_empty(None), "");
    assert_eq!(text_or_empty(Some("motherboard".to_string())), "motherboard");
}

#[test]
fn call_outcome_needs_zero_rc_and_output() {
    assert_eq!(call_outcome(0, Some(5u32), 0, None).unwrap(), 5);
    match call_outcome(1, Some(5u32), 12, Some("out of memory".to_string())) {
        Err(Error::Topo(m)) => assert_eq!(m, "out of memory"),
        other => panic!("unexpected {other:?}"),
    }
    match call_outcome::<u32>(0, None, 12, None) {
        Err(Error::Topo(m)) => assert_eq!(m, "unknown libtopo error (12)"),
        other => panic!("unexpected {other:?}"),
    }
    match present_outcome::<u32>(None, 4, Some("empty topology".to_string())) {
        Err(Error::Topo(m)) => assert_eq!(m, "empty topology"),
        other => panic!("unexpected {other:?}"),
    }
    assert_eq!(present_outcome(Some("uuid"), 0, None).unwrap(), "uuid");
}

#[test]
fn open_failure_is_open_error() {
    match open_outcome::<u8>(None, 2, Some("bad version".to_string())) {
        Err(Error::Open(m)) => assert_eq!(m, "bad version"),
        other => panic!("unexpected {other:?}"),
    }
    assert_eq!(open_outcome(Some(1u8), 0, None).unwrap(), 1);
    let e = Error::Open("bad version".to_string());
    assert_eq!(e.message(), "failed to open libtopo handle: bad version");
}

#[test]
fn status_outcome_fails_on_nonzero_rc() {
    assert!(status_outcome(0, 5, None).is_ok());
    match status_outcome(-1, 5, None) {
        Err(Error::Topo(m)) => assert_eq!(m, "unknown libtopo error (5)"),
        other => panic!("unexpected {other:?}"),
    }
}

#[test]
fn bool_query_checks_error_then_sign() {
    assert_eq!(bool_query_outcome("topo_fmri_present", 1, 0, None).unwrap(), true);
    assert_eq!(bool_query_outcome("topo_fmri_present", 0, 0, None).unwrap(), false);
    assert_eq!(bool_query_outcome("topo_fmri_present", 7, 0, None).unwrap(), true);
    match bool_query_outcome("topo_fmri_replaced", -1, 0, None) {
        Err(Error::Topo(m)) => assert_eq!(m, "topo_fmri_replaced returned -1"),
        other => panic!("unexpected {other:?}"),
    }
    match bool_query_outcome("topo_fmri_unusable", 1, 9, Some("method not supported".to_string())) {
        Err(Error::Topo(m)) => assert_eq!(m, "method not supported"),
        other => panic!("unexpected {other:?}"),
    }
}

#[test]
fn error_messages() {
    assert_eq!(Error::Nul(3).message(), "interior nul byte in string argument");
    assert!(Error::SnapshotAlreadyTaken
        .message()
        .starts_with("a snapshot has already been taken on this TopoHdl;"));
    assert_eq!(
        NvError::NullName.message(),
        "nvpair_name returned null"
    );
    let e = NvError::ValueReadFailed {
        pair_name: "property-type".to_string(),
        type_code: 6,
        errno: 22,
    };
    assert_eq!(
        e.message(),
        "nvpair_value failed for pair \"property-type\" (type 6): errno 22"
    );
    let e = NvError::NullPointer { pair_name: "a\"b".to_string(), type_code: 9 };
    assert_eq!(e.message(), "nvpair_value returned null for pair \"a\\\"b\" (type 9)");
    assert_eq!(
        Error::NvPair(NvError::NullName).message(),
        "nvpair_name returned null"
    );
}
