use libtopo::consts::{
    DATA_TYPE_INT64, DATA_TYPE_NVLIST, DATA_TYPE_STRING, DATA_TYPE_STRING_ARRAY, DATA_TYPE_UINT32,
    TOPO_TYPE_BOOLEAN, TOPO_TYPE_DOUBLE, TOPO_TYPE_FMRI, TOPO_TYPE_FMRI_ARRAY, TOPO_TYPE_INT32,
    TOPO_TYPE_INT32_ARRAY, TOPO_TYPE_SIZE, TOPO_TYPE_STRING, TOPO_TYPE_STRING_ARRAY,
    TOPO_TYPE_TIME, TOPO_TYPE_UINT32, TOPO_TYPE_UINT64_ARRAY,
};
use libtopo::{
    decode_prop_value, parse_property, parse_property_group, parse_property_groups,
    property_args_check, property_groups_outcome, property_outcome, Error, NestedList,
    NvError, NvListData, NvPairData, PairReads, PropValue,
};

type Fmri = u32;

/// The code the accessors of the other types answer in these tests
/// (`ENOTSUP` on illumos).
const REFUSED: i32 = 48;

/// The value a test pair holds, by its own nvpair type.
enum V {
    BooleanValue(bool),
    Int32(i32),
    UInt32(u32),
    Int64(i64),
    UInt64(u64),
    Double(u64),
    String(String),
    NvList(NestedList<Fmri>),
    Int32Array(Vec<i32>),
    UInt64Array(Vec<u64>),
    StringArray(Vec<Option<String>>),
    NvListArray(Vec<Option<Result<Fmri, i32>>>),
    Other,
}

/// What the accessors give for a pair holding `v`: its own accessor the
/// value, every other accessor `REFUSED`.
fn reads(v: V) -> PairReads<Fmri> {
    let mut r = PairReads {
        boolean_value: Err(REFUSED),
        int32: Err(REFUSED),
        uint32: Err(REFUSED),
        int64: Err(REFUSED),
        uint64: Err(REFUSED),
        double: Err(REFUSED),
        string: Err(REFUSED),
        nvlist: Err(REFUSED),
        int32_array: Err(REFUSED),
        uint32_array: Err(REFUSED),
        int64_array: Err(REFUSED),
        uint64_array: Err(REFUSED),
        string_array: Err(REFUSED),
        nvlist_array: Err(REFUSED),
    };
    match v {
        V::BooleanValue(b) => r.boolean_value = Ok(b),
        V::Int32(x) => r.int32 = Ok(x),
        V::UInt32(x) => r.uint32 = Ok(x),
        V::Int64(x) => r.int64 = Ok(x),
        V::UInt64(x) => r.uint64 = Ok(x),
        V::Double(x) => r.double = Ok(x),
        V::String(x) => r.string = Ok(Some(x)),
        V::NvList(x) => r.nvlist = Ok(x),
        V::Int32Array(x) => r.int32_array = Ok(x),
        V::UInt64Array(x) => r.uint64_array = Ok(x),
        V::StringArray(x) => r.string_array = Ok(x),
        V::NvListArray(x) => r.nvlist_array = Ok(x),
        V::Other => {}
    }
    r
}

fn pair(name: &str, data: V) -> NvPairData<Fmri> {
    NvPairData { name: Some(name.to_string()), reads: reads(data) }
}

fn list(pairs: Vec<NvPairData<Fmri>>) -> NvListData<Fmri> {
    NvListData { pairs }
}

fn nested(pairs: Vec<NvPairData<Fmri>>, copy: Result<Fmri, i32>) -> NestedList<Fmri> {
    NestedList { contents: list(pairs), copy: Some(copy) }
}

fn string(s: &str) -> V {
    V::String(s.to_string())
}

fn prop(name: &str, type_code: u32, value: V) -> NvListData<Fmri> {
    list(vec![
        pair("property-name", string(name)),
        pair("property-type", V::UInt32(type_code)),
        pair("property-value", value),
    ])
}

fn read_failed(e: Error) -> (String, i32, i32) {
    match e {
        Error::NvPair(NvError::ValueReadFailed { pair_name, type_code, errno }) => {
            (pair_name, type_code, errno)
        }
        other => panic!("expected a read failure, got {other:?}"),
    }
}

fn topo_message(e: Error) -> String {
    match e {
        Error::Topo(m) => m,
        other => panic!("expected a libtopo error, got {other:?}"),
    }
}

#[test]
fn decodes_scalars_by_type_code() {
    let v = decode_prop_value(TOPO_TYPE_BOOLEAN, pair("v", V::BooleanValue(true))).unwrap();
    assert!(matches!(v, PropValue::Boolean(true)));
    let v = decode_prop_value(TOPO_TYPE_INT32, pair("v", V::Int32(-5))).unwrap();
    assert!(matches!(v, PropValue::Int32(-5)));
    let v = decode_prop_value(TOPO_TYPE_UINT32, pair("v", V::UInt32(u32::MAX))).unwrap();
    assert!(matches!(v, PropValue::UInt32(u32::MAX)));
    let v = decode_prop_value(TOPO_TYPE_TIME, pair("v", V::Int64(1_700_000_000))).unwrap();
    assert!(matches!(v, PropValue::Time(1_700_000_000)));
    let v = decode_prop_value(TOPO_TYPE_SIZE, pair("v", V::UInt64(4096))).unwrap();
    assert!(matches!(v, PropValue::Size(4096)));
    let bits = 2.5f64.to_bits();
    match decode_prop_value(TOPO_TYPE_DOUBLE, pair("v", V::Double(bits))).unwrap() {
        PropValue::Double(b) => assert_eq!(f64::from_bits(b), 2.5),
        other => panic!("unexpected {other:?}"),
    }
    match decode_prop_value(TOPO_TYPE_STRING, pair("v", string("motherboard"))).unwrap() {
        PropValue::String(s) => assert_eq!(s, "motherboard"),
        other => panic!("unexpected {other:?}"),
    }
}

#[test]
fn decodes_arrays() {
    match decode_prop_value(TOPO_TYPE_INT32_ARRAY, pair("v", V::Int32Array(vec![1, -2]))).unwrap() {
        PropValue::Int32Array(v) => assert_eq!(v, vec![1, -2]),
        other => panic!("unexpected {other:?}"),
    }
    match decode_prop_value(TOPO_TYPE_UINT64_ARRAY, pair("v", V::UInt64Array(vec![]))).unwrap() {
        PropValue::UInt64Array(v) => assert!(v.is_empty()),
        other => panic!("unexpected {other:?}"),
    }
    let strings = V::StringArray(vec![Some("a".to_string()), Some("b".to_string())]);
    match decode_prop_value(TOPO_TYPE_STRING_ARRAY, pair("v", strings)).unwrap() {
        PropValue::StringArray(v) => assert_eq!(v, vec!["a".to_string(), "b".to_string()]),
        other => panic!("unexpected {other:?}"),
    }
}

#[test]
fn null_string_entry_fails() {
    let strings = V::StringArray(vec![Some("a".to_string()), None, Some("c".to_string())]);
    let e = decode_prop_value(TOPO_TYPE_STRING_ARRAY, pair("v", strings)).unwrap_err();
    assert_eq!(topo_message(e), "null entry in string array");
}

#[test]
fn fmri_values_are_the_duplicates() {
    let v = decode_prop_value(TOPO_TYPE_FMRI, pair("v", V::NvList(nested(vec![], Ok(7))))).unwrap();
    assert!(matches!(v, PropValue::Fmri(7)));
    let e = decode_prop_value(TOPO_TYPE_FMRI, pair("v", V::NvList(nested(vec![], Err(12))))).unwrap_err();
    assert_eq!(topo_message(e), "nvlist_dup failed for FMRI: 12");
    let arr = V::NvListArray(vec![Some(Ok(1)), Some(Ok(2))]);
    match decode_prop_value(TOPO_TYPE_FMRI_ARRAY, pair("v", arr)).unwrap() {
        PropValue::FmriArray(v) => assert_eq!(v, vec![1, 2]),
        other => panic!("unexpected {other:?}"),
    }
}

#[test]
fn fmri_array_fails_at_first_bad_entry() {
    let arr = V::NvListArray(vec![
        Some(Ok(1)),
        None,
        Some(Err(12)),
    ]);
    let e = decode_prop_value(TOPO_TYPE_FMRI_ARRAY, pair("v", arr)).unwrap_err();
    assert_eq!(topo_message(e), "null nvlist in FMRI array");
    let arr = V::NvListArray(vec![Some(Err(12)), None]);
    let e = decode_prop_value(TOPO_TYPE_FMRI_ARRAY, pair("v", arr)).unwrap_err();
    assert_eq!(topo_message(e), "nvlist_dup failed in FMRI array: 12");
}

#[test]
fn type_mismatch_is_a_read_error() {
    let e = decode_prop_value(TOPO_TYPE_TIME, pair("property-value", V::UInt64(3))).unwrap_err();
    assert_eq!(
        read_failed(e),
        ("property-value".to_string(), DATA_TYPE_INT64, REFUSED)
    );
    let e = decode_prop_value(TOPO_TYPE_FMRI, pair("property-value", string("hc:///"))).unwrap_err();
    assert_eq!(
        read_failed(e),
        ("property-value".to_string(), DATA_TYPE_NVLIST, REFUSED)
    );
    let unnamed = NvPairData { name: None, reads: reads(V::Int32(1)) };
    let e = decode_prop_value(TOPO_TYPE_STRING, unnamed).unwrap_err();
    assert_eq!(read_failed(e), (String::new(), DATA_TYPE_STRING, REFUSED));
}

#[test]
fn unknown_type_code_is_kept() {
    let v = decode_prop_value(9999, pair("v", V::Other)).unwrap();
    assert!(matches!(v, PropValue::Unknown { type_code: 9999 }));
    let v = decode_prop_value(0, pair("v", V::Int32(1))).unwrap();
    assert!(matches!(v, PropValue::Unknown { type_code: 0 }));
}

#[test]
fn parses_a_property() {
    let p = parse_property(prop("label", TOPO_TYPE_STRING, string("CPU0"))).unwrap();
    assert_eq!(p.name, "label");
    match p.value {
        PropValue::String(s) => assert_eq!(s, "CPU0"),
        other => panic!("unexpected {other:?}"),
    }
}

#[test]
fn last_entries_win_and_others_are_ignored() {
    let l = list(vec![
        pair("property-value", V::UInt32(1)),
        pair("property-name", string("first")),
        NvPairData { name: None, reads: reads(V::Other) },
        pair("something-else", V::Int32(0)),
        pair("property-type", V::UInt32(TOPO_TYPE_STRING)),
        pair("property-name", string("second")),
        pair("property-type", V::UInt32(TOPO_TYPE_UINT32)),
        pair("property-value", V::UInt32(42)),
    ]);
    let p = parse_property(l).unwrap();
    assert_eq!(p.name, "second");
    assert!(matches!(p.value, PropValue::UInt32(42)));
}

#[test]
fn missing_entries_are_errors() {
    let e = parse_property(list(vec![pair("property-type", V::UInt32(2))])).unwrap_err();
    assert_eq!(topo_message(e), "property missing name");
    let e = parse_property(list(vec![pair("property-name", string("x"))])).unwrap_err();
    assert_eq!(topo_message(e), "property missing type");
    let e = parse_property(list(vec![
        pair("property-name", string("x")),
        pair("property-type", V::UInt32(2)),
    ]))
    .unwrap_err();
    assert_eq!(topo_message(e), "property \"x\" missing value");
}

#[test]
fn unreadable_name_or_type_ends_the_parse() {
    let e = parse_property(list(vec![
        pair("property-name", V::Int32(1)),
        pair("property-type", V::Int32(1)),
    ]))
    .unwrap_err();
    assert_eq!(read_failed(e), ("property-name".to_string(), DATA_TYPE_STRING, REFUSED));
    let e = parse_property(list(vec![
        pair("property-type", string("string")),
        pair("property-name", V::Int32(1)),
    ]))
    .unwrap_err();
    assert_eq!(read_failed(e), ("property-type".to_string(), DATA_TYPE_UINT32, REFUSED));
}

fn group(name: Option<&str>, extra: Vec<NvPairData<Fmri>>) -> NvListData<Fmri> {
    let mut pairs = Vec::new();
    if let Some(n) = name {
        pairs.push(pair("property-group-name", string(n)));
    }
    pairs.extend(extra);
    list(pairs)
}

fn prop_entry(l: NvListData<Fmri>) -> NvPairData<Fmri> {
    pair("property", V::NvList(NestedList { contents: l, copy: Some(Err(0)) }))
}

#[test]
fn parses_a_property_group() {
    let g = parse_property_group(group(
        Some("protocol"),
        vec![
            pair("property-group-name-stability", string("Private")),
            pair("property-group-data-stability", string("Private")),
            pair("property-group-version", V::Int32(1)),
            prop_entry(prop("resource", TOPO_TYPE_FMRI, V::NvList(nested(vec![], Ok(5))))),
            pair("property", V::Int32(3)),
            prop_entry(prop("label", TOPO_TYPE_STRING, string("CPU0"))),
        ],
    ))
    .unwrap();
    assert_eq!(g.name, "protocol");
    assert_eq!(g.name_stability.as_deref(), Some("Private"));
    assert_eq!(g.data_stability.as_deref(), Some("Private"));
    assert_eq!(g.version, Some(1));
    assert_eq!(g.properties.len(), 2);
    assert_eq!(g.properties[0].name, "resource");
    assert!(matches!(g.properties[0].value, PropValue::Fmri(5)));
    assert_eq!(g.properties[1].name, "label");
}

#[test]
fn unreadable_group_fields_are_none() {
    let g = parse_property_group(group(
        Some("io"),
        vec![
            pair("property-group-name-stability", string("Stable")),
            pair("property-group-name-stability", V::Int32(0)),
            pair("property-group-version", string("one")),
        ],
    ))
    .unwrap();
    assert_eq!(g.name_stability, None);
    assert_eq!(g.data_stability, None);
    assert_eq!(g.version, None);
    assert!(g.properties.is_empty());
}

#[test]
fn group_errors() {
    let e = parse_property_group(group(None, vec![])).unwrap_err();
    assert_eq!(topo_message(e), "property group missing name");
    let e = parse_property_group(group(
        Some("io"),
        vec![prop_entry(list(vec![pair("property-name", string("x"))]))],
    ))
    .unwrap_err();
    assert_eq!(topo_message(e), "property missing type");
    let e = parse_property_group(list(vec![pair("property-group-name", V::UInt32(1))])).unwrap_err();
    assert_eq!(
        read_failed(e),
        ("property-group-name".to_string(), DATA_TYPE_STRING, REFUSED)
    );
}

#[test]
fn node_groups_in_order() {
    let top = list(vec![
        pair("property-group", V::NvList(NestedList { contents: group(Some("protocol"), vec![]), copy: Some(Err(0)) })),
        pair("property-group", string("not a list")),
        pair("other", V::NvList(NestedList { contents: group(None, vec![]), copy: Some(Err(0)) })),
        pair("property-group", V::NvList(NestedList { contents: group(Some("io"), vec![]), copy: Some(Err(0)) })),
    ]);
    let groups = parse_property_groups(top).unwrap();
    let names: Vec<&str> = groups.iter().map(|g| g.name.as_str()).collect();
    assert_eq!(names, vec!["protocol", "io"]);
}

#[test]
fn first_bad_group_ends_the_parse() {
    let top = list(vec![
        pair("property-group", V::NvList(NestedList { contents: group(None, vec![]), copy: Some(Err(0)) })),
        pair("property-group", V::NvList(NestedList {
            contents: list(vec![pair("property-group-name", V::Int32(0))]),
            copy: Some(Err(0)),
        })),
    ]);
    let e = parse_property_groups(top).unwrap_err();
    assert_eq!(topo_message(e), "property group missing name");
}

#[test]
fn libtopo_failures_come_first() {
    let e = property_groups_outcome::<Fmri>(None, 4, Some("empty topology".to_string())).unwrap_err();
    assert_eq!(topo_message(e), "empty topology");
    let e = property_outcome::<Fmri>(-1, None, 8, Some("no such property".to_string())).unwrap_err();
    assert_eq!(topo_message(e), "no such property");
    let v = property_outcome(0, Some(prop("label", TOPO_TYPE_STRING, string("CPU0"))), 0, None).unwrap();
    assert!(matches!(v, PropValue::String(ref s) if s == "CPU0"));
}

#[test]
fn property_arguments_must_be_c_strings() {
    assert!(property_args_check("protocol", "resource").is_ok());
    assert!(matches!(property_args_check("pro\0tocol", "res\0"), Err(Error::Nul(3))));
    assert!(matches!(property_args_check("protocol", "res\0"), Err(Error::Nul(3))));
}

#[test]
fn read_errors_carry_the_accessors_code() {
    let mut r = reads(V::Other);
    r.string_array = Err(5);
    let e = decode_prop_value(TOPO_TYPE_STRING_ARRAY, NvPairData { name: Some("n".to_string()), reads: r })
        .unwrap_err();
    assert_eq!(read_failed(e), ("n".to_string(), DATA_TYPE_STRING_ARRAY, 5));

    let mut r = reads(V::Other);
    r.string = Ok(None);
    let e = decode_prop_value(TOPO_TYPE_STRING, NvPairData { name: Some("s".to_string()), reads: r })
        .unwrap_err();
    assert_eq!(read_failed(e), ("s".to_string(), DATA_TYPE_STRING, 0));

    let null_list = NestedList { contents: list(vec![]), copy: None };
    let e = decode_prop_value(TOPO_TYPE_FMRI, pair("f", V::NvList(null_list))).unwrap_err();
    assert_eq!(read_failed(e), ("f".to_string(), DATA_TYPE_NVLIST, 0));

    let mut r = reads(V::Other);
    r.string = Err(7);
    let e = parse_property(list(vec![
        NvPairData { name: Some("property-name".to_string()), reads: r },
        pair("property-type", V::UInt32(TOPO_TYPE_STRING)),
    ]))
    .unwrap_err();
    assert_eq!(read_failed(e), ("property-name".to_string(), DATA_TYPE_STRING, 7));
}
