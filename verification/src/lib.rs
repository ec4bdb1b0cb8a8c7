//! Verified core of the bindings to illumos `libtopo`, the hardware topology
//! library behind FMA.
//!
//! The library holds the decisions that sit between the C calls: which
//! scheme name a walk is scoped to, what a walk visitor's answer tells
//! libtopo, when a handle may take a snapshot, how a property nvlist and a
//! property-group nvlist decode into typed values, and how every failed call
//! is reported.
//!
//! An nvlist that libtopo hands back is read into [`NvListData`], a plain
//! copy of its pairs recording what each libnvpair accessor gave for each
//! pair, the value or the accessor's return code; the parsers work on that
//! copy. FMRIs stay owned by
//! the caller: the property types are generic in the FMRI type `F`.

pub mod consts;
pub mod error;
pub mod handle;
pub mod laws;
pub mod nvlist;
pub mod property;
pub mod scheme;
pub mod seqs;
pub mod text;
pub mod walk;

pub use error::{c_string_check, errmsg_text, Error, ErrorView, NvError, NvErrorView};
pub use handle::{
    bool_query_outcome, call_outcome, open_outcome, present_outcome, status_outcome,
    SnapshotGuard,
};
pub use nvlist::{NestedList, NvListData, NvPairData, PairReads};
pub use property::{
    decode_prop_value, parse_property, parse_property_group, parse_property_groups,
    property_args_check, property_groups_outcome, property_outcome, PropValue, Property,
    PropertyGroup,
};
pub use scheme::Scheme;
pub use text::{decimal_i32, str_eq, text_or_empty};
pub use walk::{WalkAction, WalkState};
