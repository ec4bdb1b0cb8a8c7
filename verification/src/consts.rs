use vstd::prelude::*;

verus! {

// Return values of a libtopo walker callback and of `topo_walk_step`.

/// The walk failed (or a callback asked for it to fail).
pub const TOPO_WALK_ERR: i32 = -1;
/// Go on to the next node.
pub const TOPO_WALK_NEXT: i32 = 0;
/// Stop the walk; no further node is visited.
pub const TOPO_WALK_TERMINATE: i32 = 1;
/// Walk flag: descend depth-first through children.
pub const TOPO_WALK_CHILD: i32 = 1;

// libtopo property types (`topo_type_t`), as stored under `property-type`.

pub const TOPO_TYPE_BOOLEAN: u32 = 1;
pub const TOPO_TYPE_INT32: u32 = 2;
pub const TOPO_TYPE_UINT32: u32 = 3;
pub const TOPO_TYPE_INT64: u32 = 4;
pub const TOPO_TYPE_UINT64: u32 = 5;
pub const TOPO_TYPE_STRING: u32 = 6;
pub const TOPO_TYPE_TIME: u32 = 7;
pub const TOPO_TYPE_SIZE: u32 = 8;
pub const TOPO_TYPE_FMRI: u32 = 9;
pub const TOPO_TYPE_INT32_ARRAY: u32 = 10;
pub const TOPO_TYPE_UINT32_ARRAY: u32 = 11;
pub const TOPO_TYPE_INT64_ARRAY: u32 = 12;
pub const TOPO_TYPE_UINT64_ARRAY: u32 = 13;
pub const TOPO_TYPE_STRING_ARRAY: u32 = 14;
pub const TOPO_TYPE_FMRI_ARRAY: u32 = 15;
pub const TOPO_TYPE_DOUBLE: u32 = 16;

// libnvpair data types (`data_type_t`) of the nvpairs the decoders read.

pub const DATA_TYPE_INT32: i32 = 5;
pub const DATA_TYPE_UINT32: i32 = 6;
pub const DATA_TYPE_INT64: i32 = 7;
pub const DATA_TYPE_UINT64: i32 = 8;
pub const DATA_TYPE_STRING: i32 = 9;
pub const DATA_TYPE_INT32_ARRAY: i32 = 13;
pub const DATA_TYPE_UINT32_ARRAY: i32 = 14;
pub const DATA_TYPE_INT64_ARRAY: i32 = 15;
pub const DATA_TYPE_UINT64_ARRAY: i32 = 16;
pub const DATA_TYPE_STRING_ARRAY: i32 = 17;
pub const DATA_TYPE_NVLIST: i32 = 19;
pub const DATA_TYPE_NVLIST_ARRAY: i32 = 20;
pub const DATA_TYPE_BOOLEAN_VALUE: i32 = 21;
pub const DATA_TYPE_DOUBLE: i32 = 27;

// Names of the entries of libtopo's property nvlists.

/// An entry of the node's property nvlist holding one property group.
pub const TOPO_PROP_GROUP: &'static str = "property-group";
/// A group's name.
pub const TOPO_PROP_GROUP_NAME: &'static str = "property-group-name";
/// A group's name-stability label.
pub const TOPO_PROP_GROUP_NSTAB: &'static str = "property-group-name-stability";
/// A group's data-stability label.
pub const TOPO_PROP_GROUP_DSTAB: &'static str = "property-group-data-stability";
/// A group's version.
pub const TOPO_PROP_GROUP_VERSION: &'static str = "property-group-version";
/// An entry of a group holding one property.
pub const TOPO_PROP_VAL: &'static str = "property";
/// A property's name.
pub const TOPO_PROP_VAL_NAME: &'static str = "property-name";
/// A property's `topo_type_t`.
pub const TOPO_PROP_VAL_TYPE: &'static str = "property-type";
/// A property's value.
pub const TOPO_PROP_VAL_VAL: &'static str = "property-value";

} // verus!
