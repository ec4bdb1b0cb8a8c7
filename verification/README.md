# libtopo

Bindings to illumos `libtopo`, the hardware topology library used by FMA,
split into a verified core and a thin layer of C calls.

- `src/` is the verified library (Verus). It holds every decision the
  bindings make between C calls: the scheme names a walk is scoped to, the
  code a walk visitor's answer becomes and how a walk ends, the
  one-snapshot-per-handle rule, the outcome of each libtopo call from its
  return code and error code, the NUL check on strings handed to C, the
  decoding of property nvlists (`property-name` / `property-type` /
  `property-value`) and property-group nvlists into typed values, and the
  text of every error. Property nvlists are read into `NvListData`, a plain
  copy of their pairs that records, for each pair, what every libnvpair
  accessor the parsers use gave (the value, or the accessor's return code);
  FMRIs stay owned by the caller, so the property types are generic in the
  FMRI type.
- `app/` makes the C calls (`topo_open`, `topo_snap_hold`, `topo_walk_*`,
  `topo_node_*`, `topo_prop_*`, `topo_fmri_*`, and libnvpair's accessors),
  copies nvlists into `NvListData`, and offers `TopoHdl`, `Snapshot`, `Node`
  and `Fmri` on top of the verified core.
- `tests/` exercises the verified core on concrete values.

Most libtopo operations need an illumos host with elevated privileges.
