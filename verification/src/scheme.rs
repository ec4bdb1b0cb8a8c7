use vstd::prelude::*;

verus! {

/// An FMA FMRI scheme, one of the `FM_FMRI_SCHEME_*` names of
/// `<sys/fm/protocol.h>`.
///
/// Each scheme names a different kind of resource: [`Scheme::Hc`] for
/// hardware components, [`Scheme::Cpu`] for CPUs, [`Scheme::Svc`] for SMF
/// services, and so on. A walk is scoped to one scheme.
#[derive(Debug, Clone, Copy, PartialEq, Eq, Hash, Structural)]
pub enum Scheme {
    Hc,
    Mem,
    Cpu,
    Dev,
    Mod,
    Svc,
    Sw,
    Zfs,
    Pcie,
    Path,
    Fmd,
    Pkg,
    Legacy,
}

/// The name of a scheme, as `<sys/fm/protocol.h>` spells it.
pub open spec fn scheme_name(s: Scheme) -> Seq<char> {
    match s {
        Scheme::Hc => "hc"@,
        Scheme::Mem => "mem"@,
        Scheme::Cpu => "cpu"@,
        Scheme::Dev => "dev"@,
        Scheme::Mod => "mod"@,
        Scheme::Svc => "svc"@,
        Scheme::Sw => "sw"@,
        Scheme::Zfs => "zfs"@,
        Scheme::Pcie => "pcie"@,
        Scheme::Path => "path"@,
        Scheme::Fmd => "fmd"@,
        Scheme::Pkg => "pkg"@,
        Scheme::Legacy => "legacy-hc"@,
    }
}

impl Scheme {
    /// The scheme name, the text of the C string libtopo takes (e.g. `"hc"`
    /// for [`Scheme::Hc`]).
    pub fn as_cstr(self) -> (r: &'static str)
        ensures
            r@ == scheme_name(self),
    {
        match self {
            Scheme::Hc => "hc",
            Scheme::Mem => "mem",
            Scheme::Cpu => "cpu",
            Scheme::Dev => "dev",
            Scheme::Mod => "mod",
            Scheme::Svc => "svc",
            Scheme::Sw => "sw",
            Scheme::Zfs => "zfs",
            Scheme::Pcie => "pcie",
            Scheme::Path => "path",
            Scheme::Fmd => "fmd",
            Scheme::Pkg => "pkg",
            Scheme::Legacy => "legacy-hc",
        }
    }
}

proof fn reveal_scheme_names()
    ensures
        "hc"@ == seq!['h', 'c'],
        "mem"@ == seq!['m', 'e', 'm'],
        "cpu"@ == seq!['c', 'p', 'u'],
        "dev"@ == seq!['d', 'e', 'v'],
        "mod"@ == seq!['m', 'o', 'd'],
        "svc"@ == seq!['s', 'v', 'c'],
        "sw"@ == seq!['s', 'w'],
        "zfs"@ == seq!['z', 'f', 's'],
        "pcie"@ == seq!['p', 'c', 'i', 'e'],
        "path"@ == seq!['p', 'a', 't', 'h'],
        "fmd"@ == seq!['f', 'm', 'd'],
        "pkg"@ == seq!['p', 'k', 'g'],
        "legacy-hc"@ == seq!['l', 'e', 'g', 'a', 'c', 'y', '-', 'h', 'c'],
{
    reveal_strlit("hc");
    reveal_strlit("mem");
    reveal_strlit("cpu");
    reveal_strlit("dev");
    reveal_strlit("mod");
    reveal_strlit("svc");
    reveal_strlit("sw");
    reveal_strlit("zfs");
    reveal_strlit("pcie");
    reveal_strlit("path");
    reveal_strlit("fmd");
    reveal_strlit("pkg");
    reveal_strlit("legacy-hc");
}

/// Each scheme names a different kind of resource: two different schemes
/// never share a name, and no name is empty or holds a NUL character, so
/// each is a valid C string.
pub proof fn scheme_names_distinct(a: Scheme, b: Scheme)
    ensures
        a != b ==> scheme_name(a) != scheme_name(b),
        scheme_name(a).len() > 0,
        forall|i: int| 0 <= i < scheme_name(a).len() ==> scheme_name(a)[i] != '\0',
{
    reveal_scheme_names();
    if a != b {
        let x = scheme_name(a);
        let y = scheme_name(b);
        if x == y {
            assert(x.len() == y.len());
            assert(x[0] == y[0]);
            assert(x[x.len() - 1] == y[y.len() - 1]);
            assert(false);
        }
    }
}

} // verus!
