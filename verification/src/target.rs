use vstd::prelude::*;

verus! {

/// How a target's library file is placed relative to the application's
/// install directory: either directly inside it, or inside a per-application
/// overlay folder that the loader consults ahead of the normal search path.
#[derive(Clone, Copy, PartialEq, Eq, Structural, Debug)]
pub enum TopologyKind {
    Direct,
    DotLocal,
}

/// One library-file identity the installer can impersonate.
#[derive(Clone, Copy, PartialEq, Eq, Structural, Debug)]
pub enum Target {
    Winhttp,
    Version,
    Opengl32,
    CriWareUnity,
}

impl Target {
    /// The on-disk file name of this target, as a sequence of characters.
    pub open spec fn spec_dll_name(self) -> Seq<char> {
        match self {
            Target::Winhttp => ("winhttp.dll")@,
            Target::Version => ("version.dll")@,
            Target::Opengl32 => ("opengl32.dll")@,
            Target::CriWareUnity => ("cri_ware_unity.dll")@,
        }
    }

    /// The literal on-disk file name this target impersonates.
    pub fn dll_name(&self) -> (r: &'static str)
        ensures
            r@ == self.spec_dll_name(),
    {
        match self {
            Target::Winhttp => "winhttp.dll",
            Target::Version => "version.dll",
            Target::Opengl32 => "opengl32.dll",
            Target::CriWareUnity => "cri_ware_unity.dll",
        }
    }

    /// The deployment topology a target belongs to, as a pure mapping.
    pub open spec fn spec_topology_kind(self) -> TopologyKind {
        match self {
            Target::Winhttp => TopologyKind::Direct,
            Target::Version => TopologyKind::Direct,
            Target::Opengl32 => TopologyKind::Direct,
            Target::CriWareUnity => TopologyKind::DotLocal,
        }
    }

    /// Every target maps to exactly one topology kind; the mapping is a pure
    /// function of the target value, so it is stable across calls.
    pub fn topology_kind(&self) -> (r: TopologyKind)
        ensures
            r == self.spec_topology_kind(),
    {
        match self {
            Target::Winhttp => TopologyKind::Direct,
            Target::Version => TopologyKind::Direct,
            Target::Opengl32 => TopologyKind::Direct,
            Target::CriWareUnity => TopologyKind::DotLocal,
        }
    }
}

/// The exhaustive, ordered list of targets for one topology.
pub open spec fn spec_catalog(kind: TopologyKind) -> Seq<Target> {
    match kind {
        TopologyKind::Direct => seq![Target::Winhttp, Target::Version, Target::Opengl32],
        TopologyKind::DotLocal => seq![Target::CriWareUnity],
    }
}

/// The exhaustive, ordered list of valid impersonation targets for the given
/// topology; scan order of installed-module detection follows this order.
pub fn catalog(kind: TopologyKind) -> (r: Vec<Target>)
    ensures
        r@ == spec_catalog(kind),
{
    match kind {
        TopologyKind::Direct => {
            let mut v: Vec<Target> = Vec::new();
            v.push(Target::Winhttp);
            v.push(Target::Version);
            v.push(Target::Opengl32);
            assert(v@ =~= spec_catalog(kind));
            v
        },
        TopologyKind::DotLocal => {
            let mut v: Vec<Target> = Vec::new();
            v.push(Target::CriWareUnity);
            assert(v@ =~= spec_catalog(kind));
            v
        },
    }
}

/// Every target listed in a topology's catalog belongs to that topology.
pub proof fn lemma_catalog_topology(kind: TopologyKind)
    ensures
        forall|i: int|
            0 <= i < spec_catalog(kind).len() ==> (#[trigger] spec_catalog(kind)[i]).spec_topology_kind() == kind,
{
}

} // verus!
