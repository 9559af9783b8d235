use vstd::prelude::*;
use crate::fs_model::FsState;
use crate::redirect::{RegState, GateOutcome, gate_spec, apply_gate};
use crate::target::{Target, TopologyKind, catalog, spec_catalog};
use crate::version_info::{TargetVersionInfo, pe_version_fields, opt_str_view};

verus! {

/// Errors of the install / uninstall lifecycle. Directory discovery and
/// version probing never raise these: their failures degrade to absence.
#[derive(Debug)]
pub enum Error {
    /// No base install directory is known and none was supplied.
    NoInstallDir,
    /// A filesystem step failed; the message describes the failure.
    IoError(String),
}

impl Error {
    /// A human-readable description of the error.
    pub fn message(&self) -> (r: String)
        ensures
            self is NoInstallDir ==> r@ == ("No install location specified")@,
            self matches Error::IoError(m) ==> r@ == ("I/O error: ")@ + m@,
    {
        match self {
            Error::NoInstallDir => "No install location specified".to_owned(),
            Error::IoError(m) => "I/O error: ".to_owned().concat(m.as_str()),
        }
    }
}

/// The resolved, immutable-after-construction configuration of one
/// install/uninstall session: an optional base install directory (absent
/// when discovery failed and the operator supplied none), the selected
/// target, and an optional custom on-disk file name that overrides the
/// target's default name.
pub struct Installer {
    pub install_dir: Option<String>,
    pub target: Target,
    pub custom_target: Option<String>,
}

impl Installer {
    /// The directory into which files of the given topology are placed:
    /// the base directory itself for the direct topology, or the fixed
    /// overlay folder beneath it for the overlay topology.
    pub open spec fn spec_target_dir(&self, kind: TopologyKind) -> Option<Seq<char>> {
        match self.install_dir {
            None => None,
            Some(d) => Some(
                match kind {
                    TopologyKind::Direct => d@,
                    TopologyKind::DotLocal => d@ + ("\\")@ + ("umamusume.exe.local")@,
                },
            ),
        }
    }

    /// The on-disk path of a target's default file name.
    pub open spec fn spec_target_path(&self, target: Target) -> Option<Seq<char>> {
        match self.spec_target_dir(target.spec_topology_kind()) {
            None => None,
            Some(dir) => Some(dir + ("\\")@ + target.spec_dll_name()),
        }
    }

    /// The file name the session installs under: the custom override when
    /// present, else the selected target's default name.
    pub open spec fn spec_current_file_name(&self) -> Seq<char> {
        match self.custom_target {
            Some(n) => n@,
            None => self.target.spec_dll_name(),
        }
    }

    /// The on-disk path the session installs to.
    pub open spec fn spec_current_path(&self) -> Option<Seq<char>> {
        match self.spec_target_dir(self.target.spec_topology_kind()) {
            None => None,
            Some(dir) => Some(dir + ("\\")@ + self.spec_current_file_name()),
        }
    }

    /// The on-disk path of the secondary loader-shim payload of the overlay
    /// topology.
    pub open spec fn spec_shim_path(&self) -> Option<Seq<char>> {
        match self.spec_target_dir(TopologyKind::DotLocal) {
            None => None,
            Some(dir) => Some(dir + ("\\")@ + ("hachimi_shim.dll")@),
        }
    }

    /// Relies on steamlocate: `SteamDir::locate`, `SteamDir::find_app` and
    /// `Library::resolve_app_dir` look up the application's resolved install
    /// directory in the distribution platform's local metadata. The outcome
    /// depends on the machine's state, so nothing is promised of it; every
    /// failure degrades to `None`.
    #[verifier::external_body]
    fn detect_install_dir() -> (r: Option<String>) {
        let steam_dir = steamlocate::SteamDir::locate().ok()?;
        let (app, library) = steam_dir.find_app(3224770).ok().flatten()?;
        Some(library.resolve_app_dir(&app).to_string_lossy().into_owned())
    }

    /// A session from operator-supplied values; when no directory is given,
    /// platform-metadata discovery is attempted, and its failure leaves the
    /// directory absent rather than raising an error.
    pub fn custom(install_dir: Option<String>, target: Option<String>) -> (r: Installer)
        ensures
            install_dir matches Some(d) ==> r.install_dir == Some(d),
            r.target == Target::Winhttp,
            r.custom_target == target,
    {
        let dir = match install_dir {
            Some(d) => Some(d),
            None => Self::detect_install_dir(),
        };
        Installer { install_dir: dir, target: Target::Winhttp, custom_target: target }
    }

    fn target_dir(&self, kind: TopologyKind) -> (r: Option<String>)
        ensures
            opt_str_view(r) == self.spec_target_dir(kind),
    {
        match &self.install_dir {
            None => None,
            Some(d) => {
                let dir = d.clone();
                match kind {
                    TopologyKind::Direct => Some(dir),
                    TopologyKind::DotLocal => Some(dir.concat("\\").concat("umamusume.exe.local")),
                }
            },
        }
    }

    /// The base directory (if known) joined with, for the overlay topology,
    /// the fixed overlay folder, then the target's default file name; absent
    /// iff no base directory is known.
    pub fn get_target_path(&self, target: Target) -> (r: Option<String>)
        ensures
            opt_str_view(r) == self.spec_target_path(target),
            r is Some <==> self.install_dir is Some,
    {
        match self.target_dir(target.topology_kind()) {
            None => None,
            Some(dir) => Some(dir.concat("\\").concat(target.dll_name())),
        }
    }

    /// Like `get_target_path` for the selected target, but the custom
    /// file-name override, when present, replaces the default file name;
    /// absent iff no base directory is known.
    pub fn get_current_target_path(&self) -> (r: Option<String>)
        ensures
            opt_str_view(r) == self.spec_current_path(),
            r is Some <==> self.install_dir is Some,
    {
        match self.target_dir(self.target.topology_kind()) {
            None => None,
            Some(dir) => {
                let dir = dir.concat("\\");
                match &self.custom_target {
                    Some(name) => Some(dir.concat(name.as_str())),
                    None => Some(dir.concat(self.target.dll_name())),
                }
            },
        }
    }

    /// What probing a target's path in the filesystem model yields: `None`
    /// when no path resolves or no file is there; otherwise the version
    /// resource fields of the file's bytes.
    pub open spec fn spec_probe(self, fs: Map<Seq<char>, Seq<u8>>, target: Target) -> Option<
        (Option<Seq<char>>, Option<Seq<char>>),
    > {
        match self.spec_target_path(target) {
            None => None,
            Some(p) => if fs.contains_key(p) {
                Some(pe_version_fields(fs[p]))
            } else {
                None
            },
        }
    }

    /// A version snapshot of the file at a target's path: absent when the
    /// file does not exist (distinct from "present but unreadable", which
    /// yields a snapshot with absent fields).
    pub fn get_target_version_info(&self, fs: &FsState, target: Target) -> (r: Option<
        TargetVersionInfo,
    >)
        ensures
            r is Some <==> self.spec_probe(fs@, target) is Some,
            r matches Some(info) ==> self.spec_probe(fs@, target) matches Some(f)
                && opt_str_view(info.name) == f.0 && opt_str_view(info.version) == f.1,
    {
        let path = match self.get_target_path(target) {
            Some(p) => p,
            None => return None,
        };
        match fs.read_file(path.as_str()) {
            Some(bytes) => Some(TargetVersionInfo::from_module_bytes(bytes.as_slice())),
            None => None,
        }
    }

    /// A human-facing status label for a target: its probed display label
    /// when a snapshot exists, else the bare file name.
    pub fn get_target_display_label(&self, fs: &FsState, target: Target) -> (r: String)
        ensures
            self.spec_probe(fs@, target) is None ==> r@ == target.spec_dll_name(),
            self.spec_probe(fs@, target) matches Some(f) ==> r@
                == target.spec_dll_name() + (" (")@ + (match f.0 {
                Some(n) => n,
                None => ("Unknown")@,
            }) + (")")@,
    {
        match self.get_target_version_info(fs, target) {
            Some(info) => info.get_display_label(target),
            None => target.dll_name().to_owned(),
        }
    }

    /// Whether probing a target finds the installed module's marker name.
    pub open spec fn spec_is_hachimi_at(self, fs: Map<Seq<char>, Seq<u8>>, target: Target) -> bool {
        match self.spec_probe(fs, target) {
            Some(f) => f.0 == Some(("Hachimi")@),
            None => false,
        }
    }

    /// True iff the session's current path resolves and a file exists there
    /// (existence only; the file is not checked to be this module).
    pub fn is_current_target_installed(&self, fs: &FsState) -> (r: bool)
        ensures
            r == (self.spec_current_path() matches Some(p) && fs@.contains_key(p)),
    {
        match self.get_current_target_path() {
            None => false,
            Some(p) => fs.has_file(p.as_str()),
        }
    }

    /// The first target of the active topology's catalog, in declaration
    /// order, whose on-disk file carries the marker product name; absent when
    /// none does.
    pub fn get_hachimi_installed_target(&self, fs: &FsState) -> (r: Option<Target>)
        ensures
            match r {
                Some(t) => exists|i: int|
                    0 <= i < spec_catalog(self.target.spec_topology_kind()).len() && (
                    #[trigger] spec_catalog(self.target.spec_topology_kind())[i]) == t
                        && self.spec_is_hachimi_at(fs@, t) && (forall|j: int|
                        0 <= j < i ==> !self.spec_is_hachimi_at(
                            fs@,
                            #[trigger] spec_catalog(self.target.spec_topology_kind())[j],
                        )),
                None => forall|i: int|
                    0 <= i < spec_catalog(self.target.spec_topology_kind()).len()
                        ==> !self.spec_is_hachimi_at(
                        fs@,
                        #[trigger] spec_catalog(self.target.spec_topology_kind())[i],
                    ),
            },
    {
        let targets = catalog(self.target.topology_kind());
        let mut i: usize = 0;
        while i < targets.len()
            invariant
                0 <= i <= targets@.len(),
                targets@ == spec_catalog(self.target.spec_topology_kind()),
                forall|j: int|
                    0 <= j < i ==> !self.spec_is_hachimi_at(fs@, #[trigger] targets@[j]),
            decreases targets@.len() - i,
        {
            let t = targets[i];
            if let Some(info) = self.get_target_version_info(fs, t) {
                if info.is_hachimi() {
                    return Some(t);
                }
            }
            i += 1;
        }
        None
    }

    /// Topology hook reserved for pre-placement checks; a no-op for both
    /// topologies.
    pub fn pre_install(&self) -> (r: Result<(), Error>)
        ensures
            r is Ok,
    {
        Ok(())
    }

    /// The effect of a successful install step on the filesystem model:
    /// the payload's bytes stand verbatim at the resolved path.
    pub open spec fn spec_install_effect(
        self,
        fs: Map<Seq<char>, Seq<u8>>,
        payload: Seq<u8>,
    ) -> Map<Seq<char>, Seq<u8>> {
        match self.spec_current_path() {
            Some(p) => fs.insert(p, payload),
            None => fs,
        }
    }

    /// Places the primary payload verbatim at the session's current path,
    /// creating or fully overwriting the file there; fails with
    /// `NoInstallDir` iff no base directory is known, and then changes
    /// nothing.
    pub fn install(&self, fs: &mut FsState, payload: &[u8]) -> (r: Result<(), Error>)
        ensures
            r is Ok <==> self.install_dir is Some,
            r is Ok ==> final(fs)@ == self.spec_install_effect(old(fs)@, payload@),
            r is Err ==> final(fs)@ == old(fs)@ && (r matches Err(e) && e is NoInstallDir),
    {
        let path = match self.get_current_target_path() {
            Some(p) => p,
            None => return Err(Error::NoInstallDir),
        };
        fs.write_file(path.as_str(), payload);
        Ok(())
    }

    /// Removes the file at the session's current path. Fails with
    /// `NoInstallDir` iff no base directory is known, and with an I/O error
    /// iff the file is not there (removal of an absent file is surfaced, not
    /// treated as success); either failure changes nothing. The redirection
    /// flag is never touched on uninstall.
    pub fn uninstall(&self, fs: &mut FsState) -> (r: Result<(), Error>)
        ensures
            r is Ok <==> (self.spec_current_path() matches Some(p) && old(fs)@.contains_key(p)),
            r is Ok ==> (self.spec_current_path() matches Some(p) && final(fs)@ == old(
                fs,
            )@.remove(p)),
            r is Err ==> final(fs)@ == old(fs)@,
            r matches Err(e) ==> (e is NoInstallDir <==> self.install_dir is None),
    {
        let path = match self.get_current_target_path() {
            Some(p) => p,
            None => return Err(Error::NoInstallDir),
        };
        if fs.remove_file(path.as_str()) {
            Ok(())
        } else {
            proof {
                assert(fs@ =~= old(fs)@);
            }
            Err(Error::IoError("file not found".to_owned()))
        }
    }

    /// The topology-specific post-install step. For the direct topology: a
    /// no-op. For the overlay topology: places the loader-shim payload
    /// verbatim in the overlay folder, then runs the redirection gate on the
    /// OS configuration model; `confirm` is the operator's answer were the
    /// gate to ask. Fails with `NoInstallDir` iff the overlay topology is
    /// active and no base directory is known, and then changes nothing.
    pub fn post_install(
        &self,
        fs: &mut FsState,
        reg: &mut RegState,
        shim_payload: &[u8],
        confirm: bool,
    ) -> (r: Result<GateOutcome, Error>)
        ensures
            self.target.spec_topology_kind() is Direct ==> (r matches Ok(o) && o is NotNeeded
                && final(fs)@ == old(fs)@ && *final(reg) == *old(reg)),
            self.target.spec_topology_kind() is DotLocal && self.install_dir is None ==> (r
                matches Err(e) && e is NoInstallDir && final(fs)@ == old(fs)@ && *final(reg)
                == *old(reg)),
            self.target.spec_topology_kind() is DotLocal && self.install_dir is Some ==> (r
                matches Ok(o) && (self.spec_shim_path() matches Some(sp) && final(fs)@ == old(
                fs,
            )@.insert(sp, shim_payload@)) && gate_spec(*old(reg), confirm, o, *final(reg))),
    {
        match self.target.topology_kind() {
            TopologyKind::Direct => Ok(GateOutcome::NotNeeded),
            TopologyKind::DotLocal => {
                let dir = match self.target_dir(TopologyKind::DotLocal) {
                    Some(d) => d,
                    None => return Err(Error::NoInstallDir),
                };
                let shim_path = dir.concat("\\").concat("hachimi_shim.dll");
                fs.write_file(shim_path.as_str(), shim_payload);
                let outcome = apply_gate(reg, confirm);
                Ok(outcome)
            },
        }
    }
}

impl Default for Installer {
    /// A session from platform-metadata discovery alone, with the default
    /// target and no custom file name.
    fn default() -> (r: Installer)
        ensures
            r.target == Target::Winhttp,
            r.custom_target is None,
    {
        Installer {
            install_dir: Installer::detect_install_dir(),
            target: Target::Winhttp,
            custom_target: None,
        }
    }
}

/// The fixed name of the per-application overlay folder the DotLocal
/// topology places files into.
pub fn overlay_dir_name() -> (r: &'static str)
    ensures
        r@ == ("umamusume.exe.local")@,
{
    "umamusume.exe.local"
}

/// The fixed on-disk name of the secondary loader-shim payload of the
/// overlay topology.
pub fn shim_file_name() -> (r: &'static str)
    ensures
        r@ == ("hachimi_shim.dll")@,
{
    "hachimi_shim.dll"
}

/// Installing is idempotent: performing the install step twice in succession
/// leaves exactly the filesystem contents that performing it once leaves,
/// since the payload is deterministic and the write fully overwrites.
pub proof fn lemma_install_idempotent(i: Installer, fs: Map<Seq<char>, Seq<u8>>, payload: Seq<u8>)
    ensures
        i.spec_install_effect(i.spec_install_effect(fs, payload), payload) == i.spec_install_effect(
            fs,
            payload,
        ),
{
    match i.spec_current_path() {
        Some(p) => {
            assert(i.spec_install_effect(i.spec_install_effect(fs, payload), payload)
                =~= i.spec_install_effect(fs, payload));
        },
        None => {},
    }
}

} // verus!
