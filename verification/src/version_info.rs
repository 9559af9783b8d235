use vstd::prelude::*;
use crate::target::Target;

verus! {

/// The view of an optional owned string.
pub open spec fn opt_str_view(o: Option<String>) -> Option<Seq<char>> {
    match o {
        Some(s) => Some(s@),
        None => None,
    }
}

/// The ("product name", "product version") string fields that the embedded
/// version resource of a module image holds under the language-neutral,
/// Unicode key, or `None` for each field that is absent or unreadable.
/// The result is a function of the bytes alone.
pub uninterp spec fn pe_version_fields(b: Seq<u8>) -> (Option<Seq<char>>, Option<Seq<char>>);

/// Relies on pelite: `PeFile::from_bytes`, `Pe::resources`,
/// `Resources::version_info` and `VersionInfo::value` parse a PE image and
/// look up one string field of the version resource. pelite rejects a buffer
/// whose address is not 4-aligned, so the bytes are first re-housed at a
/// 4-byte boundary; every check after that is made on content-derived
/// offsets, so the outcome depends on the bytes alone. Any parse failure is
/// absent fields, never an error.
#[verifier::external_body]
fn read_version_fields(bytes: &[u8]) -> (r: (Option<String>, Option<String>))
    ensures
        opt_str_view(r.0) == pe_version_fields(bytes@).0,
        opt_str_view(r.1) == pe_version_fields(bytes@).1,
{
    let mut buf: Vec<u8> = Vec::with_capacity(bytes.len() + 4);
    buf.resize(buf.as_ptr().align_offset(4), 0);
    let start = buf.len();
    buf.extend_from_slice(bytes);
    let parsed = pelite::PeFile::from_bytes(&buf[start..])
        .ok()
        .and_then(|file| file.resources().ok())
        .and_then(|resources| resources.version_info().ok());
    let Some(info) = parsed else {
        return (None, None);
    };
    let lang = pelite::resources::version_info::Language { lang_id: 0x0000, charset_id: 0x04b0 };
    (info.value(lang, "ProductName"), info.value(lang, "ProductVersion"))
}

/// A snapshot of the name and version strings found on disk at a candidate
/// path. Both fields are absent when the file exists but does not carry a
/// readable version resource.
#[derive(Debug)]
pub struct TargetVersionInfo {
    pub name: Option<String>,
    pub version: Option<String>,
}

impl Default for TargetVersionInfo {
    /// The snapshot of a file without any readable version resource.
    fn default() -> (r: TargetVersionInfo)
        ensures
            r.name is None,
            r.version is None,
    {
        TargetVersionInfo { name: None, version: None }
    }
}

impl TargetVersionInfo {
    /// Whether a snapshot identifies the installed module: true iff the
    /// display-name field is present and equals the product-name marker
    /// exactly, case-sensitively.
    pub open spec fn spec_is_hachimi(self) -> bool {
        match self.name {
            Some(n) => n@ == ("Hachimi")@,
            None => false,
        }
    }

    /// Reads the version resource fields out of the raw bytes of a module
    /// image. A file whose bytes cannot be parsed yields a snapshot with
    /// both fields absent; this is not an error.
    pub fn from_module_bytes(bytes: &[u8]) -> (r: TargetVersionInfo)
        ensures
            opt_str_view(r.name) == pe_version_fields(bytes@).0,
            opt_str_view(r.version) == pe_version_fields(bytes@).1,
    {
        let (name, version) = read_version_fields(bytes);
        TargetVersionInfo { name, version }
    }

    /// True iff the display-name field equals the marker string `"Hachimi"`
    /// exactly; an absent name is never a match.
    pub fn is_hachimi(&self) -> (r: bool)
        ensures
            r == self.spec_is_hachimi(),
    {
        match &self.name {
            Some(name) => *name == "Hachimi".to_owned(),
            None => false,
        }
    }

    /// The human-facing label of a probed target:
    /// `"<file-name> (<display-name-or-Unknown>)"`.
    pub fn get_display_label(&self, target: Target) -> (r: String)
        ensures
            r@ == target.spec_dll_name() + (" (")@ + (match self.name {
                Some(n) => n@,
                None => ("Unknown")@,
            }) + (")")@,
    {
        let name: String = match &self.name {
            Some(n) => n.clone(),
            None => "Unknown".to_owned(),
        };
        let label = target.dll_name().to_owned();
        let label = label.concat(" (");
        let label = label.concat(name.as_str());
        let label = label.concat(")");
        label
    }
}

} // verus!
