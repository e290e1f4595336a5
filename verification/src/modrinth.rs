//! Choosing the Modrinth file of a pre-defined mod for the supported game version.
use vstd::prelude::*;
use crate::text::text_eq;

verus! {

/// The Modrinth API root.
pub const MODRINTH_API: &'static str = "https://api.modrinth.com/v2";

/// The game version the launcher installs mods for.
pub const MC_VERSION: &'static str = "1.21.4";

/// The mod loader the launcher installs mods for.
pub const MOD_LOADER: &'static str = "fabric";

/// One published version of a Modrinth project.
pub struct ModrinthVersion {
    pub game_versions: Vec<String>,
    pub loaders: Vec<String>,
    pub files: Vec<ModrinthFile>,
}

/// One file of a Modrinth version.
pub struct ModrinthFile {
    pub filename: String,
    pub url: String,
    pub primary: bool,
}

/// Why no file could be chosen.
pub enum ModrinthError {
    /// No version supports `MC_VERSION` with `MOD_LOADER`.
    NoCompatibleVersion,
    /// The first compatible version has no files.
    NoFiles,
}

/// Some string of `v` is `s`.
pub open spec fn lists(v: Seq<String>, s: Seq<char>) -> bool {
    exists|i: int| 0 <= i < v.len() && #[trigger] v[i]@ == s
}

/// `v` supports the game version and the loader that the launcher uses.
pub open spec fn is_compatible(v: ModrinthVersion) -> bool {
    lists(v.game_versions@, MC_VERSION@) && lists(v.loaders@, MOD_LOADER@)
}

/// `i` is the index of the first compatible version of `vs`.
pub open spec fn first_compatible(vs: Seq<ModrinthVersion>, i: int) -> bool {
    0 <= i < vs.len() && is_compatible(vs[i]) && forall|j: int| 0 <= j < i ==> !#[trigger] is_compatible(vs[j])
}

/// A version is compatible exactly when "1.21.4" occurs anywhere among its game
/// versions and "fabric" anywhere among its loaders.
pub proof fn law_compatible_version(v: ModrinthVersion)
    ensures
        is_compatible(v) <==> (exists|i: int| 0 <= i < v.game_versions@.len() && #[trigger] v.game_versions@[i]@
            == "1.21.4"@) && (exists|j: int| 0 <= j < v.loaders@.len() && #[trigger] v.loaders@[j]@ == "fabric"@),
{
}

fn lists_exec(v: &Vec<String>, s: &str) -> (r: bool)
    ensures
        r == lists(v@, s@),
{
    let mut i: usize = 0;
    while i < v.len()
        invariant
            i <= v@.len(),
            forall|j: int| 0 <= j < i ==> #[trigger] v@[j]@ != s@,
        decreases v@.len() - i,
    {
        if text_eq(v[i].as_str(), s) {
            return true;
        }
        i = i + 1;
    }
    false
}

/// The first file of the first version (in the order given) that supports
/// `MC_VERSION` with `MOD_LOADER`.
pub fn select_modrinth_file(versions: Vec<ModrinthVersion>) -> (r: Result<ModrinthFile, ModrinthError>)
    ensures
        match r {
            Ok(f) => exists|i: int|
                #[trigger] first_compatible(versions@, i) && versions@[i].files@.len() > 0 && f
                    == versions@[i].files@[0],
            Err(ModrinthError::NoCompatibleVersion) => forall|i: int|
                0 <= i < versions@.len() ==> !#[trigger] is_compatible(versions@[i]),
            Err(ModrinthError::NoFiles) => exists|i: int|
                #[trigger] first_compatible(versions@, i) && versions@[i].files@.len() == 0,
        },
{
    let mut i: usize = 0;
    while i < versions.len()
        invariant
            i <= versions@.len(),
            forall|j: int| 0 <= j < i ==> !#[trigger] is_compatible(versions@[j]),
        decreases versions@.len() - i,
    {
        if lists_exec(&versions[i].game_versions, MC_VERSION) && lists_exec(&versions[i].loaders, MOD_LOADER) {
            assert(first_compatible(versions@, i as int));
            let mut versions = versions;
            let v = versions.remove(i);
            let mut files = v.files;
            if files.len() == 0 {
                return Err(ModrinthError::NoFiles);
            }
            let f = files.remove(0);
            return Ok(f);
        }
        i = i + 1;
    }
    Err(ModrinthError::NoCompatibleVersion)
}

/// The URL that lists the versions of the Modrinth project `slug`.
pub fn modrinth_versions_url(slug: &str) -> (r: String)
    ensures
        r@ == MODRINTH_API@ + "/project/"@ + slug@ + "/version"@,
{
    String::from_str(MODRINTH_API).concat("/project/").concat(slug).concat("/version")
}

} // verus!
