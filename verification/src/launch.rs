//! Paths of the game data, and the parameters a launch starts with.
use vstd::prelude::*;
use crate::account::{launch_identity_of, LaunchIdentity};
use crate::modrinth::MC_VERSION;
use crate::options::Options;
use crate::mod_state::ModStates;
use crate::text::{ends_with, has_suffix, text_eq};

verus! {

/// What `std::path::Path::join` gives for `base` and `part`, as text.
pub uninterp spec fn joined_path(base: Seq<char>, part: Seq<char>) -> Seq<char>;

/// Calls `Path::join`: `part` adjoined to `base` by the platform's rules, named by
/// `joined_path`; the result is turned back into text, which loses nothing for paths
/// made of text.
#[verifier::external_body]
fn path_join(base: &str, part: &str) -> (r: String)
    ensures
        r@ == joined_path(base@, part@),
{
    std::path::Path::new(base).join(part).to_string_lossy().into_owned()
}

/// The directory holding the user's installed mods (fabric's `mods` folder) under the data directory `data`.
pub fn mods_directory(data: &str) -> (r: String)
    ensures
        r@ == joined_path(joined_path(data@, "gameDir"@), "mods"@),
{
    let game_dir = path_join(data, "gameDir");
    path_join(game_dir.as_str(), "mods")
}

/// The data directory: the custom one of the options when set, else `default_dir`.
pub fn resolve_data_path(options: &Options, default_dir: &str) -> (r: String)
    ensures
        r@ == (if options.start_options.custom_data_path@.len() > 0 {
            options.start_options.custom_data_path@
        } else {
            default_dir@
        }),
{
    if !options.start_options.custom_data_path.as_str().is_empty() {
        options.start_options.custom_data_path.clone()
    } else {
        String::from_str(default_dir)
    }
}

/// The mods directory of the data directory that `options` selects.
pub fn mods_path(options: &Options, default_dir: &str) -> (r: String)
    ensures
        r@ == joined_path(
            joined_path(
                if options.start_options.custom_data_path@.len() > 0 {
                    options.start_options.custom_data_path@
                } else {
                    default_dir@
                },
                "gameDir"@,
            ),
            "mods"@,
        ),
{
    let data = resolve_data_path(options, default_dir);
    mods_directory(data.as_str())
}

/// The name a custom mod has while disabled.
pub fn disabled_file_name(filename: &str) -> (r: String)
    ensures
        r@ == filename@ + ".disabled"@,
{
    String::from_str(filename).concat(".disabled")
}

/// The Fabric loader version the game runs with.
pub const FABRIC_LOADER_VERSION: &'static str = "0.17.3";

/// The URL of the Fabric launch profile for `MC_VERSION` and `FABRIC_LOADER_VERSION`.
pub fn fabric_profile_url() -> (r: String)
    ensures
        r@ == "https://meta.fabricmc.net/v2/versions/loader/"@ + MC_VERSION@ + "/"@ + FABRIC_LOADER_VERSION@
            + "/profile/json"@,
{
    String::from_str("https://meta.fabricmc.net/v2/versions/loader/").concat(MC_VERSION).concat("/").concat(
        FABRIC_LOADER_VERSION,
    ).concat("/profile/json")
}

/// A game version listed in the version manifest: its id and the URL of its profile.
pub struct VersionEntry {
    pub id: String,
    pub url: String,
}

/// The profile URL of the first manifest entry whose id is `id`.
pub fn find_version_url<'a>(versions: &'a Vec<VersionEntry>, id: &str) -> (r: Option<&'a str>)
    ensures
        match r {
            Some(url) => exists|i: int|
                0 <= i < versions@.len() && #[trigger] versions@[i].id@ == id@ && url@ == versions@[i].url@
                    && forall|j: int| 0 <= j < i ==> #[trigger] versions@[j].id@ != id@,
            None => forall|i: int| 0 <= i < versions@.len() ==> #[trigger] versions@[i].id@ != id@,
        },
{
    let mut i: usize = 0;
    while i < versions.len()
        invariant
            i <= versions@.len(),
            forall|j: int| 0 <= j < i ==> #[trigger] versions@[j].id@ != id@,
        decreases versions@.len() - i,
    {
        if text_eq(versions[i].id.as_str(), id) {
            return Some(versions[i].url.as_str());
        }
        i = i + 1;
    }
    None
}

/// The parameters a game launch starts with.
pub struct StartParameter {
    /// The Java distribution choice, as in `StartOptions`.
    pub java_distribution: String,
    pub jvm_args: Vec<String>,
    pub memory: u64,
    pub custom_data_path: Option<String>,
    pub auth_player_name: String,
    pub auth_uuid: String,
    pub auth_access_token: String,
    pub auth_xuid: String,
    pub user_type: String,
    pub keep_launcher_open: bool,
    pub concurrent_downloads: u32,
}

/// Why a launch cannot start.
pub enum LaunchError {
    /// The options name no account.
    NoAccountSelected,
}

/// The parameters of a launch with `options`, the session's Xbox user id being
/// `xuid`; fails when no account is selected.
pub fn start_parameter(options: &Options, xuid: String) -> (r: Result<StartParameter, LaunchError>)
    ensures
        options.start_options.minecraft_account is None <==> r is Err,
        r matches Ok(p) ==> {
            let account = options.start_options.minecraft_account->Some_0;
            let id = launch_identity_of(account);
            &&& p.java_distribution@ == options.start_options.java_distribution@
            &&& p.jvm_args@.len() == 0
            &&& p.memory == options.start_options.memory
            &&& p.custom_data_path.deep_view() == (if options.start_options.custom_data_path@.len() > 0 {
                Some(options.start_options.custom_data_path@)
            } else {
                None
            })
            &&& p.auth_player_name@ == id.0
            &&& p.auth_uuid@ == id.1
            &&& p.auth_access_token@ == id.2
            &&& p.user_type@ == id.3
            &&& p.auth_xuid@ == xuid@
            &&& p.keep_launcher_open == options.launcher_options.keep_launcher_open
            &&& p.concurrent_downloads == options.launcher_options.concurrent_downloads
        },
{
    let account = match &options.start_options.minecraft_account {
        Some(a) => a,
        None => {
            return Err(LaunchError::NoAccountSelected);
        },
    };
    let identity = LaunchIdentity::of_account(account);
    let custom_data_path = if !options.start_options.custom_data_path.as_str().is_empty() {
        Some(options.start_options.custom_data_path.clone())
    } else {
        None
    };
    Ok(StartParameter {
        java_distribution: options.start_options.java_distribution.clone(),
        jvm_args: Vec::new(),
        memory: options.start_options.memory,
        custom_data_path,
        auth_player_name: identity.player_name,
        auth_uuid: identity.uuid,
        auth_access_token: identity.access_token,
        auth_xuid: xuid,
        user_type: identity.user_type,
        keep_launcher_open: options.launcher_options.keep_launcher_open,
        concurrent_downloads: options.launcher_options.concurrent_downloads,
    })
}

/// The mod states a launch sets the mods folder up with: those stored in the
/// options file when it could be read (`stored`), else those of the options the
/// launch was asked with.
pub fn launch_mod_states(stored: Option<ModStates>, passed: &ModStates) -> (r: ModStates)
    ensures
        r@ == match stored {
            Some(s) => s@,
            None => passed@,
        },
{
    match stored {
        Some(s) => s,
        None => passed.duplicate(),
    }
}

/// System memory in MiB, from a byte count.
pub fn memory_mib(bytes: u64) -> (r: u64)
    ensures
        r as int == bytes as int / 1048576int,
{
    bytes / (1024 * 1024)
}

/// The text logged for a chunk of game output: the chunk without one trailing newline.
pub fn output_log_text(data: &str) -> (r: String)
    ensures
        r@ == (if has_suffix(data@, "\n"@) {
            data@.subrange(0, data@.len() - 1)
        } else {
            data@
        }),
{
    if ends_with(data, "\n") {
        proof {
            reveal_strlit("\n");
        }
        let n: usize = data.unicode_len();
        String::from_str(data.substring_char(0, n - 1))
    } else {
        String::from_str(data)
    }
}

} // verus!
