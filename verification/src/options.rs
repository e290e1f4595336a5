//! The launcher's stored options and their defaults.
use vstd::prelude::*;
use crate::account::MinecraftAccount;
use crate::mod_state::{ModStates, StateView};

verus! {

/// Memory given to the game, in MiB, when the stored options do not say.
pub fn default_memory() -> (r: u64)
    ensures
        r == 4096,
{
    4096
}

/// Options of the game launch.
pub struct StartOptions {
    pub minecraft_account: Option<MinecraftAccount>,
    pub custom_data_path: String,
    /// The Java distribution choice as its stored JSON text, empty for the default
    /// choice; the game launcher reads it, this library hands it on.
    pub java_distribution: String,
    pub memory: u64,
}

impl Default for StartOptions {
    fn default() -> (r: Self)
        ensures
            r.minecraft_account is None,
            r.custom_data_path@ == Seq::<char>::empty(),
            r.java_distribution@ == Seq::<char>::empty(),
            r.memory == 4096,
    {
        StartOptions {
            minecraft_account: None,
            custom_data_path: String::new(),
            java_distribution: String::new(),
            memory: default_memory(),
        }
    }
}

/// Options of the launcher itself.
pub struct LauncherOptions {
    pub concurrent_downloads: u32,
    pub keep_launcher_open: bool,
}

impl Default for LauncherOptions {
    fn default() -> (r: Self)
        ensures
            r.concurrent_downloads == 10,
            !r.keep_launcher_open,
    {
        LauncherOptions { concurrent_downloads: 10, keep_launcher_open: false }
    }
}

/// All stored options.
pub struct Options {
    pub start_options: StartOptions,
    pub launcher_options: LauncherOptions,
    pub predefined_mods: ModStates,
    /// Release tag of the client JAR last downloaded.
    pub ancient_version: String,
}

impl Default for Options {
    fn default() -> (r: Self)
        ensures
            r.start_options.minecraft_account is None,
            r.start_options.custom_data_path@ == Seq::<char>::empty(),
            r.start_options.java_distribution@ == Seq::<char>::empty(),
            r.start_options.memory == 4096,
            r.launcher_options.concurrent_downloads == 10,
            !r.launcher_options.keep_launcher_open,
            r.predefined_mods@ == Map::<Seq<char>, StateView>::empty(),
            r.ancient_version@ == Seq::<char>::empty(),
    {
        Options {
            start_options: StartOptions::default(),
            launcher_options: LauncherOptions::default(),
            predefined_mods: ModStates::new(),
            ancient_version: String::new(),
        }
    }
}

} // verus!
