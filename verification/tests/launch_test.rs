use ancient_launcher::launch::launch_mod_states;
use ancient_launcher::runner::{claim_runner, release_runner, take_runner, RunnerError};
use ancient_launcher::account::{
    Expiring, LaunchIdentity, MicrosoftToken, MinecraftAccount, MinecraftToken, MsAuth, Profile,
    RefreshStep, XboxLiveToken,
};
use ancient_launcher::github::{get_jar_url, GithubAsset, GithubRelease, JAR_NAME};
use ancient_launcher::launch::{
    disabled_file_name, fabric_profile_url, find_version_url, memory_mib, mods_directory, mods_path,
    output_log_text, resolve_data_path, start_parameter, LaunchError, VersionEntry,
};
use ancient_launcher::mod_state::{ModStates, PredefinedModState};
use ancient_launcher::modrinth::{modrinth_versions_url, select_modrinth_file, ModrinthError, ModrinthFile, ModrinthVersion};
use ancient_launcher::options::{default_memory, LauncherOptions, Options, StartOptions};
use ancient_launcher::setup::{
    ancient_update_plan, find_mod_file, mod_files_to_remove, mod_setup_plan, record_downloads, AncientPlan,
    ModSetupStep,
};

fn s(x: &str) -> String {
    x.to_string()
}

fn asset(name: &str, url: &str) -> GithubAsset {
    GithubAsset { name: s(name), browser_download_url: s(url), size: Some(1) }
}

#[test]
fn jar_url_is_that_of_the_first_client_asset() {
    let release = GithubRelease {
        tag_name: s("v1"),
        name: s("Release"),
        body: None,
        assets: vec![
            asset("sources.zip", "https://e/src"),
            asset("onetap-1.0.0.jar", "https://e/jar1"),
            asset("onetap-1.0.0.jar", "https://e/jar2"),
        ],
    };
    assert_eq!(get_jar_url(&release), Some("https://e/jar1"));
    assert_eq!(JAR_NAME, "onetap-1.0.0.jar");
}

#[test]
fn jar_url_is_none_without_client_asset() {
    let release = GithubRelease {
        tag_name: s("v1"),
        name: s("Release"),
        body: Some(s("notes")),
        assets: vec![asset("onetap-1.0.1.jar", "https://e/x"), asset("ONETAP-1.0.0.JAR", "https://e/y")],
    };
    assert_eq!(get_jar_url(&release), None);
    let empty = GithubRelease { tag_name: s(""), name: s(""), body: None, assets: vec![] };
    assert_eq!(get_jar_url(&empty), None);
}

#[test]
fn setup_plan_installs_always_enabled_and_enabled_mods() {
    let mut m = ModStates::new();
    m.insert(s("sodium"), PredefinedModState { enabled: true, filename: None });
    m.insert(s("modmenu"), PredefinedModState { enabled: false, filename: Some(s("modmenu-1.jar")) });
    m.insert(s("fabric-api"), PredefinedModState { enabled: false, filename: None });
    let plan = mod_setup_plan(&m);
    assert_eq!(plan.len(), 14);
    let mut installs = Vec::new();
    for step in &plan {
        match step {
            ModSetupStep::Install(d) => installs.push(d.id),
            ModSetupStep::Remove(d, f) => {
                if d.id == "modmenu" {
                    assert_eq!(f.as_deref(), Some("modmenu-1.jar"));
                } else {
                    assert_eq!(*f, None);
                }
            },
        }
    }
    assert_eq!(installs, vec!["fabric-api", "sodium", "cloth-config"]);
}

#[test]
fn recorded_downloads_set_filenames_and_keep_flags() {
    let mut m = ModStates::new();
    m.insert(s("sodium"), PredefinedModState { enabled: true, filename: Some(s("old.jar")) });
    record_downloads(&mut m, &vec![(s("sodium"), s("sodium-new.jar")), (s("fabric-api"), s("fabric-api-1.jar"))]);
    let so = m.get("sodium").unwrap();
    assert!(so.enabled);
    assert_eq!(so.filename.as_deref(), Some("sodium-new.jar"));
    let fa = m.get("fabric-api").unwrap();
    assert!(!fa.enabled);
    assert_eq!(fa.filename.as_deref(), Some("fabric-api-1.jar"));
    assert_eq!(m.len(), 2);
}

#[test]
fn mod_files_are_found_by_slug_and_removed_as_jars() {
    let dir = vec![s("x.jar"), s("sodium.txt"), s("sodium-extra-1.jar"), s("sodium-1.jar"), s("sodiumplus.jar.disabled")];
    assert_eq!(find_mod_file(&dir, "sodium"), Some(s("sodium.txt")));
    assert_eq!(find_mod_file(&dir, "sodium-extra"), Some(s("sodium-extra-1.jar")));
    assert_eq!(find_mod_file(&dir, "modmenu"), None);
    // Only active JARs of the slug are removed; other files of the slug stay.
    assert_eq!(mod_files_to_remove(&dir, "sodium"), vec![s("sodium-extra-1.jar"), s("sodium-1.jar")]);
    assert!(mod_files_to_remove(&dir, "wider-tab").is_empty());
}

#[test]
fn ancient_plan_cases() {
    assert!(matches!(ancient_update_plan(true, "v1", "v1"), AncientPlan::UpToDate));
    assert!(matches!(ancient_update_plan(true, "v1", "v2"), AncientPlan::Download { remove_old: true }));
    assert!(matches!(ancient_update_plan(false, "v1", "v2"), AncientPlan::Download { remove_old: false }));
    assert!(matches!(ancient_update_plan(false, "v2", "v2"), AncientPlan::Download { remove_old: false }));
    assert!(matches!(ancient_update_plan(true, "", "v2"), AncientPlan::Download { remove_old: true }));
}

fn version(games: &[&str], loaders: &[&str], files: &[&str]) -> ModrinthVersion {
    ModrinthVersion {
        game_versions: games.iter().map(|x| s(x)).collect(),
        loaders: loaders.iter().map(|x| s(x)).collect(),
        files: files
            .iter()
            .map(|f| ModrinthFile { filename: s(f), url: format!("https://cdn/{}", f), primary: false })
            .collect(),
    }
}

#[test]
fn modrinth_picks_first_file_of_first_compatible_version() {
    let vs = vec![
        version(&["1.21.5"], &["fabric"], &["new.jar"]),
        version(&["1.21.4"], &["forge"], &["forge.jar"]),
        version(&["1.21.3", "1.21.4"], &["quilt", "fabric"], &["ok.jar", "ok-sources.jar"]),
        version(&["1.21.4"], &["fabric"], &["later.jar"]),
    ];
    let f = select_modrinth_file(vs).ok().unwrap();
    assert_eq!(f.filename, "ok.jar");
    assert_eq!(f.url, "https://cdn/ok.jar");
}

#[test]
fn modrinth_errors() {
    let none = vec![version(&["1.20"], &["fabric"], &["a.jar"])];
    assert!(matches!(select_modrinth_file(none), Err(ModrinthError::NoCompatibleVersion)));
    assert!(matches!(select_modrinth_file(vec![]), Err(ModrinthError::NoCompatibleVersion)));
    let empty = vec![version(&["1.21.4"], &["fabric"], &[]), version(&["1.21.4"], &["fabric"], &["b.jar"])];
    assert!(matches!(select_modrinth_file(empty), Err(ModrinthError::NoFiles)));
    assert_eq!(modrinth_versions_url("sodium"), "https://api.modrinth.com/v2/project/sodium/version");
}

#[test]
fn offline_account_uuid_is_the_name_based_one() {
    let acc = MinecraftAccount::auth_offline(s("Notch"));
    match &acc {
        MinecraftAccount::OfflineAccount { name, id } => {
            assert_eq!(name, "Notch");
            assert_eq!(id[6] & 0xf0, 0x30);
            assert_eq!(id[8] & 0xc0, 0x80);
        },
        _ => panic!("not an offline account"),
    }
    assert_eq!(acc.get_username(), "Notch");
    assert!(acc.logout().is_ok());
    let again = MinecraftAccount::auth_offline(s("Notch"));
    let other = MinecraftAccount::auth_offline(s("notch"));
    match (&acc, &again, &other) {
        (
            MinecraftAccount::OfflineAccount { id: a, .. },
            MinecraftAccount::OfflineAccount { id: b, .. },
            MinecraftAccount::OfflineAccount { id: c, .. },
        ) => {
            assert_eq!(a, b);
            assert_ne!(a, c);
        },
        _ => panic!("not offline accounts"),
    }
}

#[test]
fn uuid_text_is_hyphenated_lower_hex() {
    let b: [u8; 16] = [0xAB, 0xCD, 0xEF, 0x01, 0x23, 0x45, 0x67, 0x89, 0x0a, 0x0b, 0x0c, 0x0d, 0x0e, 0x0f, 0xf0, 0xff];
    let legacy = MinecraftAccount::LegacyMsaAccount {
        name: s("Alex"),
        uuid: b,
        token: s("t"),
        ms_auth: MsAuth::default(),
    };
    let id = LaunchIdentity::of_account(&legacy);
    assert_eq!(id.uuid, "abcdef01-2345-6789-0a0b-0c0d0e0ff0ff");
    assert_eq!(id.access_token, "t");
    assert_eq!(id.user_type, "msa");
}

fn msa_account(msa_expires: u64, mca_expires: u64) -> MinecraftAccount {
    MinecraftAccount::MsaAccount {
        msa: Expiring {
            expires_at: msa_expires,
            data: MicrosoftToken {
                token_type: s("bearer"),
                expires_in: 3600,
                scope: s("XboxLive.signin offline_access"),
                access_token: s("ms-access"),
                refresh_token: s("ms-refresh"),
                user_id: s("u"),
            },
        },
        xbl: Expiring { expires_at: 0, data: XboxLiveToken { token: s("x"), user_hash: s("h") } },
        mca: Expiring {
            expires_at: mca_expires,
            data: MinecraftToken {
                username: s("u"),
                roles: vec![],
                access_token: s("mc-token"),
                token_type: s("Bearer"),
                expires_in: 86400,
            },
        },
        profile: Profile { id: [1u8; 16], name: s("Steve"), skins: vec![], capes: vec![] },
    }
}

#[test]
fn refresh_steps() {
    assert!(matches!(msa_account(0, 200).refresh_step(100), RefreshStep::Keep));
    assert!(matches!(msa_account(200, 100).refresh_step(150), RefreshStep::LoginWithStoredToken));
    match msa_account(100, 100).refresh_step(150) {
        RefreshStep::RefreshThenLogin { refresh_token, fall_back } => {
            assert_eq!(refresh_token, "ms-refresh");
            assert!(fall_back);
        },
        _ => panic!("expected a token refresh"),
    }
    // Expiry is strict: a token expiring at `now` is still valid.
    assert!(matches!(msa_account(0, 150).refresh_step(150), RefreshStep::Keep));
    let legacy = MinecraftAccount::LegacyMsaAccount {
        name: s("Alex"),
        uuid: [2u8; 16],
        token: s("legacy-token"),
        ms_auth: MsAuth { expires_in: 1, access_token: s("a"), refresh_token: s("r"), expires_after: 2 },
    };
    match legacy.refresh_step(0) {
        RefreshStep::RefreshThenLogin { refresh_token, fall_back } => {
            assert_eq!(refresh_token, "r");
            assert!(!fall_back);
        },
        _ => panic!("expected a token refresh"),
    }
    assert!(matches!(MinecraftAccount::auth_offline(s("a")).refresh_step(u64::MAX), RefreshStep::Keep));
    assert_eq!(legacy.get_username(), "Alex");
    assert_eq!(msa_account(0, 0).get_username(), "Steve");
}

#[test]
fn ms_auth_default_and_equality() {
    let d = MsAuth::default();
    assert_eq!(d.expires_in, 0);
    assert_eq!(d.access_token, "");
    let a = MsAuth { expires_in: 1, access_token: s("a"), refresh_token: s("r"), expires_after: 2 };
    assert!(a == a.duplicate());
    assert!(a != d);
}

#[test]
fn launch_identity_per_account_kind() {
    let id = LaunchIdentity::of_account(&MinecraftAccount::auth_offline(s("Notch")));
    assert_eq!(id.player_name, "Notch");
    assert_eq!(id.uuid, "b50ad385-829d-3141-a216-7e7d7539ba7f");
    assert_eq!(id.access_token, "-");
    assert_eq!(id.user_type, "legacy");
    let id = LaunchIdentity::of_account(&msa_account(0, 0));
    assert_eq!(id.player_name, "Steve");
    assert_eq!(id.uuid, "01010101-0101-0101-0101-010101010101");
    assert_eq!(id.access_token, "mc-token");
    assert_eq!(id.user_type, "msa");
}

#[test]
fn option_defaults() {
    assert_eq!(default_memory(), 4096);
    let o = Options::default();
    assert!(o.start_options.minecraft_account.is_none());
    assert_eq!(o.start_options.custom_data_path, "");
    assert_eq!(o.start_options.memory, 4096);
    assert_eq!(o.launcher_options.concurrent_downloads, 10);
    assert!(!o.launcher_options.keep_launcher_open);
    assert_eq!(o.predefined_mods.len(), 0);
    assert_eq!(o.ancient_version, "");
    assert_eq!(StartOptions::default().memory, 4096);
    assert_eq!(LauncherOptions::default().concurrent_downloads, 10);
}

#[test]
fn start_parameter_needs_an_account() {
    let o = Options::default();
    assert!(matches!(start_parameter(&o, s("xuid")), Err(LaunchError::NoAccountSelected)));
}

#[test]
fn start_parameter_from_options() {
    let mut o = Options::default();
    o.start_options.minecraft_account = Some(MinecraftAccount::auth_offline(s("Notch")));
    o.start_options.memory = 2048;
    o.launcher_options.keep_launcher_open = true;
    o.launcher_options.concurrent_downloads = 3;
    let p = start_parameter(&o, s("xuid-1")).ok().unwrap();
    assert!(p.jvm_args.is_empty());
    assert_eq!(p.memory, 2048);
    assert_eq!(p.custom_data_path, None);
    assert_eq!(p.auth_player_name, "Notch");
    assert_eq!(p.auth_uuid, "b50ad385-829d-3141-a216-7e7d7539ba7f");
    assert_eq!(p.auth_access_token, "-");
    assert_eq!(p.auth_xuid, "xuid-1");
    assert_eq!(p.user_type, "legacy");
    assert!(p.keep_launcher_open);
    assert_eq!(p.concurrent_downloads, 3);
    o.start_options.custom_data_path = s("/games/mc");
    let p = start_parameter(&o, s("x")).ok().unwrap();
    assert_eq!(p.custom_data_path.as_deref(), Some("/games/mc"));
}

#[test]
fn data_and_mods_paths() {
    assert_eq!(mods_directory("/data"), "/data/gameDir/mods");
    assert_eq!(mods_directory("/data/"), "/data/gameDir/mods");
    let mut o = Options::default();
    assert_eq!(resolve_data_path(&o, "/default"), "/default");
    assert_eq!(mods_path(&o, "/default"), "/default/gameDir/mods");
    o.start_options.custom_data_path = s("/custom");
    assert_eq!(resolve_data_path(&o, "/default"), "/custom");
    assert_eq!(mods_path(&o, "/default"), "/custom/gameDir/mods");
}

#[test]
fn small_helpers() {
    assert_eq!(disabled_file_name("x.jar"), "x.jar.disabled");
    assert_eq!(
        fabric_profile_url(),
        "https://meta.fabricmc.net/v2/versions/loader/1.21.4/0.17.3/profile/json"
    );
    let vs = vec![
        VersionEntry { id: s("1.21.3"), url: s("u3") },
        VersionEntry { id: s("1.21.4"), url: s("u4") },
        VersionEntry { id: s("1.21.4"), url: s("u4b") },
    ];
    assert_eq!(find_version_url(&vs, "1.21.4"), Some("u4"));
    assert_eq!(find_version_url(&vs, "1.8"), None);
    assert_eq!(memory_mib(16 * 1024 * 1024 * 1024), 16384);
    assert_eq!(memory_mib(1024 * 1024 - 1), 0);
    assert_eq!(output_log_text("line\n"), "line");
    assert_eq!(output_log_text("line\n\n"), "line\n");
    assert_eq!(output_log_text("no newline"), "no newline");
    assert_eq!(output_log_text(""), "");
}

#[test]
fn start_parameter_carries_java_distribution() {
    let mut o = Options::default();
    assert_eq!(o.start_options.java_distribution, "");
    o.start_options.minecraft_account = Some(MinecraftAccount::auth_offline(s("Notch")));
    o.start_options.java_distribution = s("{\"Manual\":\"Temurin\"}");
    let p = start_parameter(&o, s("x")).ok().unwrap();
    assert_eq!(p.java_distribution, "{\"Manual\":\"Temurin\"}");
}

#[test]
fn launch_uses_stored_mod_states_when_present() {
    let mut passed = ModStates::new();
    passed.insert(s("sodium"), PredefinedModState { enabled: true, filename: None });
    let mut stored = ModStates::new();
    stored.insert(s("modmenu"), PredefinedModState { enabled: true, filename: Some(s("m.jar")) });
    let r = launch_mod_states(Some(stored), &passed);
    assert!(r.get("sodium").is_none());
    assert_eq!(r.get("modmenu").unwrap().filename.as_deref(), Some("m.jar"));
    let r = launch_mod_states(None, &passed);
    assert!(r.get("sodium").unwrap().enabled);
    assert_eq!(r.len(), 1);
    assert_eq!(passed.len(), 1);
}

#[test]
fn runner_slot_admits_one_run() {
    let mut slot: Option<u32> = None;
    assert!(claim_runner(&mut slot, 1).is_ok());
    assert_eq!(slot, Some(1));
    assert!(matches!(claim_runner(&mut slot, 2), Err(RunnerError::AlreadyRunning)));
    assert_eq!(slot, Some(1));
    release_runner(&mut slot);
    assert_eq!(slot, None);
    assert!(claim_runner(&mut slot, 3).is_ok());
    assert_eq!(take_runner(&mut slot), Some(3));
    assert_eq!(slot, None);
    assert_eq!(take_runner(&mut slot), None);
}

fn new_token(expires_at: u64, refresh: &str) -> Expiring<MicrosoftToken> {
    Expiring {
        expires_at,
        data: MicrosoftToken {
            token_type: s("bearer"),
            expires_in: 3600,
            scope: s("s"),
            access_token: s("new-access"),
            refresh_token: s(refresh),
            user_id: s("u"),
        },
    }
}

fn sign_in() -> ancient_launcher::account::SignIn {
    ancient_launcher::account::SignIn {
        xbl: Expiring { expires_at: 9, data: XboxLiveToken { token: s("x2"), user_hash: s("h2") } },
        mca: Expiring {
            expires_at: 99,
            data: MinecraftToken {
                username: s("u"),
                roles: vec![],
                access_token: s("mc2"),
                token_type: s("Bearer"),
                expires_in: 1,
            },
        },
        profile: Profile { id: [7u8; 16], name: s("Herobrine"), skins: vec![], capes: vec![] },
    }
}

#[test]
fn refresh_falls_back_to_stored_token_for_current_accounts() {
    let t = msa_account(100, 100).sign_in_token(Some(Err(s("offline")))).ok().unwrap();
    assert_eq!(t.data.refresh_token, "ms-refresh");
    assert_eq!(t.expires_at, 100);
    let t = msa_account(100, 100).sign_in_token(Some(Ok(new_token(500, "r2")))).ok().unwrap();
    assert_eq!(t.data.refresh_token, "r2");
    let t = msa_account(200, 100).sign_in_token(None).ok().unwrap();
    assert_eq!(t.expires_at, 200);
}

#[test]
fn refresh_of_old_format_account_needs_new_token() {
    let legacy = || MinecraftAccount::LegacyMsaAccount {
        name: s("Alex"),
        uuid: [2u8; 16],
        token: s("legacy-token"),
        ms_auth: MsAuth { expires_in: 1, access_token: s("a"), refresh_token: s("r"), expires_after: 2 },
    };
    assert_eq!(legacy().sign_in_token(Some(Err(s("denied")))).err(), Some(s("denied")));
    let t = legacy().sign_in_token(Some(Ok(new_token(500, "r2")))).ok().unwrap();
    let acc = MinecraftAccount::signed_in(t, Ok(sign_in())).ok().unwrap();
    match &acc {
        MinecraftAccount::MsaAccount { msa, xbl, mca, profile } => {
            assert_eq!(msa.expires_at, 500);
            assert_eq!(xbl.data.token, "x2");
            assert_eq!(mca.data.access_token, "mc2");
            assert_eq!(profile.name, "Herobrine");
        },
        _ => panic!("expected a current Microsoft account"),
    }
    let err = MinecraftAccount::signed_in(new_token(1, "r"), Err(s("no profile")));
    assert_eq!(err.err(), Some(s("no profile")));
}

#[test]
fn offline_uuid_marks_version_and_variant() {
    let d: [u8; 16] = [0xff; 16];
    let id = ancient_launcher::account::offline_uuid_from_digest(d);
    assert_eq!(id[6], 0x3f);
    assert_eq!(id[8], 0xbf);
    let mut expected = d;
    expected[6] = 0x3f;
    expected[8] = 0xbf;
    assert_eq!(id, expected);
    let z = ancient_launcher::account::offline_uuid_from_digest([0u8; 16]);
    assert_eq!(z[6], 0x30);
    assert_eq!(z[8], 0x80);
}
