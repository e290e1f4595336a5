use ancient_launcher::catalog::predefined_mods;
use ancient_launcher::custom_mods::{custom_mods, custom_toggle_rename, slug_claims_file, sort_by_filename, CustomModInfo};
use ancient_launcher::mod_state::{default_true, ModStates, PredefinedModState};
use ancient_launcher::predefined::{any_installed_file, listed_predefined_mods, toggle_predefined_mod, PredefinedModInfo};

fn names(v: &[&str]) -> Vec<String> {
    v.iter().map(|s| s.to_string()).collect()
}

fn state(enabled: bool, filename: Option<&str>) -> PredefinedModState {
    PredefinedModState { enabled, filename: filename.map(|f| f.to_string()) }
}

fn enabled_of(states: &ModStates, id: &str) -> Option<bool> {
    states.get(id).map(|s| s.enabled)
}

fn filename_of(states: &ModStates, id: &str) -> Option<String> {
    states.get(id).and_then(|s| s.filename.clone())
}

#[test]
fn catalogue_has_fourteen_mods_in_order() {
    let defs = predefined_mods();
    assert_eq!(defs.len(), 14);
    assert_eq!(defs[0].id, "fabric-api");
    assert!(defs[0].always_enabled);
    assert_eq!(defs[7].id, "cloth-config");
    assert!(defs[7].always_enabled);
    assert_eq!(defs[12].id, "ukus-armor-hud");
    assert_eq!(defs[12].depends_on, Some("ukulib"));
    assert_eq!(defs[13].name, "Wider Tab");
    assert_eq!(defs.iter().filter(|d| d.depends_on.is_some()).count(), 1);
}

#[test]
fn mod_state_defaults() {
    let s = PredefinedModState::default();
    assert!(!s.enabled);
    assert_eq!(s.filename, None);
    assert!(default_true());
}

#[test]
fn mod_states_insert_get_and_update() {
    let mut m = ModStates::new();
    assert_eq!(m.len(), 0);
    assert!(m.get("sodium").is_none());
    m.insert("sodium".to_string(), state(true, Some("sodium-0.6.jar")));
    m.insert("modmenu".to_string(), state(false, None));
    assert_eq!(m.len(), 2);
    assert_eq!(enabled_of(&m, "sodium"), Some(true));
    m.insert("sodium".to_string(), state(false, None));
    assert_eq!(m.len(), 2);
    assert_eq!(enabled_of(&m, "sodium"), Some(false));
    assert_eq!(filename_of(&m, "sodium"), None);
    m.set_filename("modmenu", "modmenu-13.jar".to_string());
    assert_eq!(filename_of(&m, "modmenu"), Some("modmenu-13.jar".to_string()));
    assert_eq!(enabled_of(&m, "modmenu"), Some(false));
    m.set_enabled("wider-tab", true);
    assert_eq!(enabled_of(&m, "wider-tab"), Some(true));
    assert_eq!(filename_of(&m, "wider-tab"), None);
    let d = m.get_or_default("nothing");
    assert!(!d.enabled && d.filename.is_none());
    let mut seen: Vec<String> = (0..m.len()).map(|i| m.entry_at(i).0.clone()).collect();
    seen.sort();
    assert_eq!(seen, names(&["modmenu", "sodium", "wider-tab"]));
}

#[test]
fn toggle_sets_the_mod_and_keeps_its_file() {
    let mut m = ModStates::new();
    m.insert("sodium".to_string(), state(false, Some("sodium-0.6.jar")));
    m.insert("modmenu".to_string(), state(true, None));
    toggle_predefined_mod(&mut m, "sodium", true);
    assert_eq!(enabled_of(&m, "sodium"), Some(true));
    assert_eq!(filename_of(&m, "sodium"), Some("sodium-0.6.jar".to_string()));
    assert_eq!(enabled_of(&m, "modmenu"), Some(true));
    assert_eq!(m.len(), 2);
    // Same toggle again changes nothing.
    toggle_predefined_mod(&mut m, "sodium", true);
    assert_eq!(enabled_of(&m, "sodium"), Some(true));
    assert_eq!(m.len(), 2);
    // The second toggle decides.
    toggle_predefined_mod(&mut m, "sodium", false);
    assert_eq!(enabled_of(&m, "sodium"), Some(false));
}

#[test]
fn toggle_cascades_forward_to_dependents() {
    let mut m = ModStates::new();
    toggle_predefined_mod(&mut m, "ukulib", true);
    assert_eq!(enabled_of(&m, "ukulib"), Some(true));
    assert_eq!(enabled_of(&m, "ukus-armor-hud"), Some(true));
    assert_eq!(m.len(), 2);
}

#[test]
fn toggle_cascades_backward_to_dependency() {
    let mut m = ModStates::new();
    m.insert("ukulib".to_string(), state(true, Some("ukulib-1.jar")));
    toggle_predefined_mod(&mut m, "ukus-armor-hud", false);
    assert_eq!(enabled_of(&m, "ukus-armor-hud"), Some(false));
    assert_eq!(enabled_of(&m, "ukulib"), Some(false));
    assert_eq!(filename_of(&m, "ukulib"), Some("ukulib-1.jar".to_string()));
}

#[test]
fn toggle_of_unknown_id_touches_only_it() {
    let mut m = ModStates::new();
    toggle_predefined_mod(&mut m, "not-a-mod", true);
    assert_eq!(m.len(), 1);
    assert_eq!(enabled_of(&m, "not-a-mod"), Some(true));
}

#[test]
fn listed_mods_hide_fabric_api_ukulib_and_cloth_config() {
    let mut m = ModStates::new();
    m.insert("sodium".to_string(), state(true, Some("sodium.jar")));
    let listed = listed_predefined_mods(&m);
    let ids: Vec<&str> = listed.iter().map(|l| l.def.id).collect();
    assert_eq!(
        ids,
        vec![
            "sodium",
            "sodium-extra",
            "modmenu",
            "immediatelyfast",
            "ferrite-core",
            "viafabricplus",
            "moreculling",
            "entityculling",
            "network-protocol-disconnect",
            "ukus-armor-hud",
            "wider-tab"
        ]
    );
    assert!(listed[0].state.enabled);
    assert_eq!(listed[0].state.filename, Some("sodium.jar".to_string()));
    assert!(!listed[1].state.enabled);
    let info = PredefinedModInfo::from_listed(&listed[0], true, &None);
    assert_eq!(info.id, "sodium");
    assert_eq!(info.name, "Sodium");
    assert!(info.enabled);
    assert!(info.installed);
    // A recorded file decides by its presence, whatever the folder holds.
    let info = PredefinedModInfo::from_listed(&listed[0], false, &Some(names(&["sodium-0.6.jar"])));
    assert!(!info.installed);
    let info = PredefinedModInfo::from_listed(&listed[9], false, &None);
    assert_eq!(info.name, "Uku's Armor HUD");
    assert!(!info.enabled && !info.installed);
    // Without a recorded file the folder is scanned.
    let info = PredefinedModInfo::from_listed(&listed[9], false, &Some(names(&["ukus-armor-hud-2.jar.disabled"])));
    assert!(info.installed);
    let info = PredefinedModInfo::from_listed(&listed[9], true, &Some(names(&["ukus-armor-hud.txt"])));
    assert!(!info.installed);
}

#[test]
fn installed_files_match_slug_prefix_and_jar_suffix() {
    let dir = names(&["sodium-0.6.jar.disabled", "modmenu-13.jar", "notes.txt"]);
    assert!(any_installed_file(&dir, "sodium"));
    assert!(any_installed_file(&dir, "modmenu"));
    assert!(!any_installed_file(&dir, "notes"));
    assert!(!any_installed_file(&dir, "wider-tab"));
    assert!(!any_installed_file(&Vec::new(), "sodium"));
}

fn listing(v: &[CustomModInfo]) -> Vec<(String, bool)> {
    v.iter().map(|c| (c.filename.clone(), c.enabled)).collect()
}

#[test]
fn custom_mods_skip_client_and_predefined_files() {
    let mut m = ModStates::new();
    m.insert("modmenu".to_string(), state(true, Some("menu-renamed.jar")));
    let dir = names(&[
        "zeta.jar",
        "alpha.jar.disabled",
        "sodium-0.6.jar",
        "sodium2.jar",
        "onetap-1.0.0.jar",
        "readme.txt",
        "menu-renamed.jar",
        "fabric-api.jar",
        "ukulib.jar.disabled",
        "beta.JAR",
    ]);
    let r = custom_mods(&m, &dir);
    assert_eq!(
        listing(&r),
        vec![
            ("alpha.jar".to_string(), false),
            ("sodium2.jar".to_string(), true),
            ("zeta.jar".to_string(), true)
        ]
    );
}

#[test]
fn custom_mods_keep_directory_order_for_equal_names() {
    let m = ModStates::new();
    let dir = names(&["x.jar.disabled", "b.jar", "x.jar", "a.jar"]);
    let r = custom_mods(&m, &dir);
    assert_eq!(
        listing(&r),
        vec![
            ("a.jar".to_string(), true),
            ("b.jar".to_string(), true),
            ("x.jar".to_string(), false),
            ("x.jar".to_string(), true)
        ]
    );
    assert!(custom_mods(&m, &Vec::new()).is_empty());
}

#[test]
fn sort_orders_by_code_point() {
    let v = vec![
        CustomModInfo { filename: "b.jar".to_string(), enabled: true },
        CustomModInfo { filename: "B.jar".to_string(), enabled: true },
        CustomModInfo { filename: "é.jar".to_string(), enabled: false },
        CustomModInfo { filename: "a.jar".to_string(), enabled: true },
        CustomModInfo { filename: "a".to_string(), enabled: true },
    ];
    let r = sort_by_filename(v);
    let got: Vec<String> = r.iter().map(|c| c.filename.clone()).collect();
    let mut expected = got.clone();
    expected.sort();
    assert_eq!(got, expected);
    assert_eq!(got, names(&["B.jar", "a", "a.jar", "b.jar", "é.jar"]));
}

#[test]
fn custom_toggle_renames_between_active_and_disabled_names() {
    assert_eq!(
        custom_toggle_rename("x.jar", false, true, false),
        Some(("x.jar".to_string(), "x.jar.disabled".to_string()))
    );
    assert_eq!(
        custom_toggle_rename("x.jar", true, false, true),
        Some(("x.jar.disabled".to_string(), "x.jar".to_string()))
    );
    assert_eq!(custom_toggle_rename("x.jar", true, true, false), None);
    assert_eq!(custom_toggle_rename("x.jar", false, false, true), None);
}

#[test]
fn catalogue_ids_are_distinct_and_dependencies_exist() {
    let defs = predefined_mods();
    for (i, a) in defs.iter().enumerate() {
        for b in defs.iter().skip(i + 1) {
            assert_ne!(a.id, b.id);
        }
        if let Some(p) = a.depends_on {
            assert!(defs.iter().any(|d| d.id == p));
        }
    }
}

#[test]
fn custom_entries_are_jars_of_no_predefined_mod() {
    let m = ModStates::new();
    let dir = names(&["onetap-1.0.0.jar.disabled", "cloth-config-15.jar", "cloth.jar", "wider-tab.jar.disabled"]);
    let r = custom_mods(&m, &dir);
    // The disabled client JAR is listed as a disabled custom mod: only the active one is excluded.
    assert_eq!(
        listing(&r),
        vec![("cloth.jar".to_string(), true), ("onetap-1.0.0.jar".to_string(), false)]
    );
    for c in &r {
        assert!(c.filename.ends_with(".jar"));
    }
}

#[test]
fn slug_claims_files_unless_followed_by_alphanumeric() {
    let m = ModStates::new();
    let dir = names(&["sodium_x.jar", "sodiumé.jar", "sodium.jar", "sodiumZ.jar", "modmenu+1.jar", "modmenu٣.jar"]);
    let r = custom_mods(&m, &dir);
    assert_eq!(
        listing(&r),
        vec![
            ("modmenu٣.jar".to_string(), true),
            ("sodiumZ.jar".to_string(), true),
            ("sodiumé.jar".to_string(), true)
        ]
    );
}

#[test]
fn slug_claims_concrete_names() {
    assert!(slug_claims_file("sodium", "sodium"));
    assert!(slug_claims_file("sodium", "sodium-0.6.jar"));
    assert!(slug_claims_file("sodium", "sodium_x.jar"));
    assert!(!slug_claims_file("sodium", "sodium2.jar"));
    assert!(!slug_claims_file("sodium", "sodiumé.jar"));
    assert!(!slug_claims_file("sodium", "sodi.jar"));
    assert!(slug_claims_file("", ".jar"));
}
