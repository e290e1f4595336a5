//! The catalogue of pre-defined mods and the user's per-mod state.
use vstd::prelude::*;

verus! {

/// Definition of a pre-defined mod that can be toggled in the launcher UI.
#[derive(Clone, Copy, Debug)]
pub struct PredefinedModDef {
    pub id: &'static str,
    pub name: &'static str,
    pub modrinth_slug: &'static str,
    pub depends_on: Option<&'static str>,
    pub always_enabled: bool,
}

/// A catalogue entry as plain values.
pub struct ModDefView {
    pub id: Seq<char>,
    pub name: Seq<char>,
    pub slug: Seq<char>,
    pub depends_on: Option<Seq<char>>,
    pub always_enabled: bool,
}

impl View for PredefinedModDef {
    type V = ModDefView;

    open spec fn view(&self) -> ModDefView {
        ModDefView {
            id: self.id@,
            name: self.name@,
            slug: self.modrinth_slug@,
            depends_on: match self.depends_on {
                Some(p) => Some(p@),
                None => None,
            },
            always_enabled: self.always_enabled,
        }
    }
}

/// One catalogue entry with no dependency.
pub open spec fn plain_def(id: Seq<char>, name: Seq<char>, slug: Seq<char>, always: bool) -> ModDefView {
    ModDefView { id, name, slug, depends_on: None, always_enabled: always }
}

/// The full list of pre-defined mods, in display order.
pub open spec fn catalog() -> Seq<ModDefView> {
    seq![
        plain_def("fabric-api"@, "Fabric API"@, "fabric-api"@, true),
        plain_def("sodium"@, "Sodium"@, "sodium"@, false),
        plain_def("sodium-extra"@, "Sodium Extra"@, "sodium-extra"@, false),
        plain_def("modmenu"@, "Mod Menu"@, "modmenu"@, false),
        plain_def("immediatelyfast"@, "ImmediatelyFast"@, "immediatelyfast"@, false),
        plain_def("ferrite-core"@, "Ferrite Core"@, "ferrite-core"@, false),
        plain_def("viafabricplus"@, "ViaFabricPlus"@, "viafabricplus"@, false),
        plain_def("cloth-config"@, "Cloth Config"@, "cloth-config"@, true),
        plain_def("moreculling"@, "More Culling"@, "moreculling"@, false),
        plain_def("entityculling"@, "Entity Culling"@, "entityculling"@, false),
        plain_def(
            "network-protocol-disconnect"@,
            "Network Protocol Disconnect"@,
            "network-protocol-disconnect"@,
            false,
        ),
        plain_def("ukulib"@, "Ukulib"@, "ukulib"@, false),
        ModDefView {
            id: "ukus-armor-hud"@,
            name: "Uku's Armor HUD"@,
            slug: "ukus-armor-hud"@,
            depends_on: Some("ukulib"@),
            always_enabled: false,
        },
        plain_def("wider-tab"@, "Wider Tab"@, "wider-tab"@, false),
    ]
}

/// The catalogue as executable values: each entry's view is the matching entry of `catalog()`.
pub fn predefined_mods() -> (r: Vec<PredefinedModDef>)
    ensures
        r@.len() == catalog().len(),
        forall|i: int| 0 <= i < r@.len() ==> #[trigger] r@[i]@ == catalog()[i],
{
    let r = vec![
        PredefinedModDef { id: "fabric-api", name: "Fabric API", modrinth_slug: "fabric-api", depends_on: None, always_enabled: true },
        PredefinedModDef { id: "sodium", name: "Sodium", modrinth_slug: "sodium", depends_on: None, always_enabled: false },
        PredefinedModDef { id: "sodium-extra", name: "Sodium Extra", modrinth_slug: "sodium-extra", depends_on: None, always_enabled: false },
        PredefinedModDef { id: "modmenu", name: "Mod Menu", modrinth_slug: "modmenu", depends_on: None, always_enabled: false },
        PredefinedModDef { id: "immediatelyfast", name: "ImmediatelyFast", modrinth_slug: "immediatelyfast", depends_on: None, always_enabled: false },
        PredefinedModDef { id: "ferrite-core", name: "Ferrite Core", modrinth_slug: "ferrite-core", depends_on: None, always_enabled: false },
        PredefinedModDef { id: "viafabricplus", name: "ViaFabricPlus", modrinth_slug: "viafabricplus", depends_on: None, always_enabled: false },
        PredefinedModDef { id: "cloth-config", name: "Cloth Config", modrinth_slug: "cloth-config", depends_on: None, always_enabled: true },
        PredefinedModDef { id: "moreculling", name: "More Culling", modrinth_slug: "moreculling", depends_on: None, always_enabled: false },
        PredefinedModDef { id: "entityculling", name: "Entity Culling", modrinth_slug: "entityculling", depends_on: None, always_enabled: false },
        PredefinedModDef { id: "network-protocol-disconnect", name: "Network Protocol Disconnect", modrinth_slug: "network-protocol-disconnect", depends_on: None, always_enabled: false },
        PredefinedModDef { id: "ukulib", name: "Ukulib", modrinth_slug: "ukulib", depends_on: None, always_enabled: false },
        PredefinedModDef { id: "ukus-armor-hud", name: "Uku's Armor HUD", modrinth_slug: "ukus-armor-hud", depends_on: Some("ukulib"), always_enabled: false },
        PredefinedModDef { id: "wider-tab", name: "Wider Tab", modrinth_slug: "wider-tab", depends_on: None, always_enabled: false },
    ];
    assert(r@.len() == catalog().len());
    assert forall|i: int| 0 <= i < r@.len() implies #[trigger] r@[i]@ == catalog()[i] by {
        assert(r@[i]@ =~= catalog()[i]);
    }
    r
}

/// No two catalogue mods share an id, and the dependency of every catalogue mod
/// is itself a catalogue mod.
pub proof fn law_catalog_well_formed()
    ensures
        forall|i: int, j: int|
            0 <= i < j < catalog().len() ==> #[trigger] catalog()[i].id != #[trigger] catalog()[j].id,
        forall|i: int|
            0 <= i < catalog().len() && #[trigger] catalog()[i].depends_on is Some ==> exists|j: int|
                0 <= j < catalog().len() && catalog()[j].id == catalog()[i].depends_on->Some_0,
{
    reveal_strlit("fabric-api");
    reveal_strlit("sodium");
    reveal_strlit("sodium-extra");
    reveal_strlit("modmenu");
    reveal_strlit("immediatelyfast");
    reveal_strlit("ferrite-core");
    reveal_strlit("viafabricplus");
    reveal_strlit("cloth-config");
    reveal_strlit("moreculling");
    reveal_strlit("entityculling");
    reveal_strlit("network-protocol-disconnect");
    reveal_strlit("ukulib");
    reveal_strlit("ukus-armor-hud");
    reveal_strlit("wider-tab");
    assert forall|i: int, j: int|
        0 <= i < j < catalog().len() implies #[trigger] catalog()[i].id != #[trigger] catalog()[j].id by {
        let a = catalog()[i].id;
        let b = catalog()[j].id;
        if a.len() == b.len() {
            assert(a[0] != b[0] || a[1] != b[1] || a[2] != b[2] || a[3] != b[3] || a[a.len() - 1] != b[b.len() - 1]);
        }
    }
    assert(catalog()[11].id == "ukulib"@);
}

} // verus!
