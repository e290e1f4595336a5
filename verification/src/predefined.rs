//! Toggling pre-defined mods, with the cascade along their dependencies.
use vstd::prelude::*;
use crate::catalog::{catalog, law_catalog_well_formed, predefined_mods, ModDefView, PredefinedModDef};
use crate::mod_state::{state_or_default, ModStates, StateView};
use crate::text::{has_prefix, has_suffix, ends_with, starts_with, text_eq};
use crate::mod_state::PredefinedModState;

verus! {

/// Among the first `n` catalogue mods, the ids of those that depend on `id`.
pub open spec fn dependents_before(id: Seq<char>, n: int) -> Set<Seq<char>> {
    Set::new(
        |k: Seq<char>|
            exists|i: int|
                0 <= i < n && #[trigger] catalog()[i].depends_on == Some(id) && catalog()[i].id == k,
    )
}

/// The ids of the catalogue mods that depend on `id`.
pub open spec fn dependents_of(id: Seq<char>) -> Set<Seq<char>> {
    dependents_before(id, catalog().len() as int)
}

/// The dependency of the first mod in `defs` whose id is `id`.
pub open spec fn dependency_in(defs: Seq<ModDefView>, id: Seq<char>) -> Option<Seq<char>>
    decreases defs.len(),
{
    if defs.len() == 0 {
        None
    } else if defs[0].id == id {
        defs[0].depends_on
    } else {
        dependency_in(defs.drop_first(), id)
    }
}

/// The dependency of the catalogue mod `id`, if it has one.
pub open spec fn dependency_of(id: Seq<char>) -> Option<Seq<char>> {
    dependency_in(catalog(), id)
}

/// The mods whose `enabled` flag a toggle of `id` sets: `id` itself, the mods
/// that depend on it, and the mod it depends on.
pub open spec fn cascade_ids(id: Seq<char>) -> Set<Seq<char>> {
    Set::new(|k: Seq<char>| k == id || dependents_of(id).contains(k) || dependency_of(id) == Some(k))
}

/// `m` with the mods of `ids` set to `enabled`; a mod without a state gets the
/// default state first, and every filename stays as it was.
pub open spec fn with_enabled(
    m: Map<Seq<char>, StateView>,
    ids: Set<Seq<char>>,
    enabled: bool,
) -> Map<Seq<char>, StateView> {
    Map::new(
        |k: Seq<char>| m.contains_key(k) || ids.contains(k),
        |k: Seq<char>|
            if ids.contains(k) {
                (enabled, state_or_default(m, k).1)
            } else {
                m[k]
            },
    )
}

/// The states after the user toggles mod `id` to `enabled`.
pub open spec fn toggle_result(m: Map<Seq<char>, StateView>, id: Seq<char>, enabled: bool) -> Map<
    Seq<char>,
    StateView,
> {
    with_enabled(m, cascade_ids(id), enabled)
}

proof fn lemma_with_enabled_step(m: Map<Seq<char>, StateView>, ids: Set<Seq<char>>, enabled: bool, k: Seq<char>)
    ensures
        with_enabled(m, ids, enabled).insert(
            k,
            (enabled, state_or_default(with_enabled(m, ids, enabled), k).1),
        ) == with_enabled(m, ids.insert(k), enabled),
{
    assert(with_enabled(m, ids, enabled).insert(
        k,
        (enabled, state_or_default(with_enabled(m, ids, enabled), k).1),
    ) =~= with_enabled(m, ids.insert(k), enabled));
}

fn def_index(defs: &Vec<PredefinedModDef>, id: &str) -> (r: Option<usize>)
    requires
        defs@.len() == catalog().len(),
        forall|i: int| 0 <= i < defs@.len() ==> #[trigger] defs@[i]@ == catalog()[i],
    ensures
        match r {
            Some(j) => j < catalog().len() && catalog()[j as int].depends_on == dependency_of(id@)
                && catalog()[j as int].id == id@,
            None => dependency_of(id@) is None,
        },
{
    let mut j: usize = 0;
    assert(catalog().skip(0) =~= catalog());
    while j < defs.len()
        invariant
            j <= defs@.len(),
            defs@.len() == catalog().len(),
            forall|i: int| 0 <= i < defs@.len() ==> #[trigger] defs@[i]@ == catalog()[i],
            dependency_of(id@) == dependency_in(catalog().skip(j as int), id@),
        decreases defs@.len() - j,
    {
        assert(defs@[j as int]@ == catalog()[j as int]);
        assert(catalog().skip(j as int)[0] == catalog()[j as int]);
        if text_eq(defs[j].id, id) {
            return Some(j);
        }
        assert(catalog().skip(j as int).drop_first() =~= catalog().skip(j + 1));
        j = j + 1;
    }
    None
}

/// Sets mod `id` to `enabled`, together with the mods that depend on it and the
/// mod it depends on.
pub fn toggle_predefined_mod(states: &mut ModStates, id: &str, enabled: bool)
    ensures
        final(states)@ == toggle_result(old(states)@, id@, enabled),
{
    let ghost m0 = states@;
    states.set_enabled(id, enabled);
    proof {
        lemma_with_enabled_step(m0, Set::empty(), enabled, id@);
        assert(with_enabled(m0, Set::empty(), enabled) =~= m0);
    }
    let ghost base = Set::<Seq<char>>::empty().insert(id@);
    let defs = predefined_mods();
    let mut i: usize = 0;
    assert(base.union(dependents_before(id@, 0)) =~= base);
    while i < defs.len()
        invariant
            i <= defs@.len(),
            defs@.len() == catalog().len(),
            forall|i: int| 0 <= i < defs@.len() ==> #[trigger] defs@[i]@ == catalog()[i],
            base == Set::<Seq<char>>::empty().insert(id@),
            states@ == with_enabled(m0, base.union(dependents_before(id@, i as int)), enabled),
        decreases defs@.len() - i,
    {
        assert(defs@[i as int]@ == catalog()[i as int]);
        let ghost prev = base.union(dependents_before(id@, i as int));
        match defs[i].depends_on {
            Some(p) => {
                if text_eq(p, id) {
                    states.set_enabled(defs[i].id, enabled);
                    proof {
                        lemma_with_enabled_step(m0, prev, enabled, catalog()[i as int].id);
                        assert(catalog()[i as int].depends_on == Some(id@));
                        assert forall|k: Seq<char>| #[trigger] dependents_before(id@, i + 1).contains(k)
                            implies prev.insert(catalog()[i as int].id).contains(k) by {
                            let w = choose|w: int|
                                0 <= w < i + 1 && #[trigger] catalog()[w].depends_on == Some(id@)
                                    && catalog()[w].id == k;
                            if w < i {
                                assert(dependents_before(id@, i as int).contains(k));
                            }
                        }
                        assert(prev.insert(catalog()[i as int].id) =~= base.union(
                            dependents_before(id@, i + 1),
                        ));
                    }
                } else {
                    assert(catalog()[i as int].depends_on != Some(id@));
                    assert forall|k: Seq<char>| #[trigger] dependents_before(id@, i + 1).contains(k)
                        implies prev.contains(k) by {
                        let w = choose|w: int|
                            0 <= w < i + 1 && #[trigger] catalog()[w].depends_on == Some(id@)
                                && catalog()[w].id == k;
                        assert(dependents_before(id@, i as int).contains(k));
                    }
                    assert(prev =~= base.union(dependents_before(id@, i + 1)));
                }
            },
            None => {
                assert(catalog()[i as int].depends_on != Some(id@));
                assert forall|k: Seq<char>| #[trigger] dependents_before(id@, i + 1).contains(k)
                    implies prev.contains(k) by {
                    let w = choose|w: int|
                        0 <= w < i + 1 && #[trigger] catalog()[w].depends_on == Some(id@)
                            && catalog()[w].id == k;
                    assert(dependents_before(id@, i as int).contains(k));
                }
                assert(prev =~= base.union(dependents_before(id@, i + 1)));
            },
        }
        i = i + 1;
    }
    let ghost fwd = base.union(dependents_of(id@));
    match def_index(&defs, id) {
        Some(j) => {
            assert(defs@[j as int]@ == catalog()[j as int]);
            match defs[j].depends_on {
                Some(p) => {
                    states.set_enabled(p, enabled);
                    proof {
                        lemma_with_enabled_step(m0, fwd, enabled, p@);
                        assert(fwd.insert(p@) =~= cascade_ids(id@));
                    }
                },
                None => {
                    assert(fwd =~= cascade_ids(id@));
                },
            }
        },
        None => {
            assert(fwd =~= cascade_ids(id@));
        },
    }
}

proof fn lemma_dependency_from(k: int, i: int)
    requires
        0 <= k <= i < catalog().len(),
        forall|j: int| k <= j < i ==> #[trigger] catalog()[j].id != catalog()[i].id,
    ensures
        dependency_in(catalog().skip(k), catalog()[i].id) == catalog()[i].depends_on,
    decreases i - k,
{
    assert(catalog().skip(k)[0] == catalog()[k]);
    if k < i {
        assert(catalog().skip(k).drop_first() =~= catalog().skip(k + 1));
        lemma_dependency_from(k + 1, i);
    }
}

/// The dependency of a catalogue mod is the one its catalogue entry names.
pub proof fn law_dependency_of_catalog_mod(i: int)
    requires
        0 <= i < catalog().len(),
    ensures
        dependency_of(catalog()[i].id) == catalog()[i].depends_on,
{
    law_catalog_well_formed();
    lemma_dependency_from(0, i);
    assert(catalog().skip(0) =~= catalog());
}

/// Toggling a catalogue mod that depends on another sets both; toggling the other
/// sets both as well.
pub proof fn law_toggle_links_dependency(m: Map<Seq<char>, StateView>, i: int, enabled: bool)
    requires
        0 <= i < catalog().len(),
        catalog()[i].depends_on is Some,
    ensures
        ({
            let p = catalog()[i].depends_on->Some_0;
            let c = catalog()[i].id;
            &&& toggle_result(m, c, enabled)[c].0 == enabled
            &&& toggle_result(m, c, enabled)[p].0 == enabled
            &&& toggle_result(m, p, enabled)[c].0 == enabled
            &&& toggle_result(m, p, enabled)[p].0 == enabled
        }),
{
    let p = catalog()[i].depends_on->Some_0;
    let c = catalog()[i].id;
    law_dependency_of_catalog_mod(i);
    law_toggle_reads_back(m, c, enabled);
    law_toggle_reaches_dependency(m, c, enabled, p);
    law_toggle_reads_back(m, p, enabled);
    law_toggle_reaches_dependents(m, p, enabled, i);
}

/// After mod `id` is toggled to `enabled`, its state reads back as `enabled`.
pub proof fn law_toggle_reads_back(m: Map<Seq<char>, StateView>, id: Seq<char>, enabled: bool)
    ensures
        toggle_result(m, id, enabled).contains_key(id),
        toggle_result(m, id, enabled)[id].0 == enabled,
{
    assert(cascade_ids(id).contains(id));
}

/// A toggle keeps every recorded filename; mods that had no state and gain one get none.
pub proof fn law_toggle_keeps_filenames(m: Map<Seq<char>, StateView>, id: Seq<char>, enabled: bool, k: Seq<char>)
    ensures
        toggle_result(m, id, enabled).contains_key(k) ==> toggle_result(m, id, enabled)[k].1
            == state_or_default(m, k).1,
{
}

/// A toggle leaves the mods outside its cascade as they were.
pub proof fn law_toggle_leaves_others(m: Map<Seq<char>, StateView>, id: Seq<char>, enabled: bool, k: Seq<char>)
    requires
        !cascade_ids(id).contains(k),
    ensures
        toggle_result(m, id, enabled).contains_key(k) == m.contains_key(k),
        m.contains_key(k) ==> toggle_result(m, id, enabled)[k] == m[k],
{
}

/// Toggling a mod twice to the same value is the same as toggling it once.
pub proof fn law_toggle_idempotent(m: Map<Seq<char>, StateView>, id: Seq<char>, enabled: bool)
    ensures
        toggle_result(toggle_result(m, id, enabled), id, enabled) == toggle_result(m, id, enabled),
{
    assert(toggle_result(toggle_result(m, id, enabled), id, enabled) =~= toggle_result(m, id, enabled));
}

/// Of two toggles of the same mod, the second decides.
pub proof fn law_toggle_last_wins(m: Map<Seq<char>, StateView>, id: Seq<char>, first: bool, second: bool)
    ensures
        toggle_result(toggle_result(m, id, first), id, second) == toggle_result(m, id, second),
{
    assert(toggle_result(toggle_result(m, id, first), id, second) =~= toggle_result(m, id, second));
}

/// Toggling a mod sets every catalogue mod that depends on it to the same value.
pub proof fn law_toggle_reaches_dependents(m: Map<Seq<char>, StateView>, id: Seq<char>, enabled: bool, i: int)
    requires
        0 <= i < catalog().len(),
        catalog()[i].depends_on == Some(id),
    ensures
        toggle_result(m, id, enabled).contains_key(catalog()[i].id),
        toggle_result(m, id, enabled)[catalog()[i].id].0 == enabled,
{
    assert(dependents_of(id).contains(catalog()[i].id));
    assert(cascade_ids(id).contains(catalog()[i].id));
}

/// Toggling a mod sets the mod it depends on to the same value.
pub proof fn law_toggle_reaches_dependency(m: Map<Seq<char>, StateView>, id: Seq<char>, enabled: bool, p: Seq<char>)
    requires
        dependency_of(id) == Some(p),
    ensures
        toggle_result(m, id, enabled).contains_key(p),
        toggle_result(m, id, enabled)[p].0 == enabled,
{
    assert(cascade_ids(id).contains(p));
}

/// Mods that the mod list never shows: they are always installed or only serve others.
pub open spec fn hidden_ids() -> Seq<Seq<char>> {
    seq!["fabric-api"@, "ukulib"@, "cloth-config"@]
}

/// The mod list shows `d` only if its dependency, if any, is hidden or enabled.
pub open spec fn parent_enabled(m: Map<Seq<char>, StateView>, d: ModDefView) -> bool {
    match d.depends_on {
        None => true,
        Some(p) => hidden_ids().contains(p) || (m.contains_key(p) && m[p].0),
    }
}

/// The mod list shows `d`: it is not hidden and its dependency allows it.
pub open spec fn is_listed(m: Map<Seq<char>, StateView>, d: ModDefView) -> bool {
    !hidden_ids().contains(d.id) && parent_enabled(m, d)
}

/// The catalogue mods that the mod list shows, each with its state (the default
/// state where it has none), in catalogue order.
pub open spec fn listed_mods(m: Map<Seq<char>, StateView>) -> Seq<(ModDefView, StateView)> {
    catalog().filter(|d: ModDefView| is_listed(m, d)).map_values(
        |d: ModDefView| (d, state_or_default(m, d.id)),
    )
}

/// A pre-defined mod shown in the mod list, with its state.
pub struct ListedMod {
    pub def: PredefinedModDef,
    pub state: PredefinedModState,
}

impl View for ListedMod {
    type V = (ModDefView, StateView);

    open spec fn view(&self) -> (ModDefView, StateView) {
        (self.def@, self.state@)
    }
}

fn is_hidden(id: &str) -> (r: bool)
    ensures
        r == hidden_ids().contains(id@),
{
    let r = text_eq(id, "fabric-api") || text_eq(id, "ukulib") || text_eq(id, "cloth-config");
    proof {
        if hidden_ids().contains(id@) {
            let k = choose|k: int| 0 <= k < hidden_ids().len() && hidden_ids()[k] == id@;
            assert(k == 0 || k == 1 || k == 2);
        }
        if r {
            if id@ == "fabric-api"@ {
                assert(hidden_ids()[0] == id@);
            } else if id@ == "ukulib"@ {
                assert(hidden_ids()[1] == id@);
            } else {
                assert(hidden_ids()[2] == id@);
            }
        }
    }
    r
}

/// The mods that the mod list shows, in catalogue order, each with its state.
pub fn listed_predefined_mods(states: &ModStates) -> (r: Vec<ListedMod>)
    ensures
        r@.map_values(|l: ListedMod| l@) == listed_mods(states@),
{
    let defs = predefined_mods();
    let ghost m = states@;
    let ghost pred = |d: ModDefView| is_listed(m, d);
    let ghost f = |d: ModDefView| (d, state_or_default(m, d.id));
    let mut r: Vec<ListedMod> = Vec::new();
    let mut i: usize = 0;
    proof {
        reveal(Seq::filter);
        assert(catalog().take(0) =~= Seq::<ModDefView>::empty());
        assert(r@.map_values(|l: ListedMod| l@) =~= catalog().take(0).filter(pred).map_values(f));
    }
    while i < defs.len()
        invariant
            i <= defs@.len(),
            defs@.len() == catalog().len(),
            forall|i: int| 0 <= i < defs@.len() ==> #[trigger] defs@[i]@ == catalog()[i],
            m == states@,
            pred == (|d: ModDefView| is_listed(m, d)),
            f == (|d: ModDefView| (d, state_or_default(m, d.id))),
            r@.map_values(|l: ListedMod| l@) == catalog().take(i as int).filter(pred).map_values(f),
        decreases defs@.len() - i,
    {
        let d = defs[i];
        assert(d@ == catalog()[i as int]);
        let listed = if is_hidden(d.id) {
            false
        } else {
            match d.depends_on {
                None => true,
                Some(p) => {
                    if is_hidden(p) {
                        true
                    } else {
                        match states.get(p) {
                            Some(st) => st.enabled,
                            None => false,
                        }
                    }
                },
            }
        };
        proof {
            reveal(Seq::filter);
            assert(catalog().take(i + 1).drop_last() =~= catalog().take(i as int));
            assert(catalog().take(i + 1).last() == d@);
            assert(listed == pred(d@));
        }
        if listed {
            let st = states.get_or_default(d.id);
            let ghost before = r@;
            r.push(ListedMod { def: d, state: st });
            proof {
                assert(r@.map_values(|l: ListedMod| l@) =~= before.map_values(|l: ListedMod| l@).push(
                    (d@, st@),
                ));
                assert(catalog().take(i + 1).filter(pred) == catalog().take(i as int).filter(pred).push(d@));
                assert(catalog().take(i + 1).filter(pred).map_values(f) =~= catalog().take(i as int).filter(
                    pred,
                ).map_values(f).push(f(d@)));
            }
        } else {
            assert(catalog().take(i + 1).filter(pred) == catalog().take(i as int).filter(pred));
        }
        i = i + 1;
    }
    assert(catalog().take(i as int) =~= catalog());
    r
}

/// The mod list shows no hidden mod, and only mods whose dependency allows them.
pub proof fn law_listed_mods_not_hidden(m: Map<Seq<char>, StateView>, i: int)
    requires
        0 <= i < listed_mods(m).len(),
    ensures
        !hidden_ids().contains(listed_mods(m)[i].0.id),
        parent_enabled(m, listed_mods(m)[i].0),
{
    let pred = |d: ModDefView| is_listed(m, d);
    let fl = catalog().filter(pred);
    assert(listed_mods(m)[i].0 == fl[i]);
    catalog().lemma_filter_pred(pred, i);
}

/// A mod-folder file is taken to be `slug`'s download: it starts with the slug and
/// ends with `.jar` or `.jar.disabled`.
pub open spec fn installed_name_for(name: Seq<char>, slug: Seq<char>) -> bool {
    has_prefix(name, slug) && (has_suffix(name, ".jar"@) || has_suffix(name, ".jar.disabled"@))
}

/// Whether some file of `names` is taken to be `slug`'s download.
pub fn any_installed_file(names: &Vec<String>, slug: &str) -> (r: bool)
    ensures
        r == exists|i: int| 0 <= i < names@.len() && #[trigger] installed_name_for(names@[i]@, slug@),
{
    let mut i: usize = 0;
    while i < names.len()
        invariant
            i <= names@.len(),
            forall|k: int| 0 <= k < i ==> !#[trigger] installed_name_for(names@[k]@, slug@),
        decreases names@.len() - i,
    {
        let n = names[i].as_str();
        if starts_with(n, slug) && (ends_with(n, ".jar") || ends_with(n, ".jar.disabled")) {
            assert(installed_name_for(names@[i as int]@, slug@));
            return true;
        }
        i = i + 1;
    }
    false
}

/// A pre-defined mod as the mod list shows it.
#[derive(Debug)]
pub struct PredefinedModInfo {
    pub id: String,
    pub name: String,
    pub enabled: bool,
    pub installed: bool,
}

/// Whether the mod list shows `listed` as installed. When a file is recorded for it,
/// that file's presence in the mods folder (`recorded_exists`) decides; otherwise
/// some file of the folder, as listed in `dir_names` when the folder could be read,
/// must be taken to be its download.
pub open spec fn installed_spec(
    listed: (ModDefView, StateView),
    recorded_exists: bool,
    dir_names: Option<Seq<Seq<char>>>,
) -> bool {
    match listed.1.1 {
        Some(_) => recorded_exists,
        None => match dir_names {
            Some(n) => exists|i: int| 0 <= i < n.len() && #[trigger] installed_name_for(n[i], listed.0.slug),
            None => false,
        },
    }
}

/// For a mod with no recorded file, the mod list shows it installed exactly when the
/// mods folder could be read and one of its files starts with the mod's slug and
/// ends with `.jar` or `.jar.disabled`; with a recorded file, exactly when that
/// file is present.
pub proof fn law_installed_flag(
    listed: (ModDefView, StateView),
    recorded_exists: bool,
    dir_names: Option<Seq<Seq<char>>>,
)
    ensures
        listed.1.1 is Some ==> installed_spec(listed, recorded_exists, dir_names) == recorded_exists,
        (listed.1.1 is None && dir_names is None) ==> !installed_spec(listed, recorded_exists, dir_names),
        (listed.1.1 is None && dir_names is Some) ==> (installed_spec(listed, recorded_exists, dir_names)
            <==> exists|i: int|
            0 <= i < dir_names->Some_0.len() && #[trigger] has_prefix(dir_names->Some_0[i], listed.0.slug)
                && (has_suffix(dir_names->Some_0[i], ".jar"@) || has_suffix(dir_names->Some_0[i], ".jar.disabled"@))),
{
    if listed.1.1 is None && dir_names is Some {
        let n = dir_names->Some_0;
        if installed_spec(listed, recorded_exists, dir_names) {
            let i = choose|i: int| 0 <= i < n.len() && #[trigger] installed_name_for(n[i], listed.0.slug);
            assert(has_prefix(n[i], listed.0.slug));
        }
        if exists|i: int|
            0 <= i < n.len() && #[trigger] has_prefix(n[i], listed.0.slug) && (has_suffix(n[i], ".jar"@)
                || has_suffix(n[i], ".jar.disabled"@)) {
            let i = choose|i: int|
                0 <= i < n.len() && #[trigger] has_prefix(n[i], listed.0.slug) && (has_suffix(n[i], ".jar"@)
                    || has_suffix(n[i], ".jar.disabled"@));
            lemma_installed_by_scan(listed, recorded_exists, n, i);
        }
    }
}

/// The mod list shows every catalogue mod other than `fabric-api`, `ukulib` and
/// `cloth-config` whose dependency, if any, is one of those three or is enabled,
/// whatever the mod's own state, paired with its state; and it shows no other mod.
pub proof fn law_listed_mods_complete(m: Map<Seq<char>, StateView>, i: int)
    requires
        0 <= i < catalog().len(),
    ensures
        ({
            let d = catalog()[i];
            let hidden = seq!["fabric-api"@, "ukulib"@, "cloth-config"@];
            let shown = !hidden.contains(d.id) && match d.depends_on {
                None => true,
                Some(p) => hidden.contains(p) || (m.contains_key(p) && m[p].0),
            };
            listed_mods(m).contains((d, state_or_default(m, d.id))) <== shown
        }),
{
    let d = catalog()[i];
    let pred = |x: ModDefView| is_listed(m, x);
    let f = |x: ModDefView| (x, state_or_default(m, x.id));
    assert(hidden_ids() =~= seq!["fabric-api"@, "ukulib"@, "cloth-config"@]);
    if is_listed(m, d) {
        catalog().lemma_filter_contains(pred, i);
        let fl = catalog().filter(pred);
        let j = choose|j: int| 0 <= j < fl.len() && fl[j] == d;
        assert(listed_mods(m)[j] == f(d));
    }
}

/// Every mod the list shows is a catalogue mod that is not one of `fabric-api`,
/// `ukulib` and `cloth-config`, shown with its state (the default state where it has none).
pub proof fn law_listed_mods_sound(m: Map<Seq<char>, StateView>, j: int)
    requires
        0 <= j < listed_mods(m).len(),
    ensures
        catalog().contains(listed_mods(m)[j].0),
        !seq!["fabric-api"@, "ukulib"@, "cloth-config"@].contains(listed_mods(m)[j].0.id),
        listed_mods(m)[j].1 == state_or_default(m, listed_mods(m)[j].0.id),
{
    let pred = |x: ModDefView| is_listed(m, x);
    let fl = catalog().filter(pred);
    assert(listed_mods(m)[j].0 == fl[j]);
    catalog().lemma_filter_pred(pred, j);
    #[allow(deprecated)]
    catalog().filter_lemma(pred);
    assert(fl.contains(fl[j]));
    assert(hidden_ids() =~= seq!["fabric-api"@, "ukulib"@, "cloth-config"@]);
    lemma_filter_subset(catalog(), pred, j);
}

proof fn lemma_filter_subset(s: Seq<ModDefView>, p: spec_fn(ModDefView) -> bool, j: int)
    requires
        0 <= j < s.filter(p).len(),
    ensures
        s.contains(s.filter(p)[j]),
    decreases s.len(),
{
    reveal(Seq::filter);
    let sub = s.drop_last().filter(p);
    if p(s.last()) && j == sub.len() {
        assert(s[s.len() - 1] == s.filter(p)[j]);
    } else {
        assert(s.filter(p)[j] == sub[j]);
        lemma_filter_subset(s.drop_last(), p, j);
        let k = choose|k: int| 0 <= k < s.drop_last().len() && s.drop_last()[k] == sub[j];
        assert(s[k] == sub[j]);
    }
}

proof fn lemma_installed_by_scan(
    lv: (ModDefView, StateView),
    recorded_exists: bool,
    n: Seq<Seq<char>>,
    i: int,
)
    requires
        lv.1.1 is None,
        0 <= i < n.len(),
        installed_name_for(n[i], lv.0.slug),
    ensures
        installed_spec(lv, recorded_exists, Some(n)),
{
    assert(exists|k: int| 0 <= k < n.len() && #[trigger] installed_name_for(n[k], lv.0.slug));
    let d: Option<Seq<Seq<char>>> = Some(n);
    assert(d is Some);
    assert(d->Some_0 == n);
}

impl PredefinedModInfo {
    /// The entry of the mod list for `listed`: `recorded_exists` tells whether its
    /// recorded file is present in the mods folder, and `dir_names` lists the folder's
    /// files when it could be read.
    pub fn from_listed(listed: &ListedMod, recorded_exists: bool, dir_names: &Option<Vec<String>>) -> (r:
        PredefinedModInfo)
        ensures
            r.id@ == listed.def.id@,
            r.name@ == listed.def.name@,
            r.enabled == listed.state.enabled,
            r.installed == installed_spec(
                listed@,
                recorded_exists,
                match dir_names {
                    Some(n) => Some(n@.map_values(|s: String| s@)),
                    None => None,
                },
            ),
    {
        let installed = match &listed.state.filename {
            Some(_) => recorded_exists,
            None => match dir_names {
                Some(names) => {
                    let r = any_installed_file(names, listed.def.modrinth_slug);
                    proof {
                        let n = names@.map_values(|s: String| s@);
                        assert(n.len() == names@.len());
                        assert(listed@.1.1 is None);
                        if r {
                            let i = choose|i: int|
                                0 <= i < names@.len() && #[trigger] installed_name_for(names@[i]@, listed.def.modrinth_slug@);
                            lemma_installed_by_scan(listed@, recorded_exists, n, i);
                        } else {
                            assert forall|i: int| 0 <= i < n.len() implies !#[trigger] installed_name_for(n[i], listed@.0.slug) by {
                                assert(n[i] == names@[i]@);
                            }
                            assert(!installed_spec(listed@, recorded_exists, Some(n)));
                        }
                    }
                    r
                },
                None => false,
            },
        };
        PredefinedModInfo {
            id: String::from_str(listed.def.id),
            name: String::from_str(listed.def.name),
            enabled: listed.state.enabled,
            installed,
        }
    }
}

} // verus!
