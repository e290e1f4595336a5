//! Decisions taken while the mods folder is prepared for a launch: which
//! pre-defined mods to install or remove, which files belong to a mod, which
//! Modrinth file to download, and whether the client JAR needs an update.
use vstd::prelude::*;
use crate::catalog::{catalog, predefined_mods, ModDefView, PredefinedModDef};
use crate::mod_state::{state_or_default, ModStates, StateView};
use crate::text::{ends_with, has_prefix, has_suffix, starts_with, text_eq};

verus! {

/// What to do with one pre-defined mod before a launch.
pub enum ModSetupStep {
    /// Download the mod unless a file of it is present.
    Install(PredefinedModDef),
    /// Remove the mod's file: the one recorded, or else every file of its slug.
    Remove(PredefinedModDef, Option<String>),
}

/// A setup step as plain values.
pub enum StepView {
    Install(ModDefView),
    Remove(ModDefView, Option<Seq<char>>),
}

impl View for ModSetupStep {
    type V = StepView;

    open spec fn view(&self) -> StepView {
        match self {
            ModSetupStep::Install(d) => StepView::Install(d@),
            ModSetupStep::Remove(d, f) => StepView::Remove(d@, f.deep_view()),
        }
    }
}

/// Mods marked always-enabled, and enabled mods, are installed; disabled mods
/// (a mod without state counts as disabled) are removed.
pub open spec fn setup_step(m: Map<Seq<char>, StateView>, d: ModDefView) -> StepView {
    if d.always_enabled {
        StepView::Install(d)
    } else if !state_or_default(m, d.id).0 {
        StepView::Remove(d, state_or_default(m, d.id).1)
    } else {
        StepView::Install(d)
    }
}

/// One step per catalogue mod, in catalogue order.
pub open spec fn setup_plan(m: Map<Seq<char>, StateView>) -> Seq<StepView> {
    catalog().map_values(|d: ModDefView| setup_step(m, d))
}

/// The steps that prepare the pre-defined mods for a launch.
pub fn mod_setup_plan(states: &ModStates) -> (r: Vec<ModSetupStep>)
    ensures
        r@.map_values(|s: ModSetupStep| s@) == setup_plan(states@),
{
    let defs = predefined_mods();
    let mut r: Vec<ModSetupStep> = Vec::new();
    let mut i: usize = 0;
    while i < defs.len()
        invariant
            i <= defs@.len(),
            defs@.len() == catalog().len(),
            forall|i: int| 0 <= i < defs@.len() ==> #[trigger] defs@[i]@ == catalog()[i],
            r@.len() == i,
            forall|k: int| 0 <= k < i ==> #[trigger] r@[k]@ == setup_step(states@, catalog()[k]),
        decreases defs@.len() - i,
    {
        let d = defs[i];
        assert(d@ == catalog()[i as int]);
        if d.always_enabled {
            r.push(ModSetupStep::Install(d));
        } else {
            let st = states.get_or_default(d.id);
            if !st.enabled {
                r.push(ModSetupStep::Remove(d, st.filename));
            } else {
                r.push(ModSetupStep::Install(d));
            }
        }
        i = i + 1;
    }
    assert(r@.map_values(|s: ModSetupStep| s@) =~= setup_plan(states@));
    r
}

/// Before a launch, a catalogue mod is installed exactly when it is always
/// enabled or its state is enabled, and removed otherwise, with its recorded file.
pub proof fn law_setup_installs_enabled_mods(m: Map<Seq<char>, StateView>, i: int)
    requires
        0 <= i < catalog().len(),
    ensures
        setup_plan(m)[i] == (if catalog()[i].always_enabled || state_or_default(m, catalog()[i].id).0 {
            StepView::Install(catalog()[i])
        } else {
            StepView::Remove(catalog()[i], state_or_default(m, catalog()[i].id).1)
        }),
{
}

/// The states after recording, in order, that mod `ids[i].0` was downloaded as file `ids[i].1`.
pub open spec fn recorded_downloads(m: Map<Seq<char>, StateView>, d: Seq<(Seq<char>, Seq<char>)>) -> Map<
    Seq<char>,
    StateView,
>
    decreases d.len(),
{
    if d.len() == 0 {
        m
    } else {
        let prev = recorded_downloads(m, d.drop_last());
        prev.insert(d.last().0, (state_or_default(prev, d.last().0).0, Some(d.last().1)))
    }
}

/// Records the files just downloaded: `downloads` holds (mod id, filename) pairs.
/// A mod without state gets the default state first; `enabled` is left as it is.
pub fn record_downloads(states: &mut ModStates, downloads: &Vec<(String, String)>)
    ensures
        final(states)@ == recorded_downloads(
            old(states)@,
            downloads@.map_values(|p: (String, String)| (p.0@, p.1@)),
        ),
{
    let ghost m0 = states@;
    let ghost d = downloads@.map_values(|p: (String, String)| (p.0@, p.1@));
    let mut i: usize = 0;
    assert(d.take(0) =~= Seq::<(Seq<char>, Seq<char>)>::empty());
    while i < downloads.len()
        invariant
            i <= downloads@.len(),
            d == downloads@.map_values(|p: (String, String)| (p.0@, p.1@)),
            states@ == recorded_downloads(m0, d.take(i as int)),
        decreases downloads@.len() - i,
    {
        states.set_filename(downloads[i].0.as_str(), downloads[i].1.clone());
        assert(d.take(i + 1).drop_last() =~= d.take(i as int));
        i = i + 1;
    }
    assert(d.take(i as int) =~= d);
}

/// Recording downloads changes no `enabled` flag, and forgets no mod.
pub proof fn law_record_keeps_enabled(m: Map<Seq<char>, StateView>, d: Seq<(Seq<char>, Seq<char>)>, k: Seq<char>)
    requires
        m.contains_key(k),
    ensures
        recorded_downloads(m, d).contains_key(k),
        recorded_downloads(m, d)[k].0 == m[k].0,
    decreases d.len(),
{
    if d.len() > 0 {
        law_record_keeps_enabled(m, d.drop_last(), k);
    }
}

/// After recording, a mod's file is the one of its last recorded download.
pub proof fn law_record_reads_back(m: Map<Seq<char>, StateView>, d: Seq<(Seq<char>, Seq<char>)>, i: int)
    requires
        0 <= i < d.len(),
        forall|j: int| i < j < d.len() ==> #[trigger] d[j].0 != d[i].0,
    ensures
        recorded_downloads(m, d).contains_key(d[i].0),
        recorded_downloads(m, d)[d[i].0].1 == Some(d[i].1),
    decreases d.len(),
{
    if i < d.len() - 1 {
        let p = d.drop_last();
        assert forall|j: int| i < j < p.len() implies #[trigger] p[j].0 != p[i].0 by {
            assert(p[j] == d[j]);
        }
        law_record_reads_back(m, p, i);
        assert(d.last().0 != d[i].0);
    }
}

/// A file of the mods folder belongs to the mod of `slug`: its name starts with the slug.
pub open spec fn mod_file_for(name: Seq<char>, slug: Seq<char>) -> bool {
    has_prefix(name, slug)
}

fn is_mod_file_for(name: &str, slug: &str) -> (r: bool)
    ensures
        r == mod_file_for(name@, slug@),
{
    starts_with(name, slug)
}

/// A file of the mods folder is an active JAR of the mod of `slug`: its name starts
/// with the slug and ends with `.jar`.
pub open spec fn mod_jar_for(name: Seq<char>, slug: Seq<char>) -> bool {
    has_prefix(name, slug) && has_suffix(name, ".jar"@)
}

fn is_mod_jar_for(name: &str, slug: &str) -> (r: bool)
    ensures
        r == mod_jar_for(name@, slug@),
{
    starts_with(name, slug) && ends_with(name, ".jar")
}

/// The first file of `names` (in directory order) whose name starts with `slug`.
pub fn find_mod_file(names: &Vec<String>, slug: &str) -> (r: Option<String>)
    ensures
        match r {
            Some(n) => exists|i: int|
                0 <= i < names@.len() && names@[i]@ == n@ && #[trigger] mod_file_for(names@[i]@, slug@)
                    && forall|j: int| 0 <= j < i ==> !#[trigger] mod_file_for(names@[j]@, slug@),
            None => forall|i: int| 0 <= i < names@.len() ==> !#[trigger] mod_file_for(names@[i]@, slug@),
        },
{
    let mut i: usize = 0;
    while i < names.len()
        invariant
            i <= names@.len(),
            forall|j: int| 0 <= j < i ==> !#[trigger] mod_file_for(names@[j]@, slug@),
        decreases names@.len() - i,
    {
        if is_mod_file_for(names[i].as_str(), slug) {
            assert(mod_file_for(names@[i as int]@, slug@));
            return Some(names[i].clone());
        }
        i = i + 1;
    }
    None
}

/// The files of `names` whose names start with `slug` and end with `.jar`, in order:
/// those removed when the mod is disabled and no file of it was recorded. Other
/// files, such as disabled (`.jar.disabled`) ones, stay.
pub fn mod_files_to_remove(names: &Vec<String>, slug: &str) -> (r: Vec<String>)
    ensures
        r@.map_values(|s: String| s@) == names@.map_values(|s: String| s@).filter(
            |n: Seq<char>| mod_jar_for(n, slug@),
        ),
        r@.map_values(|s: String| s@) == removed_files(names@.map_values(|s: String| s@), slug@),
{
    let ghost all = names@.map_values(|s: String| s@);
    let ghost p = |n: Seq<char>| mod_jar_for(n, slug@);
    let mut r: Vec<String> = Vec::new();
    let mut i: usize = 0;
    proof {
        reveal(Seq::filter);
        assert(all.take(0) =~= Seq::<Seq<char>>::empty());
        assert(r@.map_values(|s: String| s@) =~= all.take(0).filter(p));
    }
    while i < names.len()
        invariant
            i <= names@.len(),
            all == names@.map_values(|s: String| s@),
            p == (|n: Seq<char>| mod_jar_for(n, slug@)),
            r@.map_values(|s: String| s@) == all.take(i as int).filter(p),
        decreases names@.len() - i,
    {
        proof {
            reveal(Seq::filter);
            assert(all.take(i + 1).drop_last() =~= all.take(i as int));
            assert(all.take(i + 1).last() == names@[i as int]@);
        }
        if is_mod_jar_for(names[i].as_str(), slug) {
            let ghost before = r@;
            r.push(names[i].clone());
            assert(r@.map_values(|s: String| s@) =~= before.map_values(|s: String| s@).push(
                names@[i as int]@,
            ));
        }
        i = i + 1;
    }
    assert(all.take(i as int) =~= all);
    r
}

/// The files of `names` that `mod_files_to_remove` gives for `slug`.
pub open spec fn removed_files(names: Seq<Seq<char>>, slug: Seq<char>) -> Seq<Seq<char>> {
    names.filter(|n: Seq<char>| mod_jar_for(n, slug))
}

/// The files removed for a disabled mod with no recorded file are exactly the
/// folder's files whose names start with the slug and end with `.jar`.
pub proof fn law_removed_files(names: Seq<Seq<char>>, slug: Seq<char>)
    ensures
        forall|j: int|
            0 <= j < removed_files(names, slug).len() ==> has_prefix(#[trigger] removed_files(names, slug)[j], slug)
                && has_suffix(removed_files(names, slug)[j], ".jar"@),
        forall|i: int|
            0 <= i < names.len() && has_prefix(names[i], slug) && has_suffix(names[i], ".jar"@) ==> removed_files(
                names,
                slug,
            ).contains(#[trigger] names[i]),
{
    let p = |n: Seq<char>| mod_jar_for(n, slug);
    assert forall|j: int| 0 <= j < removed_files(names, slug).len() implies has_prefix(
        #[trigger] removed_files(names, slug)[j],
        slug,
    ) && has_suffix(removed_files(names, slug)[j], ".jar"@) by {
        names.lemma_filter_pred(p, j);
    }
    assert forall|i: int| 0 <= i < names.len() && has_prefix(names[i], slug) && has_suffix(names[i], ".jar"@)
        implies removed_files(names, slug).contains(#[trigger] names[i]) by {
        names.lemma_filter_contains(p, i);
    }
}

/// What becomes of the client JAR before a launch.
pub enum AncientPlan {
    /// The JAR is present and of the latest release.
    UpToDate,
    /// Download the latest JAR, removing the present one first where `remove_old`.
    Download { remove_old: bool },
}

/// The JAR is kept when it is present and its recorded release tag is the latest
/// one; otherwise the latest is downloaded, and a present JAR of another release
/// is removed first.
pub fn ancient_update_plan(jar_exists: bool, stored_tag: &str, latest_tag: &str) -> (r: AncientPlan)
    ensures
        r == (if jar_exists && stored_tag@ == latest_tag@ {
            AncientPlan::UpToDate
        } else {
            AncientPlan::Download { remove_old: jar_exists && stored_tag@ != latest_tag@ }
        }),
{
    let needs_update = !text_eq(stored_tag, latest_tag);
    if jar_exists && !needs_update {
        return AncientPlan::UpToDate;
    }
    AncientPlan::Download { remove_old: needs_update && jar_exists }
}

} // verus!
