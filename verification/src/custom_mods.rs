//! User-installed mods found in the mods folder: which files count as custom mods,
//! and their listing in filename order.
use vstd::prelude::*;
use crate::catalog::{catalog, predefined_mods, PredefinedModDef};
use crate::github::JAR_NAME;
use crate::mod_state::{ModStates, StateView};
use crate::text::{
    ends_with, has_prefix, has_suffix, is_alphanumeric, is_alphanumeric_char, lemma_text_lt_irreflexive,
    lemma_text_lt_total, lemma_text_lt_transitive, starts_with, text_eq, text_lt, text_lt_spec,
};

verus! {

/// A user-installed mod file, by the name of its enabled form.
#[derive(Debug)]
pub struct CustomModInfo {
    pub filename: String,
    pub enabled: bool,
}

/// A custom mod as plain values: its filename and whether it is enabled.
pub type CustomView = (Seq<char>, bool);

impl View for CustomModInfo {
    type V = CustomView;

    open spec fn view(&self) -> CustomView {
        (self.filename@, self.enabled)
    }
}

/// The views of a list of custom mods.
pub open spec fn custom_views(s: Seq<CustomModInfo>) -> Seq<CustomView> {
    s.map_values(|c: CustomModInfo| c@)
}

/// No entry's filename comes before that of an earlier entry.
pub open spec fn sorted_by_filename(s: Seq<CustomView>) -> bool {
    forall|i: int, j: int| 0 <= i < j < s.len() ==> !text_lt_spec(#[trigger] s[j].0, #[trigger] s[i].0)
}

/// The entries whose filename is `k`.
pub open spec fn named(k: Seq<char>) -> spec_fn(CustomView) -> bool {
    |e: CustomView| e.0 == k
}

/// For every filename, `a` and `b` hold the same entries with that filename, in the same order.
/// With `sorted_by_filename(a)`, this says that `a` is `b` sorted stably by filename.
pub open spec fn same_order_per_name(a: Seq<CustomView>, b: Seq<CustomView>) -> bool {
    forall|k: Seq<char>| #[trigger] a.filter(named(k)) == b.filter(named(k))
}

proof fn lemma_filter_none(s: Seq<CustomView>, p: spec_fn(CustomView) -> bool)
    requires
        forall|i: int| 0 <= i < s.len() ==> !p(#[trigger] s[i]),
    ensures
        s.filter(p) == Seq::<CustomView>::empty(),
    decreases s.len(),
{
    reveal(Seq::filter);
    if s.len() > 0 {
        assert forall|i: int| 0 <= i < s.drop_last().len() implies !p(#[trigger] s.drop_last()[i]) by {
            assert(s.drop_last()[i] == s[i]);
        }
        lemma_filter_none(s.drop_last(), p);
    }
}

proof fn lemma_filter_push(s: Seq<CustomView>, x: CustomView, p: spec_fn(CustomView) -> bool)
    ensures
        s.push(x).filter(p) == (if p(x) { s.filter(p).push(x) } else { s.filter(p) }),
{
    reveal(Seq::filter);
    assert(s.push(x).drop_last() =~= s);
}

proof fn lemma_insert_filter(s: Seq<CustomView>, j: int, x: CustomView, k: Seq<char>)
    requires
        0 <= j <= s.len(),
        forall|m: int| j <= m < s.len() ==> text_lt_spec(x.0, #[trigger] s[m].0),
    ensures
        s.insert(j, x).filter(named(k)) == s.push(x).filter(named(k)),
{
    let p = named(k);
    let a = s.take(j);
    let b = s.skip(j);
    assert(s.insert(j, x) =~= a + (seq![x] + b));
    assert(s =~= a + b);
    Seq::filter_distributes_over_add(a, seq![x] + b, p);
    Seq::filter_distributes_over_add(seq![x], b, p);
    Seq::filter_distributes_over_add(a, b, p);
    lemma_filter_push(s, x, p);
    lemma_filter_push(Seq::<CustomView>::empty(), x, p);
    assert(seq![x] =~= Seq::<CustomView>::empty().push(x));
    reveal(Seq::filter);
    assert(Seq::<CustomView>::empty().filter(p) =~= Seq::<CustomView>::empty());
    if x.0 == k {
        assert forall|i: int| 0 <= i < b.len() implies !p(#[trigger] b[i]) by {
            assert(b[i] == s[j + i]);
            lemma_text_lt_irreflexive(x.0);
        }
        lemma_filter_none(b, p);
        assert(s.insert(j, x).filter(p) =~= s.push(x).filter(p));
    } else {
        assert(s.insert(j, x).filter(p) =~= s.push(x).filter(p));
    }
}

proof fn lemma_insert_sorted(s: Seq<CustomView>, j: int, x: CustomView)
    requires
        sorted_by_filename(s),
        0 <= j <= s.len(),
        j == 0 || !text_lt_spec(x.0, s[j - 1].0),
        forall|m: int| j <= m < s.len() ==> text_lt_spec(x.0, #[trigger] s[m].0),
    ensures
        sorted_by_filename(s.insert(j, x)),
{
    let t = s.insert(j, x);
    assert forall|a: int, b: int| 0 <= a < b < t.len() implies !text_lt_spec(
        #[trigger] t[b].0,
        #[trigger] t[a].0,
    ) by {
        if a < j && b == j {
            // t[a] = s[a], t[b] = x
            if text_lt_spec(x.0, s[a].0) {
                if a == j - 1 {
                } else {
                    assert(!text_lt_spec(s[j - 1].0, s[a].0));
                    if s[a].0 == s[j - 1].0 {
                    } else {
                        lemma_text_lt_total(s[a].0, s[j - 1].0);
                        lemma_text_lt_transitive(x.0, s[a].0, s[j - 1].0);
                    }
                }
            }
        } else if a == j {
            // t[a] = x, t[b] = s[b - 1]
            assert(t[b] == s[b - 1]);
            assert(text_lt_spec(x.0, s[b - 1].0));
            if text_lt_spec(s[b - 1].0, x.0) {
                lemma_text_lt_transitive(x.0, s[b - 1].0, x.0);
                lemma_text_lt_irreflexive(x.0);
            }
        } else if a < j && b > j {
            assert(t[a] == s[a] && t[b] == s[b - 1]);
        } else if a < j && b < j {
            assert(t[a] == s[a] && t[b] == s[b]);
        } else {
            assert(t[a] == s[a - 1] && t[b] == s[b - 1]);
        }
    }
}

/// Sorts custom mods by filename; mods with the same filename keep their order.
pub fn sort_by_filename(v: Vec<CustomModInfo>) -> (r: Vec<CustomModInfo>)
    ensures
        sorted_by_filename(custom_views(r@)),
        same_order_per_name(custom_views(r@), custom_views(v@)),
{
    let ghost orig = custom_views(v@);
    let mut rest = v;
    let mut out: Vec<CustomModInfo> = Vec::new();
    let ghost mut done: Seq<CustomView> = Seq::empty();
    assert(orig =~= done + custom_views(rest@));
    assert(custom_views(out@) =~= done);
    while rest.len() > 0
        invariant
            orig == done + custom_views(rest@),
            sorted_by_filename(custom_views(out@)),
            same_order_per_name(custom_views(out@), done),
        decreases rest@.len(),
    {
        let ghost before = rest@;
        let x = rest.remove(0);
        assert(custom_views(before) =~= seq![x@] + custom_views(rest@));
        let mut j: usize = out.len();
        while j > 0 && text_lt(x.filename.as_str(), out[j - 1].filename.as_str())
            invariant
                j <= out@.len(),
                forall|m: int| j <= m < out@.len() ==> text_lt_spec(x@.0, #[trigger] out@[m]@.0),
            decreases j,
        {
            j = j - 1;
        }
        let ghost s = custom_views(out@);
        proof {
            assert forall|m: int| j <= m < s.len() implies text_lt_spec(x@.0, #[trigger] s[m].0) by {
                assert(s[m] == out@[m]@);
            }
            if j > 0 {
                assert(s[j - 1] == out@[j - 1]@);
            }
            lemma_insert_sorted(s, j as int, x@);
            assert forall|k: Seq<char>| #[trigger] s.insert(j as int, x@).filter(named(k))
                == done.push(x@).filter(named(k)) by {
                lemma_insert_filter(s, j as int, x@, k);
                lemma_filter_push(s, x@, named(k));
                lemma_filter_push(done, x@, named(k));
                assert(s.filter(named(k)) == done.filter(named(k)));
            }
        }
        out.insert(j, x);
        proof {
            assert(custom_views(out@) =~= s.insert(j as int, x@));
            done = done.push(x@);
            assert(orig =~= done + custom_views(rest@));
        }
    }
    assert(done =~= orig);
    out
}

/// The views of a list of strings.
pub open spec fn text_views(s: Seq<String>) -> Seq<Seq<char>> {
    s.map_values(|x: String| x@)
}

/// Filenames recorded as downloaded for some catalogue mod.
pub open spec fn known_filenames(m: Map<Seq<char>, StateView>) -> Set<Seq<char>> {
    Set::new(
        |f: Seq<char>|
            exists|i: int|
                0 <= i < catalog().len() && #[trigger] m.contains_key(catalog()[i].id) && m[catalog()[i].id].1
                    == Some(f),
    )
}

/// `f` starts with `slug`, and what follows the slug is empty or starts with a
/// character that is not alphanumeric.
pub open spec fn slug_claims(slug: Seq<char>, f: Seq<char>) -> bool {
    has_prefix(f, slug) && (f.len() == slug.len() || !is_alphanumeric_char(f[slug.len() as int]))
}

/// `f` belongs to a pre-defined mod: it was recorded as one's download, or a
/// catalogue slug claims it.
pub open spec fn is_predefined_file(m: Map<Seq<char>, StateView>, f: Seq<char>) -> bool {
    known_filenames(m).contains(f) || exists|i: int|
        0 <= i < catalog().len() && #[trigger] slug_claims(catalog()[i].slug, f)
}

/// What a file of the mods folder named `name` contributes to the custom mod list:
/// a file named `JAR_NAME` and the files of pre-defined mods nothing; `x.jar` the
/// enabled mod `x.jar`; `x.jar.disabled` the disabled mod `x.jar`; any other file nothing.
pub open spec fn custom_entry(m: Map<Seq<char>, StateView>, name: Seq<char>) -> Option<CustomView> {
    if name == JAR_NAME@ {
        None
    } else if has_suffix(name, ".jar"@) {
        if is_predefined_file(m, name) {
            None
        } else {
            Some((name, true))
        }
    } else if has_suffix(name, ".jar.disabled"@) {
        let original = name.subrange(0, name.len() - ".disabled"@.len());
        if is_predefined_file(m, original) {
            None
        } else {
            Some((original, false))
        }
    } else {
        None
    }
}

/// The custom mods that the files `names` contribute, in the order of `names`.
pub open spec fn custom_candidates(m: Map<Seq<char>, StateView>, names: Seq<Seq<char>>) -> Seq<CustomView> {
    names.filter_map(|n: Seq<char>| custom_entry(m, n))
}

proof fn lemma_custom_entry_shape(m: Map<Seq<char>, StateView>, name: Seq<char>)
    ensures
        custom_entry(m, name) matches Some(e) ==> has_suffix(e.0, ".jar"@) && !is_predefined_file(m, e.0),
{
    if has_suffix(name, ".jar.disabled"@) && !has_suffix(name, ".jar"@) {
        reveal_strlit(".jar.disabled");
        reveal_strlit(".disabled");
        reveal_strlit(".jar");
        let original = name.subrange(0, name.len() - 9);
        assert(original.subrange(original.len() - 4, original.len() as int) =~= name.subrange(
            name.len() - 13,
            name.len() - 9,
        ));
        assert(name.subrange(name.len() - 13, name.len() - 9) =~= name.subrange(
            name.len() - 13,
            name.len() as int,
        ).subrange(0, 4));
        assert(".jar.disabled"@.subrange(0, 4) =~= ".jar"@);
    }
}

/// Every mod in the custom list has a `.jar` filename that belongs to no pre-defined mod.
pub proof fn law_custom_entries_are_foreign_jars(m: Map<Seq<char>, StateView>, names: Seq<Seq<char>>, i: int)
    requires
        0 <= i < custom_candidates(m, names).len(),
    ensures
        has_suffix(custom_candidates(m, names)[i].0, ".jar"@),
        !is_predefined_file(m, custom_candidates(m, names)[i].0),
    decreases names.len(),
{
    let f = |n: Seq<char>| custom_entry(m, n);
    let rest = names.drop_last();
    assert(custom_candidates(m, rest) == rest.filter_map(f));
    lemma_custom_entry_shape(m, names.last());
    if i < custom_candidates(m, rest).len() {
        law_custom_entries_are_foreign_jars(m, rest, i);
        match f(names.last()) {
            Some(e) => {
                assert(custom_candidates(m, names)[i] == custom_candidates(m, rest)[i]);
            },
            None => {},
        }
    }
}

/// A `.jar` file that is not the client JAR and belongs to no pre-defined mod is
/// listed as an enabled custom mod under its own name; a `.jar.disabled` file whose
/// name without `.disabled` belongs to no pre-defined mod is listed, under that
/// name, as disabled; a file with neither ending is not listed.
pub proof fn law_custom_entry_kinds(m: Map<Seq<char>, StateView>, name: Seq<char>)
    ensures
        (has_suffix(name, ".jar"@) && name != JAR_NAME@ && !is_predefined_file(m, name)) ==> custom_entry(m, name)
            == Some((name, true)),
        (has_suffix(name, ".jar"@) && (name == JAR_NAME@ || is_predefined_file(m, name))) ==> custom_entry(
            m,
            name,
        ) is None,
        (has_suffix(name, ".jar.disabled"@) && !is_predefined_file(m, name.subrange(0, name.len() - 9)))
            ==> custom_entry(m, name) == Some((name.subrange(0, name.len() - 9), false)),
        (!has_suffix(name, ".jar"@) && !has_suffix(name, ".jar.disabled"@)) ==> custom_entry(m, name) is None,
{
    reveal_strlit(".jar.disabled");
    reveal_strlit(".disabled");
    reveal_strlit(".jar");
    reveal_strlit("onetap-1.0.0.jar");
    if has_suffix(name, ".jar.disabled"@) {
        assert(!has_suffix(name, ".jar"@)) by {
            if has_suffix(name, ".jar"@) {
                assert(name[name.len() - 1] == ".jar"@[3]);
                assert(name[name.len() - 1] == ".jar.disabled"@[12]);
            }
        }
        assert(name != JAR_NAME@) by {
            if name == JAR_NAME@ {
                assert(name[name.len() - 1] == "onetap-1.0.0.jar"@[15]);
                assert(name[name.len() - 1] == ".jar.disabled"@[12]);
            }
        }
    }
    if !has_suffix(name, ".jar"@) && !has_suffix(name, ".jar.disabled"@) {
        assert(name != JAR_NAME@) by {
            if name == JAR_NAME@ {
                assert(name.subrange(name.len() - 4, name.len() as int) =~= ".jar"@);
            }
        }
    }
}

/// A file recorded as the download of a catalogue mod is a pre-defined mod's file,
/// whatever that mod's `enabled` flag.
pub proof fn law_recorded_file_is_predefined(m: Map<Seq<char>, StateView>, k: int, f: Seq<char>)
    requires
        0 <= k < catalog().len(),
        m.contains_key(catalog()[k].id),
        m[catalog()[k].id].1 == Some(f),
    ensures
        is_predefined_file(m, f),
{
    assert(known_filenames(m).contains(f));
}

/// No mod of the custom list carries the file recorded as the download of a
/// catalogue mod, whether that mod is enabled or not.
pub proof fn law_recorded_files_never_custom(m: Map<Seq<char>, StateView>, names: Seq<Seq<char>>, i: int, k: int)
    requires
        0 <= i < custom_candidates(m, names).len(),
        0 <= k < catalog().len(),
    ensures
        !(m.contains_key(catalog()[k].id) && m[catalog()[k].id].1 == Some(custom_candidates(m, names)[i].0)),
{
    law_custom_entries_are_foreign_jars(m, names, i);
    if m.contains_key(catalog()[k].id) && m[catalog()[k].id].1 == Some(custom_candidates(m, names)[i].0) {
        law_recorded_file_is_predefined(m, k, custom_candidates(m, names)[i].0);
    }
}

fn contains_text(v: &Vec<String>, s: &str) -> (r: bool)
    ensures
        r == exists|j: int| 0 <= j < v@.len() && #[trigger] v@[j]@ == s@,
{
    let mut j: usize = 0;
    while j < v.len()
        invariant
            j <= v@.len(),
            forall|k: int| 0 <= k < j ==> #[trigger] v@[k]@ != s@,
        decreases v@.len() - j,
    {
        if text_eq(v[j].as_str(), s) {
            return true;
        }
        j = j + 1;
    }
    false
}

/// Some string of `v` has the view `f`.
pub open spec fn in_list(v: Seq<String>, f: Seq<char>) -> bool {
    exists|j: int| 0 <= j < v.len() && #[trigger] v[j]@ == f
}

/// Among the first `n` catalogue mods, one has `f` recorded as its download.
pub open spec fn recorded_before(m: Map<Seq<char>, StateView>, n: int, f: Seq<char>) -> bool {
    exists|k: int|
        0 <= k < n && #[trigger] m.contains_key(catalog()[k].id) && m[catalog()[k].id].1 == Some(f)
}

fn known_filename_list(states: &ModStates, defs: &Vec<PredefinedModDef>) -> (r: Vec<String>)
    requires
        defs@.len() == catalog().len(),
        forall|i: int| 0 <= i < defs@.len() ==> #[trigger] defs@[i]@ == catalog()[i],
    ensures
        forall|f: Seq<char>| #[trigger] known_filenames(states@).contains(f) <==> in_list(r@, f),
{
    let mut r: Vec<String> = Vec::new();
    let mut i: usize = 0;
    while i < defs.len()
        invariant
            i <= defs@.len(),
            defs@.len() == catalog().len(),
            forall|i: int| 0 <= i < defs@.len() ==> #[trigger] defs@[i]@ == catalog()[i],
            forall|f: Seq<char>|
                #![trigger in_list(r@, f)]
                #![trigger recorded_before(states@, i as int, f)]
                in_list(r@, f) <==> recorded_before(states@, i as int, f),
        decreases defs@.len() - i,
    {
        let ghost before = r@;
        assert(defs@[i as int]@ == catalog()[i as int]);
        match states.get(defs[i].id) {
            Some(st) => {
                match &st.filename {
                    Some(f) => {
                        r.push(f.clone());
                    },
                    None => {},
                }
            },
            None => {},
        }
        proof {
            assert forall|f: Seq<char>|
                #![trigger in_list(r@, f)]
                #![trigger recorded_before(states@, i + 1, f)]
                in_list(r@, f) <==> recorded_before(states@, i + 1, f) by {
                if in_list(r@, f) {
                    let j = choose|j: int| 0 <= j < r@.len() && #[trigger] r@[j]@ == f;
                    if j < before.len() {
                        assert(before[j]@ == f);
                        assert(in_list(before, f));
                        let k = choose|k: int|
                            0 <= k < i && #[trigger] states@.contains_key(catalog()[k].id)
                                && states@[catalog()[k].id].1 == Some(f);
                        assert(0 <= k < i + 1);
                    } else {
                        assert(states@.contains_key(catalog()[i as int].id));
                    }
                }
                if recorded_before(states@, i + 1, f) {
                    let k = choose|k: int|
                        0 <= k < i + 1 && #[trigger] states@.contains_key(catalog()[k].id)
                            && states@[catalog()[k].id].1 == Some(f);
                    if k < i {
                        assert(recorded_before(states@, i as int, f));
                        let j = choose|j: int| 0 <= j < before.len() && #[trigger] before[j]@ == f;
                        assert(r@[j] == before[j]);
                    } else {
                        assert(r@[r@.len() - 1]@ == f);
                    }
                }
            }
        }
        i = i + 1;
    }
    proof {
        assert forall|f: Seq<char>| #[trigger] known_filenames(states@).contains(f) <==> in_list(r@, f) by {
            assert(known_filenames(states@).contains(f) == recorded_before(states@, catalog().len() as int, f));
        }
    }
    r
}

/// Whether the slug `slug` claims the file name `f` for its pre-defined mod.
pub fn slug_claims_file(slug: &str, f: &str) -> (r: bool)
    ensures
        r == slug_claims(slug@, f@),
{
    if !starts_with(f, slug) {
        return false;
    }
    let fl: usize = f.unicode_len();
    let sl: usize = slug.unicode_len();
    if fl == sl {
        true
    } else {
        !is_alphanumeric(f.get_char(sl))
    }
}

fn is_predefined_exec(known: &Vec<String>, defs: &Vec<PredefinedModDef>, states: &ModStates, f: &str) -> (r: bool)
    requires
        defs@.len() == catalog().len(),
        forall|i: int| 0 <= i < defs@.len() ==> #[trigger] defs@[i]@ == catalog()[i],
        forall|g: Seq<char>| #[trigger] known_filenames(states@).contains(g) <==> in_list(known@, g),
    ensures
        r == is_predefined_file(states@, f@),
{
    if contains_text(known, f) {
        return true;
    }
    let mut i: usize = 0;
    while i < defs.len()
        invariant
            i <= defs@.len(),
            defs@.len() == catalog().len(),
            forall|i: int| 0 <= i < defs@.len() ==> #[trigger] defs@[i]@ == catalog()[i],
            forall|k: int| 0 <= k < i ==> !#[trigger] slug_claims(catalog()[k].slug, f@),
        decreases defs@.len() - i,
    {
        assert(defs@[i as int]@ == catalog()[i as int]);
        if slug_claims_file(defs[i].modrinth_slug, f) {
            assert(slug_claims(catalog()[i as int].slug, f@));
            return true;
        }
        i = i + 1;
    }
    false
}

fn custom_entry_exec(known: &Vec<String>, defs: &Vec<PredefinedModDef>, states: &ModStates, name: &str) -> (r: Option<CustomModInfo>)
    requires
        defs@.len() == catalog().len(),
        forall|i: int| 0 <= i < defs@.len() ==> #[trigger] defs@[i]@ == catalog()[i],
        forall|g: Seq<char>| #[trigger] known_filenames(states@).contains(g) <==> in_list(known@, g),
    ensures
        match r {
            Some(c) => custom_entry(states@, name@) == Some(c@),
            None => custom_entry(states@, name@) is None,
        },
{
    if text_eq(name, JAR_NAME) {
        return None;
    }
    if ends_with(name, ".jar") {
        if is_predefined_exec(known, defs, states, name) {
            return None;
        }
        return Some(CustomModInfo { filename: String::from_str(name), enabled: true });
    }
    if ends_with(name, ".jar.disabled") {
        proof {
            reveal_strlit(".jar.disabled");
            reveal_strlit(".disabled");
        }
        let n: usize = name.unicode_len();
        let original = name.substring_char(0, n - 9);
        if is_predefined_exec(known, defs, states, original) {
            return None;
        }
        return Some(CustomModInfo { filename: String::from_str(original), enabled: false });
    }
    None
}

/// The custom mods in a mods folder whose regular files are named `file_names`
/// (in directory order), sorted stably by filename.
pub fn custom_mods(states: &ModStates, file_names: &Vec<String>) -> (r: Vec<CustomModInfo>)
    ensures
        sorted_by_filename(custom_views(r@)),
        same_order_per_name(
            custom_views(r@),
            custom_candidates(states@, text_views(file_names@)),
        ),
{
    let defs = predefined_mods();
    let known = known_filename_list(states, &defs);
    let ghost names = text_views(file_names@);
    let mut cands: Vec<CustomModInfo> = Vec::new();
    let mut i: usize = 0;
    assert(names.take(0) =~= Seq::<Seq<char>>::empty());
    assert(custom_views(cands@) =~= custom_candidates(states@, names.take(0)));
    while i < file_names.len()
        invariant
            i <= file_names@.len(),
            names == text_views(file_names@),
            defs@.len() == catalog().len(),
            forall|i: int| 0 <= i < defs@.len() ==> #[trigger] defs@[i]@ == catalog()[i],
            forall|g: Seq<char>| #[trigger] known_filenames(states@).contains(g) <==> in_list(known@, g),
            custom_views(cands@) == custom_candidates(states@, names.take(i as int)),
        decreases file_names@.len() - i,
    {
        let e = custom_entry_exec(&known, &defs, states, file_names[i].as_str());
        proof {
            assert(names.take(i + 1).drop_last() =~= names.take(i as int));
            assert(names.take(i + 1).last() == file_names@[i as int]@);
        }
        match e {
            Some(c) => {
                cands.push(c);
                assert(custom_views(cands@) =~= custom_candidates(states@, names.take(i as int))
                    + seq![cands@.last()@]);
            },
            None => {},
        }
        i = i + 1;
    }
    assert(names.take(i as int) =~= names);
    sort_by_filename(cands)
}

/// The rename, as (from, to) file names, that sets the custom mod `filename` to
/// `enabled`: enabling renames `filename.disabled` back to `filename` when that
/// file exists; disabling renames `filename` to `filename.disabled` when it exists.
/// `None` when there is nothing to rename.
pub fn custom_toggle_rename(filename: &str, enabled: bool, active_exists: bool, disabled_exists: bool) -> (r:
    Option<(String, String)>)
    ensures
        match r {
            Some(names) => if enabled {
                disabled_exists && names.0@ == filename@ + ".disabled"@ && names.1@ == filename@
            } else {
                active_exists && names.0@ == filename@ && names.1@ == filename@ + ".disabled"@
            },
            None => if enabled {
                !disabled_exists
            } else {
                !active_exists
            },
        },
{
    let active = String::from_str(filename);
    let disabled = String::from_str(filename).concat(".disabled");
    if enabled {
        if disabled_exists {
            Some((disabled, active))
        } else {
            None
        }
    } else {
        if active_exists {
            Some((active, disabled))
        } else {
            None
        }
    }
}

} // verus!
