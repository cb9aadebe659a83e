//! The per-file result of prompt resolution: each input file name mapped to
//! the parameter variants to run for it.

use vstd::prelude::*;
use crate::params::{merge_params, merged, unset_params, ProcessParams, ProcessParamsView};
use crate::text::text_eq;
use crate::variants::{expand_file_variants, expanded, params_views, PromptFileResult};

verus! {

/// A map from file name to parameter variants. Each name occurs at most
/// once; inserting a name that is present replaces its variants.
pub struct PromptMap {
    entries: Vec<(String, Vec<ProcessParams>)>,
}

impl PromptMap {
    #[verifier::type_invariant]
    spec fn keys_distinct(self) -> bool {
        forall|i: int, j: int|
            0 <= i < j < self.entries@.len() ==> #[trigger] self.entries@[i].0@
                != #[trigger] self.entries@[j].0@
    }

    spec fn has_key_at(self, k: Seq<char>, i: int) -> bool {
        0 <= i < self.entries@.len() && self.entries@[i].0@ == k
    }

    spec fn index_of(self, k: Seq<char>) -> int {
        choose|i: int| self.has_key_at(k, i)
    }
}

impl View for PromptMap {
    type V = Map<Seq<char>, Seq<ProcessParamsView>>;

    closed spec fn view(&self) -> Map<Seq<char>, Seq<ProcessParamsView>> {
        Map::new(
            |k: Seq<char>| exists|i: int| self.has_key_at(k, i),
            |k: Seq<char>| params_views(self.entries@[self.index_of(k)].1@),
        )
    }
}

impl PromptMap {
    /// An empty map.
    pub fn new() -> (m: Self)
        ensures
            m@ == Map::<Seq<char>, Seq<ProcessParamsView>>::empty(),
    {
        let m = PromptMap { entries: Vec::new() };
        assert(m@ =~= Map::<Seq<char>, Seq<ProcessParamsView>>::empty());
        m
    }

    fn find(&self, key: &str) -> (r: Option<usize>)
        ensures
            r is Some ==> self.has_key_at(key@, r->0 as int),
            r is None ==> forall|i: int| !self.has_key_at(key@, i),
    {
        let mut i: usize = 0;
        while i < self.entries.len()
            invariant
                i <= self.entries@.len(),
                forall|j: int| 0 <= j < i ==> !#[trigger] self.has_key_at(key@, j),
            decreases self.entries@.len() - i,
        {
            if text_eq(self.entries[i].0.as_str(), key) {
                return Some(i);
            }
            i = i + 1;
        }
        None
    }

    /// The variants stored for `key`, if any.
    pub fn get(&self, key: &str) -> (r: Option<&Vec<ProcessParams>>)
        ensures
            r is Some == self@.dom().contains(key@),
            r is Some ==> params_views(r->0@) == self@[key@],
    {
        proof {
            use_type_invariant(self);
        }
        match self.find(key) {
            Some(i) => {
                proof {
                    let j = self.index_of(key@);
                    assert(self.has_key_at(key@, i as int));
                    assert(self.has_key_at(key@, j));
                    if i < j {
                        assert(self.entries@[i as int].0@ != self.entries@[j].0@);
                    } else if j < i {
                        assert(self.entries@[j].0@ != self.entries@[i as int].0@);
                    }
                }
                Some(&self.entries[i].1)
            },
            None => None,
        }
    }

    /// Stores `variants` under `key`, replacing what was stored there.
    pub fn insert(&mut self, key: String, variants: Vec<ProcessParams>)
        ensures
            final(self)@ == old(self)@.insert(key@, params_views(variants@)),
    {
        proof {
            use_type_invariant(&*self);
        }
        let ghost old_self: PromptMap = *self;
        let ghost old_entries = self.entries@;
        let ghost old_map = self@;
        let ghost kv = key@;
        let ghost vv = params_views(variants@);
        match self.find(key.as_str()) {
            Some(i) => {
                let mut entries: Vec<(String, Vec<ProcessParams>)> = Vec::new();
                std::mem::swap(&mut entries, &mut self.entries);
                entries.set(i, (key, variants));
                self.entries = entries;
                proof {
                    let new_map = self@;
                    assert forall|k: Seq<char>| #[trigger] new_map.dom().contains(k)
                        == old_map.insert(kv, vv).dom().contains(k) by {
                        if k != kv {
                            if new_map.dom().contains(k) {
                                let j = choose|j: int| self.has_key_at(k, j);
                                assert(self.has_key_at(k, j));
                                assert(j != i);
                                assert(old_self.has_key_at(k, j));
                            }
                            if old_map.dom().contains(k) {
                                let j = choose|j: int| old_self.has_key_at(k, j);
                                assert(old_self.has_key_at(k, j));
                                assert(j != i);
                                assert(self.has_key_at(k, j));
                            }
                        } else {
                            assert(self.has_key_at(k, i as int));
                        }
                    }
                    assert forall|k: Seq<char>| #[trigger] new_map.dom().contains(k) implies new_map[k]
                        == old_map.insert(kv, vv)[k] by {
                        let j = self.index_of(k);
                        assert(self.has_key_at(k, j));
                        if k == kv {
                            assert(self.has_key_at(k, i as int));
                            if j < i {
                                assert(self.entries@[j].0@ != self.entries@[i as int].0@);
                            } else if i < j {
                                assert(self.entries@[i as int].0@ != self.entries@[j].0@);
                            }
                        } else {
                            assert(old_self.has_key_at(k, j));
                            assert(old_map.dom().contains(k));
                            let oi = old_self.index_of(k);
                            assert(old_self.has_key_at(k, oi));
                            if oi < j {
                                assert(old_entries[oi].0@ != old_entries[j].0@);
                            } else if j < oi {
                                assert(old_entries[j].0@ != old_entries[oi].0@);
                            }
                        }
                    }
                    assert(new_map =~= old_map.insert(kv, vv));
                }
            },
            None => {
                let mut entries: Vec<(String, Vec<ProcessParams>)> = Vec::new();
                std::mem::swap(&mut entries, &mut self.entries);
                entries.push((key, variants));
                assert forall|a: int, b: int|
                    0 <= a < b < entries@.len() implies #[trigger] entries@[a].0@
                    != #[trigger] entries@[b].0@ by {
                    if b == old_entries.len() {
                        assert(!old_self.has_key_at(kv, a));
                    }
                }
                self.entries = entries;
                proof {
                    let n = old_entries.len() as int;
                    let new_map = self@;
                    assert forall|k: Seq<char>| #[trigger] new_map.dom().contains(k)
                        == old_map.insert(kv, vv).dom().contains(k) by {
                        if k != kv {
                            if new_map.dom().contains(k) {
                                let j = choose|j: int| self.has_key_at(k, j);
                                assert(self.has_key_at(k, j));
                                assert(j != n);
                                assert(old_self.has_key_at(k, j));
                            }
                            if old_map.dom().contains(k) {
                                let j = choose|j: int| old_self.has_key_at(k, j);
                                assert(old_self.has_key_at(k, j));
                                assert(self.has_key_at(k, j));
                            }
                        } else {
                            assert(self.has_key_at(k, n));
                        }
                    }
                    assert forall|k: Seq<char>| #[trigger] new_map.dom().contains(k) implies new_map[k]
                        == old_map.insert(kv, vv)[k] by {
                        let j = self.index_of(k);
                        assert(self.has_key_at(k, j));
                        if k == kv {
                            assert(j == n);
                        } else {
                            assert(j != n);
                            assert(old_self.has_key_at(k, j));
                            assert(old_map.dom().contains(k));
                            let oi = old_self.index_of(k);
                            assert(old_self.has_key_at(k, oi));
                            if oi < j {
                                assert(old_entries[oi].0@ != old_entries[j].0@);
                            } else if j < oi {
                                assert(old_entries[j].0@ != old_entries[oi].0@);
                            }
                        }
                    }
                    assert(new_map =~= old_map.insert(kv, vv));
                }
            },
        }
    }
}


/// The key of the `i`-th prompt result: the `i`-th input name when there is
/// one, else the file name the service echoed.
pub open spec fn result_key(names: Seq<Seq<char>>, i: int, file: PromptFileResult) -> Seq<char> {
    if i < names.len() {
        names[i]
    } else {
        file.filename@
    }
}

/// The map built from the prompt results, in order: each result's variants
/// stored under its key, a later result replacing an earlier one with the
/// same key.
pub open spec fn prompt_map_of(names: Seq<Seq<char>>, files: Seq<PromptFileResult>) -> Map<
    Seq<char>,
    Seq<ProcessParamsView>,
>
    decreases files.len(),
{
    if files.len() == 0 {
        Map::empty()
    } else {
        let n = files.len() - 1;
        prompt_map_of(names, files.drop_last()).insert(
            result_key(names, n, files[n]),
            expanded(files[n]),
        )
    }
}

/// Builds the per-file variants from the prompt results. Results are keyed by
/// the input name that was sent (not the AI-returned filename) so that files with
/// spaces are always found regardless of how the service echoes the name.
pub fn build_prompt_map(input_names: &Vec<String>, files: &Vec<PromptFileResult>) -> (m: PromptMap)
    ensures
        m@ == prompt_map_of(input_names.deep_view(), files@),
{
    let ghost names = input_names.deep_view();
    let mut m = PromptMap::new();
    let mut i: usize = 0;
    while i < files.len()
        invariant
            names == input_names.deep_view(),
            i <= files.len(),
            m@ == prompt_map_of(names, files@.take(i as int)),
        decreases files.len() - i,
    {
        let file = &files[i];
        let variants = expand_file_variants(file);
        let key = if i < input_names.len() {
            input_names[i].clone()
        } else {
            file.filename.clone()
        };
        m.insert(key, variants);
        assert(files@.take(i + 1).drop_last() =~= files@.take(i as int));
        i = i + 1;
    }
    assert(files@.take(files.len() as int) =~= files@);
    m
}

/// When the service answers at most one result per input and the input names
/// are distinct, the `i`-th result is found under the `i`-th input name.
pub proof fn law_results_found_by_input_name(
    names: Seq<Seq<char>>,
    files: Seq<PromptFileResult>,
    i: int,
)
    requires
        names.no_duplicates(),
        files.len() <= names.len(),
        0 <= i < files.len(),
    ensures
        prompt_map_of(names, files).dom().contains(names[i]),
        prompt_map_of(names, files)[names[i]] == expanded(files[i]),
    decreases files.len(),
{
    let n = files.len() - 1;
    if i < n {
        law_results_found_by_input_name(names, files.drop_last(), i);
        assert(names[n] != names[i]);
    }
}

/// The variants to run for one input file: without a prompt, the explicit
/// parameters alone; with one, each prompt variant for the file (or a single
/// unset variant when the prompt gave none) merged with the explicit
/// parameters.
pub open spec fn file_variants(
    map: Option<Map<Seq<char>, Seq<ProcessParamsView>>>,
    name: Seq<char>,
    explicit: ProcessParamsView,
) -> Seq<ProcessParamsView> {
    match map {
        None => seq![explicit],
        Some(m) => {
            let base = if m.dom().contains(name) {
                m[name]
            } else {
                seq![unset_params()]
            };
            base.map_values(|b: ProcessParamsView| merged(b, explicit))
        },
    }
}

/// With a prompt, each input file the service answered for is processed
/// once per prompt variant, each variant overridden by the explicit
/// settings; with no explicit settings, exactly the prompt's variants run.
pub proof fn law_prompt_variants_run_for_each_input(
    names: Seq<Seq<char>>,
    files: Seq<PromptFileResult>,
    i: int,
    explicit: ProcessParamsView,
)
    requires
        names.no_duplicates(),
        files.len() <= names.len(),
        0 <= i < files.len(),
    ensures
        file_variants(Some(prompt_map_of(names, files)), names[i], explicit) == expanded(
            files[i],
        ).map_values(|b: ProcessParamsView| merged(b, explicit)),
        file_variants(Some(prompt_map_of(names, files)), names[i], unset_params()) == expanded(
            files[i],
        ),
{
    law_results_found_by_input_name(names, files, i);
    let e = expanded(files[i]);
    assert(e.map_values(|b: ProcessParamsView| merged(b, unset_params())) =~= e);
}

/// The view of an optional prompt map.
pub open spec fn opt_map_view(map: Option<PromptMap>) -> Option<Map<Seq<char>, Seq<ProcessParamsView>>> {
    match map {
        Some(m) => Some(m@),
        None => None,
    }
}

/// The parameter variants to run for the input file named `file_name`,
/// prompt-derived values overridden by the explicit ones.
pub fn variants_for_file(map: &Option<PromptMap>, file_name: &str, explicit: &ProcessParams) -> (r:
    Vec<ProcessParams>)
    ensures
        params_views(r@) == file_variants(opt_map_view(*map), file_name@, explicit@),
{
    match map {
        None => {
            let r = vec![explicit.duplicate()];
            assert(params_views(r@) =~= seq![explicit@]);
            r
        },
        Some(m) => {
            let fallback: Vec<ProcessParams> = vec![ProcessParams::default()];
            let base: &Vec<ProcessParams> = match m.get(file_name) {
                Some(b) => b,
                None => &fallback,
            };
            assert(params_views(fallback@) =~= seq![unset_params()]);
            let ghost bv = params_views(base@);
            let mut r: Vec<ProcessParams> = Vec::new();
            let mut k: usize = 0;
            while k < base.len()
                invariant
                    bv == params_views(base@),
                    k <= base.len(),
                    params_views(r@) == bv.take(k as int).map_values(
                        |b: ProcessParamsView| merged(b, explicit@),
                    ),
                decreases base.len() - k,
            {
                let v = merge_params(base[k].duplicate(), explicit.duplicate());
                assert(v@ == merged(bv[k as int], explicit@));
                let ghost before = r@;
                r.push(v);
                assert(r@ == before.push(v));
                assert(bv.take(k + 1) =~= bv.take(k as int).push(bv[k as int]));
                assert(params_views(r@) =~= params_views(before).push(v@));
                assert(params_views(r@) =~= bv.take(k + 1).map_values(
                    |b: ProcessParamsView| merged(b, explicit@),
                ));
                k = k + 1;
            }
            assert(bv.take(base.len() as int) =~= bv);
            r
        },
    }
}

} // verus!
