//! An in-memory configuration store: the verified model of the persisted
//! one, and the substitute used wherever no file is wanted.

use vstd::prelude::*;
use crate::config::{AppConfig, DataView};
use crate::errors::FugaResult;
use crate::paths::str_eq;
use crate::resolver::{dedupe_preserving_order, lemma_dedupe_contains, seq_views, strings_to_vec};
use crate::traits::ConfigRepository;

verus! {

/// One saved preset: a name and its ordered path list.
#[derive(Debug)]
pub struct Preset {
    pub name: String,
    pub paths: Vec<String>,
}

impl Preset {
    /// An identical copy.
    pub fn duplicate(&self) -> (r: Self)
        ensures
            r.name@ == self.name@,
            seq_views(r.paths@) == seq_views(self.paths@),
    {
        Preset { name: self.name.clone(), paths: strings_to_vec(self.paths.as_slice()) }
    }
}

/// The names of the presets, in order.
pub open spec fn spec_preset_names(ps: Seq<Preset>) -> Seq<Seq<char>> {
    Seq::new(ps.len(), |i: int| ps[i].name@)
}

/// The preset table a list of entries denotes: read front to back, a later
/// entry with the same name wins.
pub open spec fn spec_preset_map(ps: Seq<Preset>) -> Map<Seq<char>, Seq<Seq<char>>>
    decreases ps.len(),
{
    if ps.len() == 0 {
        Map::empty()
    } else {
        spec_preset_map(ps.drop_last()).insert(ps.last().name@, seq_views(ps.last().paths@))
    }
}

/// A name is in the table exactly when some entry bears it.
pub proof fn lemma_preset_map_dom(ps: Seq<Preset>, n: Seq<char>)
    ensures
        spec_preset_map(ps).contains_key(n) == spec_preset_names(ps).contains(n),
    decreases ps.len(),
{
    if ps.len() > 0 {
        lemma_preset_map_dom(ps.drop_last(), n);
        let names = spec_preset_names(ps);
        let prev = spec_preset_names(ps.drop_last());
        assert(prev =~= names.drop_last());
        if spec_preset_map(ps).contains_key(n) {
            if ps.last().name@ == n {
                assert(names.last() == n);
            } else {
                let i = choose|i: int| 0 <= i < prev.len() && prev[i] == n;
                assert(names[i] == n);
            }
        }
        if names.contains(n) {
            let i = choose|i: int| 0 <= i < names.len() && names[i] == n;
            if i < names.len() - 1 {
                assert(prev[i] == n);
            } else {
                assert(ps.last().name@ == n);
            }
        }
    }
}

/// An in-memory configuration store: it holds the same mark data and preset
/// table as the persisted one, with nothing on disk, and every operation is
/// total.
#[derive(Debug)]
pub struct MemoryConfigRepository {
    pub config: AppConfig,
    pub presets: Vec<Preset>,
}

impl MemoryConfigRepository {
    /// An empty store: no marks, no legacy mark, no presets.
    pub fn new() -> (r: Self)
        ensures
            r.data() == (DataView { targets: Seq::<Seq<char>>::empty(), legacy: None }),
            r.presets() == Map::<Seq<char>, Seq<Seq<char>>>::empty(),
    {
        MemoryConfigRepository { config: AppConfig::default(), presets: Vec::new() }
    }

    /// A store whose mark list holds the given paths.
    pub fn with_marks(marks: Vec<String>) -> (r: Self)
        ensures
            r.data() == (DataView { targets: seq_views(marks@), legacy: None }),
            r.presets() == Map::<Seq<char>, Seq<Seq<char>>>::empty(),
    {
        let mut config = AppConfig::default();
        config.data.targets = marks;
        MemoryConfigRepository { config, presets: Vec::new() }
    }

    /// Drop every entry bearing the name, keeping the rest in order.
    fn remove_preset_entries(&mut self, name: &str) -> (removed: bool)
        ensures
            spec_preset_map(final(self).presets@) == spec_preset_map(old(self).presets@).remove(
                name@,
            ),
            removed == spec_preset_map(old(self).presets@).contains_key(name@),
            final(self).config == old(self).config,
    {
        let ghost ps = self.presets@;
        let mut kept: Vec<Preset> = Vec::new();
        let mut removed = false;
        proof {
            assert(ps.take(0) =~= Seq::<Preset>::empty());
            assert(kept@ =~= Seq::<Preset>::empty());
            assert(spec_preset_map(kept@) =~= spec_preset_map(ps.take(0)).remove(name@));
        }
        let mut k: usize = 0;
        while k < self.presets.len()
            invariant
                k <= ps.len(),
                self.presets@ == ps,
                self.config == old(self).config,
                spec_preset_map(kept@) == spec_preset_map(ps.take(k as int)).remove(name@),
                removed == spec_preset_map(ps.take(k as int)).contains_key(name@),
            decreases ps.len() - k,
        {
            proof {
                assert(ps.take(k as int + 1).drop_last() =~= ps.take(k as int));
                assert(ps.take(k as int + 1).last() == ps[k as int]);
            }
            let matches_name = str_eq(self.presets[k].name.as_str(), name);
            if matches_name {
                removed = true;
                proof {
                    assert(spec_preset_map(ps.take(k as int + 1)).remove(name@)
                        =~= spec_preset_map(ps.take(k as int)).remove(name@));
                }
            } else {
                let ghost old_kept = kept@;
                let dup = self.presets[k].duplicate();
                kept.push(dup);
                proof {
                    assert(kept@.drop_last() =~= old_kept);
                    assert(spec_preset_map(kept@) == spec_preset_map(old_kept).insert(
                        ps[k as int].name@,
                        seq_views(ps[k as int].paths@),
                    ));
                    assert(spec_preset_map(ps.take(k as int + 1)).remove(name@)
                        =~= spec_preset_map(ps.take(k as int)).remove(name@).insert(
                        ps[k as int].name@,
                        seq_views(ps[k as int].paths@),
                    ));
                }
            }
            k = k + 1;
        }
        proof {
            assert(ps.take(ps.len() as int) =~= ps);
        }
        self.presets = kept;
        removed
    }
}

impl ConfigRepository for MemoryConfigRepository {
    open spec fn data(&self) -> DataView {
        self.config.data@
    }

    open spec fn presets(&self) -> Map<Seq<char>, Seq<Seq<char>>> {
        spec_preset_map(self.presets@)
    }

    fn load_config(&mut self) -> (r: FugaResult<AppConfig>)
        ensures
            r is Ok,
    {
        Ok(self.config.duplicate())
    }

    fn store_config(&mut self, config: &AppConfig) -> (r: FugaResult<()>)
        ensures
            r is Ok,
    {
        self.config = config.duplicate();
        Ok(())
    }

    fn set_marked_targets(&mut self, targets: &[String]) -> (r: FugaResult<()>)
        ensures
            r is Ok,
    {
        self.config.data.targets = strings_to_vec(targets);
        self.config.data.target = None;
        Ok(())
    }

    fn get_marked_targets(&mut self) -> (r: FugaResult<Vec<String>>)
        ensures
            r is Ok,
    {
        let (marks, _mutated) = self.config.data.migrate_marks();
        Ok(marks)
    }

    fn reset_marks(&mut self) -> (r: FugaResult<()>)
        ensures
            r is Ok,
    {
        self.config.data.targets = Vec::new();
        self.config.data.target = None;
        proof {
            assert(seq_views(self.config.data.targets@) =~= Seq::<Seq<char>>::empty());
        }
        Ok(())
    }

    fn list_presets(&mut self) -> (r: FugaResult<Vec<String>>)
        ensures
            r is Ok,
    {
        let ghost ps = self.presets@;
        let mut names: Vec<String> = Vec::new();
        proof {
            assert(seq_views(names@) =~= spec_preset_names(ps.take(0)));
        }
        let mut k: usize = 0;
        while k < self.presets.len()
            invariant
                k <= ps.len(),
                self.presets@ == ps,
                seq_views(names@) == spec_preset_names(ps.take(k as int)),
            decreases ps.len() - k,
        {
            let ghost old_names = names@;
            names.push(self.presets[k].name.clone());
            proof {
                assert(seq_views(names@) =~= seq_views(old_names).push(ps[k as int].name@));
                assert(spec_preset_names(ps.take(k as int + 1)) =~= spec_preset_names(
                    ps.take(k as int),
                ).push(ps[k as int].name@));
            }
            k = k + 1;
        }
        proof {
            assert(ps.take(ps.len() as int) =~= ps);
        }
        dedupe_preserving_order(&mut names);
        proof {
            assert(seq_views(names@).to_set() =~= spec_preset_map(ps).dom()) by {
                assert forall|n: Seq<char>|
                    seq_views(names@).to_set().contains(n)
                        == spec_preset_map(ps).dom().contains(n) by {
                    lemma_dedupe_contains(spec_preset_names(ps), n);
                    lemma_preset_map_dom(ps, n);
                }
            }
        }
        Ok(names)
    }

    fn get_preset(&mut self, name: &str) -> (r: FugaResult<Option<Vec<String>>>)
        ensures
            r is Ok,
    {
        let ghost ps = self.presets@;
        let mut found: Option<Vec<String>> = None;
        let mut k: usize = 0;
        while k < self.presets.len()
            invariant
                k <= ps.len(),
                self.presets@ == ps,
                match found {
                    Some(v) => spec_preset_map(ps.take(k as int)).contains_key(name@) && seq_views(
                        v@,
                    ) == spec_preset_map(ps.take(k as int))[name@],
                    None => !spec_preset_map(ps.take(k as int)).contains_key(name@),
                },
            decreases ps.len() - k,
        {
            proof {
                assert(ps.take(k as int + 1).drop_last() =~= ps.take(k as int));
                assert(ps.take(k as int + 1).last() == ps[k as int]);
            }
            if str_eq(self.presets[k].name.as_str(), name) {
                found = Some(strings_to_vec(self.presets[k].paths.as_slice()));
            }
            k = k + 1;
        }
        proof {
            assert(ps.take(ps.len() as int) =~= ps);
        }
        Ok(found)
    }

    fn save_preset(&mut self, name: &str, targets: &[String]) -> (r: FugaResult<()>)
        ensures
            r is Ok,
    {
        self.remove_preset_entries(name);
        let ghost mid = self.presets@;
        let entry = Preset { name: String::from_str(name), paths: strings_to_vec(targets) };
        self.presets.push(entry);
        proof {
            assert(self.presets@.drop_last() =~= mid);
            assert(spec_preset_map(self.presets@) =~= spec_preset_map(old(self).presets@).insert(
                name@,
                seq_views(targets@),
            ));
        }
        Ok(())
    }

    fn delete_preset(&mut self, name: &str) -> (r: FugaResult<bool>)
        ensures
            r is Ok,
    {
        let removed = self.remove_preset_entries(name);
        Ok(removed)
    }
}

/// Round trip: saving the live mark list under a name installs exactly that
/// list in the preset table, where later mark-list changes cannot touch it
/// (they keep the table, as the repository contracts state); loading the
/// preset therefore yields the very list present at save time.
pub proof fn lemma_preset_round_trip(
    presets_at_save: Map<Seq<char>, Seq<Seq<char>>>,
    saved_marks: Seq<Seq<char>>,
    name: Seq<char>,
)
    ensures
        presets_at_save.insert(name, saved_marks).contains_key(name),
        presets_at_save.insert(name, saved_marks)[name] == saved_marks,
{
}

} // verus!
