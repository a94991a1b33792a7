//! The persisted configuration model: an ordered mark list plus a legacy
//! single-target field that is migrated into the list the first time the
//! marks are read.

use vstd::prelude::*;
use crate::resolver::seq_views;

verus! {

/// User-level settings.
#[derive(Debug, Clone)]
pub struct UserConfig {
    pub box_path: String,
}

/// The persisted mark data: the ordered target list and the deprecated
/// single-target field kept only for migration.
#[derive(Debug, Clone)]
pub struct Data {
    pub targets: Vec<String>,
    pub target: Option<String>,
}

/// The whole persisted configuration.
#[derive(Debug, Clone)]
pub struct AppConfig {
    pub user_config: UserConfig,
    pub data: Data,
}

pub ghost struct DataView {
    pub targets: Seq<Seq<char>>,
    pub legacy: Option<Seq<char>>,
}

pub ghost struct AppConfigView {
    pub box_path: Seq<char>,
    pub data: DataView,
}

impl View for Data {
    type V = DataView;

    open spec fn view(&self) -> DataView {
        DataView {
            targets: seq_views(self.targets@),
            legacy: match self.target {
                Some(t) => Some(t@),
                None => None,
            },
        }
    }
}

impl View for AppConfig {
    type V = AppConfigView;

    open spec fn view(&self) -> AppConfigView {
        AppConfigView { box_path: self.user_config.box_path@, data: self.data@ }
    }
}

impl Default for UserConfig {
    /// An empty box path.
    fn default() -> (r: Self)
        ensures
            r.box_path@ == Seq::<char>::empty(),
    {
        UserConfig { box_path: String::new() }
    }
}

impl Default for Data {
    /// No targets and no legacy mark.
    fn default() -> (r: Self)
        ensures
            r@.targets == Seq::<Seq<char>>::empty(),
            r@.legacy is None,
    {
        let d = Data { targets: Vec::new(), target: None };
        proof {
            assert(seq_views(d.targets@) =~= Seq::<Seq<char>>::empty());
        }
        d
    }
}

impl Default for AppConfig {
    /// The empty configuration.
    fn default() -> (r: Self)
        ensures
            r@.box_path == Seq::<char>::empty(),
            r@.data.targets == Seq::<Seq<char>>::empty(),
            r@.data.legacy is None,
    {
        AppConfig { user_config: UserConfig::default(), data: Data::default() }
    }
}

impl Data {
    /// An identical copy of the mark data.
    pub fn duplicate(&self) -> (r: Self)
        ensures
            r@ == self@,
    {
        let targets = crate::resolver::strings_to_vec(self.targets.as_slice());
        let target = match &self.target {
            Some(t) => Some(t.clone()),
            None => None,
        };
        Data { targets, target }
    }
}

impl AppConfig {
    /// An identical copy of the configuration.
    pub fn duplicate(&self) -> (r: Self)
        ensures
            r@ == self@,
    {
        AppConfig {
            user_config: UserConfig { box_path: self.user_config.box_path.clone() },
            data: self.data.duplicate(),
        }
    }
}

/// An ASCII whitespace character.
pub open spec fn is_space_char(c: char) -> bool {
    c == ' ' || c == '\t' || c == '\n' || c == '\r' || c as u32 == 11 || c as u32 == 12
}

/// A string whose characters are all whitespace, the empty string included.
pub open spec fn spec_is_blank(s: Seq<char>) -> bool {
    forall|i: int| 0 <= i < s.len() ==> is_space_char(s[i])
}

/// Whether the string holds nothing but whitespace.
pub fn is_blank(s: &str) -> (r: bool)
    ensures
        r == spec_is_blank(s@),
{
    let len = s.unicode_len();
    let mut k: usize = 0;
    while k < len
        invariant
            k <= len,
            len == s@.len(),
            forall|i: int| 0 <= i < k ==> is_space_char(s@[i]),
        decreases len - k,
    {
        let c = s.get_char(k);
        let u = c as u32;
        if !(u == 32 || u == 9 || u == 10 || u == 13 || u == 11 || u == 12) {
            return false;
        }
        k = k + 1;
    }
    true
}

/// The target list with every blank entry removed.
pub open spec fn spec_clean_targets(ts: Seq<Seq<char>>) -> Seq<Seq<char>>
    decreases ts.len(),
{
    if ts.len() == 0 {
        ts
    } else {
        let rest = spec_clean_targets(ts.drop_last());
        if spec_is_blank(ts.last()) {
            rest
        } else {
            rest.push(ts.last())
        }
    }
}

proof fn lemma_clean_len(ts: Seq<Seq<char>>)
    ensures
        spec_clean_targets(ts).len() <= ts.len(),
        spec_clean_targets(ts).len() == ts.len() ==> spec_clean_targets(ts) == ts,
    decreases ts.len(),
{
    if ts.len() > 0 {
        lemma_clean_len(ts.drop_last());
        if !spec_is_blank(ts.last()) {
            if spec_clean_targets(ts).len() == ts.len() {
                assert(spec_clean_targets(ts.drop_last()).push(ts.last()) =~= ts);
            }
        }
    }
}

/// The mark list that reading the data yields: the cleaned target list, or
/// the migrated legacy mark when the list is empty and the legacy field
/// holds a non-blank path, or nothing.
pub open spec fn spec_migrated_marks(d: DataView) -> Seq<Seq<char>> {
    let cleaned = spec_clean_targets(d.targets);
    if cleaned.len() > 0 {
        cleaned
    } else {
        match d.legacy {
            Some(l) => if !spec_is_blank(l) {
                seq![l]
            } else {
                Seq::empty()
            },
            None => Seq::empty(),
        }
    }
}

/// Whether reading the marks rewrites the persisted data.
pub open spec fn spec_migrate_mutated(d: DataView) -> bool {
    let cleaned = spec_clean_targets(d.targets);
    ||| cleaned.len() != d.targets.len()
    ||| cleaned.len() > 0 && d.legacy is Some
    ||| cleaned.len() == 0 && (d.legacy matches Some(l) && !spec_is_blank(l))
}

/// The persisted data after the marks were read: rewritten to the cleaned,
/// migrated form when anything changed, untouched otherwise.
pub open spec fn spec_migrate_data(d: DataView) -> DataView {
    if spec_migrate_mutated(d) {
        DataView { targets: spec_migrated_marks(d), legacy: None }
    } else {
        d
    }
}

proof fn lemma_clean_no_blanks(ts: Seq<Seq<char>>)
    ensures
        forall|i: int|
            0 <= i < spec_clean_targets(ts).len() ==> !spec_is_blank(
                #[trigger] spec_clean_targets(ts)[i],
            ),
    decreases ts.len(),
{
    if ts.len() > 0 {
        lemma_clean_no_blanks(ts.drop_last());
        let rest = spec_clean_targets(ts.drop_last());
        if !spec_is_blank(ts.last()) {
            assert forall|i: int|
                0 <= i < spec_clean_targets(ts).len() implies !spec_is_blank(
                spec_clean_targets(ts)[i],
            ) by {
                if i < rest.len() {
                    assert(spec_clean_targets(ts)[i] == rest[i]);
                } else {
                    assert(spec_clean_targets(ts)[i] == ts.last());
                }
            }
        }
    }
}

proof fn lemma_clean_id(ts: Seq<Seq<char>>)
    requires
        forall|i: int| 0 <= i < ts.len() ==> !spec_is_blank(#[trigger] ts[i]),
    ensures
        spec_clean_targets(ts) == ts,
    decreases ts.len(),
{
    if ts.len() > 0 {
        assert(forall|i: int| 0 <= i < ts.len() - 1 ==> ts.drop_last()[i] == #[trigger] ts[i]);
        lemma_clean_id(ts.drop_last());
        assert(!spec_is_blank(ts.last()));
        assert(ts.drop_last().push(ts.last()) =~= ts);
    }
}

/// The migration runs once: the data it leaves behind holds no blank
/// leftovers and no legacy mark, so reading the marks again rewrites
/// nothing and yields the same list.
pub proof fn lemma_migration_idempotent(d: DataView)
    ensures
        !spec_migrate_mutated(spec_migrate_data(d)),
        spec_migrate_data(spec_migrate_data(d)) == spec_migrate_data(d),
        spec_migrated_marks(spec_migrate_data(d)) == spec_migrated_marks(d),
{
    let m = spec_migrate_data(d);
    if spec_migrate_mutated(d) {
        lemma_clean_no_blanks(d.targets);
        assert(forall|i: int| 0 <= i < m.targets.len() ==> !spec_is_blank(#[trigger] m.targets[i]))
            by {
            let cleaned = spec_clean_targets(d.targets);
            if cleaned.len() == 0 {
                match d.legacy {
                    Some(l) => {
                        if !spec_is_blank(l) {
                            assert(m.targets == seq![l]);
                        }
                    },
                    None => {},
                }
            }
        }
        lemma_clean_id(m.targets);
    }
}

/// What the persisted data holds after the marks were read is exactly the
/// migrated mark list.
pub proof fn lemma_migrate_targets(d: DataView)
    ensures
        spec_migrate_data(d).targets == spec_migrated_marks(d),
{
    if !spec_migrate_mutated(d) {
        lemma_clean_len(d.targets);
    }
}

impl Data {
    /// Read the mark list, dropping blank leftovers and migrating the legacy
    /// single mark into the list once. Returns the marks and whether the
    /// data changed and so must be persisted again.
    pub fn migrate_marks(&mut self) -> (r: (Vec<String>, bool))
        ensures
            seq_views(r.0@) == spec_migrated_marks(old(self)@),
            r.1 == spec_migrate_mutated(old(self)@),
            final(self)@ == spec_migrate_data(old(self)@),
    {
        let ghost dv = self@;
        let mut cleaned: Vec<String> = Vec::new();
        proof {
            assert(seq_views(self.targets@.take(0)) =~= Seq::<Seq<char>>::empty());
            assert(seq_views(cleaned@) =~= Seq::<Seq<char>>::empty());
            assert(spec_clean_targets(seq_views(self.targets@.take(0))) =~= Seq::<
                Seq<char>,
            >::empty());
        }
        let mut k: usize = 0;
        while k < self.targets.len()
            invariant
                k <= self.targets@.len(),
                *self == *old(self),
                seq_views(cleaned@) == spec_clean_targets(seq_views(self.targets@.take(k as int))),
            decreases self.targets@.len() - k,
        {
            let v = self.targets[k].clone();
            proof {
                let pre = seq_views(self.targets@.take(k as int));
                let cur = seq_views(self.targets@.take(k as int + 1));
                assert(cur.drop_last() =~= pre);
                assert(cur.last() == v@);
            }
            if !is_blank(v.as_str()) {
                let ghost old_cleaned = cleaned@;
                cleaned.push(v);
                proof {
                    assert(seq_views(cleaned@) =~= seq_views(old_cleaned).push(
                        self.targets@[k as int]@,
                    ));
                }
            }
            k = k + 1;
        }
        proof {
            assert(self.targets@.take(self.targets@.len() as int) =~= self.targets@);
            assert(seq_views(cleaned@) == spec_clean_targets(dv.targets));
        }
        let mut mutated = cleaned.len() != self.targets.len();
        proof {
            assert(seq_views(cleaned@).len() == cleaned@.len());
            assert(dv.targets.len() == self.targets@.len());
        }
        if cleaned.len() > 0 {
            if self.target.is_some() {
                mutated = true;
            }
            let marks = cleaned.clone();
            proof {
                assert forall|i: int| 0 <= i < marks@.len() implies marks@[i]@ == cleaned@[i]@ by {
                    assert(cloned::<String>(cleaned@[i], marks@[i]));
                }
                assert(seq_views(marks@) =~= seq_views(cleaned@));
            }
            self.targets = cleaned;
            self.target = None;
            proof {
                lemma_clean_len(dv.targets);
                assert(self@ == spec_migrate_data(dv));
            }
            (marks, mutated)
        } else {
            let legacy_mark: Option<String> = match &self.target {
                Some(l) => {
                    if !is_blank(l.as_str()) {
                        Some(l.clone())
                    } else {
                        None
                    }
                },
                None => None,
            };
            match legacy_mark {
                Some(l) => {
                    let mut marks: Vec<String> = Vec::new();
                    marks.push(l);
                    let targets = marks.clone();
                    proof {
                        assert forall|i: int| 0 <= i < targets@.len() implies targets@[i]@
                            == marks@[i]@ by {
                            assert(cloned::<String>(marks@[i], targets@[i]));
                        }
                        assert(seq_views(marks@) =~= spec_migrated_marks(dv));
                        assert(seq_views(targets@) =~= seq_views(marks@));
                    }
                    self.targets = targets;
                    self.target = None;
                    (marks, true)
                },
                None => {
                    let marks: Vec<String> = Vec::new();
                    proof {
                        assert(seq_views(marks@) =~= Seq::<Seq<char>>::empty());
                    }
                    if mutated {
                        self.targets = Vec::new();
                        self.target = None;
                        proof {
                            assert(seq_views(self.targets@) =~= Seq::<Seq<char>>::empty());
                        }
                    }
                    (marks, mutated)
                },
            }
        }
    }
}

} // verus!
