//! The concurrent-registry core: an identifier-to-record mapping.
//!
//! The registry is modelled as a finite map from identifier to record model;
//! the executable representation is an association vector in insertion
//! order, so a listing snapshot can also be specified exactly.  The
//! surrounding application shares one registry behind a lock; every
//! operation here is a complete, atomic state transition on it.

use vstd::prelude::*;

use crate::record::ProcessRecord;
use crate::record::RecordModel;
use crate::record::record_wf;
use crate::status::ProcessStatus;
use crate::status::resolved_status;

verus! {

/// Whether some entry of `s` carries the identifier `id`.
pub open spec fn has_id(s: Seq<(Seq<char>, RecordModel)>, id: Seq<char>) -> bool {
    exists|i: int| 0 <= i < s.len() && (#[trigger] s[i]).0 == id
}

/// The index of the entry carrying `id` (meaningful only under `has_id`
/// and uniqueness).
pub open spec fn id_index(s: Seq<(Seq<char>, RecordModel)>, id: Seq<char>) -> int {
    choose|i: int| 0 <= i < s.len() && (#[trigger] s[i]).0 == id
}

/// No identifier occurs twice.
pub open spec fn unique_ids(s: Seq<(Seq<char>, RecordModel)>) -> bool {
    forall|i: int, j: int|
        0 <= i < s.len() && 0 <= j < s.len() && i != j ==> (#[trigger] s[i]).0 != (#[trigger] s[j]).0
}

/// The mapping an entry sequence denotes.
pub open spec fn entries_map(s: Seq<(Seq<char>, RecordModel)>) -> Map<Seq<char>, RecordModel> {
    Map::new(|id: Seq<char>| has_id(s, id), |id: Seq<char>| s[id_index(s, id)].1)
}

/// Under uniqueness, the entry at `i` is what the mapping assigns to its
/// identifier.
pub proof fn lemma_map_index(s: Seq<(Seq<char>, RecordModel)>, i: int)
    requires
        unique_ids(s),
        0 <= i < s.len(),
    ensures
        entries_map(s).contains_key(s[i].0),
        entries_map(s)[s[i].0] == s[i].1,
        id_index(s, s[i].0) == i,
{
    assert(has_id(s, s[i].0));
    let j = id_index(s, s[i].0);
    assert(0 <= j < s.len() && s[j].0 == s[i].0);
}

/// Appending an entry with a fresh identifier inserts it into the mapping.
proof fn lemma_map_push(s: Seq<(Seq<char>, RecordModel)>, id: Seq<char>, m: RecordModel)
    requires
        unique_ids(s),
        !has_id(s, id),
    ensures
        unique_ids(s.push((id, m))),
        entries_map(s.push((id, m))) == entries_map(s).insert(id, m),
{
    let s2 = s.push((id, m));
    assert forall|k: int, l: int|
        0 <= k < s2.len() && 0 <= l < s2.len() && k != l implies (#[trigger] s2[k]).0 != (
    #[trigger] s2[l]).0 by {
        if k < s.len() && l < s.len() {
            assert(s2[k] == s[k] && s2[l] == s[l]);
        } else if k < s.len() {
            assert(s2[l].0 == id && s2[k] == s[k]);
            assert(has_id(s, s[k].0));
        } else {
            assert(s2[k].0 == id && s2[l] == s[l]);
            assert(has_id(s, s[l].0));
        }
    }
    assert forall|k: Seq<char>| #[trigger] has_id(s2, k) implies has_id(s, k) || k == id by {
        let i = choose|i: int| 0 <= i < s2.len() && (#[trigger] s2[i]).0 == k;
        if i < s.len() {
            assert(s[i].0 == k);
        }
    }
    assert forall|k: Seq<char>| #[trigger] has_id(s, k) implies has_id(s2, k) by {
        let i = choose|i: int| 0 <= i < s.len() && (#[trigger] s[i]).0 == k;
        assert(s2[i].0 == k);
    }
    assert(s2[s.len() as int].0 == id);
    assert(has_id(s2, id));
    assert forall|k: Seq<char>| #[trigger] has_id(s2, k) implies entries_map(s2)[k] == entries_map(
        s,
    ).insert(id, m)[k] by {
        let i = id_index(s2, k);
        assert(0 <= i < s2.len() && s2[i].0 == k);
        if k == id {
            assert(i == s.len()) by {
                if i < s.len() {
                    assert(has_id(s, id));
                }
            }
            assert(entries_map(s2)[k] == m);
        } else {
            assert(i < s.len());
            assert(s[i].0 == k);
            lemma_map_index(s, i);
            assert(id_index(s, k) == i);
            assert(entries_map(s2)[k] == s[i].1);
        }
    }
    assert(entries_map(s2) =~= entries_map(s).insert(id, m));
}

/// Replacing the entry at `i` with one carrying the same identifier
/// overwrites that identifier's image in the mapping.
proof fn lemma_map_update(s: Seq<(Seq<char>, RecordModel)>, i: int, m: RecordModel)
    requires
        unique_ids(s),
        0 <= i < s.len(),
    ensures
        unique_ids(s.update(i, (s[i].0, m))),
        entries_map(s.update(i, (s[i].0, m))) == entries_map(s).insert(s[i].0, m),
{
    let id = s[i].0;
    let s2 = s.update(i, (id, m));
    assert forall|k: int, l: int|
        0 <= k < s2.len() && 0 <= l < s2.len() && k != l implies (#[trigger] s2[k]).0 != (
    #[trigger] s2[l]).0 by {
        assert(s2[k].0 == s[k].0 && s2[l].0 == s[l].0);
    }
    assert forall|k: Seq<char>| #[trigger] has_id(s2, k) <==> has_id(s, k) by {
        if has_id(s2, k) {
            let a = choose|a: int| 0 <= a < s2.len() && (#[trigger] s2[a]).0 == k;
            assert(s[a].0 == k);
        }
        if has_id(s, k) {
            let a = choose|a: int| 0 <= a < s.len() && (#[trigger] s[a]).0 == k;
            assert(s2[a].0 == k);
        }
    }
    assert forall|k: Seq<char>| #[trigger] has_id(s2, k) implies entries_map(s2)[k] == entries_map(
        s,
    ).insert(id, m)[k] by {
        let a = id_index(s2, k);
        assert(0 <= a < s2.len() && s2[a].0 == k);
        assert(s[a].0 == k);
        lemma_map_index(s, a);
        if k == id {
            assert(a == i);
            assert(entries_map(s2)[k] == m);
        } else {
            assert(a != i);
            assert(entries_map(s2)[k] == s[a].1);
        }
    }
    assert(entries_map(s2) =~= entries_map(s).insert(id, m));
}

/// Removing the entry at `i` removes its identifier from the mapping.
proof fn lemma_map_remove(s: Seq<(Seq<char>, RecordModel)>, i: int)
    requires
        unique_ids(s),
        0 <= i < s.len(),
    ensures
        unique_ids(s.remove(i)),
        entries_map(s.remove(i)) == entries_map(s).remove(s[i].0),
{
    let id = s[i].0;
    let s2 = s.remove(i);
    assert(s2.len() == s.len() - 1);
    assert forall|k: int| 0 <= k < s2.len() implies (#[trigger] s2[k]) == (if k < i {
        s[k]
    } else {
        s[k + 1]
    }) by {}
    assert forall|k: int, l: int|
        0 <= k < s2.len() && 0 <= l < s2.len() && k != l implies (#[trigger] s2[k]).0 != (
    #[trigger] s2[l]).0 by {}
    assert forall|k: Seq<char>| #[trigger] has_id(s2, k) implies has_id(s, k) && k != id by {
        let a = choose|a: int| 0 <= a < s2.len() && (#[trigger] s2[a]).0 == k;
        if a < i {
            assert(s[a].0 == k);
        } else {
            assert(s[a + 1].0 == k);
        }
    }
    assert forall|k: Seq<char>| has_id(s, k) && k != id implies #[trigger] has_id(s2, k) by {
        let a = choose|a: int| 0 <= a < s.len() && (#[trigger] s[a]).0 == k;
        assert(a != i);
        if a < i {
            assert(s2[a].0 == k);
        } else {
            assert(s2[a - 1].0 == k);
        }
    }
    assert forall|k: Seq<char>| #[trigger] has_id(s2, k) implies entries_map(s2)[k] == entries_map(
        s,
    ).remove(id)[k] by {
        let a = id_index(s2, k);
        assert(0 <= a < s2.len() && s2[a].0 == k);
        let b: int = if a < i {
            a
        } else {
            a + 1
        };
        assert(s[b].0 == k);
        lemma_map_index(s, b);
        assert(entries_map(s2)[k] == s[b].1);
    }
    assert(entries_map(s2) =~= entries_map(s).remove(id));
}

/// The registry state after one output line for `id` is collected: the
/// normalized line is appended to that record's log and offered to its
/// fan-out channel; nothing else changes.
pub open spec fn append_state(
    m: Map<Seq<char>, RecordModel>,
    id: Seq<char>,
    line: Seq<char>,
) -> Map<Seq<char>, RecordModel> {
    m.insert(
        id,
        RecordModel {
            log: m[id].log.push(line + "\n"@),
            published: m[id].published.push(line + "\n"@),
            ..m[id]
        },
    )
}

/// The registry state after `id`'s terminal status is resolved from the
/// exit code the operating system reported, if any; nothing else changes.
pub open spec fn resolve_state(
    m: Map<Seq<char>, RecordModel>,
    id: Seq<char>,
    exit_code: Option<i32>,
) -> Map<Seq<char>, RecordModel> {
    m.insert(id, RecordModel { status: resolved_status(exit_code), ..m[id] })
}

/// The identifier-to-record registry.
pub struct Registry {
    pub entries: Vec<(String, ProcessRecord)>,
}

impl Registry {
    /// The entries in insertion order, as the listing snapshot sees them.
    pub open spec fn entries_view(self) -> Seq<(Seq<char>, RecordModel)> {
        self.entries@.map_values(|e: (String, ProcessRecord)| (e.0@, e.1@))
    }

    /// Identifiers are unique and every record is well-formed.
    pub open spec fn wf(self) -> bool {
        &&& unique_ids(self.entries_view())
        &&& forall|i: int|
            0 <= i < self.entries_view().len() ==> record_wf(
                (#[trigger] self.entries_view()[i]).1,
            )
    }

    /// An empty registry.
    pub fn new() -> (r: Registry)
        ensures
            r.wf(),
            r@ == Map::<Seq<char>, RecordModel>::empty(),
            r.entries_view() == Seq::<(Seq<char>, RecordModel)>::empty(),
    {
        let r = Registry { entries: Vec::new() };
        proof {
            assert(r.entries_view() =~= Seq::<(Seq<char>, RecordModel)>::empty());
            assert(r@ =~= Map::<Seq<char>, RecordModel>::empty());
        }
        r
    }

    /// The index of the entry carrying `id`, if any.
    pub(crate) fn index_of(&self, id: &String) -> (r: Option<usize>)
        ensures
            match r {
                Some(i) => i < self.entries_view().len() && self.entries_view()[i as int].0 == id@,
                None => !has_id(self.entries_view(), id@),
            },
    {
        let mut j: usize = 0;
        while j < self.entries.len()
            invariant
                j <= self.entries_view().len(),
                forall|k: int| 0 <= k < j ==> (#[trigger] self.entries_view()[k]).0 != id@,
            decreases self.entries_view().len() - j,
        {
            if self.entries[j].0 == *id {
                return Some(j);
            }
            j += 1;
        }
        None
    }

    /// Whether `id` is registered.
    pub fn contains(&self, id: &String) -> (r: bool)
        ensures
            r == self@.contains_key(id@),
    {
        self.index_of(id).is_some()
    }

    /// Registers `rec` under `id`.  A colliding identifier is overwritten in
    /// place, exactly as a map insertion; a fresh one is appended to the
    /// snapshot order.
    pub fn upsert(&mut self, id: String, rec: ProcessRecord)
        requires
            old(self).wf(),
            rec.wf(),
        ensures
            final(self).wf(),
            final(self)@ == old(self)@.insert(id@, rec@),
            !old(self)@.contains_key(id@) ==> final(self).entries_view() == old(
                self,
            ).entries_view().push((id@, rec@)),
    {
        let ghost s = self.entries_view();
        let ghost idv = id@;
        let ghost recv = rec@;
        match self.index_of(&id) {
            Some(i) => {
                proof {
                    lemma_map_update(s, i as int, recv);
                }
                self.entries.remove(i);
                self.entries.insert(i, (id, rec));
                proof {
                    assert(self.entries_view() =~= s.update(i as int, (s[i as int].0, recv)));
                    assert(s[i as int].0 == idv);
                    assert forall|k: int| 0 <= k < self.entries_view().len() implies record_wf(
                        (#[trigger] self.entries_view()[k]).1,
                    ) by {
                        if k != i {
                            assert(self.entries_view()[k] == s[k]);
                        }
                    }
                }
            },
            None => {
                proof {
                    lemma_map_push(s, idv, recv);
                }
                self.entries.push((id, rec));
                proof {
                    assert(self.entries_view() =~= s.push((idv, recv)));
                    assert forall|k: int| 0 <= k < self.entries_view().len() implies record_wf(
                        (#[trigger] self.entries_view()[k]).1,
                    ) by {
                        if k < s.len() {
                            assert(self.entries_view()[k] == s[k]);
                        }
                    }
                }
            },
        }
    }
    /// Detaches the record registered under `id`, reporting whether one was
    /// present.  An absent identifier leaves the registry untouched.
    pub fn remove(&mut self, id: &String) -> (r: bool)
        requires
            old(self).wf(),
        ensures
            final(self).wf(),
            r == old(self)@.contains_key(id@),
            final(self)@ == old(self)@.remove(id@),
            !r ==> *final(self) == *old(self),
    {
        let ghost s = self.entries_view();
        match self.index_of(id) {
            Some(i) => {
                proof {
                    lemma_map_remove(s, i as int);
                }
                self.entries.remove(i);
                proof {
                    assert(self.entries_view() =~= s.remove(i as int));
                    assert forall|k: int| 0 <= k < self.entries_view().len() implies record_wf(
                        (#[trigger] self.entries_view()[k]).1,
                    ) by {
                        if k < i {
                            assert(self.entries_view()[k] == s[k]);
                        } else {
                            assert(self.entries_view()[k] == s[k + 1]);
                        }
                    }
                }
                true
            },
            None => {
                proof {
                    assert(final(self)@ =~= old(self)@.remove(id@));
                }
                false
            },
        }
    }

    /// Whether `id` is registered with a still-running record.  This is the
    /// guard for the collector's writes: output collection and resolution
    /// are admitted only while the record is running.
    pub fn is_running(&self, id: &String) -> (r: bool)
        requires
            self.wf(),
        ensures
            r == (self@.contains_key(id@) && self@[id@].status is Running),
    {
        match self.index_of(id) {
            Some(i) => {
                proof {
                    lemma_map_index(self.entries_view(), i as int);
                }
                match self.entries[i].1.status {
                    ProcessStatus::Running => true,
                    _ => false,
                }
            },
            None => false,
        }
    }

    /// Records one output line for the process registered under `id`: the
    /// line is appended to that record's log buffer, normalized with a
    /// trailing terminator, and offered to its live fan-out channel.  Every
    /// other record is untouched; an absent identifier changes nothing.
    ///
    /// Output is collected only while the process runs, so a registered
    /// record must still be running: once resolved, its log is frozen.
    pub fn append_line(&mut self, id: &String, line: String) -> (r: bool)
        requires
            old(self).wf(),
            old(self)@.contains_key(id@) ==> old(self)@[id@].status is Running,
        ensures
            final(self).wf(),
            r == old(self)@.contains_key(id@),
            r ==> final(self)@ == append_state(old(self)@, id@, line@),
            !r ==> *final(self) == *old(self),
    {
        let ghost s = self.entries_view();
        match self.index_of(id) {
            Some(i) => {
                proof {
                    lemma_map_index(s, i as int);
                }
                let mut pair = self.entries.remove(i);
                pair.1.append_line(line);
                let ghost recv = pair.1@;
                self.entries.insert(i, pair);
                proof {
                    lemma_map_update(s, i as int, recv);
                    assert(self.entries_view() =~= s.update(i as int, (s[i as int].0, recv)));
                    assert forall|k: int| 0 <= k < self.entries_view().len() implies record_wf(
                        (#[trigger] self.entries_view()[k]).1,
                    ) by {
                        if k != i {
                            assert(self.entries_view()[k] == s[k]);
                        }
                    }
                }
                true
            },
            None => {
                false
            },
        }
    }

    /// Resolves the terminal status of the process registered under `id`
    /// from the exit code the operating system reported, if any.  Every
    /// other record is untouched; an absent identifier changes nothing
    /// (the record may already have been deleted, with no further effect).
    ///
    /// Resolution runs exactly once, so a registered record must still be
    /// running: a terminal status never changes.
    pub fn resolve(&mut self, id: &String, exit_code: Option<i32>) -> (r: bool)
        requires
            old(self).wf(),
            old(self)@.contains_key(id@) ==> old(self)@[id@].status is Running,
        ensures
            final(self).wf(),
            r == old(self)@.contains_key(id@),
            r ==> final(self)@ == resolve_state(old(self)@, id@, exit_code),
            !r ==> *final(self) == *old(self),
    {
        let ghost s = self.entries_view();
        match self.index_of(id) {
            Some(i) => {
                proof {
                    lemma_map_index(s, i as int);
                }
                let mut pair = self.entries.remove(i);
                pair.1.resolve(exit_code);
                let ghost recv = pair.1@;
                self.entries.insert(i, pair);
                proof {
                    lemma_map_update(s, i as int, recv);
                    assert(self.entries_view() =~= s.update(i as int, (s[i as int].0, recv)));
                    assert forall|k: int| 0 <= k < self.entries_view().len() implies record_wf(
                        (#[trigger] self.entries_view()[k]).1,
                    ) by {
                        if k != i {
                            assert(self.entries_view()[k] == s[k]);
                        }
                    }
                }
                true
            },
            None => {
                false
            },
        }
    }

    /// Attaches a live-log subscriber to the record registered under `id`,
    /// if any.  The subscriber observes only lines published after this
    /// call; the registry itself is not changed.
    pub fn subscribe(&self, id: &String) -> (r: Option<
        tokio::sync::broadcast::Receiver<String>,
    >)
        ensures
            r is Some <==> self@.contains_key(id@),
    {
        match self.index_of(id) {
            Some(i) => Some(self.entries[i].1.subscribe()),
            None => None,
        }
    }
}

impl View for Registry {
    type V = Map<Seq<char>, RecordModel>;

    open spec fn view(&self) -> Map<Seq<char>, RecordModel> {
        entries_map(self.entries_view())
    }
}

} // verus!
