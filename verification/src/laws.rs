//! The guarantees the supervisor gives across its operations, stated and
//! proved over the same models that the executable functions' contracts
//! use.

use vstd::prelude::*;

use crate::api::DeleteOutcome;
use crate::api::delete_result;
use crate::api::delete_state;
use crate::api::new_record_model;
use crate::api::summary_view;
use crate::record::RecordModel;
use crate::record::joined;
use crate::record::record_wf;
use crate::registry::append_state;
use crate::registry::resolve_state;
use crate::status::ProcessStatus;
use crate::status::dec_digit;
use crate::status::dec_rep;
use crate::status::resolved_status;
use crate::status::status_chars;

verus! {

/// Law: immediately after a creation registers a fresh identifier, the
/// registry maps it to a running record with an empty log, and every
/// listing snapshot of that state shows the identifier with the status
/// string `"running"`.
pub proof fn lemma_created_is_listed(
    s: Seq<(Seq<char>, RecordModel)>,
    id: Seq<char>,
    cmd: Seq<char>,
)
    ensures
        ({
            let after = s.push((id, new_record_model(cmd)));
            exists|i: int|
                0 <= i < after.len() && (#[trigger] after[i]).0 == id && summary_view(
                    after[i].0,
                    after[i].1,
                ).status == "running"@
        }),
        new_record_model(cmd).status is Running,
        new_record_model(cmd).log == Seq::<Seq<char>>::empty(),
{
    let after = s.push((id, new_record_model(cmd)));
    let i = s.len() as int;
    assert(after[i].0 == id);
    assert(summary_view(after[i].0, after[i].1).status == status_chars(ProcessStatus::Running));
}

/// Law: collecting a line is append-only and local.  The record's previous
/// log is a strict prefix of the new one, the new line stands at the end,
/// and every other record, and the set of registered identifiers, is
/// unchanged.
pub proof fn lemma_log_append_only(m: Map<Seq<char>, RecordModel>, id: Seq<char>, line: Seq<char>)
    requires
        m.contains_key(id),
    ensures
        m[id].log.is_prefix_of(append_state(m, id, line)[id].log),
        append_state(m, id, line)[id].log.len() == m[id].log.len() + 1,
        append_state(m, id, line)[id].log.last() == line + "\n"@,
        append_state(m, id, line).dom() == m.dom(),
        forall|j: Seq<char>|
            m.contains_key(j) && j != id ==> append_state(m, id, line)[j] == m[j],
{
    let after = append_state(m, id, line)[id].log;
    assert(after.subrange(0, m[id].log.len() as int) =~= m[id].log);
    assert(append_state(m, id, line).dom() =~= m.dom());
}

/// Law: the rendered log a client fetches never shrinks or reorders: when
/// one buffer of lines extends another, the joined text of the first is a
/// prefix of the joined text of the second.
pub proof fn lemma_joined_extends(l1: Seq<Seq<char>>, l2: Seq<Seq<char>>)
    requires
        l1.is_prefix_of(l2),
    ensures
        joined(l1).is_prefix_of(joined(l2)),
    decreases l2.len(),
{
    if l1.len() == l2.len() {
        assert(l1 =~= l2);
        assert(joined(l2).subrange(0, joined(l1).len() as int) =~= joined(l1));
    } else {
        let front = l2.drop_last();
        assert(l1 =~= front.subrange(0, l1.len() as int));
        lemma_joined_extends(l1, front);
        assert(joined(l2) == joined(front) + l2.last());
        assert(joined(l2).subrange(0, joined(l1).len() as int) =~= joined(l1));
    }
}

/// Law: the live stream fabricates nothing and keeps order.  In a
/// well-formed record the lines offered to the fan-out channel are exactly
/// the buffered log lines, at the same positions, so a subscriber can only
/// ever observe buffered lines in buffer order.
pub proof fn lemma_live_matches_log(m: RecordModel)
    requires
        record_wf(m),
    ensures
        m.published.len() == m.log.len(),
        forall|i: int| 0 <= i < m.published.len() ==> m.published[i] == m.log[i],
{
}

/// Law: deleting an unknown identifier reports `NotFound` and mutates no
/// state.
pub proof fn lemma_delete_unknown_preserves(
    m: Map<Seq<char>, RecordModel>,
    id: Seq<char>,
    kill_ok: bool,
)
    requires
        !m.contains_key(id),
    ensures
        delete_result(m, id, kill_ok) is NotFound,
        delete_state(m, id, kill_ok) == m,
{
}

/// Law: deletion of an already-exited record is effectively idempotent.
/// The kill of an exited process is a successful no-op, so the first delete
/// removes the record, and a repeated delete reports `NotFound` without
/// changing anything further.
pub proof fn lemma_delete_idempotent(m: Map<Seq<char>, RecordModel>, id: Seq<char>)
    requires
        m.contains_key(id),
        m[id].status.is_terminal(),
    ensures
        delete_result(m, id, true) is Deleted,
        !delete_state(m, id, true).contains_key(id),
        delete_result(delete_state(m, id, true), id, true) is NotFound,
        delete_state(delete_state(m, id, true), id, true) == delete_state(m, id, true),
{
}

/// Law: processes do not cross-contaminate.  Two creations under distinct
/// identifiers (the identifier generator's obligation is to produce
/// collision-free strings) register two independent records, and a
/// collector's writes for one identifier — a collected line or the status
/// resolution — never alter the other identifier's record.
pub proof fn lemma_processes_independent(
    m: Map<Seq<char>, RecordModel>,
    id1: Seq<char>,
    id2: Seq<char>,
    cmd1: Seq<char>,
    cmd2: Seq<char>,
)
    requires
        id1 != id2,
    ensures
        ({
            let m2 = m.insert(id1, new_record_model(cmd1)).insert(id2, new_record_model(cmd2));
            &&& m2.contains_key(id1) && m2[id1] == new_record_model(cmd1)
            &&& m2.contains_key(id2) && m2[id2] == new_record_model(cmd2)
            &&& forall|line: Seq<char>| #[trigger] append_state(m2, id1, line)[id2] == m2[id2]
            &&& forall|c: Option<i32>| #[trigger] resolve_state(m2, id1, c)[id2] == m2[id2]
            &&& forall|line: Seq<char>| #[trigger] append_state(m2, id2, line)[id1] == m2[id1]
            &&& forall|c: Option<i32>| #[trigger] resolve_state(m2, id2, c)[id1] == m2[id1]
        }),
{
}

/// Law: once the collector resolves a process that the operating system
/// reports as exited with code zero, its status string is `"done 0"`; one
/// resolved with no obtainable exit code reads `"killed"`.  Resolution
/// touches no other record.
pub proof fn lemma_resolution_strings(m: Map<Seq<char>, RecordModel>, id: Seq<char>)
    requires
        m.contains_key(id),
    ensures
        status_chars(resolve_state(m, id, Some(0i32))[id].status) == "done 0"@,
        status_chars(resolve_state(m, id, None)[id].status) == "killed"@,
        forall|j: Seq<char>, c: Option<i32>|
            m.contains_key(j) && j != id ==> resolve_state(m, id, c)[j] == m[j],
{
    assert(resolved_status(Some(0i32)) == ProcessStatus::Done(0i32));
    assert(dec_rep(0nat) =~= seq![dec_digit(0nat)]);
    reveal_strlit("done ");
    reveal_strlit("done 0");
    assert(status_chars(ProcessStatus::Done(0i32)) =~= "done 0"@);
}

} // verus!
