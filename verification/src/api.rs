//! The request-facing operations of the supervisor.
//!
//! Each function is one complete state transition of the registry, exactly
//! what one inbound request performs between taking and releasing the
//! registry lock.  The surrounding application supplies the outside facts a
//! transition depends on (whether the kill signal succeeded) and performs
//! the actual input and output.

use vstd::prelude::*;

use crate::fanout;
use crate::ids;
use crate::record::ProcessRecord;
use crate::record::RecordModel;
use crate::record::joined;
use crate::registry::Registry;
use crate::registry::lemma_map_index;
use crate::status::ProcessStatus;
use crate::status::status_chars;

verus! {

/// The capacity of each record's live fan-out channel: a slow subscriber
/// lags once this many lines are pending for it.
pub const CHANNEL_CAPACITY: usize = 16;

/// A process summary as a client sees it: identifier, launch command,
/// status string, and the buffered log (left empty by the listing, filled by
/// a single-process query).
pub struct Process {
    pub uuid: String,
    pub cmd: String,
    pub status: String,
    pub log: String,
}

/// The model of a process summary.
pub struct ProcessView {
    pub uuid: Seq<char>,
    pub cmd: Seq<char>,
    pub status: Seq<char>,
    pub log: Seq<char>,
}

impl View for Process {
    type V = ProcessView;

    open spec fn view(&self) -> ProcessView {
        ProcessView { uuid: self.uuid@, cmd: self.cmd@, status: self.status@, log: self.log@ }
    }
}

/// A request to launch one process.
pub struct CreateProcess {
    pub cmd: String,
}

/// The outcome of a delete request.
#[derive(Clone, Copy, PartialEq, Eq, Structural, Debug)]
pub enum DeleteOutcome {
    /// The record was present and the kill signal succeeded (or the process
    /// had already exited): the record is gone.
    Deleted,
    /// No record carries the identifier; nothing was changed.
    NotFound,
    /// The kill signal failed; the record is intentionally left intact so
    /// the caller may retry.
    KillFailed,
}

/// The summary the listing shows for one registered record: its identifier,
/// command and status string, with the log left empty.
pub open spec fn summary_view(id: Seq<char>, m: RecordModel) -> ProcessView {
    ProcessView { uuid: id, cmd: m.cmd, status: status_chars(m.status), log: Seq::empty() }
}

/// The model of a freshly created record: running, with an empty log.
pub open spec fn new_record_model(cmd: Seq<char>) -> RecordModel {
    RecordModel {
        cmd,
        status: ProcessStatus::Running,
        log: Seq::empty(),
        published: Seq::empty(),
    }
}

/// The outcome a delete request reports: absent identifiers are not found,
/// a failed kill is surfaced, and only a successful kill deletes.
pub open spec fn delete_result(
    m: Map<Seq<char>, RecordModel>,
    id: Seq<char>,
    kill_ok: bool,
) -> DeleteOutcome {
    if !m.contains_key(id) {
        DeleteOutcome::NotFound
    } else if !kill_ok {
        DeleteOutcome::KillFailed
    } else {
        DeleteOutcome::Deleted
    }
}

/// The registry state a delete request leaves behind: the record is removed
/// exactly when it was present and the kill signal succeeded.
pub open spec fn delete_state(
    m: Map<Seq<char>, RecordModel>,
    id: Seq<char>,
    kill_ok: bool,
) -> Map<Seq<char>, RecordModel> {
    if m.contains_key(id) && kill_ok {
        m.remove(id)
    } else {
        m
    }
}

/// Lists every registered process: one summary per record, in registration
/// order, with the status rendered and the log field left empty.
pub fn get_processes(reg: &Registry) -> (r: Vec<Process>)
    ensures
        r@.len() == reg.entries_view().len(),
        forall|i: int|
            0 <= i < r@.len() ==> (#[trigger] r@[i])@ == summary_view(
                reg.entries_view()[i].0,
                reg.entries_view()[i].1,
            ),
{
    let mut out: Vec<Process> = Vec::new();
    let mut i: usize = 0;
    while i < reg.entries.len()
        invariant
            i <= reg.entries_view().len(),
            out@.len() == i,
            forall|k: int|
                0 <= k < i ==> (#[trigger] out@[k])@ == summary_view(
                    reg.entries_view()[k].0,
                    reg.entries_view()[k].1,
                ),
        decreases reg.entries_view().len() - i,
    {
        let entry = &reg.entries[i];
        let p = Process {
            uuid: entry.0.clone(),
            cmd: entry.1.cmd.clone(),
            status: entry.1.status.status_string(),
            log: String::new(),
        };
        out.push(p);
        i += 1;
    }
    out
}

/// Fetches one process: its identifier, command, current status and full
/// buffered log, or nothing when the identifier is unknown.
pub fn get_process(reg: &Registry, id: &String) -> (r: Option<Process>)
    requires
        reg.wf(),
    ensures
        r is Some <==> reg@.contains_key(id@),
        r is Some ==> r->Some_0@ == (ProcessView {
            uuid: id@,
            cmd: reg@[id@].cmd,
            status: status_chars(reg@[id@].status),
            log: joined(reg@[id@].log),
        }),
{
    match reg.index_of(id) {
        Some(i) => {
            proof {
                lemma_map_index(reg.entries_view(), i as int);
            }
            let rec = &reg.entries[i].1;
            Some(
                Process {
                    uuid: id.clone(),
                    cmd: rec.cmd.clone(),
                    status: rec.status.status_string(),
                    log: rec.log_text(),
                },
            )
        },
        None => None,
    }
}

/// Attaches a live-log subscriber to one process's fan-out channel, or
/// nothing when the identifier is unknown.  The subscriber observes only
/// lines published after this call; there is no replay.
pub fn get_process_live_log(reg: &Registry, id: &String) -> (r: Option<
    tokio::sync::broadcast::Receiver<String>,
>)
    ensures
        r is Some <==> reg@.contains_key(id@),
{
    reg.subscribe(id)
}

/// Registers a freshly launched process: a new identifier is drawn, a
/// fan-out channel is built, and a running record with an empty log is
/// registered under the identifier.  The returned summary shows the running
/// status and an empty log; it does not wait for any output.
///
/// The caller launches the operating-system process first and calls this
/// only when the launch succeeded, so a failed launch never registers
/// anything.
pub fn create_process(reg: &mut Registry, req: CreateProcess) -> (r: Process)
    requires
        old(reg).wf(),
    ensures
        final(reg).wf(),
        final(reg)@ == old(reg)@.insert(r@.uuid, new_record_model(req.cmd@)),
        !old(reg)@.contains_key(r@.uuid) ==> final(reg).entries_view() == old(
            reg,
        ).entries_view().push((r@.uuid, new_record_model(req.cmd@))),
        r@.uuid.len() == 36,
        r@.cmd == req.cmd@,
        r@.status == status_chars(ProcessStatus::Running),
        r@.log == Seq::<char>::empty(),
{
    let id = ids::fresh_id();
    let tx = fanout::new_channel(CHANNEL_CAPACITY);
    let rec = ProcessRecord::new(req.cmd.clone(), tx);
    reg.upsert(id.clone(), rec);
    Process {
        uuid: id,
        cmd: req.cmd,
        status: ProcessStatus::Running.status_string(),
        log: String::new(),
    }
}

/// Deletes one process's record, given whether the kill signal the caller
/// sent succeeded.  An unknown identifier reports `NotFound` and changes
/// nothing; a failed kill reports `KillFailed` and leaves the record intact
/// for a retry; otherwise the record is removed.  Killing a process that
/// has already exited counts as a successful kill, so deletion of an exited
/// record succeeds the same way.
pub fn delete_process(reg: &mut Registry, id: &String, kill_ok: bool) -> (r: DeleteOutcome)
    requires
        old(reg).wf(),
    ensures
        final(reg).wf(),
        r == delete_result(old(reg)@, id@, kill_ok),
        final(reg)@ == delete_state(old(reg)@, id@, kill_ok),
        !(r is Deleted) ==> *final(reg) == *old(reg),
{
    if !kill_ok {
        if reg.contains(id) {
            DeleteOutcome::KillFailed
        } else {
            DeleteOutcome::NotFound
        }
    } else {
        if reg.remove(id) {
            DeleteOutcome::Deleted
        } else {
            DeleteOutcome::NotFound
        }
    }
}

} // verus!
