//! The in-memory record of one launched process.

use vstd::prelude::*;
use vstd::string::StringExecFns;

use crate::fanout;
use crate::status::ProcessStatus;
use crate::status::resolved_status;

verus! {

/// The mathematical model of one process record: the launch command, the
/// lifecycle status, the buffered output lines, and the sequence of lines
/// that have been offered to the live fan-out channel.
pub struct RecordModel {
    pub cmd: Seq<char>,
    pub status: ProcessStatus,
    pub log: Seq<Seq<char>>,
    pub published: Seq<Seq<char>>,
}

/// The view of a buffer of lines: each owned line as its character sequence.
pub open spec fn lines_view(buf: Seq<String>) -> Seq<Seq<char>> {
    buf.map_values(|s: String| s@)
}

/// One launched process: its command, status, buffered output and the
/// sending half of its live fan-out channel.
///
/// The output collector for the process is the only writer of `status` and
/// `buffer`; everyone else reads.  `published` is the ghost history of the
/// lines handed to the fan-out channel: well-formedness ties it to the log
/// buffer, so live subscribers can only ever observe buffered lines, in
/// buffer order.
pub struct ProcessRecord {
    pub cmd: String,
    pub status: ProcessStatus,
    pub buffer: Vec<String>,
    pub tx: tokio::sync::broadcast::Sender<String>,
    pub published: Ghost<Seq<Seq<char>>>,
}

impl View for ProcessRecord {
    type V = RecordModel;

    open spec fn view(&self) -> RecordModel {
        RecordModel {
            cmd: self.cmd@,
            status: self.status,
            log: lines_view(self.buffer@),
            published: self.published@,
        }
    }
}

/// Every buffered line is non-empty and ends with a line terminator, and the
/// fan-out channel has been offered exactly the buffered lines, in order.
pub open spec fn record_wf(m: RecordModel) -> bool {
    &&& m.published == m.log
    &&& forall|i: int|
        0 <= i < m.log.len() ==> (#[trigger] m.log[i]).len() > 0 && m.log[i].last() == '\n'
}

impl ProcessRecord {
    pub open spec fn wf(self) -> bool {
        record_wf(self@)
    }

    /// A fresh record for a process that was just launched: running, with an
    /// empty log buffer.
    pub fn new(cmd: String, tx: tokio::sync::broadcast::Sender<String>) -> (r: ProcessRecord)
        ensures
            r@ == (RecordModel {
                cmd: cmd@,
                status: ProcessStatus::Running,
                log: Seq::empty(),
                published: Seq::empty(),
            }),
            r.wf(),
    {
        let r = ProcessRecord {
            cmd,
            status: ProcessStatus::Running,
            buffer: Vec::new(),
            tx,
            published: Ghost(Seq::empty()),
        };
        proof {
            assert(lines_view(r.buffer@) =~= Seq::<Seq<char>>::empty());
        }
        r
    }

    /// Records one line read from the process's standard output: the line is
    /// normalized with a trailing terminator, appended to the log buffer,
    /// and the very same value is offered to the live fan-out channel.
    /// Delivery on the channel is best-effort, so its report is ignored.
    ///
    /// Output is collected only while the process is running: once the
    /// status is terminal the log is frozen, so a running status is
    /// required here.
    pub fn append_line(&mut self, line: String)
        requires
            old(self).wf(),
            old(self)@.status is Running,
        ensures
            final(self).wf(),
            final(self)@ == (RecordModel {
                log: old(self)@.log.push(line@ + "\n"@),
                published: old(self)@.published.push(line@ + "\n"@),
                ..old(self)@
            }),
    {
        let mut l = line;
        l.append("\n");
        proof {
            reveal_strlit("\n");
        }
        let ghost old_buf = self.buffer@;
        self.buffer.push(l.clone());
        self.published = Ghost(self.published@.push(l@));
        fanout::publish(&self.tx, l);
        proof {
            assert(lines_view(old_buf.push(final(self).buffer@.last())) =~= lines_view(old_buf).push(
                final(self).buffer@.last()@,
            ));
            assert(final(self)@.log.last().len() > 0);
            assert(final(self)@.log.last().last() == '\n');
        }
    }

    /// Resolves the terminal status once the process has terminated, from
    /// the exit code the operating system reported, if any.  This is the
    /// last action of the process's output collector: resolution runs
    /// exactly once, so it is admitted only from the running status, and a
    /// terminal status never changes afterwards.
    pub fn resolve(&mut self, exit_code: Option<i32>)
        requires
            old(self).wf(),
            old(self)@.status is Running,
        ensures
            final(self).wf(),
            final(self)@ == (RecordModel { status: resolved_status(exit_code), ..old(self)@ }),
    {
        match exit_code {
            Some(code) => {
                self.status = ProcessStatus::Done(code);
            },
            None => {
                self.status = ProcessStatus::Killed;
            },
        }
    }

    /// Attaches a new live-log subscriber to this record's fan-out channel.
    /// The subscriber observes only lines published after this call.
    pub fn subscribe(&self) -> tokio::sync::broadcast::Receiver<String> {
        fanout::subscribe(&self.tx)
    }

    /// The full buffered log as one text: the concatenation of the
    /// newline-terminated lines in buffer order.
    pub fn log_text(&self) -> (r: String)
        ensures
            r@ == joined(self@.log),
    {
        let mut out = String::new();
        let mut i: usize = 0;
        while i < self.buffer.len()
            invariant
                i <= self.buffer.len(),
                out@ == joined(self@.log.take(i as int)),
            decreases self.buffer.len() - i,
        {
            let ghost prefix = self@.log.take(i as int);
            out.append(self.buffer[i].as_str());
            proof {
                let next = self@.log.take(i + 1 as int);
                assert(next.drop_last() =~= prefix);
                assert(next.last() == self@.log[i as int]);
                assert(out@ =~= joined(next));
            }
            i += 1;
        }
        proof {
            assert(self@.log.take(self.buffer@.len() as int) =~= self@.log);
        }
        out
    }
}

/// The rendered form of a log: the concatenation of the buffered lines in
/// buffer order.  Each line already carries its trailing terminator, so the
/// concatenation is the process's full output text.
pub open spec fn joined(lines: Seq<Seq<char>>) -> Seq<char>
    decreases lines.len(),
{
    if lines.len() == 0 {
        Seq::empty()
    } else {
        joined(lines.drop_last()) + lines.last()
    }
}

} // verus!
