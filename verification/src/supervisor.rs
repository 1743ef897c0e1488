//! Lifecycle of the supervised backend: not yet started, running, or exited.
//! A successful launch is the only transition into the running phase, and end
//! of data on the output stream is the only transition out of it. While the
//! child runs, its output events drive the relay; standard-error content is
//! discarded silently, by design.

use vstd::prelude::*;
use crate::launcher::{classify_launch, ChildHandle, LaunchError};
use crate::relay::{relayed_lines, relayed_so_far, Relay};

verus! {

/// The supervisor's lifecycle state. A clean exit and a crash are not
/// distinguished: both close the stream and end in `Exited`.
#[derive(Clone, Copy, Debug, PartialEq, Eq, Structural)]
pub enum Phase {
    NotStarted,
    Running,
    Exited,
}

/// One observation made on the running child: a chunk of its standard output,
/// a chunk of its standard error, or the closing of its output (the child has
/// exited).
pub enum ChildEvent {
    Stdout(Vec<u8>),
    Stderr(Vec<u8>),
    Terminated,
}

/// Supervises one backend child process: holds its lifecycle phase, its
/// process id once it runs, and the drain state of its output stream.
pub struct Supervisor {
    phase: Phase,
    pid: u32,
    relay: Relay,
}

impl Supervisor {
    /// The current lifecycle phase.
    pub closed spec fn phase(self) -> Phase {
        self.phase
    }

    /// The process id of the child, meaningful from the running phase on.
    pub closed spec fn child_pid(self) -> u32 {
        self.pid
    }

    /// All standard-output bytes of the child consumed so far.
    pub closed spec fn stdout_seen(self) -> Seq<u8> {
        self.relay.consumed()
    }

    /// The decoded log lines handed out for forwarding so far, in order.
    pub closed spec fn forwarded(self) -> Seq<Seq<char>> {
        self.relay.forwarded()
    }

    /// The relay is in step with the phase: its stream is closed exactly in
    /// the exited phase, and before a launch nothing has been consumed or
    /// forwarded.
    pub closed spec fn wf(self) -> bool {
        &&& self.relay.wf()
        &&& (self.phase is Exited <==> self.relay.done())
        &&& (self.phase is NotStarted ==> self.relay.consumed() == Seq::<u8>::empty()
            && self.relay.forwarded() == Seq::<Seq<char>>::empty())
    }

    /// Before a successful launch nothing has been consumed and nothing has
    /// been forwarded: a failed start never produces a log entry.
    pub proof fn lemma_unstarted_forwards_nothing(self)
        requires
            self.wf(),
            self.phase() is NotStarted,
        ensures
            self.forwarded() == Seq::<Seq<char>>::empty(),
            self.stdout_seen() == Seq::<u8>::empty(),
    {
    }

    /// Once the supervisor has exited, the forwarded lines are final: exactly
    /// the decoded line split of everything the child wrote to its standard
    /// output, in order.
    pub proof fn lemma_exited_forwarded_everything(self)
        requires
            self.wf(),
            self.phase() is Exited,
        ensures
            self.forwarded() == crate::relay::relayed_lines(self.stdout_seen()),
    {
        crate::relay::lemma_closed_relay_lines_are_complete(self.relay);
    }

    /// A supervisor for a backend that has not been launched.
    pub fn new() -> (s: Supervisor)
        ensures
            s.wf(),
            s.phase() is NotStarted,
            s.stdout_seen() == Seq::<u8>::empty(),
            s.forwarded() == Seq::<Seq<char>>::empty(),
    {
        Supervisor { phase: Phase::NotStarted, pid: 0, relay: Relay::new() }
    }

    /// The current lifecycle phase, for the host.
    pub fn current_phase(&self) -> (p: Phase)
        ensures
            p == self.phase(),
    {
        self.phase
    }

    /// Records the outcome of the single launch attempt, made of plain
    /// observations: whether the resolved executable was found, and the
    /// process id if the operating system created the process. A missing
    /// executable is a resolution failure and a refused creation a spawn
    /// failure; only a created process moves the supervisor to the running
    /// phase, and a failure leaves it unstarted with nothing forwarded.
    pub fn start(&mut self, file_found: bool, spawned: Option<u32>) -> (r: Result<
        ChildHandle,
        LaunchError,
    >)
        requires
            old(self).wf(),
            old(self).phase() is NotStarted,
        ensures
            final(self).wf(),
            final(self).stdout_seen() == Seq::<u8>::empty(),
            final(self).forwarded() == Seq::<Seq<char>>::empty(),
            !file_found ==> r == Err::<ChildHandle, LaunchError>(LaunchError::ResolutionFailed),
            file_found && spawned is None ==> r == Err::<ChildHandle, LaunchError>(
                LaunchError::SpawnFailed,
            ),
            file_found ==> (spawned matches Some(pid) ==> r == Ok::<ChildHandle, LaunchError>(
                ChildHandle { pid },
            ) && final(self).phase() is Running && final(self).child_pid() == pid),
            r is Err ==> final(self).phase() is NotStarted,
            r is Ok <==> final(self).phase() is Running,
    {
        let outcome = classify_launch(file_found, spawned);
        match &outcome {
            Ok(handle) => {
                self.phase = Phase::Running;
                self.pid = handle.pid;
            },
            Err(_) => {},
        }
        outcome
    }

    /// Feeds one observation on the running child into the supervisor and
    /// returns the decoded lines to forward to the log, in order. Standard
    /// output extends the consumed stream and yields its newly completed
    /// lines; standard error yields nothing and changes nothing; termination
    /// closes the stream, yields the trailing unterminated line if there is
    /// one, and moves the supervisor to the exited phase, after which the
    /// forwarded lines are exactly the decoded line split of everything the
    /// child wrote.
    pub fn on_event(&mut self, event: ChildEvent) -> (lines: Vec<String>)
        requires
            old(self).wf(),
            old(self).phase() is Running,
        ensures
            final(self).wf(),
            final(self).child_pid() == old(self).child_pid(),
            final(self).forwarded() == old(self).forwarded() + lines.deep_view(),
            match event {
                ChildEvent::Stdout(chunk) => final(self).phase() is Running
                    && final(self).stdout_seen() == old(self).stdout_seen() + chunk@
                    && final(self).forwarded() == relayed_so_far(final(self).stdout_seen()),
                ChildEvent::Stderr(_) => final(self).phase() is Running
                    && final(self).stdout_seen() == old(self).stdout_seen()
                    && lines.deep_view() == Seq::<Seq<char>>::empty(),
                ChildEvent::Terminated => final(self).phase() is Exited
                    && final(self).stdout_seen() == old(self).stdout_seen()
                    && final(self).forwarded() == relayed_lines(old(self).stdout_seen()),
            },
    {
        match event {
            ChildEvent::Stdout(chunk) => self.relay.accept_chunk(chunk.as_slice()),
            ChildEvent::Stderr(_) => {
                let lines: Vec<String> = Vec::new();
                proof {
                    assert(lines.deep_view() =~= Seq::<Seq<char>>::empty());
                }
                lines
            },
            ChildEvent::Terminated => {
                self.phase = Phase::Exited;
                let last = self.relay.end_of_stream();
                let mut lines: Vec<String> = Vec::new();
                match last {
                    Some(line) => {
                        lines.push(line);
                        proof {
                            assert(lines.deep_view() =~= seq![lines@[0]@]);
                        }
                    },
                    None => {
                        proof {
                            assert(lines.deep_view() =~= Seq::<Seq<char>>::empty());
                        }
                    },
                }
                lines
            },
        }
    }
}

} // verus!
