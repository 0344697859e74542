//! The order of an upload. Two preparations run side by side: the client is
//! made (settings first, then the client itself) and the source is resolved.
//! The one write to the store is made when both are done, and never before.
//!
//! The caller does the work and reports what happened; `Pipeline::step` says
//! what to do next.

use vstd::prelude::*;

verus! {

/// How far the making of the client has come.
#[derive(Clone, Copy, Debug, PartialEq, Eq, Structural)]
pub enum ClientStage {
    /// The settings are not loaded yet.
    AwaitingConfig,
    /// The settings are loaded, the client is being made.
    Building,
    /// The client is made.
    Ready,
}

/// Where the upload stands.
#[derive(Clone, Copy, Debug, PartialEq, Eq, Structural)]
pub enum Phase {
    /// A preparation is still under way.
    Preparing,
    /// The write has been handed out and is under way.
    Writing,
    /// The object is written.
    Finished,
    /// Something failed; nothing more is done.
    Failed,
}

/// What the caller reports.
#[derive(Clone, Copy, Debug, PartialEq, Eq, Structural)]
pub enum Event {
    ConfigLoaded,
    ConfigFailed,
    ClientBuilt,
    ClientFailed,
    SourceResolved,
    SourceFailed,
    WriteFinished,
    WriteFailed,
}

/// What the caller is to do next.
#[derive(Clone, Copy, Debug, PartialEq, Eq, Structural)]
pub enum Action {
    /// Nothing new: go on with what is under way, if anything is.
    Wait,
    /// Make the client from the settings that were loaded.
    BuildClient,
    /// Show the address, then write the object. This is the only action that
    /// touches the network.
    Write,
    /// Report success.
    Finish,
    /// Give up what is under way and report the failure.
    Abort,
}

/// State of one upload.
#[derive(Clone, Copy, Debug, PartialEq, Eq, Structural)]
pub struct Pipeline {
    pub phase: Phase,
    pub client: ClientStage,
    pub source_ready: bool,
}

impl Pipeline {
    /// The state before anything has happened.
    pub open spec fn initial() -> Pipeline {
        Pipeline {
            phase: Phase::Preparing,
            client: ClientStage::AwaitingConfig,
            source_ready: false,
        }
    }

    /// State and action that follow an event. An event that the state does
    /// not wait for changes nothing.
    pub open spec fn next(self, event: Event) -> (Pipeline, Action) {
        match self.phase {
            Phase::Preparing => match event {
                Event::ConfigLoaded => if self.client is AwaitingConfig {
                    (Pipeline { client: ClientStage::Building, ..self }, Action::BuildClient)
                } else {
                    (self, Action::Wait)
                },
                Event::ClientBuilt => if self.client is Building {
                    if self.source_ready {
                        (
                            Pipeline { client: ClientStage::Ready, phase: Phase::Writing, ..self },
                            Action::Write,
                        )
                    } else {
                        (Pipeline { client: ClientStage::Ready, ..self }, Action::Wait)
                    }
                } else {
                    (self, Action::Wait)
                },
                Event::SourceResolved => if self.source_ready {
                    (self, Action::Wait)
                } else if self.client is Ready {
                    (
                        Pipeline { source_ready: true, phase: Phase::Writing, ..self },
                        Action::Write,
                    )
                } else {
                    (Pipeline { source_ready: true, ..self }, Action::Wait)
                },
                Event::ConfigFailed => if self.client is AwaitingConfig {
                    (Pipeline { phase: Phase::Failed, ..self }, Action::Abort)
                } else {
                    (self, Action::Wait)
                },
                Event::ClientFailed => if self.client is Building {
                    (Pipeline { phase: Phase::Failed, ..self }, Action::Abort)
                } else {
                    (self, Action::Wait)
                },
                Event::SourceFailed => if self.source_ready {
                    (self, Action::Wait)
                } else {
                    (Pipeline { phase: Phase::Failed, ..self }, Action::Abort)
                },
                Event::WriteFinished => (self, Action::Wait),
                Event::WriteFailed => (self, Action::Wait),
            },
            Phase::Writing => match event {
                Event::WriteFinished => (
                    Pipeline { phase: Phase::Finished, ..self },
                    Action::Finish,
                ),
                Event::WriteFailed => (Pipeline { phase: Phase::Failed, ..self }, Action::Abort),
                _ => (self, Action::Wait),
            },
            Phase::Finished => (self, Action::Wait),
            Phase::Failed => (self, Action::Wait),
        }
    }

    /// A new upload: nothing is loaded, built or resolved.
    pub fn new() -> (fresh: Pipeline)
        ensures
            fresh == Pipeline::initial(),
    {
        Pipeline {
            phase: Phase::Preparing,
            client: ClientStage::AwaitingConfig,
            source_ready: false,
        }
    }

    /// Takes an event and says what to do next.
    pub fn step(self, event: Event) -> (outcome: (Pipeline, Action))
        ensures
            outcome == self.next(event),
    {
        match self.phase {
            Phase::Preparing => match event {
                Event::ConfigLoaded => match self.client {
                    ClientStage::AwaitingConfig => (
                        Pipeline {
                            phase: self.phase,
                            client: ClientStage::Building,
                            source_ready: self.source_ready,
                        },
                        Action::BuildClient,
                    ),
                    _ => (self, Action::Wait),
                },
                Event::ClientBuilt => match self.client {
                    ClientStage::Building => if self.source_ready {
                        (
                            Pipeline {
                                phase: Phase::Writing,
                                client: ClientStage::Ready,
                                source_ready: true,
                            },
                            Action::Write,
                        )
                    } else {
                        (
                            Pipeline {
                                phase: self.phase,
                                client: ClientStage::Ready,
                                source_ready: false,
                            },
                            Action::Wait,
                        )
                    },
                    _ => (self, Action::Wait),
                },
                Event::SourceResolved => if self.source_ready {
                    (self, Action::Wait)
                } else {
                    match self.client {
                        ClientStage::Ready => (
                            Pipeline {
                                phase: Phase::Writing,
                                client: self.client,
                                source_ready: true,
                            },
                            Action::Write,
                        ),
                        _ => (
                            Pipeline {
                                phase: self.phase,
                                client: self.client,
                                source_ready: true,
                            },
                            Action::Wait,
                        ),
                    }
                },
                Event::ConfigFailed => match self.client {
                    ClientStage::AwaitingConfig => (self.failed(), Action::Abort),
                    _ => (self, Action::Wait),
                },
                Event::ClientFailed => match self.client {
                    ClientStage::Building => (self.failed(), Action::Abort),
                    _ => (self, Action::Wait),
                },
                Event::SourceFailed => if self.source_ready {
                    (self, Action::Wait)
                } else {
                    (self.failed(), Action::Abort)
                },
                Event::WriteFinished => (self, Action::Wait),
                Event::WriteFailed => (self, Action::Wait),
            },
            Phase::Writing => match event {
                Event::WriteFinished => (
                    Pipeline {
                        phase: Phase::Finished,
                        client: self.client,
                        source_ready: self.source_ready,
                    },
                    Action::Finish,
                ),
                Event::WriteFailed => (self.failed(), Action::Abort),
                _ => (self, Action::Wait),
            },
            Phase::Finished => (self, Action::Wait),
            Phase::Failed => (self, Action::Wait),
        }
    }

    /// The same upload, given up.
    fn failed(self) -> (given_up: Pipeline)
        ensures
            given_up == (Pipeline { phase: Phase::Failed, ..self }),
    {
        Pipeline { phase: Phase::Failed, client: self.client, source_ready: self.source_ready }
    }

    /// The state after a run of events, from the beginning.
    pub open spec fn after(events: Seq<Event>) -> Pipeline
        decreases events.len(),
    {
        if events.len() == 0 {
            Pipeline::initial()
        } else {
            Pipeline::after(events.drop_last()).next(events.last()).0
        }
    }

    /// What is to be done upon the event at `at` of a run.
    pub open spec fn action_at(events: Seq<Event>, at: int) -> Action
        recommends
            0 <= at < events.len(),
    {
        Pipeline::after(events.take(at)).next(events[at]).1
    }

    /// What holds of every state that a run can reach: the stages agree with
    /// the phase.
    pub open spec fn coherent(self) -> bool {
        &&& self.phase is Writing ==> self.client is Ready && self.source_ready
        &&& self.phase is Finished ==> self.client is Ready && self.source_ready
        &&& self.phase is Preparing ==> !(self.client is Ready && self.source_ready)
    }
}

/// `event` stands in `events` before `end`.
pub open spec fn seen(events: Seq<Event>, event: Event, end: int) -> bool {
    exists|i: int| 0 <= i < end && i < events.len() && events[i] == event
}

/// `Write` is handed out before `end`.
spec fn write_ordered(events: Seq<Event>, end: int) -> bool {
    exists|i: int| 0 <= i < end && i < events.len() && #[trigger] Pipeline::action_at(events, i) is Write
}

/// What a state tells of the run that led to it.
spec fn remembers(events: Seq<Event>, state: Pipeline) -> bool {
    let n = events.len() as int;
    &&& state.coherent()
    &&& !(state.client is AwaitingConfig) ==> seen(events, Event::ConfigLoaded, n)
    &&& state.client is Ready ==> seen(events, Event::ClientBuilt, n)
    &&& state.source_ready ==> seen(events, Event::SourceResolved, n)
    &&& state.phase is Preparing ==> !write_ordered(events, n)
}

/// A prefix of a prefix.
proof fn lemma_take_take(events: Seq<Event>, at: int, end: int)
    requires
        0 <= at <= end <= events.len(),
    ensures
        events.take(end).take(at) == events.take(at),
{
    assert(events.take(end).take(at) =~= events.take(at));
}

/// The action upon an event depends on the run up to that event only.
proof fn lemma_action_of_prefix(events: Seq<Event>, at: int, end: int)
    requires
        0 <= at < end <= events.len(),
    ensures
        Pipeline::action_at(events.take(end), at) == Pipeline::action_at(events, at),
{
    lemma_take_take(events, at, end);
}

/// What was seen in the beginning of a run was seen in the run.
proof fn lemma_seen_of_prefix(events: Seq<Event>, event: Event, len: int, end: int)
    requires
        0 <= len <= events.len(),
        seen(events.take(len), event, end),
    ensures
        seen(events, event, end),
        seen(events, event, len),
{
    let i = choose|i: int| 0 <= i < end && i < events.take(len).len() && events.take(len)[i] == event;
    assert(events[i] == event);
}

/// Every state of a run is coherent and remembers the run.
proof fn lemma_run_remembered(events: Seq<Event>)
    ensures
        remembers(events, Pipeline::after(events)),
    decreases events.len(),
{
    let n = events.len() as int;
    if n > 0 {
        let before = events.drop_last();
        let last = events.last();
        let prior = Pipeline::after(before);
        let state = prior.next(last).0;
        lemma_run_remembered(before);
        assert(before =~= events.take(n - 1));
        assert(events.take(n) =~= events);
        assert(events[n - 1] == last);
        if !(state.client is AwaitingConfig) {
            if prior.client is AwaitingConfig {
                assert(last == Event::ConfigLoaded);
            } else {
                lemma_seen_of_prefix(events, Event::ConfigLoaded, n - 1, n - 1);
            }
            assert(seen(events, Event::ConfigLoaded, n));
        }
        if state.client is Ready {
            if !(prior.client is Ready) {
                assert(last == Event::ClientBuilt);
            } else {
                lemma_seen_of_prefix(events, Event::ClientBuilt, n - 1, n - 1);
            }
            assert(seen(events, Event::ClientBuilt, n));
        }
        if state.source_ready {
            if !prior.source_ready {
                assert(last == Event::SourceResolved);
            } else {
                lemma_seen_of_prefix(events, Event::SourceResolved, n - 1, n - 1);
            }
            assert(seen(events, Event::SourceResolved, n));
        }
        if state.phase is Preparing {
            assert(prior.phase is Preparing);
            assert(!write_ordered(events, n)) by {
                assert forall|i: int| 0 <= i < n implies !(#[trigger] Pipeline::action_at(
                    events,
                    i,
                ) is Write) by {
                    if i < n - 1 {
                        lemma_action_of_prefix(events, i, n - 1);
                        assert(!(Pipeline::action_at(before, i) is Write));
                    } else {
                        assert(Pipeline::action_at(events, i) == prior.next(last).1);
                    }
                }
            }
        }
    }
}

/// The write is handed out only after the client was built and the source
/// was resolved, whichever of the two came first.
pub proof fn write_waits_for_both(events: Seq<Event>, at: int)
    requires
        0 <= at < events.len(),
        Pipeline::action_at(events, at) is Write,
    ensures
        seen(events, Event::ClientBuilt, at + 1),
        seen(events, Event::SourceResolved, at + 1),
        seen(events, Event::ConfigLoaded, at + 1),
{
    let upto = events.take(at + 1);
    let before = events.take(at);
    lemma_run_remembered(upto);
    lemma_take_take(events, at, at + 1);
    assert(upto.drop_last() =~= before);
    assert(upto.last() == events[at]);
    let state = Pipeline::after(upto);
    assert(state == Pipeline::after(before).next(events[at]).0);
    assert(state.phase is Writing);
    lemma_seen_of_prefix(events, Event::ClientBuilt, at + 1, at + 1);
    lemma_seen_of_prefix(events, Event::SourceResolved, at + 1, at + 1);
    lemma_seen_of_prefix(events, Event::ConfigLoaded, at + 1, at + 1);
}

/// The client is made only upon the loading of the settings.
pub proof fn client_follows_config(events: Seq<Event>, at: int)
    requires
        0 <= at < events.len(),
        Pipeline::action_at(events, at) is BuildClient,
    ensures
        events[at] == Event::ConfigLoaded,
{
}

/// Once an upload has failed it stays failed, and nothing more is handed
/// out.
proof fn lemma_failed_stays(events: Seq<Event>, from: int)
    requires
        0 <= from <= events.len(),
        Pipeline::after(events.take(from)).phase is Failed,
    ensures
        Pipeline::after(events).phase is Failed,
        forall|i: int| from <= i < events.len() ==> #[trigger] Pipeline::action_at(events, i) is Wait,
    decreases events.len() - from,
{
    let n = events.len() as int;
    if from == n {
        assert(events.take(n) =~= events);
    } else {
        let upto = events.take(from + 1);
        lemma_take_take(events, from, from + 1);
        assert(upto.drop_last() =~= events.take(from));
        assert(upto.last() == events[from]);
        assert(Pipeline::after(upto).phase is Failed);
        lemma_failed_stays(events, from + 1);
    }
}

/// Where the settings cannot be had, the upload is given up at once and
/// there is no write, whatever else is reported and in whatever order.
pub proof fn no_write_without_config(events: Seq<Event>, at: int)
    requires
        0 <= at < events.len(),
        events[at] == Event::ConfigFailed,
        !seen(events, Event::ConfigLoaded, at),
    ensures
        forall|i: int| 0 <= i < events.len() ==> !(#[trigger] Pipeline::action_at(events, i) is Write),
{
    assert forall|i: int| 0 <= i < events.len() implies !(#[trigger] Pipeline::action_at(
        events,
        i,
    ) is Write) by {
        if Pipeline::action_at(events, i) is Write {
            write_waits_for_both(events, i);
            let c = choose|c: int|
                0 <= c < i + 1 && c < events.len() && events[c] == Event::ConfigLoaded;
            // The settings were loaded at `c`, after the failure at `at`.
            assert(c > at) by {
                if c < at {
                    assert(seen(events, Event::ConfigLoaded, at));
                }
            }
            let before = events.take(at);
            lemma_run_remembered(before);
            let prior = Pipeline::after(before);
            assert(prior.client is AwaitingConfig) by {
                if !(prior.client is AwaitingConfig) {
                    lemma_seen_of_prefix(events, Event::ConfigLoaded, at, at);
                }
            }
            let upto = events.take(at + 1);
            lemma_take_take(events, at, at + 1);
            assert(upto.drop_last() =~= before);
            assert(upto.last() == events[at]);
            if prior.phase is Preparing {
                assert(Pipeline::after(upto).phase is Failed);
                lemma_failed_stays(events, at + 1);
                assert(Pipeline::action_at(events, i) is Wait || i <= at);
                if i <= at {
                    assert(c <= i);
                }
            } else {
                // Nothing is loaded, so the upload can only have failed before.
                assert(prior.coherent());
                assert(prior.phase is Failed);
                lemma_failed_stays(events, at);
                assert(i >= at);
            }
        }
    }
}

/// A run has at most one write.
pub proof fn at_most_one_write(events: Seq<Event>, first: int, second: int)
    requires
        0 <= first < second < events.len(),
        Pipeline::action_at(events, first) is Write,
    ensures
        !(Pipeline::action_at(events, second) is Write),
{
    let upto = events.take(first + 1);
    lemma_take_take(events, first, first + 1);
    assert(upto.drop_last() =~= events.take(first));
    assert(upto.last() == events[first]);
    assert(Pipeline::after(upto).phase is Writing);
    lemma_not_preparing_stays(events, first + 1, second);
}

/// An upload that has left its preparations never comes back to them, so no
/// later event brings a write.
proof fn lemma_not_preparing_stays(events: Seq<Event>, from: int, at: int)
    requires
        0 <= from <= at < events.len(),
        !(Pipeline::after(events.take(from)).phase is Preparing),
    ensures
        !(Pipeline::action_at(events, at) is Write),
    decreases at - from,
{
    if from < at {
        let upto = events.take(from + 1);
        lemma_take_take(events, from, from + 1);
        assert(upto.drop_last() =~= events.take(from));
        assert(upto.last() == events[from]);
        lemma_not_preparing_stays(events, from + 1, at);
    }
}

} // verus!
