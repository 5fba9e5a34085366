//! The session: one state per client, advanced one event at a time.
//!
//! The event loop, the connection and the registry live outside this
//! library. Whatever they deliver is handed to [`Session::handle`] as an
//! [`Event`]; the session updates its own state and answers with a
//! [`Reaction`] that says what to show and what to do next. Binding a proxy
//! is such a thing to do: the caller binds, installs the listeners, and
//! hands the outcome back as [`Event::Bound`] or [`Event::BindFailed`].

use crate::object::{Handling, ObjectDescriptor, ProxyKind, PROPERTY_ACCEPTED};
use crate::table::ProxyTable;
use vstd::prelude::*;

verus! {

/// A signal of the process that asks the client to leave.
#[derive(Clone, Copy, Debug, PartialEq, Eq, Structural)]
pub enum Signal {
    Interrupt,
    Terminate,
}

/// How the client leaves.
#[derive(Clone, Copy, Debug, PartialEq, Eq, Structural)]
pub enum ExitStatus {
    /// The loop ran and was stopped by a signal or a fatal error.
    Success,
    /// The connection or the registry could not be had.
    StartupFailure,
}

impl ExitStatus {
    /// The exit code of the process for each status: 0 for success, 1 for a
    /// failure.
    pub open spec fn spec_code(self) -> i32 {
        if self == ExitStatus::Success {
            0
        } else {
            1
        }
    }

    /// The exit code with which the process leaves.
    #[verifier::when_used_as_spec(spec_code)]
    pub fn code(self) -> (code: i32)
        ensures
            code == self.spec_code(),
    {
        match self {
            ExitStatus::Success => 0,
            ExitStatus::StartupFailure => 1,
        }
    }
}

/// Where the session stands.
#[derive(Clone, Copy, Debug, PartialEq, Eq, Structural)]
pub enum Phase {
    /// Waiting for the connection.
    Connecting,
    /// Connected, waiting for the registry.
    Connected,
    /// The registry is listened to and the loop delivers events.
    Running,
    /// Over, with the status to leave with.
    Finished(ExitStatus),
}

/// An event of one proxy, by category.
#[derive(Clone, Copy, Debug, PartialEq, Eq, Structural)]
pub enum ObjectEvent {
    /// The info of the object was updated.
    Info,
    /// A parameter of the object was updated.
    Param,
    /// A metadata property changed.
    Property,
    /// The payload could not be read.
    Malformed,
}

/// What the outside world hands to the session.
///
/// `P` is the proxy type and `L` the type of a listener registration.
#[derive(Debug)]
pub enum Event<P, L> {
    /// The connection is established.
    Connected,
    /// The connection could not be established.
    ConnectFailed,
    /// The registry was obtained and is listened to.
    RegistryObtained,
    /// The registry could not be obtained.
    RegistryFailed,
    /// The connection reports its info.
    CoreInfo,
    /// The connection reports that an operation is done.
    CoreDone { id: u32, seq: i32 },
    /// The connection reports an error; id 0 is the connection itself.
    CoreError { id: u32, seq: i32, res: i32 },
    /// The registry announces an object.
    Appeared(ObjectDescriptor),
    /// The registry announces that an object is gone.
    Disappeared { id: u32 },
    /// A proxy was bound to the object `id` and its listeners are installed.
    Bound { id: u32, proxy: P, kind_listener: L, removed_listener: L },
    /// No proxy could be bound to the object `id`.
    BindFailed { id: u32 },
    /// A proxy reports an event of its object.
    Object { id: u32, event: ObjectEvent },
    /// A proxy reports that it was removed.
    ProxyRemoved { id: u32 },
    /// The process received a signal.
    Signal(Signal),
    /// The event loop has returned.
    LoopExited,
}

/// The classes of error that a session meets.
#[derive(Clone, Copy, Debug, PartialEq, Eq, Structural)]
pub enum ErrorClass {
    /// The connection or the registry could not be had: the session ends
    /// before the loop is entered.
    StartupFailure,
    /// The connection itself reports an error: the session shuts down.
    SessionFatal,
    /// An error tied to one object: it is shown, nothing else changes.
    ObjectScoped,
    /// No proxy can be bound to an object: the object is skipped.
    UnsupportedKind,
    /// A callback was handed data that it cannot read: it is shown, nothing
    /// else changes.
    MalformedEventPayload,
}

impl ErrorClass {
    /// Whether an error of this class leaves its callback and changes what
    /// the session does next.
    pub open spec fn spec_crosses_loop_boundary(self) -> bool {
        self == ErrorClass::StartupFailure || self == ErrorClass::SessionFatal
    }

    /// Whether an error of this class leaves its callback and changes what
    /// the session does next; every other error stays where it arose.
    #[verifier::when_used_as_spec(spec_crosses_loop_boundary)]
    pub fn crosses_loop_boundary(self) -> (crosses: bool)
        ensures
            crosses == self.spec_crosses_loop_boundary(),
    {
        match self {
            ErrorClass::StartupFailure => true,
            ErrorClass::SessionFatal => true,
            _ => false,
        }
    }
}

impl<P, L> Event<P, L> {
    /// The class of the error that the event reports, if it reports one.
    pub open spec fn spec_error_class(self) -> Option<ErrorClass> {
        match self {
            Event::ConnectFailed | Event::RegistryFailed => Some(ErrorClass::StartupFailure),
            Event::CoreError { id, seq, res } => if id == 0 {
                Some(ErrorClass::SessionFatal)
            } else {
                Some(ErrorClass::ObjectScoped)
            },
            Event::BindFailed { id } => Some(ErrorClass::UnsupportedKind),
            Event::Object { id, event } => if event == ObjectEvent::Malformed {
                Some(ErrorClass::MalformedEventPayload)
            } else {
                None
            },
            _ => None,
        }
    }

    /// The class of the error that the event reports, if it reports one.
    pub fn error_class(&self) -> (class: Option<ErrorClass>)
        ensures
            class == self.spec_error_class(),
    {
        match self {
            Event::ConnectFailed => Some(ErrorClass::StartupFailure),
            Event::RegistryFailed => Some(ErrorClass::StartupFailure),
            Event::CoreError { id, seq, res } => {
                if *id == 0 {
                    Some(ErrorClass::SessionFatal)
                } else {
                    Some(ErrorClass::ObjectScoped)
                }
            },
            Event::BindFailed { id } => Some(ErrorClass::UnsupportedKind),
            Event::Object { id, event } => match event {
                ObjectEvent::Malformed => Some(ErrorClass::MalformedEventPayload),
                _ => None,
            },
            _ => None,
        }
    }
}

/// What to show of an event.
#[derive(Clone, Copy, Debug, PartialEq, Eq, Structural)]
pub enum Notice {
    /// Nothing.
    Silent,
    /// The event itself.
    Event,
    /// The event, as an error.
    Error,
}

/// What to do after an event.
#[derive(Clone, Copy, Debug, PartialEq, Eq, Structural)]
pub enum Command {
    /// Go on with the next event.
    Continue,
    /// Ask the connection for the registry and listen to it.
    GetRegistry,
    /// Run the event loop.
    EnterLoop,
    /// Bind a proxy of this kind to the object just announced, install its
    /// listeners, and hand the outcome back.
    Bind(ProxyKind),
    /// Answer the remote side with this status.
    Answer(i32),
    /// Ask the event loop to stop once the current callback has returned.
    StopLoop,
    /// Leave with this status.
    Exit(ExitStatus),
}

/// The answer of the session to one event.
#[derive(Clone, Copy, Debug, PartialEq, Eq, Structural)]
pub struct Reaction {
    pub notice: Notice,
    pub command: Command,
}

/// The state of a session as plain values.
pub struct SessionView<P, L> {
    /// Where the session stands.
    pub phase: Phase,
    /// Whether the loop has been asked to stop.
    pub stop_requested: bool,
    /// The live proxies, each with its listeners.
    pub proxies: Map<u32, (P, Seq<L>)>,
}

impl<P, L> SessionView<P, L> {
    /// The state in which every session starts.
    pub open spec fn initial() -> Self {
        SessionView { phase: Phase::Connecting, stop_requested: false, proxies: Map::empty() }
    }

    /// Proxies are held only while the session runs, and each is held with
    /// the listener of its kind and the listener for its removal.
    pub open spec fn wf(self) -> bool {
        &&& self.phase != Phase::Running ==> self.proxies == Map::<u32, (P, Seq<L>)>::empty()
        &&& forall|id: u32| #[trigger]
            self.proxies.contains_key(id) ==> self.proxies[id].1.len() == 2
    }

    /// The state after `event`.
    pub open spec fn next(self, event: Event<P, L>) -> Self {
        if self.phase is Finished {
            self
        } else {
            match event {
                Event::Connected => if self.phase == Phase::Connecting {
                    SessionView { phase: Phase::Connected, ..self }
                } else {
                    self
                },
                Event::ConnectFailed => if self.phase == Phase::Connecting {
                    SessionView { phase: Phase::Finished(ExitStatus::StartupFailure), ..self }
                } else {
                    self
                },
                Event::RegistryObtained => if self.phase == Phase::Connected {
                    SessionView { phase: Phase::Running, ..self }
                } else {
                    self
                },
                Event::RegistryFailed => if self.phase == Phase::Connected {
                    SessionView { phase: Phase::Finished(ExitStatus::StartupFailure), ..self }
                } else {
                    self
                },
                Event::CoreError { id, seq, res } => if id == 0 {
                    SessionView { stop_requested: true, ..self }
                } else {
                    self
                },
                Event::Signal(signal) => SessionView { stop_requested: true, ..self },
                Event::Bound { id, proxy, kind_listener, removed_listener } => if self.phase
                    == Phase::Running && !self.proxies.contains_key(id) {
                    SessionView {
                        proxies: self.proxies.insert(
                            id,
                            (proxy, seq![kind_listener, removed_listener]),
                        ),
                        ..self
                    }
                } else {
                    self
                },
                Event::ProxyRemoved { id } => if self.phase == Phase::Running {
                    SessionView { proxies: self.proxies.remove(id), ..self }
                } else {
                    self
                },
                Event::LoopExited => if self.phase == Phase::Running {
                    SessionView {
                        phase: Phase::Finished(ExitStatus::Success),
                        proxies: Map::empty(),
                        ..self
                    }
                } else {
                    self
                },
                _ => self,
            }
        }
    }

    /// The answer to `event` in this state.
    pub open spec fn reaction(self, event: Event<P, L>) -> Reaction {
        if self.phase is Finished {
            Reaction { notice: Notice::Silent, command: Command::Continue }
        } else {
            match event {
                Event::Connected => Reaction {
                    notice: Notice::Silent,
                    command: if self.phase == Phase::Connecting {
                        Command::GetRegistry
                    } else {
                        Command::Continue
                    },
                },
                Event::ConnectFailed | Event::RegistryFailed => if self.next(event).phase
                    is Finished {
                    Reaction {
                        notice: Notice::Error,
                        command: Command::Exit(ExitStatus::StartupFailure),
                    }
                } else {
                    Reaction { notice: Notice::Silent, command: Command::Continue }
                },
                Event::RegistryObtained => Reaction {
                    notice: Notice::Silent,
                    command: if self.phase == Phase::Connected {
                        Command::EnterLoop
                    } else {
                        Command::Continue
                    },
                },
                Event::CoreInfo => Reaction { notice: Notice::Event, command: Command::Continue },
                Event::CoreDone { id, seq } => Reaction {
                    notice: Notice::Silent,
                    command: Command::Continue,
                },
                Event::CoreError { id, seq, res } => Reaction {
                    notice: Notice::Error,
                    command: if id == 0 && !self.stop_requested {
                        Command::StopLoop
                    } else {
                        Command::Continue
                    },
                },
                Event::Appeared(descriptor) => if self.phase != Phase::Running {
                    Reaction { notice: Notice::Silent, command: Command::Continue }
                } else {
                    match descriptor.spec_kind().spec_handling() {
                        Handling::Bind(kind) => if self.proxies.contains_key(
                            descriptor.spec_id(),
                        ) {
                            Reaction { notice: Notice::Error, command: Command::Continue }
                        } else {
                            Reaction {
                                notice: if kind == ProxyKind::Metadata {
                                    Notice::Event
                                } else {
                                    Notice::Silent
                                },
                                command: Command::Bind(kind),
                            }
                        },
                        Handling::Reserved => Reaction {
                            notice: Notice::Silent,
                            command: Command::Continue,
                        },
                        Handling::Unrecognized => Reaction {
                            notice: Notice::Event,
                            command: Command::Continue,
                        },
                    }
                },
                Event::Disappeared { id } => Reaction {
                    notice: Notice::Event,
                    command: Command::Continue,
                },
                Event::Bound { id, proxy, kind_listener, removed_listener } => Reaction {
                    notice: if self.phase == Phase::Running && self.proxies.contains_key(id) {
                        Notice::Error
                    } else {
                        Notice::Silent
                    },
                    command: Command::Continue,
                },
                Event::BindFailed { id } => Reaction {
                    notice: Notice::Error,
                    command: Command::Continue,
                },
                Event::Object { id, event } => match event {
                    ObjectEvent::Info | ObjectEvent::Param => Reaction {
                        notice: Notice::Event,
                        command: Command::Continue,
                    },
                    ObjectEvent::Property => Reaction {
                        notice: Notice::Event,
                        command: Command::Answer(PROPERTY_ACCEPTED),
                    },
                    ObjectEvent::Malformed => Reaction {
                        notice: Notice::Error,
                        command: Command::Continue,
                    },
                },
                Event::ProxyRemoved { id } => Reaction {
                    notice: Notice::Silent,
                    command: Command::Continue,
                },
                Event::Signal(signal) => Reaction {
                    notice: Notice::Silent,
                    command: if self.stop_requested {
                        Command::Continue
                    } else {
                        Command::StopLoop
                    },
                },
                Event::LoopExited => Reaction {
                    notice: Notice::Silent,
                    command: if self.phase == Phase::Running {
                        Command::Exit(ExitStatus::Success)
                    } else {
                        Command::Continue
                    },
                },
            }
        }
    }

    /// The state after the events of `events`, first to last.
    pub open spec fn after(self, events: Seq<Event<P, L>>) -> Self
        decreases events.len(),
    {
        if events.len() == 0 {
            self
        } else {
            self.after(events.drop_last()).next(events.last())
        }
    }

    /// The answers to the events of `events`, in their order.
    pub open spec fn reactions(self, events: Seq<Event<P, L>>) -> Seq<Reaction> {
        Seq::new(events.len(), |i: int| self.after(events.take(i)).reaction(events[i]))
    }
}

/// The state of one client: where it stands, whether it was asked to stop,
/// and the proxies it holds.
pub struct Session<P, L> {
    phase: Phase,
    stop_requested: bool,
    proxies: ProxyTable<P, L>,
}

impl<P, L> View for Session<P, L> {
    type V = SessionView<P, L>;

    closed spec fn view(&self) -> SessionView<P, L> {
        SessionView {
            phase: self.phase,
            stop_requested: self.stop_requested,
            proxies: self.proxies@,
        }
    }
}

impl<P, L> Session<P, L> {
    /// A session that waits for its connection and holds nothing.
    pub fn new() -> (session: Self)
        ensures
            session@ == SessionView::<P, L>::initial(),
            session@.wf(),
    {
        Session { phase: Phase::Connecting, stop_requested: false, proxies: ProxyTable::new() }
    }

    /// Where the session stands.
    pub fn phase(&self) -> (phase: Phase)
        ensures
            phase == self@.phase,
    {
        self.phase
    }

    /// Whether the loop has been asked to stop.
    pub fn stop_requested(&self) -> (asked: bool)
        ensures
            asked == self@.stop_requested,
    {
        self.stop_requested
    }

    /// Whether a proxy is held for the object `id`.
    pub fn holds(&self, id: u32) -> (held: bool)
        ensures
            held == self@.proxies.contains_key(id),
    {
        self.proxies.contains(id)
    }

    /// How many listeners are held with the proxy of the object `id`, if a
    /// proxy is held for it.
    pub fn listener_count(&self, id: u32) -> (count: Option<usize>)
        ensures
            count == if self@.proxies.contains_key(id) {
                Some(self@.proxies[id].1.len() as usize)
            } else {
                None
            },
            self@.wf() && self@.proxies.contains_key(id) ==> count == Some(2usize),
    {
        self.proxies.listener_count(id)
    }

    /// The number of proxies held.
    pub fn proxy_count(&self) -> (n: usize)
        ensures
            n == self@.proxies.dom().len(),
    {
        self.proxies.len()
    }

    /// Takes one event: moves to the next state and says what to show and
    /// what to do.
    pub fn handle(&mut self, event: Event<P, L>) -> (reaction: Reaction)
        ensures
            final(self)@ == old(self)@.next(event),
            reaction == old(self)@.reaction(event),
            old(self)@.wf() ==> final(self)@.wf(),
    {
        let silent = Reaction { notice: Notice::Silent, command: Command::Continue };
        match self.phase {
            Phase::Finished(_) => {
                return silent;
            },
            _ => {},
        }
        match event {
            Event::Connected => match self.phase {
                Phase::Connecting => {
                    self.phase = Phase::Connected;
                    Reaction { notice: Notice::Silent, command: Command::GetRegistry }
                },
                _ => silent,
            },
            Event::ConnectFailed => match self.phase {
                Phase::Connecting => {
                    self.phase = Phase::Finished(ExitStatus::StartupFailure);
                    Reaction {
                        notice: Notice::Error,
                        command: Command::Exit(ExitStatus::StartupFailure),
                    }
                },
                _ => silent,
            },
            Event::RegistryObtained => match self.phase {
                Phase::Connected => {
                    self.phase = Phase::Running;
                    Reaction { notice: Notice::Silent, command: Command::EnterLoop }
                },
                _ => silent,
            },
            Event::RegistryFailed => match self.phase {
                Phase::Connected => {
                    self.phase = Phase::Finished(ExitStatus::StartupFailure);
                    Reaction {
                        notice: Notice::Error,
                        command: Command::Exit(ExitStatus::StartupFailure),
                    }
                },
                _ => silent,
            },
            Event::CoreInfo => Reaction { notice: Notice::Event, command: Command::Continue },
            Event::CoreDone { id, seq } => silent,
            Event::CoreError { id, seq, res } => {
                if id == 0 && !self.stop_requested {
                    self.stop_requested = true;
                    Reaction { notice: Notice::Error, command: Command::StopLoop }
                } else {
                    Reaction { notice: Notice::Error, command: Command::Continue }
                }
            },
            Event::Appeared(descriptor) => match self.phase {
                Phase::Running => match descriptor.kind().handling() {
                    Handling::Bind(kind) => {
                        if self.proxies.contains(descriptor.id()) {
                            Reaction { notice: Notice::Error, command: Command::Continue }
                        } else {
                            let notice = match kind {
                                ProxyKind::Metadata => Notice::Event,
                                _ => Notice::Silent,
                            };
                            Reaction { notice, command: Command::Bind(kind) }
                        }
                    },
                    Handling::Reserved => silent,
                    Handling::Unrecognized => Reaction {
                        notice: Notice::Event,
                        command: Command::Continue,
                    },
                },
                _ => silent,
            },
            Event::Disappeared { id } => Reaction {
                notice: Notice::Event,
                command: Command::Continue,
            },
            Event::Bound { id, proxy, kind_listener, removed_listener } => {
                let mut listeners: Vec<L> = Vec::new();
                listeners.push(kind_listener);
                listeners.push(removed_listener);
                assert(listeners@ =~= seq![kind_listener, removed_listener]);
                match self.phase {
                    Phase::Running => match self.proxies.insert(id, proxy, listeners) {
                        Ok(_) => silent,
                        Err(_) => Reaction { notice: Notice::Error, command: Command::Continue },
                    },
                    _ => {
                        // Dropped as an entry is: the proxy, then its listeners.
                        let _unheld = (proxy, listeners);
                        silent
                    },
                }
            },
            Event::BindFailed { id } => Reaction {
                notice: Notice::Error,
                command: Command::Continue,
            },
            Event::Object { id, event } => match event {
                ObjectEvent::Info => Reaction { notice: Notice::Event, command: Command::Continue },
                ObjectEvent::Param => Reaction {
                    notice: Notice::Event,
                    command: Command::Continue,
                },
                ObjectEvent::Property => Reaction {
                    notice: Notice::Event,
                    command: Command::Answer(PROPERTY_ACCEPTED),
                },
                ObjectEvent::Malformed => Reaction {
                    notice: Notice::Error,
                    command: Command::Continue,
                },
            },
            Event::ProxyRemoved { id } => {
                match self.phase {
                    Phase::Running => {
                        self.proxies.remove(id);
                    },
                    _ => {},
                }
                silent
            },
            Event::Signal(signal) => {
                if self.stop_requested {
                    silent
                } else {
                    self.stop_requested = true;
                    Reaction { notice: Notice::Silent, command: Command::StopLoop }
                }
            },
            Event::LoopExited => match self.phase {
                Phase::Running => {
                    self.proxies.clear();
                    self.phase = Phase::Finished(ExitStatus::Success);
                    Reaction {
                        notice: Notice::Silent,
                        command: Command::Exit(ExitStatus::Success),
                    }
                },
                _ => silent,
            },
        }
    }

    /// Takes the events of `events`, first to last, and returns the answer to
    /// each.
    pub fn replay(&mut self, events: Vec<Event<P, L>>) -> (reactions: Vec<Reaction>)
        ensures
            final(self)@ == old(self)@.after(events@),
            reactions@ == old(self)@.reactions(events@),
            old(self)@.wf() ==> final(self)@.wf(),
    {
        let ghost start = self@;
        let ghost all = events@;
        let mut reactions: Vec<Reaction> = Vec::new();
        assert(all.take(0) =~= Seq::<Event<P, L>>::empty());
        for event in it: events
            invariant
                it.seq() == all,
                self@ == start.after(all.take(it.index())),
                reactions@ == start.reactions(all.take(it.index())),
                start.wf() ==> self@.wf(),
        {
            let ghost done = it.index();
            proof {
                lemma_after_one_more(start, all, done);
                lemma_reactions_one_more(start, all, done);
            }
            let reaction = self.handle(event);
            reactions.push(reaction);
        }
        assert(all.take(all.len() as int) =~= all);
        reactions
    }
}

/// Taking one more event of a sequence is taking the shorter prefix and
/// then that event.
pub proof fn lemma_after_one_more<P, L>(
    start: SessionView<P, L>,
    events: Seq<Event<P, L>>,
    done: int,
)
    requires
        0 <= done < events.len(),
    ensures
        start.after(events.take(done + 1)) == start.after(events.take(done)).next(events[done]),
{
    let longer = events.take(done + 1);
    assert(longer.drop_last() =~= events.take(done));
    assert(longer.last() == events[done]);
}

/// The answers to one more event of a sequence are the answers to the
/// shorter prefix and then the answer to that event.
pub proof fn lemma_reactions_one_more<P, L>(
    start: SessionView<P, L>,
    events: Seq<Event<P, L>>,
    done: int,
)
    requires
        0 <= done < events.len(),
    ensures
        start.reactions(events.take(done + 1)) == start.reactions(events.take(done)).push(
            start.after(events.take(done)).reaction(events[done]),
        ),
{
    let longer = events.take(done + 1);
    let shorter = events.take(done);
    assert forall|i: int| 0 <= i <= done implies #[trigger] longer.take(i) == events.take(i) by {
        assert(longer.take(i) =~= events.take(i));
    }
    assert forall|i: int| 0 <= i <= done implies #[trigger] shorter.take(i) == events.take(i) by {
        assert(shorter.take(i) =~= events.take(i));
    }
    assert(start.reactions(longer) =~= start.reactions(shorter).push(
        start.after(shorter).reaction(events[done]),
    ));
}

} // verus!
