//! What holds of every session, whatever events it is handed.

use crate::object::ObjectDescriptor;
use crate::session::{
    Command, ErrorClass, Event, ExitStatus, Notice, Phase, Reaction, SessionView,
};
use vstd::prelude::*;

verus! {

/// Whether `event` reports that a proxy was bound to the object `id`.
pub open spec fn binds<P, L>(event: Event<P, L>, id: u32) -> bool {
    event matches Event::Bound { id: bound, .. } && bound == id
}

/// Whether `event` reports that the proxy of the object `id` was removed.
pub open spec fn removes<P, L>(event: Event<P, L>, id: u32) -> bool {
    event matches Event::ProxyRemoved { id: removed } && removed == id
}

/// Whether none of `events` reports the removal of the proxy of `id`.
pub open spec fn never_removes<P, L>(events: Seq<Event<P, L>>, id: u32) -> bool {
    forall|j: int| 0 <= j < events.len() ==> !removes(#[trigger] events[j], id)
}

/// Whether `events` report a proxy bound to `id` and, after that, no
/// removal of it.
pub open spec fn binds_and_keeps<P, L>(events: Seq<Event<P, L>>, id: u32) -> bool {
    exists|i: int|
        0 <= i < events.len() && binds(#[trigger] events[i], id) && never_removes(
            events.skip(i + 1),
            id,
        )
}

/// Whether the event loop returns nowhere in `events`.
pub open spec fn loop_goes_on<P, L>(events: Seq<Event<P, L>>) -> bool {
    forall|j: int| 0 <= j < events.len() ==> !(#[trigger] events[j] is LoopExited)
}

/// How many of `reactions` ask the event loop to stop.
pub open spec fn stop_requests(reactions: Seq<Reaction>) -> nat
    decreases reactions.len(),
{
    if reactions.len() == 0 {
        0
    } else {
        stop_requests(reactions.drop_last()) + if reactions.last().command == Command::StopLoop {
            1nat
        } else {
            0nat
        }
    }
}

/// A well-formed session stays well-formed, one event or many.
pub proof fn law_well_formed_forever<P, L>(start: SessionView<P, L>, events: Seq<Event<P, L>>)
    requires
        start.wf(),
    ensures
        start.after(events).wf(),
        forall|event: Event<P, L>| #[trigger] start.next(event).wf(),
    decreases events.len(),
{
    assert forall|event: Event<P, L>| #[trigger] start.next(event).wf() by {
        lemma_next_well_formed(start, event);
    }
    if events.len() > 0 {
        law_well_formed_forever(start, events.drop_last());
        lemma_next_well_formed(start.after(events.drop_last()), events.last());
    }
}

proof fn lemma_next_well_formed<P, L>(state: SessionView<P, L>, event: Event<P, L>)
    requires
        state.wf(),
    ensures
        state.next(event).wf(),
{
    let after = state.next(event);
    if after.phase != Phase::Running {
        assert(after.proxies =~= Map::<u32, (P, Seq<L>)>::empty());
    }
}

/// While the session runs and the loop does not return, the session holds
/// a proxy for exactly those ids for which a proxy was bound and not removed
/// since: those it held at the start and never saw removed, and those that
/// the events bound and did not remove afterwards.
pub proof fn law_held_ids_after_replay<P, L>(
    start: SessionView<P, L>,
    events: Seq<Event<P, L>>,
    id: u32,
)
    requires
        start.phase == Phase::Running,
        loop_goes_on(events),
    ensures
        start.after(events).phase == Phase::Running,
        start.after(events).proxies.contains_key(id) <==> (start.proxies.contains_key(id)
            && never_removes(events, id)) || binds_and_keeps(events, id),
    decreases events.len(),
{
    if events.len() > 0 {
        let earlier = events.drop_last();
        let last = events.last();
        let n = earlier.len() as int;
        law_held_ids_after_replay(start, earlier, id);
        // removals: the longer sequence has none iff the shorter has none
        // and the last event is none
        if never_removes(events, id) {
            assert forall|j: int| 0 <= j < n implies !removes(#[trigger] earlier[j], id) by {
                assert(earlier[j] == events[j]);
            }
            assert(!removes(events[n], id));
        }
        if never_removes(earlier, id) && !removes(last, id) {
            assert forall|j: int| 0 <= j < events.len() implies !removes(
                #[trigger] events[j],
                id,
            ) by {
                if j < n {
                    assert(events[j] == earlier[j]);
                }
            }
        }
        // bindings: one that is kept in the shorter sequence is kept in the
        // longer unless the last event removes it, and the last event may bind
        if binds_and_keeps(earlier, id) && !removes(last, id) {
            let i = choose|i: int|
                0 <= i < earlier.len() && binds(#[trigger] earlier[i], id) && never_removes(
                    earlier.skip(i + 1),
                    id,
                );
            assert(events[i] == earlier[i]);
            assert forall|j: int| 0 <= j < events.skip(i + 1).len() implies !removes(
                #[trigger] events.skip(i + 1)[j],
                id,
            ) by {
                if i + 1 + j < n {
                    assert(events.skip(i + 1)[j] == earlier.skip(i + 1)[j]);
                }
            }
        }
        if binds(last, id) {
            assert(binds(events[n], id) && never_removes(events.skip(n + 1), id));
        }
        if binds_and_keeps(events, id) {
            let i = choose|i: int|
                0 <= i < events.len() && binds(#[trigger] events[i], id) && never_removes(
                    events.skip(i + 1),
                    id,
                );
            if i < n {
                assert(earlier[i] == events[i]);
                assert(events.skip(i + 1)[n - i - 1] == last);
                assert forall|j: int| 0 <= j < earlier.skip(i + 1).len() implies !removes(
                    #[trigger] earlier.skip(i + 1)[j],
                    id,
                ) by {
                    assert(earlier.skip(i + 1)[j] == events.skip(i + 1)[j]);
                }
            }
        }
    }
}

/// From a running session that holds nothing, the ids held after `events`
/// are exactly those that were bound and not removed afterwards.
pub proof fn law_held_ids_from_nothing<P, L>(start: SessionView<P, L>, events: Seq<Event<P, L>>)
    requires
        start.phase == Phase::Running,
        start.proxies == Map::<u32, (P, Seq<L>)>::empty(),
        loop_goes_on(events),
    ensures
        start.after(events).proxies.dom() == Set::new(|id: u32| binds_and_keeps(events, id)),
{
    assert forall|id: u32|
        start.after(events).proxies.dom().contains(id) <==> binds_and_keeps(events, id) by {
        law_held_ids_after_replay(start, events, id);
    }
    assert(start.after(events).proxies.dom() =~= Set::new(
        |id: u32| binds_and_keeps(events, id),
    ));
}

/// The removal of a proxy that is not held changes nothing, and a second
/// removal changes nothing after the first; neither is answered with
/// anything to show or to do.
pub proof fn law_removal_is_idempotent<P, L>(state: SessionView<P, L>, id: u32)
    ensures
        !state.proxies.contains_key(id) ==> state.next(Event::ProxyRemoved { id }) == state,
        state.next(Event::ProxyRemoved { id }).next(Event::ProxyRemoved { id }) == state.next(
            Event::ProxyRemoved { id },
        ),
        state.reaction(Event::ProxyRemoved { id }) == (Reaction {
            notice: Notice::Silent,
            command: Command::Continue,
        }),
{
    let removal = Event::<P, L>::ProxyRemoved { id };
    let once = state.next(removal);
    assert(once.next(removal).proxies =~= once.proxies);
    if !state.proxies.contains_key(id) {
        assert(once.proxies =~= state.proxies);
    }
}

/// A proxy that is held stays the one it is until it is removed or the
/// loop returns: no later binding for the same id replaces it.
pub proof fn law_held_proxy_is_kept<P, L>(
    start: SessionView<P, L>,
    events: Seq<Event<P, L>>,
    id: u32,
)
    requires
        start.proxies.contains_key(id),
        never_removes(events, id),
        loop_goes_on(events),
    ensures
        start.after(events).proxies.contains_key(id),
        start.after(events).proxies[id] == start.proxies[id],
    decreases events.len(),
{
    if events.len() > 0 {
        let earlier = events.drop_last();
        let n = earlier.len() as int;
        assert forall|j: int| 0 <= j < n implies !removes(#[trigger] earlier[j], id)
            && !(earlier[j] is LoopExited) by {
            assert(earlier[j] == events[j]);
        }
        law_held_proxy_is_kept(start, earlier, id);
        assert(!removes(events[n], id));
    }
}

/// A binding for an id that is held is refused: the state stays as it is
/// and the refusal is shown as an error. An appearance of a live id asks for
/// no binding.
pub proof fn law_live_id_is_not_rebound<P, L>(
    state: SessionView<P, L>,
    descriptor: ObjectDescriptor,
    proxy: P,
    kind_listener: L,
    removed_listener: L,
)
    requires
        state.proxies.contains_key(descriptor.spec_id()),
    ensures
        state.next(Event::Appeared(descriptor)) == state,
        !(state.reaction(Event::<P, L>::Appeared(descriptor)).command is Bind),
        state.phase == Phase::Running && descriptor.spec_kind().is_bound() ==> state.reaction(
            Event::<P, L>::Appeared(descriptor),
        ) == (Reaction { notice: Notice::Error, command: Command::Continue }),
        state.next(
            Event::Bound { id: descriptor.spec_id(), proxy, kind_listener, removed_listener },
        ) == state,
        state.phase == Phase::Running ==> state.reaction(
            Event::Bound { id: descriptor.spec_id(), proxy, kind_listener, removed_listener },
        ) == (Reaction { notice: Notice::Error, command: Command::Continue }),
{
}

/// Once the loop has returned, nothing is held, the session leaves with
/// success, and whatever arrives later, the late removal of a proxy
/// included, changes nothing and is answered with nothing to show or to do.
pub proof fn law_quiet_after_the_loop<P, L>(state: SessionView<P, L>, late: Event<P, L>)
    requires
        state.phase == Phase::Running,
    ensures
        state.next(Event::LoopExited).proxies == Map::<u32, (P, Seq<L>)>::empty(),
        state.next(Event::LoopExited).phase == Phase::Finished(ExitStatus::Success),
        state.reaction(Event::LoopExited).command == Command::Exit(ExitStatus::Success),
        state.next(Event::LoopExited).next(late) == state.next(Event::LoopExited),
        state.next(Event::LoopExited).reaction(late) == (Reaction {
            notice: Notice::Silent,
            command: Command::Continue,
        }),
{
}

/// A session that is over stays as it is: whatever arrives changes nothing
/// and is answered with nothing to show or to do.
pub proof fn law_finished_is_final<P, L>(state: SessionView<P, L>, event: Event<P, L>)
    requires
        state.phase is Finished,
    ensures
        state.next(event) == state,
        state.reaction(event) == (Reaction { notice: Notice::Silent, command: Command::Continue }),
{
}

/// The session starts in order: the registry is asked for only when the
/// connection is there, the loop is entered only when the registry is, and
/// the session leaves with success only from the running loop.
pub proof fn law_startup_in_order<P, L>(state: SessionView<P, L>, event: Event<P, L>)
    ensures
        state.reaction(event).command == Command::GetRegistry <==> state.phase == Phase::Connecting
            && event is Connected,
        state.reaction(event).command == Command::EnterLoop <==> state.phase == Phase::Connected
            && event is RegistryObtained,
        state.reaction(event).command == Command::Exit(ExitStatus::Success) <==> state.phase
            == Phase::Running && event is LoopExited,
        state.next(event).phase == Phase::Running ==> state.phase == Phase::Running || (state.phase
            == Phase::Connected && event is RegistryObtained),
{
}

/// An object of a kind to which no proxy is bound changes nothing when it
/// appears, asks for no binding and is no error; a binding that fails
/// changes nothing either and lets the session go on.
pub proof fn law_unbound_kinds_are_skipped<P, L>(
    state: SessionView<P, L>,
    descriptor: ObjectDescriptor,
)
    requires
        !descriptor.spec_kind().is_bound(),
    ensures
        state.next(Event::Appeared(descriptor)) == state,
        state.reaction(Event::<P, L>::Appeared(descriptor)).command == Command::Continue,
        state.reaction(Event::<P, L>::Appeared(descriptor)).notice != Notice::Error,
        state.next(Event::BindFailed { id: descriptor.spec_id() }) == state,
        state.reaction(Event::<P, L>::BindFailed { id: descriptor.spec_id() }).command
            == Command::Continue,
{
}

/// Only a failure at startup, an error of the connection itself, a signal
/// and the return of the loop change what the session does next. Every
/// other error is shown and stays where it arose: the state is as before
/// and the session goes on.
pub proof fn law_errors_stay_in_their_callback<P, L>(state: SessionView<P, L>, event: Event<P, L>)
    ensures
        state.reaction(event).command is StopLoop || state.reaction(event).command is Exit ==> {
            ||| event is Signal
            ||| event is LoopExited
            ||| event.spec_error_class() == Some(ErrorClass::StartupFailure)
            ||| event.spec_error_class() == Some(ErrorClass::SessionFatal)
        },
        event.spec_error_class() matches Some(class) && !class.spec_crosses_loop_boundary() ==> {
            &&& state.next(event) == state
            &&& state.reaction(event).command == Command::Continue
            &&& !(state.phase is Finished) ==> state.reaction(event).notice == Notice::Error
        },
        event.spec_error_class() == Some(ErrorClass::SessionFatal) && !(state.phase is Finished)
            ==> state.reaction(event).notice == Notice::Error && state.next(
            event,
        ).stop_requested,
        state.reaction(event).command == Command::Exit(ExitStatus::StartupFailure)
            <==> event.spec_error_class() == Some(ErrorClass::StartupFailure) && state.next(
            event,
        ).phase == Phase::Finished(ExitStatus::StartupFailure) && !(state.phase is Finished),
{
}

/// The loop is asked to stop when the request is first made and never
/// again: over any events, the requests to stop number one if the session
/// came to want the stop during them, and none otherwise.
pub proof fn law_stop_is_asked_once<P, L>(start: SessionView<P, L>, events: Seq<Event<P, L>>)
    ensures
        stop_requests(start.reactions(events)) == if start.after(events).stop_requested
            && !start.stop_requested {
            1nat
        } else {
            0nat
        },
        start.stop_requested ==> start.after(events).stop_requested,
    decreases events.len(),
{
    if events.len() > 0 {
        let earlier = events.drop_last();
        let n = earlier.len() as int;
        law_stop_is_asked_once(start, earlier);
        assert(earlier =~= events.take(n));
        assert(events =~= events.take(n + 1));
        crate::session::lemma_reactions_one_more(start, events, n);
        assert(start.reactions(events).drop_last() =~= start.reactions(earlier));
    }
}

} // verus!
