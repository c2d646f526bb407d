//! The events of the transport worker, and the frames that they carry.

use vstd::prelude::*;
use super::reconcile::{handle_ap_message, spec_outputs, spec_reconciled};
use super::server_messages::{decode_frame, spec_text_matches, APServerMessage};
use super::{
    spec_output_views, ArchipelagoState, ConnectionErrorMessage, ConnectionStatus, ErrorView,
    OutputView, SessionOutput, SessionView, WsEvent,
};

verus! {

/// The state after the engine has taken `messages`, one after the other.
pub open spec fn spec_batch_state(s: SessionView, messages: Seq<APServerMessage>) -> SessionView
    decreases messages.len(),
{
    if messages.len() == 0 {
        s
    } else {
        spec_reconciled(spec_batch_state(s, messages.drop_last()), messages.last())
    }
}

/// What the application is to do after the engine has taken `messages`,
/// one after the other, where `uuids` are the identities drawn for them.
pub open spec fn spec_batch_outputs(
    s: SessionView,
    messages: Seq<APServerMessage>,
    uuids: Seq<Seq<char>>,
) -> Seq<OutputView>
    decreases messages.len(),
{
    if messages.len() == 0 {
        seq![]
    } else {
        spec_batch_outputs(s, messages.drop_last(), uuids.drop_last()) + spec_outputs(
            spec_batch_state(s, messages.drop_last()),
            messages.last(),
            uuids.last(),
        )
    }
}

/// Whether the engine, taking `messages` in the state `pre`, may end in
/// `post` with `outputs`: it does so for some choice of identities.
pub open spec fn spec_batch_step(
    pre: SessionView,
    messages: Seq<APServerMessage>,
    post: SessionView,
    outputs: Seq<OutputView>,
) -> bool {
    &&& post == spec_batch_state(pre, messages)
    &&& exists|uuids: Seq<Seq<char>>|
        uuids.len() == messages.len() && outputs == #[trigger] spec_batch_outputs(
            pre,
            messages,
            uuids,
        )
}

/// Takes the messages of one frame, in their order.
pub fn handle_batch(state: &mut ArchipelagoState, messages: Vec<APServerMessage>) -> (outputs: Vec<
    SessionOutput,
>)
    ensures
        spec_batch_step(old(state)@, messages@, final(state)@, spec_output_views(outputs@)),
{
    let ghost all = messages@;
    let ghost mut uuids: Seq<Seq<char>> = Seq::empty();
    let mut rest = messages;
    let mut outputs: Vec<SessionOutput> = Vec::new();
    let mut i: usize = 0;
    let n = rest.len();
    assert(spec_output_views(outputs@) =~= spec_batch_outputs(old(state)@, all.take(0), uuids));
    while i < n
        invariant
            i <= n,
            n == all.len(),
            rest@ == all.skip(i as int),
            uuids.len() == i,
            state@ == spec_batch_state(old(state)@, all.take(i as int)),
            spec_output_views(outputs@) == spec_batch_outputs(
                old(state)@,
                all.take(i as int),
                uuids,
            ),
        decreases n - i,
    {
        let ghost before = state@;
        let des = rest.remove(0);
        let mut more = handle_ap_message(state, des);
        proof {
            let uuid = choose|uuid: Seq<char>|
                spec_output_views(more@) == #[trigger] spec_outputs(before, des, uuid);
            assert(all.take(i + 1).drop_last() =~= all.take(i as int));
            assert(uuids.push(uuid).drop_last() =~= uuids);
            uuids = uuids.push(uuid);
        }
        outputs.append(&mut more);
        i += 1;
    }
    outputs
}

/// Whether the engine, taking `event` in the state `pre`, may end in
/// `post` with `outputs`.
pub open spec fn spec_event_step(
    pre: SessionView,
    event: WsEvent,
    post: SessionView,
    outputs: Seq<OutputView>,
) -> bool {
    match event {
        WsEvent::Connected { .. } => post == pre && outputs == Seq::<OutputView>::empty(),
        WsEvent::ConnectionError { error } => post == (SessionView {
            status: ConnectionStatus::Disconnected,
            ..pre
        }) && outputs == seq![OutputView::ConnectionError(ErrorView::ConnectionFailed(error@))],
        WsEvent::Disconnected { .. } => post == (SessionView {
            status: ConnectionStatus::Disconnected,
            ..pre
        }) && outputs == Seq::<OutputView>::empty(),
        WsEvent::TextMessage(text) => if exists|messages: Seq<APServerMessage>|
            spec_text_matches(text@, messages) {
            exists|messages: Seq<APServerMessage>| #[trigger]
                spec_text_matches(text@, messages) && spec_batch_step(
                    pre,
                    messages,
                    post,
                    outputs,
                )
        } else {
            post == pre && outputs == Seq::<OutputView>::empty()
        },
    }
}

/// Takes one event of the transport worker. A frame that carries no
/// messages is dropped and leaves everything as it is.
pub fn handle_ws_event(state: &mut ArchipelagoState, event: WsEvent) -> (outputs: Vec<SessionOutput>)
    ensures
        spec_event_step(old(state)@, event, final(state)@, spec_output_views(outputs@)),
{
    match event {
        WsEvent::Connected { .. } => {
            let outputs: Vec<SessionOutput> = Vec::new();
            assert(spec_output_views(outputs@) =~= Seq::<OutputView>::empty());
            outputs
        },
        WsEvent::ConnectionError { error } => {
            state.status = ConnectionStatus::Disconnected;
            let mut outputs: Vec<SessionOutput> = Vec::new();
            outputs.push(SessionOutput::ConnectionError(ConnectionErrorMessage::ConnectionFailed(error)));
            assert(spec_output_views(outputs@) =~= seq![
                OutputView::ConnectionError(ErrorView::ConnectionFailed(error@)),
            ]);
            outputs
        },
        WsEvent::Disconnected { .. } => {
            state.status = ConnectionStatus::Disconnected;
            let outputs: Vec<SessionOutput> = Vec::new();
            assert(spec_output_views(outputs@) =~= Seq::<OutputView>::empty());
            outputs
        },
        WsEvent::TextMessage(text) => match decode_frame(text.as_str()) {
            Some(messages) => handle_batch(state, messages),
            None => {
                let outputs: Vec<SessionOutput> = Vec::new();
                assert(spec_output_views(outputs@) =~= Seq::<OutputView>::empty());
                outputs
            },
        },
    }
}

/// Whether `states` and `parts` show how the engine, taking `events` one
/// after the other in the state `pre`, ends in `post` with `outputs`:
/// `states` holds the state before each event and the last state, `parts`
/// the outputs of each event.
pub open spec fn spec_poll_trace(
    pre: SessionView,
    events: Seq<WsEvent>,
    post: SessionView,
    outputs: Seq<OutputView>,
    states: Seq<SessionView>,
    parts: Seq<Seq<OutputView>>,
) -> bool {
    &&& states.len() == events.len() + 1
    &&& parts.len() == events.len()
    &&& states[0] == pre
    &&& states.last() == post
    &&& forall|i: int|
        0 <= i < events.len() ==> spec_event_step(
            states[i],
            #[trigger] events[i],
            states[i + 1],
            parts[i],
        )
    &&& outputs == parts.flatten_alt()
}

/// Whether the engine, taking `events` one after the other in the state
/// `pre`, may end in `post` with `outputs`.
pub open spec fn spec_poll(
    pre: SessionView,
    events: Seq<WsEvent>,
    post: SessionView,
    outputs: Seq<OutputView>,
) -> bool {
    exists|states: Seq<SessionView>, parts: Seq<Seq<OutputView>>| #[trigger]
        spec_poll_trace(pre, events, post, outputs, states, parts)
}

/// Takes the events that the transport worker has raised since the last
/// call, in the order in which it raised them.
pub fn poll_websocket(state: &mut ArchipelagoState, events: Vec<WsEvent>) -> (outputs: Vec<
    SessionOutput,
>)
    ensures
        spec_poll(old(state)@, events@, final(state)@, spec_output_views(outputs@)),
{
    let ghost all = events@;
    let ghost mut states: Seq<SessionView> = seq![state@];
    let ghost mut parts: Seq<Seq<OutputView>> = Seq::empty();
    let mut rest = events;
    let mut outputs: Vec<SessionOutput> = Vec::new();
    let mut i: usize = 0;
    let n = rest.len();
    assert(spec_output_views(outputs@) =~= parts.flatten_alt());
    while i < n
        invariant
            i <= n,
            n == all.len(),
            rest@ == all.skip(i as int),
            spec_poll_trace(
                old(state)@,
                all.take(i as int),
                state@,
                spec_output_views(outputs@),
                states,
                parts,
            ),
        decreases n - i,
    {
        let ghost shown = spec_output_views(outputs@);
        let ghost parts_before = parts;
        let event = rest.remove(0);
        let mut more = handle_ws_event(state, event);
        let ghost last = spec_output_views(more@);
        outputs.append(&mut more);
        proof {
            assert(spec_output_views(outputs@) =~= shown + last);
            states = states.push(state@);
            parts = parts.push(last);
            assert(parts.drop_last() =~= parts_before);
        }
        i += 1;
    }
    outputs
}

} // verus!
