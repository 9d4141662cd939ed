//! The monitor loop as a state machine.
//!
//! ```text
//! Initializing -> Listening -> Decoding -> Classifying -> Persisting -> Listening
//! ```
//!
//! The machine decides; the caller does what needs the world. `next_action`
//! names what a state waits for, the caller does it and hands what came of it
//! to `step`. A failure that concerns one packet sends the machine back to
//! `Listening` with a notice; only the loss of the channel ends it.

use crate::arp::{extract, extracted, ArpMessage, OPERATION_REPLY, OPERATION_REQUEST};
use crate::capture::ReceiveError;
use crate::event::{classified, classify, ArpEvent, UnsupportedOperation};
use crate::frame::{ethertype_of, DecodeError, ETHERNET_HEADER_LEN, ETHERTYPE_ARP};
use crate::schema::Table;
use crate::storage::{
    lemma_identifiers_rise, lemma_record_appends_one_row, lemma_tables_are_append_only, Storage,
    Tables,
};
use crate::timestamp::Timestamp;
use vstd::prelude::*;
use vstd::slice::slice_to_vec;

verus! {

/// Where the monitor stands.
#[derive(Debug, PartialEq, Eq)]
pub enum MonitorState {
    /// The interface is being resolved, the channel opened and the schema
    /// ensured.
    Initializing,
    /// The monitor waits for a frame.
    Listening,
    /// A frame was received and is to be decoded.
    Decoding { frame: Vec<u8>, received_at: Timestamp },
    /// An ARP message was decoded and is to be classified.
    Classifying { message: ArpMessage, received_at: Timestamp },
    /// An event was classified and is to be stored.
    Persisting { event: ArpEvent },
    /// The channel is lost; the monitor has ended.
    Terminated,
}

/// What a `MonitorState` holds.
pub enum StateView {
    Initializing,
    Listening,
    Decoding { frame: Seq<u8>, received_at: Timestamp },
    Classifying { message: ArpMessage, received_at: Timestamp },
    Persisting { event: ArpEvent },
    Terminated,
}

impl View for MonitorState {
    type V = StateView;

    open spec fn view(&self) -> StateView {
        match *self {
            MonitorState::Initializing => StateView::Initializing,
            MonitorState::Listening => StateView::Listening,
            MonitorState::Decoding { frame, received_at } => StateView::Decoding {
                frame: frame@,
                received_at,
            },
            MonitorState::Classifying { message, received_at } => StateView::Classifying {
                message,
                received_at,
            },
            MonitorState::Persisting { event } => StateView::Persisting { event },
            MonitorState::Terminated => StateView::Terminated,
        }
    }
}

/// What happened since the last step.
#[derive(Debug, PartialEq, Eq)]
pub enum MonitorInput {
    /// The channel is open and the schema ensured.
    Opened,
    /// The interface was not found, the channel could not be opened, or the
    /// schema not ensured. The failure itself is reported by whoever met it.
    OpenFailed,
    /// A frame arrived at `received_at`.
    FrameReceived { frame: Vec<u8>, received_at: Timestamp },
    /// A receive call failed, for the time being or for good.
    ReceiveFailed(ReceiveError),
    /// Nothing: the state asked for no outside work.
    Proceed,
    /// The event was stored.
    Stored,
    /// The event could not be stored.
    StoreFailed,
}

/// What a `MonitorInput` holds.
pub enum InputView {
    Opened,
    OpenFailed,
    FrameReceived { frame: Seq<u8>, received_at: Timestamp },
    ReceiveFailed(ReceiveError),
    Proceed,
    Stored,
    StoreFailed,
}

impl View for MonitorInput {
    type V = InputView;

    open spec fn view(&self) -> InputView {
        match *self {
            MonitorInput::Opened => InputView::Opened,
            MonitorInput::FrameReceived { frame, received_at } => InputView::FrameReceived {
                frame: frame@,
                received_at,
            },
            MonitorInput::OpenFailed => InputView::OpenFailed,
            MonitorInput::ReceiveFailed(error) => InputView::ReceiveFailed(error),
            MonitorInput::Proceed => InputView::Proceed,
            MonitorInput::Stored => InputView::Stored,
            MonitorInput::StoreFailed => InputView::StoreFailed,
        }
    }
}

/// What a state waits for.
#[derive(Clone, Copy, Debug, PartialEq, Eq, Structural)]
pub enum MonitorAction {
    /// Open the channel and ensure the schema, then report `Opened` or
    /// `OpenFailed`.
    Open,
    /// Receive a frame, then report `FrameReceived` or `ReceiveFailed`.
    Receive,
    /// Nothing outside: report `Proceed`.
    Proceed,
    /// Store the event, then report `Stored` or `StoreFailed`.
    Persist(ArpEvent),
    /// Stop: the monitor has ended.
    Stop,
}

/// Something to tell the operator. Only `ChannelLost` comes with the end of
/// the monitor.
#[derive(Clone, Copy, Debug, PartialEq, Eq, Structural)]
pub enum Notice {
    /// The packet could not be decoded and was dropped.
    Undecodable(DecodeError),
    /// The ARP message has an operation that is not recorded.
    Unsupported(UnsupportedOperation),
    /// A receive call failed; the next one follows.
    ReceiveFailed,
    /// The event could not be stored and was dropped.
    StoreFailed,
    /// A receive call found the channel closed or its device gone: the
    /// monitor ends.
    ChannelLost,
}

/// A transition: the state that follows, and what there is to tell.
pub struct Transition {
    pub next: StateView,
    pub notice: Option<Notice>,
}

/// The action that `state` waits for.
pub open spec fn awaited(state: StateView) -> MonitorAction {
    match state {
        StateView::Initializing => MonitorAction::Open,
        StateView::Listening => MonitorAction::Receive,
        StateView::Decoding { .. } => MonitorAction::Proceed,
        StateView::Classifying { .. } => MonitorAction::Proceed,
        StateView::Persisting { event } => MonitorAction::Persist(event),
        StateView::Terminated => MonitorAction::Stop,
    }
}

/// Where decoding `frame` leads: back to `Listening` where the frame is
/// malformed or carries no ARP, else on to `Classifying`.
pub open spec fn after_decoding(frame: Seq<u8>, received_at: Timestamp) -> Transition {
    match extracted(frame) {
        Err(error) => Transition {
            next: StateView::Listening,
            notice: Some(Notice::Undecodable(error)),
        },
        Ok(None) => Transition { next: StateView::Listening, notice: None },
        Ok(Some(message)) => Transition {
            next: StateView::Classifying { message, received_at },
            notice: None,
        },
    }
}

/// Where classifying `message` leads: back to `Listening` where its
/// operation is unsupported, else on to `Persisting`.
pub open spec fn after_classifying(message: ArpMessage, received_at: Timestamp) -> Transition {
    match classified(message, received_at) {
        Err(unsupported) => Transition {
            next: StateView::Listening,
            notice: Some(Notice::Unsupported(unsupported)),
        },
        Ok(event) => Transition { next: StateView::Persisting { event }, notice: None },
    }
}

/// The transition that `input` causes in `state`. An input that the state
/// does not wait for changes nothing.
pub open spec fn transition(state: StateView, input: InputView) -> Transition {
    match state {
        StateView::Initializing => match input {
            InputView::Opened => Transition { next: StateView::Listening, notice: None },
            InputView::OpenFailed => Transition { next: StateView::Terminated, notice: None },
            _ => Transition { next: state, notice: None },
        },
        StateView::Listening => match input {
            InputView::FrameReceived { frame, received_at } => Transition {
                next: StateView::Decoding { frame, received_at },
                notice: None,
            },
            InputView::ReceiveFailed(ReceiveError::Transient) => Transition {
                next: StateView::Listening,
                notice: Some(Notice::ReceiveFailed),
            },
            InputView::ReceiveFailed(ReceiveError::ChannelLost) => Transition {
                next: StateView::Terminated,
                notice: Some(Notice::ChannelLost),
            },
            _ => Transition { next: state, notice: None },
        },
        StateView::Decoding { frame, received_at } => match input {
            InputView::Proceed => after_decoding(frame, received_at),
            _ => Transition { next: state, notice: None },
        },
        StateView::Classifying { message, received_at } => match input {
            InputView::Proceed => after_classifying(message, received_at),
            _ => Transition { next: state, notice: None },
        },
        StateView::Persisting { .. } => match input {
            InputView::Stored => Transition { next: StateView::Listening, notice: None },
            InputView::StoreFailed => Transition {
                next: StateView::Listening,
                notice: Some(Notice::StoreFailed),
            },
            _ => Transition { next: state, notice: None },
        },
        StateView::Terminated => Transition { next: state, notice: None },
    }
}

/// The event that a frame received at `received_at` is recorded as, if it is
/// recorded at all: the frame holds the Ethernet header, its ethertype is
/// that of ARP, its payload is an IPv4-over-Ethernet ARP packet, and the
/// operation is a request or a reply.
pub open spec fn event_of(frame: Seq<u8>, received_at: Timestamp) -> Option<ArpEvent> {
    match extracted(frame) {
        Ok(Some(message)) => match classified(message, received_at) {
            Ok(event) => Some(event),
            Err(_) => None,
        },
        _ => None,
    }
}

/// What there is to tell of a frame that is not recorded; nothing of a frame
/// that carries no ARP.
pub open spec fn notice_of(frame: Seq<u8>, received_at: Timestamp) -> Option<Notice> {
    match extracted(frame) {
        Err(error) => Some(Notice::Undecodable(error)),
        Ok(None) => None,
        Ok(Some(message)) => match classified(message, received_at) {
            Ok(_) => None,
            Err(unsupported) => Some(Notice::Unsupported(unsupported)),
        },
    }
}

/// The action that `state` waits for.
pub fn next_action(state: &MonitorState) -> (action: MonitorAction)
    ensures
        action == awaited(state@),
{
    match state {
        MonitorState::Initializing => MonitorAction::Open,
        MonitorState::Listening => MonitorAction::Receive,
        MonitorState::Decoding { .. } => MonitorAction::Proceed,
        MonitorState::Classifying { .. } => MonitorAction::Proceed,
        MonitorState::Persisting { event } => MonitorAction::Persist(*event),
        MonitorState::Terminated => MonitorAction::Stop,
    }
}

/// Takes one step: the state that `input` leads to from `state`, and what
/// there is to tell the operator.
pub fn step(state: MonitorState, input: MonitorInput) -> (taken: (MonitorState, Option<Notice>))
    ensures
        taken.0@ == transition(state@, input@).next,
        taken.1 == transition(state@, input@).notice,
{
    match state {
        MonitorState::Initializing => match input {
            MonitorInput::Opened => (MonitorState::Listening, None),
            MonitorInput::OpenFailed => (MonitorState::Terminated, None),
            _ => (MonitorState::Initializing, None),
        },
        MonitorState::Listening => match input {
            MonitorInput::FrameReceived { frame, received_at } => (
                MonitorState::Decoding { frame, received_at },
                None,
            ),
            MonitorInput::ReceiveFailed(ReceiveError::Transient) => (
                MonitorState::Listening,
                Some(Notice::ReceiveFailed),
            ),
            MonitorInput::ReceiveFailed(ReceiveError::ChannelLost) => (
                MonitorState::Terminated,
                Some(Notice::ChannelLost),
            ),
            _ => (MonitorState::Listening, None),
        },
        MonitorState::Decoding { frame, received_at } => match input {
            MonitorInput::Proceed => match extract(frame.as_slice()) {
                Err(error) => (MonitorState::Listening, Some(Notice::Undecodable(error))),
                Ok(None) => (MonitorState::Listening, None),
                Ok(Some(message)) => (MonitorState::Classifying { message, received_at }, None),
            },
            _ => (MonitorState::Decoding { frame, received_at }, None),
        },
        MonitorState::Classifying { message, received_at } => match input {
            MonitorInput::Proceed => match classify(&message, received_at) {
                Err(unsupported) => (
                    MonitorState::Listening,
                    Some(Notice::Unsupported(unsupported)),
                ),
                Ok(event) => (MonitorState::Persisting { event }, None),
            },
            _ => (MonitorState::Classifying { message, received_at }, None),
        },
        MonitorState::Persisting { event } => match input {
            MonitorInput::Stored => (MonitorState::Listening, None),
            MonitorInput::StoreFailed => (MonitorState::Listening, Some(Notice::StoreFailed)),
            _ => (MonitorState::Persisting { event }, None),
        },
        MonitorState::Terminated => (MonitorState::Terminated, None),
    }
}

/// The steps that `state` can take without outside work: two from
/// `Decoding`, one from `Classifying`, none from any other state.
pub open spec fn inner_steps(state: StateView) -> nat {
    match state {
        StateView::Decoding { .. } => 2,
        StateView::Classifying { .. } => 1,
        _ => 0,
    }
}

/// Where the machine comes to rest from `state` when it takes every step
/// that needs no outside work: a frame that `event_of` gives an event for
/// ends in `Persisting` with that event, any other in `Listening`.
pub open spec fn settled(state: StateView) -> Transition {
    match state {
        StateView::Decoding { frame, received_at } => match event_of(frame, received_at) {
            Some(event) => Transition { next: StateView::Persisting { event }, notice: None },
            None => Transition {
                next: StateView::Listening,
                notice: notice_of(frame, received_at),
            },
        },
        StateView::Classifying { message, received_at } => after_classifying(
            message,
            received_at,
        ),
        _ => Transition { next: state, notice: None },
    }
}

/// Takes every step that needs no outside work. The state that comes back
/// waits for the world: it is neither `Decoding` nor `Classifying`.
pub fn settle(state: MonitorState) -> (rest: (MonitorState, Option<Notice>))
    ensures
        rest.0@ == settled(state@).next,
        rest.1 == settled(state@).notice,
        inner_steps(rest.0@) == 0,
{
    let ghost start = state@;
    let mut state = state;
    let mut notice: Option<Notice> = None;
    while next_action(&state) == MonitorAction::Proceed
        invariant
            settled(state@).next == settled(start).next,
            notice is None ==> settled(state@).notice == settled(start).notice,
            notice is Some ==> notice == settled(start).notice && inner_steps(state@) == 0,
        decreases inner_steps(state@),
    {
        let (next, told) = step(state, MonitorInput::Proceed);
        state = next;
        notice = told;
    }
    (state, notice)
}

/// What feeding `input` to the monitor in `state` comes to when every action
/// that follows and needs no capture channel is carried out against
/// `tables`: the state in which the monitor rests, what there is to tell,
/// and the tables afterwards.
pub open spec fn driven(state: StateView, input: InputView, tables: Tables) -> (
    Transition,
    Tables,
) {
    let first = transition(state, input);
    let rest = settled(first.next);
    match rest.next {
        StateView::Persisting { event } => if tables.refusal(event) is Some {
            (Transition { next: StateView::Listening, notice: Some(Notice::StoreFailed) }, tables)
        } else {
            (Transition { next: StateView::Listening, notice: None }, tables.recorded(event))
        },
        _ => (
            Transition {
                next: rest.next,
                notice: if first.notice is Some {
                    first.notice
                } else {
                    rest.notice
                },
            },
            tables,
        ),
    }
}

/// Feeds `input` to the monitor and carries out, against `storage`, every
/// action that follows and needs no capture channel: decoding, classifying
/// and storing. The state that comes back waits for the channel or has
/// ended.
pub fn drive(state: MonitorState, input: MonitorInput, storage: &mut Storage) -> (rest: (
    MonitorState,
    Option<Notice>,
))
    ensures
        rest.0@ == driven(state@, input@, old(storage)@).0.next,
        rest.1 == driven(state@, input@, old(storage)@).0.notice,
        final(storage)@ == driven(state@, input@, old(storage)@).1,
        rest.0@ is Initializing || rest.0@ is Listening || rest.0@ is Terminated,
{
    let (first, told_first) = step(state, input);
    let (settled, told_settled) = settle(first);
    match next_action(&settled) {
        MonitorAction::Persist(event) => {
            let stored = match storage.record(&event) {
                Ok(_) => MonitorInput::Stored,
                Err(_) => MonitorInput::StoreFailed,
            };
            step(settled, stored)
        },
        _ => {
            let told = if told_first.is_some() {
                told_first
            } else {
                told_settled
            };
            (settled, told)
        },
    }
}

/// `settled` is what repeated steps come to: from `Decoding` one step, and
/// one more where that step leads to `Classifying`; from `Classifying` one
/// step.
pub proof fn lemma_settled_by_steps(state: StateView)
    ensures
        inner_steps(state) == 0 ==> settled(state).next == state,
        state is Classifying ==> settled(state) == transition(state, InputView::Proceed),
        state is Decoding ==> settled(state) == ({
            let first = transition(state, InputView::Proceed);
            if first.next is Classifying {
                transition(first.next, InputView::Proceed)
            } else {
                first
            }
        }),
        inner_steps(settled(state).next) == 0,
{
}

/// A frame that was received leads to exactly one row, that of its event,
/// where it has one, and to no row where it has none; and afterwards the
/// monitor listens again, whether or not the row could be stored.
pub proof fn lemma_frame_is_recorded_as_its_event(
    frame: Seq<u8>,
    received_at: Timestamp,
    tables: Tables,
)
    ensures
        ({
            let input = InputView::FrameReceived { frame, received_at };
            let (rest, after) = driven(StateView::Listening, input, tables);
            &&& rest.next == StateView::Listening
            &&& after == match event_of(frame, received_at) {
                Some(event) => tables.recorded(event),
                None => tables,
            }
        }),
{
}

/// A frame shorter than the 14 bytes of the Ethernet header fails to decode
/// with `MalformedFrame`, and no row is stored for it.
pub proof fn lemma_short_frame_stores_nothing(
    frame: Seq<u8>,
    received_at: Timestamp,
    tables: Tables,
)
    requires
        frame.len() < ETHERNET_HEADER_LEN,
    ensures
        extracted(frame) == Err::<Option<ArpMessage>, DecodeError>(DecodeError::MalformedFrame),
        event_of(frame, received_at) is None,
        ({
            let input = InputView::FrameReceived { frame, received_at };
            let (rest, after) = driven(StateView::Listening, input, tables);
            &&& after == tables
            &&& rest.next == StateView::Listening
            &&& rest.notice == Some(Notice::Undecodable(DecodeError::MalformedFrame))
        }),
{
}

/// A frame whose ethertype is not 0x0806 is not decoded as ARP, whatever its
/// payload holds, and no row is stored for it.
pub proof fn lemma_other_ethertype_stores_nothing(
    frame: Seq<u8>,
    received_at: Timestamp,
    tables: Tables,
)
    requires
        frame.len() >= ETHERNET_HEADER_LEN,
        ethertype_of(frame) != ETHERTYPE_ARP,
    ensures
        extracted(frame) == Ok::<Option<ArpMessage>, DecodeError>(None),
        event_of(frame, received_at) is None,
        ({
            let input = InputView::FrameReceived { frame, received_at };
            let first = transition(StateView::Listening, input);
            let decoded = transition(first.next, InputView::Proceed);
            let (rest, after) = driven(StateView::Listening, input, tables);
            &&& decoded.next == StateView::Listening
            &&& after == tables
            &&& rest.next == StateView::Listening
            &&& rest.notice is None
        }),
{
}

/// An ARP message whose operation is neither 1 nor 2 gives no event, and no
/// row is inserted into either table for the frame that carries it.
pub proof fn lemma_unsupported_operation_stores_nothing(
    frame: Seq<u8>,
    received_at: Timestamp,
    tables: Tables,
)
    requires
        extracted(frame) matches Ok(Some(message)) && message.operation != OPERATION_REQUEST
            && message.operation != OPERATION_REPLY,
    ensures
        event_of(frame, received_at) is None,
        ({
            let input = InputView::FrameReceived { frame, received_at };
            let (rest, after) = driven(StateView::Listening, input, tables);
            &&& after.requests == tables.requests
            &&& after.replies == tables.replies
            &&& rest.next == StateView::Listening
            &&& rest.notice == Some(
                Notice::Unsupported(
                    UnsupportedOperation { code: extracted(frame)->Ok_0->Some_0.operation },
                ),
            )
        }),
{
}

/// Only the loss of the channel ends the monitor: a step leads to
/// `Terminated` only from `Terminated` itself, from `Initializing` where the
/// channel could not be opened, or from `Listening` where a receive call
/// found the channel lost. No failure that concerns one packet ends it, and
/// from `Terminated` no step leads away.
pub proof fn lemma_only_channel_loss_terminates(state: StateView, input: InputView)
    ensures
        transition(state, input).next is Terminated ==> {
            ||| state is Terminated
            ||| state is Initializing && input is OpenFailed
            ||| state is Listening && input == InputView::ReceiveFailed(ReceiveError::ChannelLost)
        },
        state is Terminated ==> transition(state, input).next is Terminated,
        state is Decoding || state is Classifying || state is Persisting ==> !(transition(
            state,
            input,
        ).next is Terminated),
{
}

/// Whatever the monitor is fed, the tables only grow, and by one row at
/// most: the rows that were there stay where they were, unchanged.
pub proof fn lemma_monitor_only_appends(state: StateView, input: InputView, tables: Tables)
    ensures
        ({
            let after = driven(state, input, tables).1;
            &&& after.requests is Some <==> tables.requests is Some
            &&& after.replies is Some <==> tables.replies is Some
            &&& tables.requests matches Some(rows) ==> rows.is_prefix_of(after.requests.unwrap())
            &&& tables.replies matches Some(rows) ==> rows.is_prefix_of(after.replies.unwrap())
            &&& after.rows(Table::Requests) + after.rows(Table::Replies) <= tables.rows(
                Table::Requests,
            ) + tables.rows(Table::Replies) + 1
            &&& tables.numbered() ==> after.numbered()
        }),
{
    let rest = settled(transition(state, input).next);
    match rest.next {
        StateView::Persisting { event } => {
            lemma_tables_are_append_only(tables, event);
            if tables.numbered() {
                lemma_identifiers_rise(tables, event);
            }
            if tables.refusal(event) is None {
                lemma_record_appends_one_row(tables, event);
            }
        },
        _ => {},
    }
}

/// A frame as the capture channel delivered it.
#[derive(Debug, PartialEq, Eq)]
pub struct RawFrame {
    /// The bytes of the frame.
    pub bytes: Vec<u8>,
    /// When the frame arrived.
    pub received_at: Timestamp,
}

/// What a `RawFrame` holds.
pub struct RawFrameView {
    pub bytes: Seq<u8>,
    pub received_at: Timestamp,
}

impl View for RawFrame {
    type V = RawFrameView;

    open spec fn view(&self) -> RawFrameView {
        RawFrameView { bytes: self.bytes@, received_at: self.received_at }
    }
}

/// What the frames of a capture hold, in order.
pub open spec fn frames_of(capture: Seq<RawFrame>) -> Seq<RawFrameView> {
    Seq::new(capture.len(), |i: int| capture[i]@)
}

/// The tables after a listening monitor received the frames of `capture`
/// one after the other: each frame that has an event was handed to `record`
/// in its turn, and the others left no trace.
pub open spec fn replayed(capture: Seq<RawFrameView>, tables: Tables) -> Tables
    decreases capture.len(),
{
    if capture.len() == 0 {
        tables
    } else {
        let before = replayed(capture.drop_last(), tables);
        match event_of(capture.last().bytes, capture.last().received_at) {
            Some(event) => before.recorded(event),
            None => before,
        }
    }
}

/// What there is to tell of the last frame of `capture`, after the frames
/// before it were received: that it was dropped, or that its event could
/// not be stored.
pub open spec fn told_of_last(capture: Seq<RawFrameView>, tables: Tables) -> Option<Notice> {
    let input = InputView::FrameReceived {
        frame: capture.last().bytes,
        received_at: capture.last().received_at,
    };
    driven(StateView::Listening, input, replayed(capture.drop_last(), tables)).0.notice
}

/// Runs a listening monitor over the frames of `capture`, storing into
/// `storage`, and returns what there was to tell of each frame. No frame
/// stops the run: a frame that cannot be decoded, classified or stored is
/// told of and passed over.
pub fn replay(capture: &Vec<RawFrame>, storage: &mut Storage) -> (notices: Vec<Option<Notice>>)
    ensures
        final(storage)@ == replayed(frames_of(capture@), old(storage)@),
        notices@.len() == capture@.len(),
        forall|i: int|
            0 <= i < capture@.len() ==> #[trigger] notices@[i] == told_of_last(
                frames_of(capture@).take(i + 1),
                old(storage)@,
            ),
{
    let ghost frames = frames_of(capture@);
    let mut notices: Vec<Option<Notice>> = Vec::new();
    let mut state = MonitorState::Listening;
    let mut at: usize = 0;
    proof {
        assert(frames.take(0) =~= Seq::empty());
    }
    while at < capture.len()
        invariant
            at <= capture@.len(),
            frames == frames_of(capture@),
            state@ == StateView::Listening,
            storage@ == replayed(frames.take(at as int), old(storage)@),
            notices@.len() == at,
            forall|i: int|
                0 <= i < at ==> #[trigger] notices@[i] == told_of_last(
                    frames.take(i + 1),
                    old(storage)@,
                ),
        decreases capture@.len() - at,
    {
        let input = MonitorInput::FrameReceived {
            frame: slice_to_vec(capture[at].bytes.as_slice()),
            received_at: capture[at].received_at,
        };
        proof {
            let upto = frames.take(at as int + 1);
            assert(upto.drop_last() =~= frames.take(at as int));
            assert(upto.last() == capture@[at as int]@);
            lemma_frame_is_recorded_as_its_event(
                capture@[at as int].bytes@,
                capture@[at as int].received_at,
                storage@,
            );
        }
        let (next, told) = drive(state, input, storage);
        state = next;
        notices.push(told);
        at += 1;
    }
    proof {
        assert(frames.take(at as int) =~= frames);
    }
    notices
}

/// Over a whole capture the tables only grow: every row that was there
/// before stays where it was, unchanged, no table comes or goes, at most one
/// row is added for each frame, and identifiers keep counting the rows.
pub proof fn lemma_replay_only_appends(capture: Seq<RawFrameView>, tables: Tables)
    ensures
        ({
            let after = replayed(capture, tables);
            &&& after.requests is Some <==> tables.requests is Some
            &&& after.replies is Some <==> tables.replies is Some
            &&& tables.requests matches Some(rows) ==> rows.is_prefix_of(after.requests.unwrap())
            &&& tables.replies matches Some(rows) ==> rows.is_prefix_of(after.replies.unwrap())
            &&& after.rows(Table::Requests) + after.rows(Table::Replies) <= tables.rows(
                Table::Requests,
            ) + tables.rows(Table::Replies) + capture.len()
            &&& tables.numbered() ==> after.numbered()
        }),
    decreases capture.len(),
{
    if capture.len() > 0 {
        let before = replayed(capture.drop_last(), tables);
        lemma_replay_only_appends(capture.drop_last(), tables);
        match event_of(capture.last().bytes, capture.last().received_at) {
            Some(event) => {
                lemma_tables_are_append_only(before, event);
                if before.numbered() {
                    lemma_identifiers_rise(before, event);
                }
                if before.refusal(event) is None {
                    lemma_record_appends_one_row(before, event);
                }
            },
            None => {},
        }
    }
}

/// A capture in which no frame is a request or a reply leaves the tables as
/// they were, whatever else its frames hold.
pub proof fn lemma_replay_without_events_stores_nothing(capture: Seq<RawFrameView>, tables: Tables)
    requires
        forall|i: int|
            0 <= i < capture.len() ==> event_of(
                (#[trigger] capture[i]).bytes,
                capture[i].received_at,
            ) is None,
    ensures
        replayed(capture, tables) == tables,
    decreases capture.len(),
{
    if capture.len() > 0 {
        lemma_replay_without_events_stores_nothing(capture.drop_last(), tables);
    }
}

} // verus!
