//! The exchange with the reader as a state machine.
//!
//! A session does no I/O. It is told what happened on the transport and
//! answers with what to do next: write these bytes, read that many bytes,
//! hand this outcome to the caller, or give up with this error. A driver owns
//! the transport and runs the loop.
//!
//! One exchange sends one command. A plain exchange ends with the first
//! response to that command; an inventory goes on until the summary arrives;
//! a read of tag memory goes on until every tag that answers has been heard.
//! Bytes in front of a start byte are skipped, and frames that answer another
//! command are dropped, so that a session finds its way back into a stream
//! that an earlier failure left in the middle of a frame.

use vstd::prelude::*;
use vstd::slice::slice_subrange;
use vstd::slice::slice_to_vec;
use crate::codes::ResponseCode;
use crate::error::Error;
use crate::error::ProgramError;
use crate::frame::parse;
use crate::frame::raise;
use crate::frame::serialize;
use crate::frame::Command;
use crate::frame::CommandView;
use crate::frame::Response;
use crate::frame::ResponseView;
use crate::frame::START_BYTE;
use crate::inventory::inventory_summary;
use crate::inventory::item_views;
use crate::inventory::tag_record;
use crate::inventory::InventoryItem;
use crate::inventory::InventoryItemView;
use crate::inventory::InventoryResult;
use crate::inventory::InventoryResultView;
use crate::read::read_record;
use crate::read::result_views;
use crate::read::ReadResult;
use crate::read::ReadResultView;

verus! {

/// Payloads of an inventory that are shorter than this are the summary, not a
/// tag.
pub const SHORTEST_TAG_PAYLOAD: usize = 8;

/// What ends an exchange.
#[derive(Clone, Copy, Debug, PartialEq, Eq, Structural)]
pub enum Exchange {
    /// The first response to the command.
    Single,
    /// The summary that follows the tags of an inventory.
    Inventory,
    /// The last of the replies to a read of tag memory.
    Read,
}

/// Where a session stands.
#[derive(Clone, Copy, Debug, PartialEq, Eq, Structural)]
pub enum Phase {
    /// No exchange is under way.
    Idle,
    /// The command has been handed out for writing.
    Sending,
    /// Bytes are skipped until a start byte comes.
    AwaitingStart,
    /// The start byte has come; the length byte is next.
    AwaitingLength,
    /// The length byte has come; the rest of the frame is next.
    AwaitingBody { length: u8 },
}

/// What happened on the transport.
#[derive(Debug)]
pub enum Event {
    /// The bytes of the last `Action::Write` have been written.
    Written,
    /// The bytes asked for by the last `Action::Read` have been read.
    Bytes(Vec<u8>),
    /// The transport failed or timed out.
    Failed(std::io::Error),
}

/// An event as a mathematical value.
pub enum EventView {
    Written,
    Bytes(Seq<u8>),
    Failed(std::io::Error),
}

impl View for Event {
    type V = EventView;

    open spec fn view(&self) -> EventView {
        match self {
            Event::Written => EventView::Written,
            Event::Bytes(bytes) => EventView::Bytes(bytes@),
            Event::Failed(error) => EventView::Failed(*error),
        }
    }
}

/// What an exchange ended with.
#[derive(Debug)]
pub enum Outcome {
    Response(Response),
    Inventory(InventoryResult),
    Read(Vec<ReadResult>),
}

/// An outcome as a mathematical value.
pub enum OutcomeView {
    Response(ResponseView),
    Inventory(InventoryResultView),
    Read(Seq<ReadResultView>),
}

impl View for Outcome {
    type V = OutcomeView;

    open spec fn view(&self) -> OutcomeView {
        match self {
            Outcome::Response(response) => OutcomeView::Response(response@),
            Outcome::Inventory(result) => OutcomeView::Inventory(result@),
            Outcome::Read(results) => OutcomeView::Read(result_views(results@)),
        }
    }
}

/// What the driver has to do next.
#[derive(Debug)]
pub enum Action {
    /// Write these bytes, then report `Event::Written`.
    Write(Vec<u8>),
    /// Read this many bytes, then report them in `Event::Bytes`.
    Read(usize),
    /// The exchange is over: hand the outcome to the caller.
    Finish(Outcome),
    /// The exchange is over: hand the error to the caller.
    Fail(Error),
}

/// An action as a mathematical value.
pub enum ActionView {
    Write(Seq<u8>),
    Read(usize),
    Finish(OutcomeView),
    Fail(Error),
}

impl View for Action {
    type V = ActionView;

    open spec fn view(&self) -> ActionView {
        match self {
            Action::Write(bytes) => ActionView::Write(bytes@),
            Action::Read(count) => ActionView::Read(*count),
            Action::Finish(outcome) => ActionView::Finish(outcome@),
            Action::Fail(error) => ActionView::Fail(*error),
        }
    }
}

/// The state of an exchange.
pub struct Session {
    phase: Phase,
    exchange: Exchange,
    expected: u8,
    items: Vec<InventoryItem>,
    results: Vec<ReadResult>,
    tag_count: usize,
    discarded: Option<Response>,
}

/// A session as a mathematical value.
pub struct SessionView {
    /// Where the session stands.
    pub phase: Phase,
    /// What ends the exchange under way.
    pub exchange: Exchange,
    /// Operation code of the command under way.
    pub expected: u8,
    /// Tags of the inventory under way, in the order of their arrival.
    pub items: Seq<InventoryItemView>,
    /// Replies of the read under way, in the order of their arrival.
    pub results: Seq<ReadResultView>,
    /// Number of replies that the first reply of the read announced.
    pub tag_count: usize,
    /// The frame that the last step dropped, if it dropped one.
    pub discarded: Option<ResponseView>,
}

impl View for Session {
    type V = SessionView;

    closed spec fn view(&self) -> SessionView {
        SessionView {
            phase: self.phase,
            exchange: self.exchange,
            expected: self.expected,
            items: item_views(self.items@),
            results: result_views(self.results@),
            tag_count: self.tag_count,
            discarded: match self.discarded {
                Some(response) => Some(response@),
                None => None,
            },
        }
    }
}

/// The session between two exchanges. Nothing of an earlier exchange is left
/// in it.
pub open spec fn idle() -> SessionView {
    SessionView {
        phase: Phase::Idle,
        exchange: Exchange::Single,
        expected: 0,
        items: Seq::empty(),
        results: Seq::empty(),
        tag_count: 0,
        discarded: None,
    }
}

/// The session gives up: it is idle again and hands out the error.
pub open spec fn failed(error: Error) -> (SessionView, ActionView) {
    (idle(), ActionView::Fail(error))
}

/// The session is done: it is idle again and hands out the outcome.
pub open spec fn finished(outcome: OutcomeView) -> (SessionView, ActionView) {
    (idle(), ActionView::Finish(outcome))
}

/// The session goes on with the next frame: it asks for the byte at which the
/// search for a start byte begins.
pub open spec fn resumed(session: SessionView) -> (SessionView, ActionView) {
    (SessionView { phase: Phase::AwaitingStart, ..session }, ActionView::Read(1))
}

/// The start of an exchange: whatever was under way is dropped, and the
/// frame of the command is handed out for writing.
pub open spec fn start_spec(command: CommandView, exchange: Exchange) -> (SessionView, ActionView) {
    (
        SessionView {
            phase: Phase::Sending,
            exchange,
            expected: command.command.spec_to_byte(),
            ..idle()
        },
        ActionView::Write(serialize(command)),
    )
}

/// What a session does with a response to its command.
///
/// A status other than success ends the exchange with a protocol error. The
/// one exception is a read of tag memory, which the status `NoTagError` ends
/// at once and without any reply. Apart from that a plain exchange ends with
/// the response; an inventory ends with a payload of fewer than eight bytes,
/// its summary, and keeps any longer payload as a tag; a read keeps each
/// reply and ends when it has heard as many as the first reply announced.
pub open spec fn accept_spec(session: SessionView, response: ResponseView) -> (
    SessionView,
    ActionView,
) {
    if session.exchange == Exchange::Read && response.status == Some(ResponseCode::NoTagError) {
        finished(OutcomeView::Read(Seq::empty()))
    } else {
        match raise(response) {
            Err(error) => failed(error),
            Ok(response) => match session.exchange {
                Exchange::Single => finished(OutcomeView::Response(response)),
                Exchange::Inventory => if response.data.len() < SHORTEST_TAG_PAYLOAD {
                    match inventory_summary(response.data, session.items) {
                        Ok(result) => finished(OutcomeView::Inventory(result)),
                        Err(error) => failed(error),
                    }
                } else {
                    match tag_record(response.data) {
                        Ok(item) => resumed(
                            SessionView {
                                items: session.items.push(item),
                                discarded: None,
                                ..session
                            },
                        ),
                        Err(error) => failed(error),
                    }
                },
                Exchange::Read => match read_record(response.data) {
                    Ok((count, record)) => {
                        let tag_count = if session.results.len() == 0 {
                            count
                        } else {
                            session.tag_count
                        };
                        let results = session.results.push(record);
                        if results.len() == tag_count {
                            finished(OutcomeView::Read(results))
                        } else {
                            resumed(
                                SessionView { results, tag_count, discarded: None, ..session },
                            )
                        }
                    },
                    Err(error) => failed(error),
                },
            },
        }
    }
}

/// What a session does with a frame. A frame that does not parse ends the
/// exchange with the parser's error. A frame that answers another command is
/// dropped, and the session goes on with the next frame.
pub open spec fn deliver_spec(session: SessionView, frame: Seq<u8>) -> (SessionView, ActionView) {
    match parse(frame) {
        Err(error) => failed(error),
        Ok(response) => if response.command != session.expected {
            resumed(SessionView { discarded: Some(response), ..session })
        } else {
            accept_spec(session, response)
        },
    }
}

/// What a session does with the bytes it asked for.
pub open spec fn receive_spec(session: SessionView, bytes: Seq<u8>) -> (SessionView, ActionView) {
    match session.phase {
        Phase::AwaitingStart => if bytes.len() != 1 {
            failed(Error::Program(ProgramError::UnexpectedEvent))
        } else if bytes[0] == START_BYTE {
            (
                SessionView { phase: Phase::AwaitingLength, discarded: None, ..session },
                ActionView::Read(1),
            )
        } else {
            resumed(SessionView { discarded: None, ..session })
        },
        Phase::AwaitingLength => if bytes.len() != 1 {
            failed(Error::Program(ProgramError::UnexpectedEvent))
        } else if bytes[0] == 0 {
            deliver_spec(session, seq![START_BYTE, 0u8])
        } else {
            (
                SessionView {
                    phase: Phase::AwaitingBody { length: bytes[0] },
                    discarded: None,
                    ..session
                },
                ActionView::Read(bytes[0] as usize),
            )
        },
        Phase::AwaitingBody { length } => deliver_spec(session, seq![START_BYTE, length] + bytes),
        _ => failed(Error::Program(ProgramError::UnexpectedEvent)),
    }
}

/// One step of a session: the state and the event give the next state and
/// the next action. A failure of the transport ends the exchange. An event
/// that does not answer the last action ends it too.
pub open spec fn step_spec(session: SessionView, event: EventView) -> (SessionView, ActionView) {
    match event {
        EventView::Failed(error) => failed(Error::Io(error)),
        EventView::Written => if session.phase == Phase::Sending {
            resumed(session)
        } else {
            failed(Error::Program(ProgramError::UnexpectedEvent))
        },
        EventView::Bytes(bytes) => receive_spec(session, bytes),
    }
}

/// What a driver ends with that answers each request for bytes from `stream`,
/// in order, starting with `action`: the state and the action at which it
/// stops, and the number of bytes it took from the stream. It stops at the
/// first action that is no request for bytes, or at a request for more bytes
/// than the stream has left.
pub open spec fn drive(session: SessionView, action: ActionView, stream: Seq<u8>) -> (
    SessionView,
    ActionView,
    nat,
)
    decreases stream.len(),
{
    match action {
        ActionView::Read(count) => if 1 <= count <= stream.len() {
            let next = step_spec(session, EventView::Bytes(stream.take(count as int)));
            let end = drive(next.0, next.1, stream.skip(count as int));
            (end.0, end.1, end.2 + count as nat)
        } else {
            (session, action, 0)
        },
        _ => (session, action, 0),
    }
}

/// A session that looks for a frame finds its way through garbage: it skips
/// the bytes in front of the first start byte, takes the frame that the start
/// byte and the length byte announce, and goes on behind it. The driver has
/// then taken the garbage and the frame from the stream, and nothing else.
pub proof fn lemma_resynchronizes(
    session: SessionView,
    garbage: Seq<u8>,
    frame: Seq<u8>,
    rest: Seq<u8>,
)
    requires
        session.phase == Phase::AwaitingStart,
        forall|i: int| 0 <= i < garbage.len() ==> garbage[i] != START_BYTE,
        frame.len() >= 2,
        frame[0] == START_BYTE,
        frame[1] + 2 == frame.len(),
    ensures
        ({
            let delivered = deliver_spec(session, frame);
            let end = drive(delivered.0, delivered.1, rest);
            drive(session, ActionView::Read(1), garbage + frame + rest) == (
                end.0,
                end.1,
                end.2 + garbage.len() + frame.len(),
            )
        }),
    decreases garbage.len(),
{
    let stream = garbage + frame + rest;
    let clean = SessionView { discarded: None, ..session };
    let delivered = deliver_spec(session, frame);
    let end = drive(delivered.0, delivered.1, rest);
    assert(deliver_spec(clean, frame) == delivered);
    if garbage.len() > 0 {
        assert(stream.take(1) == seq![garbage[0]]);
        assert(stream.skip(1) == garbage.skip(1) + frame + rest);
        assert(step_spec(session, EventView::Bytes(stream.take(1))) == (
            clean,
            ActionView::Read(1),
        ));
        lemma_resynchronizes(clean, garbage.skip(1), frame, rest);
        assert(drive(clean, ActionView::Read(1), stream.skip(1)) == (
            end.0,
            end.1,
            (end.2 + garbage.len() - 1 + frame.len()) as nat,
        ));
    } else {
        assert(stream == frame + rest);
        let length = frame[1];
        let located = SessionView { phase: Phase::AwaitingLength, ..clean };
        assert(stream.take(1) == seq![START_BYTE]);
        assert(step_spec(session, EventView::Bytes(stream.take(1))) == (
            located,
            ActionView::Read(1),
        ));
        let behind_start = stream.skip(1);
        assert(behind_start.take(1) == seq![length]);
        assert(behind_start.skip(1) == stream.skip(2));
        if length == 0 {
            assert(frame == seq![START_BYTE, 0u8]);
            assert(stream.skip(2) == rest);
            assert(step_spec(located, EventView::Bytes(behind_start.take(1))) == delivered);
            assert(drive(located, ActionView::Read(1), behind_start) == (
                end.0,
                end.1,
                end.2 + 1,
            ));
        } else {
            let measured = SessionView { phase: Phase::AwaitingBody { length }, ..clean };
            assert(step_spec(located, EventView::Bytes(behind_start.take(1))) == (
                measured,
                ActionView::Read(length as usize),
            ));
            let behind_length = stream.skip(2);
            assert(seq![START_BYTE, length] + behind_length.take(length as int) == frame);
            assert(behind_length.skip(length as int) == rest);
            assert(step_spec(measured, EventView::Bytes(behind_length.take(length as int)))
                == delivered);
            assert(drive(measured, ActionView::Read(length as usize), behind_length) == (
                end.0,
                end.1,
                end.2 + length as nat,
            ));
            assert(drive(located, ActionView::Read(1), behind_start) == (
                end.0,
                end.1,
                end.2 + length as nat + 1,
            ));
        }
    }
}

/// A plain exchange finds the response to its command behind any garbage:
/// the driver ends with that response, and has taken from the stream the
/// garbage and the frame of the response, and nothing else.
pub proof fn lemma_response_found(
    session: SessionView,
    garbage: Seq<u8>,
    frame: Seq<u8>,
    rest: Seq<u8>,
)
    requires
        session.phase == Phase::AwaitingStart,
        session.exchange == Exchange::Single,
        forall|i: int| 0 <= i < garbage.len() ==> garbage[i] != START_BYTE,
        parse(frame) is Ok,
        parse(frame)->Ok_0.command == session.expected,
        raise(parse(frame)->Ok_0) is Ok,
    ensures
        drive(session, ActionView::Read(1), garbage + frame + rest) == (
            idle(),
            ActionView::Finish(OutcomeView::Response(parse(frame)->Ok_0)),
            garbage.len() + frame.len(),
        ),
{
    lemma_resynchronizes(session, garbage, frame, rest);
}

/// A frame that answers another command is skipped: the driver goes on
/// behind it as if the frame had not been there, except that the session
/// remembers the frame as dropped until its next step.
pub proof fn lemma_other_command_skipped(session: SessionView, frame: Seq<u8>, rest: Seq<u8>)
    requires
        session.phase == Phase::AwaitingStart,
        parse(frame) is Ok,
        parse(frame)->Ok_0.command != session.expected,
    ensures
        ({
            let marked = SessionView { discarded: Some(parse(frame)->Ok_0), ..session };
            let end = drive(marked, ActionView::Read(1), rest);
            drive(session, ActionView::Read(1), frame + rest) == (
                end.0,
                end.1,
                end.2 + frame.len(),
            )
        }),
{
    lemma_resynchronizes(session, Seq::empty(), frame, rest);
    assert(Seq::<u8>::empty() + frame + rest == frame + rest);
}

/// An inventory keeps each tag in the order of arrival: behind a response
/// whose payload has the size of a tag record, the driver goes on with that
/// tag added at the end of the tags heard so far.
pub proof fn lemma_tag_collected(session: SessionView, frame: Seq<u8>, rest: Seq<u8>)
    requires
        session.phase == Phase::AwaitingStart,
        session.exchange == Exchange::Inventory,
        parse(frame) is Ok,
        parse(frame)->Ok_0.command == session.expected,
        raise(parse(frame)->Ok_0) is Ok,
        parse(frame)->Ok_0.data.len() >= SHORTEST_TAG_PAYLOAD,
    ensures
        tag_record(parse(frame)->Ok_0.data) is Ok,
        ({
            let tag = tag_record(parse(frame)->Ok_0.data)->Ok_0;
            let grown = SessionView {
                items: session.items.push(tag),
                discarded: None,
                ..session
            };
            let end = drive(grown, ActionView::Read(1), rest);
            drive(session, ActionView::Read(1), frame + rest) == (
                end.0,
                end.1,
                end.2 + frame.len(),
            )
        }),
{
    lemma_resynchronizes(session, Seq::empty(), frame, rest);
    assert(Seq::<u8>::empty() + frame + rest == frame + rest);
}

/// An exchange that has ended leaves nothing behind: after the action that
/// hands out its outcome or its error, the session is idle and holds neither
/// tags nor replies nor a dropped frame.
pub proof fn lemma_ends_idle(session: SessionView, event: EventView)
    ensures
        step_spec(session, event).1 is Finish || step_spec(session, event).1 is Fail ==> step_spec(
            session,
            event,
        ).0 == idle(),
        step_spec(session, event).1 !is Write,
{
}

/// Pushing a tag onto the tags heard so far pushes its view onto their views.
proof fn lemma_item_pushed(items: Seq<InventoryItem>, item: InventoryItem)
    ensures
        item_views(items.push(item)) == item_views(items).push(item@),
{
    assert(item_views(items.push(item)) =~= item_views(items).push(item@));
}

/// Pushing a reply onto the replies heard so far pushes its view onto their
/// views.
proof fn lemma_result_pushed(results: Seq<ReadResult>, record: ReadResult)
    ensures
        result_views(results.push(record)) == result_views(results).push(record@),
{
    assert(result_views(results.push(record)) =~= result_views(results).push(record@));
}

impl Session {
    /// A session between two exchanges.
    pub fn new() -> (session: Session)
        ensures
            session@ == idle(),
    {
        let session = Session {
            phase: Phase::Idle,
            exchange: Exchange::Single,
            expected: 0,
            items: Vec::new(),
            results: Vec::new(),
            tag_count: 0,
            discarded: None,
        };
        assert(item_views(session.items@) =~= Seq::empty());
        assert(result_views(session.results@) =~= Seq::empty());
        session
    }

    /// Where the session stands.
    pub fn phase(&self) -> (phase: Phase)
        ensures
            phase == self@.phase,
    {
        self.phase
    }

    /// The frame that the last step dropped because it answers another
    /// command, if it dropped one.
    pub fn discarded(&self) -> (discarded: &Option<Response>)
        ensures
            match *discarded {
                Some(response) => self@.discarded == Some(response@),
                None => self@.discarded.is_none(),
            },
    {
        &self.discarded
    }

    /// Starts an exchange. Whatever was under way is dropped.
    pub fn start(self, command: &Command, exchange: Exchange) -> (next: (Session, Action))
        ensures
            next.0@ == start_spec(command@, exchange).0,
            next.1@ == start_spec(command@, exchange).1,
    {
        let fresh = Session::new();
        let session = Session {
            phase: Phase::Sending,
            exchange,
            expected: command.command.to_byte(),
            items: fresh.items,
            results: fresh.results,
            tag_count: 0,
            discarded: None,
        };
        (session, Action::Write(command.to_bytes()))
    }

    /// Takes one event from the transport and says what to do next.
    pub fn step(self, event: Event) -> (next: (Session, Action))
        ensures
            next.0@ == step_spec(self@, event@).0,
            next.1@ == step_spec(self@, event@).1,
    {
        match event {
            Event::Failed(error) => (Session::new(), Action::Fail(Error::Io(error))),
            Event::Written => match self.phase {
                Phase::Sending => self.resume(),
                _ => Session::unexpected(),
            },
            Event::Bytes(bytes) => self.receive(bytes),
        }
    }

    /// Takes one frame and says what to do next.
    pub fn deliver(self, frame: Vec<u8>) -> (next: (Session, Action))
        ensures
            next.0@ == deliver_spec(self@, frame@).0,
            next.1@ == deliver_spec(self@, frame@).1,
    {
        match Response::from_bytes(frame) {
            Err(error) => (Session::new(), Action::Fail(error)),
            Ok(response) => if response.command != self.expected {
                let mut session = self;
                session.discarded = Some(response);
                session.resume()
            } else {
                self.accept(response)
            },
        }
    }

    /// Runs the session over a recorded stream: every request for bytes is
    /// answered from `stream`, in order, until the session asks for something
    /// else or for more bytes than are left. Hands back the session, the
    /// action at which it stopped, and the number of bytes taken.
    pub fn replay(self, action: Action, stream: &[u8]) -> (end: (Session, Action, usize))
        ensures
            end.0@ == drive(self@, action@, stream@).0,
            end.1@ == drive(self@, action@, stream@).1,
            end.2 == drive(self@, action@, stream@).2,
    {
        let ghost whole = drive(self@, action@, stream@);
        let mut session = self;
        let mut pending = action;
        let mut taken: usize = 0;
        assert(stream@.skip(0) == stream@);
        loop
            invariant
                taken <= stream@.len(),
                whole == drive(self@, action@, stream@),
                whole == ({
                    let end = drive(session@, pending@, stream@.skip(taken as int));
                    (end.0, end.1, end.2 + taken as nat)
                }),
            decreases stream@.len() - taken,
        {
            let count: usize = match &pending {
                Action::Read(count) => *count,
                _ => 0,
            };
            let ghost left = stream@.skip(taken as int);
            if count < 1 || count > stream.len() - taken {
                assert(drive(session@, pending@, left) == (session@, pending@, 0nat));
                return (session, pending, taken);
            }
            let bytes: Vec<u8> = slice_to_vec(slice_subrange(stream, taken, taken + count));
            proof {
                assert(bytes@ == left.take(count as int));
                assert(left.skip(count as int) == stream@.skip(taken + count));
            }
            let next = session.step(Event::Bytes(bytes));
            session = next.0;
            pending = next.1;
            taken = taken + count;
        }
    }

    fn unexpected() -> (next: (Session, Action))
        ensures
            next.0@ == idle(),
            next.1@ == ActionView::Fail(Error::Program(ProgramError::UnexpectedEvent)),
    {
        (Session::new(), Action::Fail(Error::Program(ProgramError::UnexpectedEvent)))
    }

    fn resume(self) -> (next: (Session, Action))
        ensures
            next.0@ == resumed(self@).0,
            next.1@ == resumed(self@).1,
    {
        let mut session = self;
        session.phase = Phase::AwaitingStart;
        (session, Action::Read(1))
    }

    fn receive(self, bytes: Vec<u8>) -> (next: (Session, Action))
        ensures
            next.0@ == receive_spec(self@, bytes@).0,
            next.1@ == receive_spec(self@, bytes@).1,
    {
        match self.phase {
            Phase::AwaitingStart => {
                if bytes.len() != 1 {
                    return Session::unexpected();
                }
                let mut session = self;
                session.discarded = None;
                if bytes[0] == START_BYTE {
                    session.phase = Phase::AwaitingLength;
                    (session, Action::Read(1))
                } else {
                    session.resume()
                }
            },
            Phase::AwaitingLength => {
                if bytes.len() != 1 {
                    return Session::unexpected();
                }
                let length: u8 = bytes[0];
                if length == 0 {
                    let mut frame: Vec<u8> = Vec::new();
                    frame.push(START_BYTE);
                    frame.push(0);
                    assert(frame@ == seq![START_BYTE, 0u8]);
                    self.deliver(frame)
                } else {
                    let mut session = self;
                    session.discarded = None;
                    session.phase = Phase::AwaitingBody { length };
                    (session, Action::Read(length as usize))
                }
            },
            Phase::AwaitingBody { length } => {
                let mut frame: Vec<u8> = Vec::new();
                frame.push(START_BYTE);
                frame.push(length);
                let mut body: Vec<u8> = bytes;
                frame.append(&mut body);
                assert(frame@ == seq![START_BYTE, length] + bytes@);
                self.deliver(frame)
            },
            _ => Session::unexpected(),
        }
    }

    fn accept(self, response: Response) -> (next: (Session, Action))
        ensures
            next.0@ == accept_spec(self@, response@).0,
            next.1@ == accept_spec(self@, response@).1,
    {
        let no_tag: bool = match response.status {
            Some(ResponseCode::NoTagError) => true,
            _ => false,
        };
        match self.exchange {
            Exchange::Read => if no_tag {
                let none: Vec<ReadResult> = Vec::new();
                assert(result_views(none@) =~= Seq::empty());
                return (Session::new(), Action::Finish(Outcome::Read(none)));
            },
            _ => {},
        }
        let response = match response.raise_error() {
            Ok(response) => response,
            Err(error) => {
                return (Session::new(), Action::Fail(error));
            },
        };
        match self.exchange {
            Exchange::Single => (Session::new(), Action::Finish(Outcome::Response(response))),
            Exchange::Inventory => if response.data.len() < SHORTEST_TAG_PAYLOAD {
                match InventoryResult::from_bytes(response.data.as_slice(), self.items) {
                    Ok(result) => (Session::new(), Action::Finish(Outcome::Inventory(result))),
                    Err(error) => (Session::new(), Action::Fail(error)),
                }
            } else {
                match InventoryItem::from_bytes(response.data.as_slice()) {
                    Ok(item) => {
                        let mut session = self;
                        proof {
                            lemma_item_pushed(session.items@, item);
                        }
                        session.items.push(item);
                        session.discarded = None;
                        session.resume()
                    },
                    Err(error) => (Session::new(), Action::Fail(error)),
                }
            },
            Exchange::Read => match ReadResult::from_bytes(response.data.as_slice()) {
                Ok((count, record)) => {
                    let mut session = self;
                    if session.results.len() == 0 {
                        session.tag_count = count;
                    }
                    proof {
                        lemma_result_pushed(session.results@, record);
                    }
                    session.results.push(record);
                    if session.results.len() == session.tag_count {
                        (Session::new(), Action::Finish(Outcome::Read(session.results)))
                    } else {
                        session.discarded = None;
                        session.resume()
                    }
                },
                Err(error) => (Session::new(), Action::Fail(error)),
            },
        }
    }
}

} // verus!
