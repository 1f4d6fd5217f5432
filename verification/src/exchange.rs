//! One request and its response, from the description of the request to the
//! parsed response.
//!
//! An [`Exchange`] says what is to be done next, as an [`Action`]; the caller
//! does it and reports the outcome as an [`Event`]; [`Exchange::step`] then
//! says what follows.

use vstd::prelude::*;
use crate::error::{CarrotError, IoFailure};
use crate::frame::{
    has_frame_size, is_frame, lemma_whole_frame_fills_the_buffer, padded, response_frame, SIZE,
};
use crate::request::{Request, RequestView};

verus! {

/// How far a call has come.
#[derive(Debug, PartialEq, Eq)]
enum Phase<R> {
    Encoding(Request),
    Sending(Vec<u8>),
    Receiving,
    Decoding(Vec<u8>),
    Done(R),
    Failed(CarrotError),
}

/// One call of a client, under way or ended. `R` is the type of a parsed
/// response. Every frame that an exchange holds has the size of a frame.
#[derive(Debug, PartialEq, Eq)]
pub struct Exchange<R> {
    phase: Phase<R>,
}

/// What an [`Exchange`] asks its caller to do next.
#[derive(Debug, PartialEq, Eq)]
pub enum Action<'a> {
    /// Have the codec serialise this request into a frame.
    Encode(&'a Request),
    /// Write this frame to the socket in full.
    Send(&'a [u8]),
    /// Make one read from the socket, into a buffer of one frame.
    Receive,
    /// Have the codec parse this response frame.
    Decode(&'a [u8]),
    /// Nothing: the call has ended.
    Finish,
}

/// The outcome of what an [`Exchange`] asked for.
#[derive(Debug, PartialEq, Eq)]
pub enum Event<R> {
    /// The codec has serialised the request into these bytes.
    Encoded(Vec<u8>),
    /// The codec could not serialise the request.
    EncodeFailed,
    /// The frame has been written to the socket in full.
    Sent,
    /// The write to the socket failed.
    SendFailed,
    /// The read has delivered these bytes; none, if the peer has closed.
    Received(Vec<u8>),
    /// The read from the socket failed.
    ReceiveFailed,
    /// The codec has parsed the response frame.
    Decoded(R),
    /// The codec could not parse the response frame.
    DecodeFailed,
}

/// An [`Exchange`] as a mathematical value.
pub enum ExchangeView<R> {
    Encoding(RequestView),
    Sending(Seq<u8>),
    Receiving,
    Decoding(Seq<u8>),
    Done(R),
    Failed(CarrotError),
}

/// An [`Event`] as a mathematical value.
pub enum EventView<R> {
    Encoded(Seq<u8>),
    EncodeFailed,
    Sent,
    SendFailed,
    Received(Seq<u8>),
    ReceiveFailed,
    Decoded(R),
    DecodeFailed,
}

impl<R> View for Exchange<R> {
    type V = ExchangeView<R>;

    closed spec fn view(&self) -> ExchangeView<R> {
        match self.phase {
            Phase::Encoding(request) => ExchangeView::Encoding(request@),
            Phase::Sending(frame) => ExchangeView::Sending(frame@),
            Phase::Receiving => ExchangeView::Receiving,
            Phase::Decoding(frame) => ExchangeView::Decoding(frame@),
            Phase::Done(response) => ExchangeView::Done(response),
            Phase::Failed(error) => ExchangeView::Failed(error),
        }
    }
}

impl<R> View for Event<R> {
    type V = EventView<R>;

    open spec fn view(&self) -> EventView<R> {
        match self {
            Event::Encoded(bytes) => EventView::Encoded(bytes@),
            Event::EncodeFailed => EventView::EncodeFailed,
            Event::Sent => EventView::Sent,
            Event::SendFailed => EventView::SendFailed,
            Event::Received(bytes) => EventView::Received(bytes@),
            Event::ReceiveFailed => EventView::ReceiveFailed,
            Event::Decoded(response) => EventView::Decoded(*response),
            Event::DecodeFailed => EventView::DecodeFailed,
        }
    }
}

/// Where the serialised request leads: onto the wire if it is exactly one
/// frame, to an encoding error otherwise.
pub open spec fn after_encoding<R>(bytes: Seq<u8>) -> ExchangeView<R> {
    if is_frame(bytes) {
        ExchangeView::Sending(bytes)
    } else {
        ExchangeView::Failed(CarrotError::Encoding)
    }
}

/// Where one read leads. No bytes mean that the peer has closed. Up to a frame
/// of bytes is taken as the response, a short delivery as it stands in the
/// zeroed buffer. More than the buffer holds counts as a failed read.
pub open spec fn after_read<R>(bytes: Seq<u8>) -> ExchangeView<R> {
    if bytes.len() == 0 {
        ExchangeView::Failed(CarrotError::Io(IoFailure::Closed))
    } else if bytes.len() <= SIZE {
        ExchangeView::Decoding(padded(bytes))
    } else {
        ExchangeView::Failed(CarrotError::Io(IoFailure::Read))
    }
}

impl<R> ExchangeView<R> {
    /// Whether the call has ended, with a response or with an error.
    pub open spec fn finished(self) -> bool {
        self is Done || self is Failed
    }

    /// Whether `event` is an outcome of what this exchange asks for.
    pub open spec fn expects(self, event: EventView<R>) -> bool {
        match self {
            ExchangeView::Encoding(_) => event is Encoded || event is EncodeFailed,
            ExchangeView::Sending(_) => event is Sent || event is SendFailed,
            ExchangeView::Receiving => event is Received || event is ReceiveFailed,
            ExchangeView::Decoding(_) => event is Decoded || event is DecodeFailed,
            ExchangeView::Done(_) => false,
            ExchangeView::Failed(_) => false,
        }
    }

    /// The exchange after `event`. An event that the exchange does not expect
    /// leaves it as it is.
    pub open spec fn next(self, event: EventView<R>) -> ExchangeView<R> {
        match (self, event) {
            (ExchangeView::Encoding(_), EventView::Encoded(bytes)) => after_encoding(bytes),
            (ExchangeView::Encoding(_), EventView::EncodeFailed) => ExchangeView::Failed(
                CarrotError::Encoding,
            ),
            (ExchangeView::Sending(_), EventView::Sent) => ExchangeView::Receiving,
            (ExchangeView::Sending(_), EventView::SendFailed) => ExchangeView::Failed(
                CarrotError::Io(IoFailure::Write),
            ),
            (ExchangeView::Receiving, EventView::Received(bytes)) => after_read(bytes),
            (ExchangeView::Receiving, EventView::ReceiveFailed) => ExchangeView::Failed(
                CarrotError::Io(IoFailure::Read),
            ),
            (ExchangeView::Decoding(_), EventView::Decoded(response)) => ExchangeView::Done(
                response,
            ),
            (ExchangeView::Decoding(_), EventView::DecodeFailed) => ExchangeView::Failed(
                CarrotError::Decoding,
            ),
            (state, _) => state,
        }
    }

    /// The result of the call: none while it is under way.
    pub open spec fn result(self) -> Option<Result<R, CarrotError>> {
        match self {
            ExchangeView::Done(response) => Some(Ok(response)),
            ExchangeView::Failed(error) => Some(Err(error)),
            _ => None,
        }
    }

    /// Whether every frame that the exchange holds has the size of a frame.
    pub open spec fn well_formed(self) -> bool {
        match self {
            ExchangeView::Sending(frame) => is_frame(frame),
            ExchangeView::Decoding(frame) => is_frame(frame),
            _ => true,
        }
    }

    /// The greatest number of expected events that the exchange can still take.
    pub open spec fn remaining(self) -> nat {
        match self {
            ExchangeView::Encoding(_) => 4,
            ExchangeView::Sending(_) => 3,
            ExchangeView::Receiving => 2,
            ExchangeView::Decoding(_) => 1,
            ExchangeView::Done(_) => 0,
            ExchangeView::Failed(_) => 0,
        }
    }
}

impl<R> Exchange<R> {
    #[verifier::type_invariant]
    spec fn holds_whole_frames(self) -> bool {
        self@.well_formed()
    }

    /// Begins the exchange of `request`.
    pub fn begin(request: Request) -> (exchange: Exchange<R>)
        ensures
            exchange@ == ExchangeView::<R>::Encoding(request@),
    {
        Exchange { phase: Phase::Encoding(request) }
    }

    /// What the caller is to do next. A frame to send, and a frame to parse,
    /// has exactly [`SIZE`] bytes.
    pub fn action(&self) -> (action: Action<'_>)
        ensures
            match action {
                Action::Encode(request) => self@ == ExchangeView::<R>::Encoding(request@),
                Action::Send(frame) => self@ == ExchangeView::<R>::Sending(frame@) && is_frame(
                    frame@,
                ),
                Action::Receive => self@ == ExchangeView::<R>::Receiving,
                Action::Decode(frame) => self@ == ExchangeView::<R>::Decoding(frame@) && is_frame(
                    frame@,
                ),
                Action::Finish => self@.finished(),
            },
    {
        proof {
            use_type_invariant(self);
        }
        match &self.phase {
            Phase::Encoding(request) => Action::Encode(request),
            Phase::Sending(frame) => Action::Send(frame.as_slice()),
            Phase::Receiving => Action::Receive,
            Phase::Decoding(frame) => Action::Decode(frame.as_slice()),
            Phase::Done(_) => Action::Finish,
            Phase::Failed(_) => Action::Finish,
        }
    }

    /// Takes the outcome of what the exchange asked for and says what follows.
    pub fn step(self, event: Event<R>) -> (next: Exchange<R>)
        ensures
            next@ == self@.next(event@),
    {
        proof {
            use_type_invariant(&self);
        }
        match self.phase {
            Phase::Encoding(request) => match event {
                Event::Encoded(bytes) => Self::encoded(bytes),
                Event::EncodeFailed => Exchange { phase: Phase::Failed(CarrotError::Encoding) },
                _ => Exchange { phase: Phase::Encoding(request) },
            },
            Phase::Sending(frame) => match event {
                Event::Sent => Exchange { phase: Phase::Receiving },
                Event::SendFailed => Exchange {
                    phase: Phase::Failed(CarrotError::Io(IoFailure::Write)),
                },
                _ => Exchange { phase: Phase::Sending(frame) },
            },
            Phase::Receiving => match event {
                Event::Received(bytes) => Self::received(&bytes),
                Event::ReceiveFailed => Exchange {
                    phase: Phase::Failed(CarrotError::Io(IoFailure::Read)),
                },
                _ => Exchange { phase: Phase::Receiving },
            },
            Phase::Decoding(frame) => match event {
                Event::Decoded(response) => Exchange { phase: Phase::Done(response) },
                Event::DecodeFailed => Exchange { phase: Phase::Failed(CarrotError::Decoding) },
                _ => Exchange { phase: Phase::Decoding(frame) },
            },
            Phase::Done(response) => Exchange { phase: Phase::Done(response) },
            Phase::Failed(error) => Exchange { phase: Phase::Failed(error) },
        }
    }

    /// Puts the serialised request on its way, if it is exactly one frame.
    fn encoded(bytes: Vec<u8>) -> (next: Exchange<R>)
        ensures
            next@ == after_encoding::<R>(bytes@),
    {
        if has_frame_size(&bytes) {
            Exchange { phase: Phase::Sending(bytes) }
        } else {
            Exchange { phase: Phase::Failed(CarrotError::Encoding) }
        }
    }

    /// Judges what one read has delivered.
    fn received(bytes: &Vec<u8>) -> (next: Exchange<R>)
        ensures
            next@ == after_read::<R>(bytes@),
    {
        if bytes.len() == 0 {
            Exchange { phase: Phase::Failed(CarrotError::Io(IoFailure::Closed)) }
        } else if bytes.len() <= SIZE {
            Exchange { phase: Phase::Decoding(response_frame(bytes)) }
        } else {
            Exchange { phase: Phase::Failed(CarrotError::Io(IoFailure::Read)) }
        }
    }

    /// Tells whether the call has ended.
    pub fn is_finished(&self) -> (finished: bool)
        ensures
            finished == self@.finished(),
    {
        match &self.phase {
            Phase::Done(_) => true,
            Phase::Failed(_) => true,
            _ => false,
        }
    }

    /// The result of the call, or the exchange itself while it is under way.
    pub fn into_result(self) -> (result: Result<Result<R, CarrotError>, Exchange<R>>)
        ensures
            match result {
                Ok(outcome) => self@.result() == Some(outcome),
                Err(exchange) => self@.result().is_none() && exchange == self,
            },
    {
        proof {
            use_type_invariant(&self);
        }
        match self.phase {
            Phase::Done(response) => Ok(Ok(response)),
            Phase::Failed(error) => Ok(Err(error)),
            phase => Err(Exchange { phase }),
        }
    }
}

impl<R> EventView<R> {
    /// Whether the event reports that the socket did not carry the round trip:
    /// a failed write, a failed read, or a read that delivered nothing.
    pub open spec fn is_transport_failure(self) -> bool {
        match self {
            EventView::SendFailed => true,
            EventView::ReceiveFailed => true,
            EventView::Received(bytes) => bytes.len() == 0,
            _ => false,
        }
    }
}

/// Whatever is asked, of whatever kind the data of a write is, the request
/// goes onto the wire only as exactly one frame: the codec's bytes, unchanged,
/// where they are [`SIZE`] bytes, and an encoding error where they are not.
pub proof fn lemma_wire_carries_whole_frames<R>(request: RequestView, event: EventView<R>)
    ensures
        match ExchangeView::<R>::Encoding(request).next(event) {
            ExchangeView::Sending(frame) => frame.len() == SIZE && event == EventView::<R>::Encoded(
                frame,
            ),
            _ => !(event matches EventView::Encoded(bytes) && bytes.len() == SIZE),
        },
{
}

/// Every frame that an exchange holds, the one to send and the one to parse,
/// has the size of a frame, and no event changes that.
pub proof fn lemma_frames_keep_their_size<R>(state: ExchangeView<R>, event: EventView<R>)
    requires
        state.well_formed(),
    ensures
        state.next(event).well_formed(),
{
}

/// When the socket does not carry the round trip, the call ends at once with a
/// transport error.
pub proof fn lemma_transport_failure_is_io_error<R>(state: ExchangeView<R>, event: EventView<R>)
    requires
        state.expects(event),
        event.is_transport_failure(),
    ensures
        state.next(event) matches ExchangeView::Failed(error) && error.is_transport(),
        state.next(event).finished(),
{
}

/// A read that delivers nothing and a read that fails end the call with
/// different errors.
pub proof fn lemma_closed_differs_from_failed_read<R>(nothing: Seq<u8>)
    requires
        nothing.len() == 0,
    ensures
        ExchangeView::<R>::Receiving.next(EventView::Received(nothing))
            == ExchangeView::<R>::Failed(CarrotError::Io(IoFailure::Closed)),
        ExchangeView::<R>::Receiving.next(EventView::ReceiveFailed) == ExchangeView::<R>::Failed(
            CarrotError::Io(IoFailure::Read),
        ),
        ExchangeView::<R>::Receiving.next(EventView::Received(nothing))
            != ExchangeView::<R>::Receiving.next(EventView::ReceiveFailed),
{
}

/// The error of a failed call names the step that failed: an encoding error
/// comes from serialising the request, a transport error from the socket, a
/// decoding error from parsing the response. No exchange fails with a
/// connection error.
pub proof fn lemma_error_names_the_step<R>(state: ExchangeView<R>, event: EventView<R>)
    requires
        !state.finished(),
        state.next(event) is Failed,
    ensures
        ({
            let error = state.next(event)->Failed_0;
            &&& error != CarrotError::Connection
            &&& error == CarrotError::Encoding <==> state is Encoding
            &&& error.is_transport() <==> state is Sending || state is Receiving
            &&& error == CarrotError::Decoding <==> state is Decoding
        }),
{
}

/// Each expected event brings the call nearer to its end, which is at most
/// four events away; any other event changes nothing. A call that has ended
/// expects no event and keeps its result.
pub proof fn lemma_expected_events_advance<R>(state: ExchangeView<R>, event: EventView<R>)
    ensures
        state.remaining() <= 4,
        state.remaining() == 0 <==> state.finished(),
        state.finished() ==> !state.expects(event),
        state.expects(event) ==> state.next(event).remaining() < state.remaining(),
        !state.expects(event) ==> state.next(event) == state,
{
}

/// The event that a codec's attempt to parse `frame` comes to.
pub open spec fn parsed<R>(decode: spec_fn(Seq<u8>) -> Option<R>, frame: Seq<u8>) -> EventView<R> {
    match decode(frame) {
        Some(response) => EventView::Decoded(response),
        None => EventView::DecodeFailed,
    }
}

/// Frames pass through an exchange as the codec made them. So with a codec
/// whose decoding undoes its encoding, a call to a peer that sends the request
/// frame back returns the request, with the key and the data that the caller
/// gave.
pub proof fn lemma_echo_returns_the_request(
    encode: spec_fn(RequestView) -> Seq<u8>,
    decode: spec_fn(Seq<u8>) -> Option<RequestView>,
    request: RequestView,
)
    requires
        is_frame(encode(request)),
        decode(encode(request)) == Some(request),
    ensures
        ({
            let frame = encode(request);
            let sending = ExchangeView::<RequestView>::Encoding(request).next(
                EventView::Encoded(frame),
            );
            let decoding = sending.next(EventView::Sent).next(EventView::Received(frame));
            &&& sending == ExchangeView::<RequestView>::Sending(frame)
            &&& decoding == ExchangeView::<RequestView>::Decoding(frame)
            &&& decoding.next(parsed(decode, frame)).result() == Some(
                Ok::<RequestView, CarrotError>(request),
            )
        }),
{
    lemma_whole_frame_fills_the_buffer(encode(request));
}

/// A call succeeds when every step does: the codec gives one frame, the socket
/// takes it and delivers between one byte and a frame of bytes, and the codec
/// parses the buffer that holds them. The response is the one that the codec
/// parsed.
pub proof fn lemma_round_trip_succeeds<R>(
    request: RequestView,
    frame: Seq<u8>,
    delivered: Seq<u8>,
    response: R,
)
    requires
        is_frame(frame),
        0 < delivered.len() <= SIZE,
    ensures
        ({
            let sending = ExchangeView::<R>::Encoding(request).next(EventView::Encoded(frame));
            let receiving = sending.next(EventView::Sent);
            let decoding = receiving.next(EventView::Received(delivered));
            let done = decoding.next(EventView::Decoded(response));
            &&& sending == ExchangeView::<R>::Sending(frame)
            &&& receiving == ExchangeView::<R>::Receiving
            &&& decoding == ExchangeView::<R>::Decoding(padded(delivered))
            &&& done.result() == Some(Ok::<R, CarrotError>(response))
        }),
{
}

} // verus!
