use vstd::prelude::*;

use crate::codec::{frame_checksum, frame_report, parse_frame};
use crate::error::Error;
use crate::protocol::{command_of_code, Command};
use crate::report::Report;

verus! {

/// What the owner of the connection observed while polling.
#[derive(Debug, Clone, Copy)]
pub enum PollEvent {
    /// This many bytes are waiting on the read side of the connection.
    Available(u32),
    /// One whole frame was read.
    Frame([u8; 16]),
}

/// What the owner of the connection should do next while polling.
#[derive(Debug, Clone, Copy, PartialEq, Eq, Structural)]
pub enum PollAction {
    /// Read exactly one frame (its bytes are known to be waiting).
    ReadFrame,
    /// Ask again how many bytes are waiting.
    CheckAvailable,
    /// A frame failed its checksum (command, received and calculated
    /// checksum): discard all pending input, then ask again how many bytes
    /// are waiting.
    ClearInput(Command, u8, u8),
    /// Caught up with the device: stop until the next tick.
    Done,
}

/// The errors that end a poll: a checksum mismatch is resolved by discarding
/// input, and a partial frame by waiting, so neither of those reaches the
/// caller.
pub open spec fn is_fatal(e: Error) -> bool {
    match e {
        Error::InvalidCommand(_) | Error::InvalidSetting(_, _) | Error::InvalidEnumConversion => true,
        _ => false,
    }
}

/// The report queue after `report` is appended: created if it was absent.
pub open spec fn queue_push(q: Option<Seq<Report>>, report: Report) -> Option<Seq<Report>> {
    match q {
        Some(s) => Some(s.push(report)),
        None => Some(seq![report]),
    }
}

/// One step of polling: the queue afterwards and what to do next.
///
/// Fewer bytes than a frame means caught up; a frame that decodes is queued;
/// a frame with a bad checksum asks for the pending input to be discarded;
/// any other decoding failure ends the poll with that error.
pub open spec fn poll_step_spec(q: Option<Seq<Report>>, event: PollEvent) -> (
    Option<Seq<Report>>,
    Result<PollAction, Error>,
) {
    match event {
        PollEvent::Available(n) => if n < 16 {
            (q, Ok(PollAction::Done))
        } else {
            (q, Ok(PollAction::ReadFrame))
        },
        PollEvent::Frame(f) => match frame_report(f@) {
            Ok(report) => (queue_push(q, report), Ok(PollAction::CheckAvailable)),
            Err(Error::WrongChecksum(c, received, calculated)) => (
                q,
                Ok(PollAction::ClearInput(c, received, calculated)),
            ),
            Err(e) => (q, Err(e)),
        },
    }
}

/// The contents of a drained queue, as a sequence.
pub open spec fn drained_view(r: Option<Vec<Report>>) -> Option<Seq<Report>> {
    match r {
        Some(v) => Some(v@),
        None => None,
    }
}

/// Draining a queue: the queue afterwards, and what was handed out.
pub open spec fn drain_spec(q: Option<Seq<Report>>) -> (Option<Seq<Report>>, Option<Seq<Report>>) {
    (None, q)
}

/// The protocol side of a device session: decides what to do with the bytes
/// that arrive, and keeps the reports decoded since the last drain. The
/// connection itself belongs to the caller.
pub struct Session {
    report_buffer: Option<Vec<Report>>,
}

impl View for Session {
    type V = Option<Seq<Report>>;

    /// The pending reports, absent until the first decode since the last drain.
    closed spec fn view(&self) -> Option<Seq<Report>> {
        drained_view(self.report_buffer)
    }
}

impl Session {
    /// A session with no pending reports.
    pub fn new() -> (r: Session)
        ensures
            r@ is None,
    {
        Session { report_buffer: None }
    }

    /// Hands out the reports decoded since the last drain, or `None` if there
    /// were none, and leaves the queue absent.
    pub fn take_report_buffer(&mut self) -> (r: Option<Vec<Report>>)
        ensures
            (final(self)@, drained_view(r)) == drain_spec(old(self)@),
    {
        self.report_buffer.take()
    }

    /// Takes one polling event and says what to do next; a decoded report is
    /// appended to the queue.
    pub fn poll_step(&mut self, event: PollEvent) -> (r: Result<PollAction, Error>)
        ensures
            (final(self)@, r) == poll_step_spec(old(self)@, event),
            r matches Err(e) ==> is_fatal(e),
    {
        match event {
            PollEvent::Available(n) => {
                if n < 16 {
                    Ok(PollAction::Done)
                } else {
                    Ok(PollAction::ReadFrame)
                }
            },
            PollEvent::Frame(frame) => match parse_frame(&frame) {
                Ok(report) => {
                    match self.report_buffer {
                        Some(ref mut buffer) => buffer.push(report),
                        None => self.report_buffer = Some(vec![report]),
                    }
                    Ok(PollAction::CheckAvailable)
                },
                Err(Error::WrongChecksum(c, received, calculated)) => Ok(
                    PollAction::ClearInput(c, received, calculated),
                ),
                Err(e) => Err(e),
            },
        }
    }
}

/// With fewer bytes waiting than a whole frame, polling stops without error,
/// reads nothing and leaves the queue as it was.
pub proof fn lemma_partial_frame_waits(q: Option<Seq<Report>>, n: u32)
    requires
        n < 16,
    ensures
        poll_step_spec(q, PollEvent::Available(n)) == (q, Ok::<PollAction, Error>(PollAction::Done)),
{
}

/// A frame with a known command but a bad checksum leaves the queue as it
/// was and asks for the input to be discarded; a valid frame that follows is
/// then decoded and queued exactly as if the bad one had never come.
pub proof fn lemma_desync_recovery(q: Option<Seq<Report>>, bad: [u8; 16], good: [u8; 16])
    requires
        command_of_code(bad@[0]) is Some,
        bad@[15] != frame_checksum(bad@),
        frame_report(good@) is Ok,
    ensures
        ({
            let (q1, a1) = poll_step_spec(q, PollEvent::Frame(bad));
            let (q2, a2) = poll_step_spec(q1, PollEvent::Frame(good));
            &&& q1 == q
            &&& a1 == Ok::<PollAction, Error>(
                PollAction::ClearInput(command_of_code(bad@[0]).unwrap(), bad@[15], frame_checksum(bad@)),
            )
            &&& q2 == queue_push(q, frame_report(good@).unwrap())
            &&& a2 == Ok::<PollAction, Error>(PollAction::CheckAvailable)
        }),
{
}

/// After a frame was decoded, draining twice in a row hands out a non-empty
/// queue and then nothing.
pub proof fn lemma_drain_twice(q: Option<Seq<Report>>, good: [u8; 16])
    requires
        frame_report(good@) is Ok,
    ensures
        ({
            let (q1, _) = poll_step_spec(q, PollEvent::Frame(good));
            &&& q1 matches Some(s) && s.len() > 0
            &&& drain_spec(q1) == (None::<Seq<Report>>, q1)
            &&& drain_spec(drain_spec(q1).0) == (None::<Seq<Report>>, None::<Seq<Report>>)
        }),
{
}

} // verus!
