//! One capture, as a sequence of decisions.
//!
//! A session asks its host for one piece of platform work at a time and is
//! told how it went. It never touches the platform itself.

use crate::encode::{encode_frame, encodes, lemma_same_pixels_same_png, rgba8_png};
use crate::error::CaptureError;
use crate::frame::PixelBuffer;
use crate::png::declares_rgba8;
use crate::region::{CaptureRequest, Region};
use vstd::prelude::*;

verus! {

/// How far a capture has come.
#[derive(Debug, PartialEq, Eq)]
pub enum Phase {
    /// The monitors have yet to be listed.
    Enumerating,
    /// Monitor `monitor` of `count` is being asked whether it is the
    /// primary one; those before it are not.
    Probing { monitor: usize, count: usize },
    /// Monitor `monitor` of `count` is the primary one and the region is
    /// being grabbed from it.
    Grabbing { monitor: usize, count: usize },
    /// The capture is encoded and is being written to `path`.
    Saving { path: String, bytes: Vec<u8> },
    /// The capture is over: these are its PNG bytes.
    Done { bytes: Vec<u8> },
    /// The capture is over: it failed.
    Failed { error: CaptureError },
}

/// The platform work that a session waits for.
#[derive(Clone, Copy, Debug, PartialEq, Eq)]
pub enum Action<'a> {
    /// List the monitors.
    Enumerate,
    /// Ask one monitor whether it is the primary one.
    QueryPrimary { monitor: usize },
    /// Grab a region from one monitor.
    Grab { monitor: usize, region: Region },
    /// Create or truncate the file at `path` and write `bytes` to it.
    Write { path: &'a String, bytes: &'a Vec<u8> },
    /// Nothing: the capture is over and its outcome can be taken.
    Finish,
}

/// How a piece of platform work went.
#[derive(Debug, PartialEq, Eq)]
pub enum Event {
    /// The monitors were listed, and so many there are; or the platform's
    /// message where it could not list them.
    Enumerated(Result<usize, String>),
    /// What a monitor said of being the primary one; `None` where it could
    /// not be asked.
    PrimaryAnswer(Option<bool>),
    /// The frame that was grabbed, or the platform's message where none was.
    Grabbed(Result<PixelBuffer, String>),
    /// The file was written, or the platform's message where it was not.
    Written(Result<(), String>),
}

/// One capture of a region of the primary monitor, with an optional file to
/// write the result to.
#[derive(Debug, PartialEq, Eq)]
pub struct Session {
    pub request: CaptureRequest,
    pub save_path: Option<String>,
    pub phase: Phase,
}

impl Phase {
    /// Two phases stand at the same point with the same contents: the same
    /// monitor, the same path, the same bytes, errors that say the same.
    pub open spec fn alike(self, other: Phase) -> bool {
        match (self, other) {
            (Phase::Enumerating, Phase::Enumerating) => true,
            (Phase::Probing { monitor: m, count: c }, Phase::Probing { monitor: n, count: d }) => m
                == n && c == d,
            (
                Phase::Grabbing { monitor: m, count: c },
                Phase::Grabbing { monitor: n, count: d },
            ) => m == n && c == d,
            (Phase::Saving { path: p, bytes: a }, Phase::Saving { path: q, bytes: b }) => p@ == q@
                && a@ == b@,
            (Phase::Done { bytes: a }, Phase::Done { bytes: b }) => a@ == b@,
            (Phase::Failed { error: e }, Phase::Failed { error: f }) => e.alike(f),
            _ => false,
        }
    }
}

impl Event {
    /// Two events tell the same: the same count, the same answer, frames
    /// that show the same picture, the same platform message.
    pub open spec fn alike(self, other: Event) -> bool {
        match (self, other) {
            (Event::Enumerated(Ok(a)), Event::Enumerated(Ok(b))) => a == b,
            (Event::Enumerated(Err(a)), Event::Enumerated(Err(b))) => a@ == b@,
            (Event::PrimaryAnswer(a), Event::PrimaryAnswer(b)) => a == b,
            (Event::Grabbed(Ok(a)), Event::Grabbed(Ok(b))) => a.same_pixels(b),
            (Event::Grabbed(Err(a)), Event::Grabbed(Err(b))) => a@ == b@,
            (Event::Written(Ok(_)), Event::Written(Ok(_))) => true,
            (Event::Written(Err(a)), Event::Written(Err(b))) => a@ == b@,
            _ => false,
        }
    }
}

impl Session {
    /// Two sessions are captures of the same request, to the same file, at
    /// the same point.
    pub open spec fn alike(self, other: Session) -> bool {
        &&& self.request == other.request
        &&& match (self.save_path, other.save_path) {
            (Some(p), Some(q)) => p@ == q@,
            (None, None) => true,
            _ => false,
        }
        &&& self.phase.alike(other.phase)
    }

    /// The phase in which monitor `monitor` of `count` is next to be asked:
    /// with none left to ask, no primary monitor was found.
    pub open spec fn probe(monitor: int, count: usize) -> Phase {
        if 0 <= monitor < count {
            Phase::Probing { monitor: monitor as usize, count }
        } else {
            Phase::Failed { error: CaptureError::NoPrimaryMonitor }
        }
    }

    /// What holds of every session that a capture passes through: a monitor
    /// that is asked or grabbed from is one of those that were listed, and a
    /// file that is written is the one that was asked for.
    pub open spec fn well_formed(self) -> bool {
        match self.phase {
            Phase::Probing { monitor, count } => monitor < count,
            Phase::Grabbing { monitor, count } => monitor < count,
            Phase::Saving { path, .. } => self.save_path == Some(path),
            _ => true,
        }
    }

    /// The PNG bytes that the capture has produced so far, if any.
    pub open spec fn output(self) -> Option<Seq<u8>> {
        match self.phase {
            Phase::Saving { bytes, .. } => Some(bytes@),
            Phase::Done { bytes } => Some(bytes@),
            _ => None,
        }
    }

    /// The capture is over, one way or the other.
    pub open spec fn finished(self) -> bool {
        self.phase is Done || self.phase is Failed
    }

    /// The work this session waits for.
    pub open spec fn pending(self) -> Action<'static> {
        match self.phase {
            Phase::Enumerating => Action::Enumerate,
            Phase::Probing { monitor, .. } => Action::QueryPrimary { monitor },
            Phase::Grabbing { monitor, .. } => Action::Grab {
                monitor,
                region: self.request.region(),
            },
            Phase::Saving { path, bytes } => Action::Write { path: &path, bytes: &bytes },
            Phase::Done { .. } => Action::Finish,
            Phase::Failed { .. } => Action::Finish,
        }
    }

    /// `next` is what this session becomes on `event`.
    ///
    /// An event that does not answer the pending work changes nothing. All
    /// is fixed by the session and the event but the message of an error
    /// that the encoder reports.
    pub open spec fn advances(self, event: Event, next: Session) -> bool {
        &&& next.request == self.request
        &&& next.save_path == self.save_path
        &&& match (self.phase, event) {
            (Phase::Enumerating, Event::Enumerated(Ok(count))) => next.phase == Self::probe(
                0,
                count,
            ),
            (Phase::Enumerating, Event::Enumerated(Err(message))) => next.phase == (Phase::Failed {
                error: CaptureError::Enumeration(message),
            }),
            (Phase::Probing { monitor, count }, Event::PrimaryAnswer(answer)) => if answer == Some(
                true,
            ) {
                next.phase == (Phase::Grabbing { monitor, count })
            } else {
                next.phase == Self::probe(monitor + 1, count)
            },
            (Phase::Grabbing { .. }, Event::Grabbed(Ok(frame))) => match next.phase {
                Phase::Saving { path, bytes } => self.save_path == Some(path) && rgba8_png(frame)
                    == Some(bytes@),
                Phase::Done { bytes } => self.save_path is None && rgba8_png(frame) == Some(
                    bytes@,
                ),
                Phase::Failed { error: CaptureError::Encoding(failure) } => encodes(
                    frame,
                    Err(failure),
                ),
                _ => false,
            },
            (Phase::Grabbing { .. }, Event::Grabbed(Err(message))) => next.phase == (Phase::Failed {
                error: CaptureError::Capture(message),
            }),
            (Phase::Saving { bytes, .. }, Event::Written(Ok(_))) => next.phase == (Phase::Done {
                bytes,
            }),
            (Phase::Saving { .. }, Event::Written(Err(message))) => next.phase == (Phase::Failed {
                error: CaptureError::Persistence(message),
            }),
            _ => next.phase == self.phase,
        }
    }

    /// Starts a capture: nothing has been done yet.
    pub fn new(request: CaptureRequest, save_path: Option<String>) -> (s: Session)
        ensures
            s.request == request,
            s.save_path == save_path,
            s.phase == Phase::Enumerating,
            s.well_formed(),
    {
        Session { request, save_path, phase: Phase::Enumerating }
    }

    /// Tells whether the capture is over.
    pub fn is_finished(&self) -> (b: bool)
        ensures
            b == self.finished(),
    {
        match &self.phase {
            Phase::Done { .. } => true,
            Phase::Failed { .. } => true,
            _ => false,
        }
    }

    /// The work that the host is to do next.
    pub fn next_action(&self) -> (a: Action<'_>)
        ensures
            a == self.pending(),
    {
        match &self.phase {
            Phase::Enumerating => Action::Enumerate,
            Phase::Probing { monitor, .. } => Action::QueryPrimary { monitor: *monitor },
            Phase::Grabbing { monitor, .. } => Action::Grab {
                monitor: *monitor,
                region: self.request.resolve(),
            },
            Phase::Saving { path, bytes } => Action::Write { path, bytes },
            Phase::Done { .. } => Action::Finish,
            Phase::Failed { .. } => Action::Finish,
        }
    }

    /// Takes in how the pending work went and moves on.
    pub fn handle(self, event: Event) -> (next: Session)
        ensures
            self.advances(event, next),
            self.well_formed() ==> next.well_formed(),
    {
        let Session { request, save_path, phase } = self;
        let phase = match (phase, event) {
            (Phase::Enumerating, Event::Enumerated(Ok(count))) => {
                if count > 0 {
                    Phase::Probing { monitor: 0, count }
                } else {
                    Phase::Failed { error: CaptureError::NoPrimaryMonitor }
                }
            },
            (Phase::Enumerating, Event::Enumerated(Err(message))) => Phase::Failed {
                error: CaptureError::Enumeration(message),
            },
            (Phase::Probing { monitor, count }, Event::PrimaryAnswer(answer)) => {
                let primary = match answer {
                    Some(flag) => flag,
                    None => false,
                };
                if primary {
                    Phase::Grabbing { monitor, count }
                } else if monitor < count && monitor + 1 < count {
                    Phase::Probing { monitor: monitor + 1, count }
                } else {
                    Phase::Failed { error: CaptureError::NoPrimaryMonitor }
                }
            },
            (Phase::Grabbing { .. }, Event::Grabbed(Ok(frame))) => {
                match encode_frame(frame) {
                    Ok(bytes) => match &save_path {
                        Some(path) => Phase::Saving { path: path.clone(), bytes },
                        None => Phase::Done { bytes },
                    },
                    Err(failure) => Phase::Failed { error: CaptureError::Encoding(failure) },
                }
            },
            (Phase::Grabbing { .. }, Event::Grabbed(Err(message))) => Phase::Failed {
                error: CaptureError::Capture(message),
            },
            (Phase::Saving { bytes, .. }, Event::Written(Ok(_))) => Phase::Done { bytes },
            (Phase::Saving { .. }, Event::Written(Err(message))) => Phase::Failed {
                error: CaptureError::Persistence(message),
            },
            (phase, _) => phase,
        };
        Session { request, save_path, phase }
    }

    /// What the capture came to, once it is over: its PNG bytes or its
    /// error. `None` while work is pending.
    pub fn into_outcome(self) -> (r: Option<Result<Vec<u8>, CaptureError>>)
        ensures
            r is Some <==> self.finished(),
            self.phase matches Phase::Done { bytes } ==> r == Some(
                Ok::<Vec<u8>, CaptureError>(bytes),
            ),
            self.phase matches Phase::Failed { error } ==> r == Some(
                Err::<Vec<u8>, CaptureError>(error),
            ),
    {
        match self.phase {
            Phase::Done { bytes } => Some(Ok(bytes)),
            Phase::Failed { error } => Some(Err(error)),
            _ => None,
        }
    }
}

/// A step keeps a session well formed.
pub proof fn lemma_step_keeps_well_formed(s: Session, event: Event, next: Session)
    requires
        s.well_formed(),
        s.advances(event, next),
    ensures
        next.well_formed(),
{
}

/// Once a capture is over, no event changes it: nothing is tried again, and
/// its outcome stays what it was.
pub proof fn lemma_finished_is_final(s: Session, event: Event, next: Session)
    requires
        s.finished(),
        s.advances(event, next),
    ensures
        next == s,
        next.pending() == Action::Finish,
{
}

/// The bytes of a capture are those of the grabbed frame, encoded with the
/// frame's own dimensions: whatever bytes a session holds after a frame
/// came in open as a PNG that declares the frame's width and height with
/// four channels of eight bits. Where there are none, the capture has
/// failed on the encoding.
pub proof fn lemma_output_declares_frame(s: Session, frame: PixelBuffer, next: Session)
    requires
        s.phase is Grabbing,
        s.advances(Event::Grabbed(Ok(frame)), next),
    ensures
        next.output() == rgba8_png(frame),
        next.output() matches Some(bytes) ==> declares_rgba8(bytes, frame.width, frame.height),
        next.output() is None ==> next.phase matches Phase::Failed {
            error: CaptureError::Encoding(_),
        },
        s.save_path is None ==> next.finished(),
{
}

/// Bytes that a capture has produced are never changed: a step either
/// keeps them or, where writing them failed, ends the capture with that
/// error.
pub proof fn lemma_output_is_kept(s: Session, event: Event, next: Session)
    requires
        s.output() is Some,
        s.advances(event, next),
    ensures
        (match (s.phase, event) {
            (Phase::Saving { .. }, Event::Written(Err(message))) => next.phase == (Phase::Failed {
                error: CaptureError::Persistence(message),
            }),
            (Phase::Saving { .. }, Event::Written(Ok(_))) => next.phase is Done && next.output()
                == s.output(),
            _ => next == s,
        }),
{
}

/// Captures of the same pixels give the same bytes, whatever was asked for
/// and wherever the result goes: two sessions that are handed frames of
/// equal dimensions and equal pixels both produce the same PNG, or both
/// fail on the encoding.
pub proof fn lemma_same_pixels_same_bytes(
    a: Session,
    b: Session,
    frame_a: PixelBuffer,
    frame_b: PixelBuffer,
    next_a: Session,
    next_b: Session,
)
    requires
        a.phase is Grabbing,
        b.phase is Grabbing,
        frame_a.same_pixels(frame_b),
        a.advances(Event::Grabbed(Ok(frame_a)), next_a),
        b.advances(Event::Grabbed(Ok(frame_b)), next_b),
    ensures
        next_a.output() == next_b.output(),
        next_a.phase is Failed <==> next_b.phase is Failed,
{
    lemma_same_pixels_same_png(frame_a, frame_b);
}

/// A capture is decided by what it is asked and what it is told: sessions
/// that are alike and are told alike things become sessions that are alike.
pub proof fn lemma_alike_steps_stay_alike(
    a: Session,
    b: Session,
    event_a: Event,
    event_b: Event,
    next_a: Session,
    next_b: Session,
)
    requires
        a.alike(b),
        event_a.alike(event_b),
        a.advances(event_a, next_a),
        b.advances(event_b, next_b),
    ensures
        next_a.alike(next_b),
        next_a.output() == next_b.output(),
{
    if a.phase is Grabbing {
        if let Event::Grabbed(Ok(frame_a)) = event_a {
            if let Event::Grabbed(Ok(frame_b)) = event_b {
                lemma_same_pixels_same_png(frame_a, frame_b);
            }
        }
    }
}

/// A failed save ends the capture with that error and leaves the capture
/// itself alone: the bytes that were to be written are those that the
/// capture returns where no file is asked for, and nothing is grabbed or
/// encoded again.
pub proof fn lemma_failed_save_leaves_capture_alone(
    plain: Session,
    saving: Session,
    frame: PixelBuffer,
    captured: Session,
    written: Session,
    message: String,
    failed: Session,
)
    requires
        plain.phase is Grabbing,
        saving.phase is Grabbing,
        plain.save_path is None,
        saving.save_path is Some,
        rgba8_png(frame) is Some,
        plain.advances(Event::Grabbed(Ok(frame)), captured),
        saving.advances(Event::Grabbed(Ok(frame)), written),
        written.advances(Event::Written(Err(message)), failed),
    ensures
        captured.phase matches Phase::Done { bytes } && Some(bytes@) == rgba8_png(frame),
        written.pending() matches Action::Write { path, bytes } && Some(*path) == saving.save_path
            && Some(bytes@) == rgba8_png(frame),
        failed.phase == (Phase::Failed { error: CaptureError::Persistence(message) }),
        failed.pending() == Action::Finish,
{
}

} // verus!
