//! The session of one connection: its phases, the heartbeat that keeps it
//! alive, and what it does with each frame that arrives.
//!
//! The session decides; it sends nothing itself. Whoever owns the connection
//! feeds it the frames and the timer ticks, with the time on a monotonic
//! clock in nanoseconds, and carries out what it answers. Answering a probe
//! of the peer is left to the transport: to the session a probe is a sign of
//! life and nothing more.

use vstd::prelude::*;
use crate::fault::Fault;
use crate::message::{asked_by, RawAction, UploadAction, UploadActionView};

verus! {

/// How often the liveness of the peer is checked, in nanoseconds.
pub const HEARTBEAT_INTERVAL: u64 = 5_000_000_000;

/// How long the peer may stay silent before it is dropped, in nanoseconds.
pub const CLIENT_TIMEOUT: u64 = 10_000_000_000;

/// The phases of a session.
#[derive(Clone, Copy, Debug, PartialEq, Eq, Structural)]
pub enum Phase {
    /// The handshake is not done yet.
    Connecting,
    /// Frames are processed and the heartbeat runs.
    Active,
    /// The peer asked to close; the close is being echoed.
    Closing,
    /// The connection is gone. Nothing leads out of this phase.
    Terminated,
}

/// The state of one connection.
#[derive(Clone, Copy, Debug, PartialEq, Eq, Structural)]
pub struct Session {
    pub phase: Phase,
    /// When the peer last gave a sign of life.
    pub last_heartbeat: u64,
}

/// A frame that arrived on the connection.
#[derive(Clone, Debug, PartialEq, Eq)]
pub enum Frame {
    /// A liveness probe from the peer.
    Ping,
    /// The peer's answer to a liveness probe.
    Pong,
    /// A data frame: the fields of the request it holds, or `None` where it
    /// could not be decoded.
    Text(Option<RawAction>),
    /// The peer asks to close the connection.
    Close,
    /// Any other kind of frame, or an error of the transport.
    Other,
}

/// What a timer tick asks for.
#[derive(Clone, Copy, Debug, PartialEq, Eq, Structural)]
pub enum Beat {
    /// Send a liveness probe to the peer.
    Probe,
    /// The peer timed out: drop the connection, send nothing more.
    Stop,
    /// The session is not active: do nothing.
    Nothing,
}

/// What a frame asks for.
#[derive(Clone, Debug, PartialEq, Eq)]
pub enum Reaction {
    /// Do nothing.
    Nothing,
    /// Send this text to the peer.
    Notice(&'static str),
    /// Store this upload and answer with its download link.
    Upload(UploadAction),
    /// Echo the close to the peer, then report that the connection closed.
    Close,
    /// Drop the connection.
    Stop,
}

/// A reaction by its contents.
pub enum ReactionView {
    Nothing,
    Notice(Seq<char>),
    Upload(UploadActionView),
    Close,
    Stop,
}

impl View for Reaction {
    type V = ReactionView;

    open spec fn view(&self) -> ReactionView {
        match *self {
            Reaction::Nothing => ReactionView::Nothing,
            Reaction::Notice(text) => ReactionView::Notice(text@),
            Reaction::Upload(action) => ReactionView::Upload(action@),
            Reaction::Close => ReactionView::Close,
            Reaction::Stop => ReactionView::Stop,
        }
    }
}

/// The time from `since` to `now`; zero where `now` is the earlier.
pub open spec fn elapsed(since: u64, now: u64) -> int {
    if now >= since {
        now - since
    } else {
        0
    }
}

impl Frame {
    /// Whether the frame is a sign of life.
    pub open spec fn is_liveness(&self) -> bool {
        *self is Ping || *self is Pong
    }

    /// The phase that an active session is in after the frame.
    pub open spec fn leads_to(&self) -> Phase {
        match *self {
            Frame::Close => Phase::Closing,
            Frame::Other => Phase::Terminated,
            _ => Phase::Active,
        }
    }

    /// What an active session answers to the frame.
    pub open spec fn answer(&self) -> ReactionView {
        match *self {
            Frame::Ping => ReactionView::Nothing,
            Frame::Pong => ReactionView::Nothing,
            Frame::Text(content) => match asked_by(content) {
                Ok(action) => ReactionView::Upload(action),
                Err(fault) => match fault.notice_text() {
                    Some(text) => ReactionView::Notice(text),
                    None => ReactionView::Nothing,
                },
            },
            Frame::Close => ReactionView::Close,
            Frame::Other => ReactionView::Stop,
        }
    }
}

impl Session {
    /// Whether the peer has been silent for longer than the timeout at `now`.
    pub open spec fn timed_out(&self, now: u64) -> bool {
        elapsed(self.last_heartbeat, now) > CLIENT_TIMEOUT
    }

    /// The session after a timer tick at `now`.
    pub open spec fn after_beat(&self, now: u64) -> Session {
        if self.phase == Phase::Active && self.timed_out(now) {
            Session { phase: Phase::Terminated, last_heartbeat: self.last_heartbeat }
        } else {
            *self
        }
    }

    /// What a timer tick at `now` asks for.
    pub open spec fn beat_at(&self, now: u64) -> Beat {
        if self.phase != Phase::Active {
            Beat::Nothing
        } else if self.timed_out(now) {
            Beat::Stop
        } else {
            Beat::Probe
        }
    }

    /// The session after `frame` arrived at `now`.
    pub open spec fn after_frame(&self, frame: Frame, now: u64) -> Session {
        if self.phase != Phase::Active {
            *self
        } else {
            Session {
                phase: frame.leads_to(),
                last_heartbeat: if frame.is_liveness() {
                    now
                } else {
                    self.last_heartbeat
                },
            }
        }
    }

    /// What the session answers to `frame`.
    pub open spec fn reaction_to(&self, frame: Frame) -> ReactionView {
        if self.phase != Phase::Active {
            ReactionView::Nothing
        } else {
            frame.answer()
        }
    }

    /// The session of a connection that was accepted at `now` and has not
    /// finished its handshake.
    pub fn new(now: u64) -> (s: Session)
        ensures
            s == (Session { phase: Phase::Connecting, last_heartbeat: now }),
    {
        Session { phase: Phase::Connecting, last_heartbeat: now }
    }

    /// The handshake succeeded at `now`: a connecting session becomes active
    /// and counts the peer's silence from `now`. The caller then schedules a
    /// tick every `HEARTBEAT_INTERVAL`. In any other phase nothing changes.
    pub fn started(&mut self, now: u64)
        ensures
            *final(self) == if old(self).phase == Phase::Connecting {
                Session { phase: Phase::Active, last_heartbeat: now }
            } else {
                *old(self)
            },
    {
        if self.phase == Phase::Connecting {
            self.phase = Phase::Active;
            self.last_heartbeat = now;
        }
    }

    /// Whether the peer is in time at `now`: a heartbeat timeout where it has
    /// been silent for longer than `CLIENT_TIMEOUT`.
    pub fn liveness(&self, now: u64) -> (r: Result<(), Fault>)
        ensures
            r is Err == self.timed_out(now),
            r is Err ==> r->Err_0 == Fault::HeartbeatTimeout,
    {
        let silent: u64 = if now >= self.last_heartbeat {
            now - self.last_heartbeat
        } else {
            0
        };
        if silent > CLIENT_TIMEOUT {
            Err(Fault::HeartbeatTimeout)
        } else {
            Ok(())
        }
    }

    /// A timer tick at `now`. An active session whose peer has been silent
    /// for longer than `CLIENT_TIMEOUT` terminates and asks to drop the
    /// connection without a further probe; otherwise it asks for a probe.
    pub fn heartbeat(&mut self, now: u64) -> (beat: Beat)
        ensures
            *final(self) == old(self).after_beat(now),
            beat == old(self).beat_at(now),
    {
        if self.phase != Phase::Active {
            return Beat::Nothing;
        }
        match self.liveness(now) {
            Err(_) => {
                self.phase = Phase::Terminated;
                Beat::Stop
            },
            Ok(_) => Beat::Probe,
        }
    }

    /// A frame arrived at `now`. Only an active session reacts: a probe or
    /// its answer renews the heartbeat; a data frame is answered with the
    /// upload it asks for, or with the notice of its fault where it cannot
    /// be decoded, names no known kind or asks for a name that is no plain
    /// file name, and the session stays active; a close is echoed
    /// and the session is closing; anything else terminates it.
    pub fn handle(&mut self, frame: Frame, now: u64) -> (reaction: Reaction)
        ensures
            *final(self) == old(self).after_frame(frame, now),
            reaction@ == old(self).reaction_to(frame),
    {
        if self.phase != Phase::Active {
            return Reaction::Nothing;
        }
        match frame {
            Frame::Ping => {
                self.last_heartbeat = now;
                Reaction::Nothing
            },
            Frame::Pong => {
                self.last_heartbeat = now;
                Reaction::Nothing
            },
            Frame::Text(content) => match UploadAction::from_frame(content) {
                Ok(action) => Reaction::Upload(action),
                Err(fault) => match fault.notice() {
                    Some(text) => Reaction::Notice(text),
                    None => Reaction::Nothing,
                },
            },
            Frame::Close => {
                self.phase = Phase::Closing;
                Reaction::Close
            },
            Frame::Other => {
                self.phase = Phase::Terminated;
                Reaction::Stop
            },
        }
    }

    /// The close was echoed: a closing session terminates. In any other
    /// phase nothing changes.
    pub fn closed(&mut self)
        ensures
            *final(self) == if old(self).phase == Phase::Closing {
                Session { phase: Phase::Terminated, last_heartbeat: old(self).last_heartbeat }
            } else {
                *old(self)
            },
    {
        if self.phase == Phase::Closing {
            self.phase = Phase::Terminated;
        }
    }
}

} // verus!
