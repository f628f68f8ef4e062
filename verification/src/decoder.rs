//! Translation of raw link bytes into decoded events.
//!
//! The hardware sends single bytes: paddle presses and releases, a
//! periodic heartbeat proving the link is alive, and the bytes of the
//! reboot announcement. The decoder feeds every byte to the reset
//! detector first; a completed announcement becomes a `Reset` event and
//! the byte is consumed. Otherwise the byte is mapped through the
//! protocol table: press and release bytes become events, the heartbeat
//! byte refreshes the liveness timestamp and produces no event, and any
//! other byte is ignored. The decoder also decides, from the timestamp
//! of the last heartbeat, when the link has to be declared dead.

use vstd::prelude::*;

use crate::reset_detector::{do_reset, spec_advance, ResetState};

verus! {

/// A decoded application event, as handed to the paddle state machine.
#[derive(Clone, Copy, PartialEq, Eq, Debug, Structural)]
pub enum Event {
    /// The left paddle was pressed.
    LeftPress,
    /// The left paddle was released.
    LeftRelease,
    /// The right paddle was pressed.
    RightPress,
    /// The right paddle was released.
    RightRelease,
    /// The hardware announced a reboot.
    Reset,
    /// No heartbeat arrived within the timeout; the link is dead.
    Disconnected,
}

/// The byte `{`: left press.
pub const LEFT_PRESS_BYTE: u8 = 123;
/// The byte `}`: right press.
pub const RIGHT_PRESS_BYTE: u8 = 125;
/// The byte `[`: left release.
pub const LEFT_RELEASE_BYTE: u8 = 91;
/// The byte `]`: right release.
pub const RIGHT_RELEASE_BYTE: u8 = 93;
/// The byte `.`: heartbeat.
pub const HEARTBEAT_BYTE: u8 = 46;

/// The protocol table: which event a plain byte stands for, when it is
/// not part of a reboot announcement and not the heartbeat.
pub open spec fn spec_event_of(b: u8) -> Option<Event> {
    if b == LEFT_PRESS_BYTE {
        Some(Event::LeftPress)
    } else if b == RIGHT_PRESS_BYTE {
        Some(Event::RightPress)
    } else if b == LEFT_RELEASE_BYTE {
        Some(Event::LeftRelease)
    } else if b == RIGHT_RELEASE_BYTE {
        Some(Event::RightRelease)
    } else {
        None
    }
}

/// The decoder's state: progress of the reset detector, the timestamp
/// of the last heartbeat, and the liveness timeout. Timestamps are
/// milliseconds on whatever monotonic clock the caller reads.
#[derive(Clone, Copy, PartialEq, Eq, Debug, Structural)]
pub struct SerialDecoder {
    /// Progress of the reset detector through the announcement.
    pub reset_state: ResetState,
    /// When the last heartbeat byte was observed, in milliseconds.
    pub last_heartbeat_ms: u64,
    /// How long the link may stay silent before it is declared dead.
    pub timeout_ms: u64,
}

/// One decoding step: the decoder after consuming `b` at time `now`,
/// and the event the byte produced, if any.
pub open spec fn spec_decode(d: SerialDecoder, b: u8, now: u64) -> (SerialDecoder, Option<
    Event,
>) {
    let (st, matched) = spec_advance(d.reset_state, b);
    let d1 = SerialDecoder { reset_state: st, ..d };
    if matched {
        (d1, Some(Event::Reset))
    } else if b == HEARTBEAT_BYTE {
        (SerialDecoder { last_heartbeat_ms: now, ..d1 }, None)
    } else {
        (d1, spec_event_of(b))
    }
}

/// Whether the link is dead at time `now`: the time elapsed since the
/// last heartbeat exceeds the timeout.
pub open spec fn spec_timed_out(d: SerialDecoder, now: u64) -> bool {
    now >= d.last_heartbeat_ms && now - d.last_heartbeat_ms > d.timeout_ms
}

impl SerialDecoder {
    /// A fresh decoder: no detector progress, and the clock for the
    /// first heartbeat starts at `now_ms`.
    pub fn new(now_ms: u64, timeout_ms: u64) -> (r: SerialDecoder)
        ensures
            r == (SerialDecoder {
                reset_state: ResetState::Idle,
                last_heartbeat_ms: now_ms,
                timeout_ms,
            }),
    {
        SerialDecoder { reset_state: ResetState::Idle, last_heartbeat_ms: now_ms, timeout_ms }
    }

    /// Whether the link is dead at time `now_ms`. When this holds, the
    /// reader emits `Disconnected` once and stops for good.
    pub fn timed_out(&self, now_ms: u64) -> (r: bool)
        ensures
            r == spec_timed_out(*self, now_ms),
    {
        now_ms >= self.last_heartbeat_ms && now_ms - self.last_heartbeat_ms > self.timeout_ms
    }

    /// Consume one byte read from the link at time `now_ms` and return
    /// the event it decodes to, if any.
    pub fn decode_byte(&mut self, b: u8, now_ms: u64) -> (r: Option<Event>)
        ensures
            (*final(self), r) == spec_decode(*old(self), b, now_ms),
    {
        if do_reset(b, &mut self.reset_state) {
            return Some(Event::Reset);
        }
        match b {
            LEFT_PRESS_BYTE => Some(Event::LeftPress),
            RIGHT_PRESS_BYTE => Some(Event::RightPress),
            LEFT_RELEASE_BYTE => Some(Event::LeftRelease),
            RIGHT_RELEASE_BYTE => Some(Event::RightRelease),
            HEARTBEAT_BYTE => {
                self.last_heartbeat_ms = now_ms;
                None
            },
            _ => None,
        }
    }
}

/// A heartbeat byte never decodes to an event and always refreshes the
/// liveness timestamp, whatever state the decoder is in.
pub proof fn lemma_heartbeat(d: SerialDecoder, now: u64)
    ensures
        spec_decode(d, HEARTBEAT_BYTE, now).1 is None,
        spec_decode(d, HEARTBEAT_BYTE, now).0.last_heartbeat_ms == now,
{
}

} // verus!
