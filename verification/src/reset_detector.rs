//! Detector for the reboot announcement embedded in the serial stream.
//!
//! When the hardware restarts it sends the fixed byte sequence
//! `\n \n R E A D Y \n \n` in the middle of the ordinary byte stream.
//! The detector is a small finite-state machine that consumes one byte
//! at a time, reports a match exactly on the byte completing the
//! sequence, and collapses back to its initial state on any byte that
//! does not continue the expected chain from the current position.

use vstd::prelude::*;

verus! {

/// The newline byte, `\n`.
pub const NEWLINE: u8 = 10;
/// The byte `R`.
pub const UPPER_R: u8 = 82;
/// The byte `E`.
pub const UPPER_E: u8 = 69;
/// The byte `A`.
pub const UPPER_A: u8 = 65;
/// The byte `D`.
pub const UPPER_D: u8 = 68;
/// The byte `Y`.
pub const UPPER_Y: u8 = 89;

/// The reboot-announcement sequence, byte by byte: `\n \n R E A D Y \n \n`.
pub open spec fn ready_seq() -> Seq<u8> {
    seq![NEWLINE, NEWLINE, UPPER_R, UPPER_E, UPPER_A, UPPER_D, UPPER_Y, NEWLINE, NEWLINE]
}

/// Position along the reboot-announcement sequence: how many bytes of
/// the sequence have been seen, in order, ending at the current byte.
#[derive(Clone, Copy, PartialEq, Eq, Debug, Structural)]
pub enum ResetState {
    /// No progress into the sequence.
    Idle,
    /// Seen the first newline.
    Newline1,
    /// Seen both leading newlines.
    Newline2,
    /// Seen up to `R`.
    SawR,
    /// Seen up to `E`.
    SawE,
    /// Seen up to `A`.
    SawA,
    /// Seen up to `D`.
    SawD,
    /// Seen up to `Y`.
    SawY,
    /// Seen up to the first trailing newline; one newline left.
    Newline3,
}

/// How many bytes of the sequence the state stands for.
pub open spec fn progress(s: ResetState) -> nat {
    match s {
        ResetState::Idle => 0,
        ResetState::Newline1 => 1,
        ResetState::Newline2 => 2,
        ResetState::SawR => 3,
        ResetState::SawE => 4,
        ResetState::SawA => 5,
        ResetState::SawD => 6,
        ResetState::SawY => 7,
        ResetState::Newline3 => 8,
    }
}

/// The state standing for `p` bytes of progress.
pub open spec fn state_at(p: nat) -> ResetState {
    if p == 0 { ResetState::Idle }
    else if p == 1 { ResetState::Newline1 }
    else if p == 2 { ResetState::Newline2 }
    else if p == 3 { ResetState::SawR }
    else if p == 4 { ResetState::SawE }
    else if p == 5 { ResetState::SawA }
    else if p == 6 { ResetState::SawD }
    else if p == 7 { ResetState::SawY }
    else { ResetState::Newline3 }
}

/// One step of the detector: the next state and whether this byte
/// completed the sequence. A byte that continues the chain advances
/// the position; the byte completing the sequence reports a match and
/// returns the machine to its initial state, ready for the next
/// announcement; any other byte collapses to the initial state.
pub open spec fn spec_advance(s: ResetState, b: u8) -> (ResetState, bool) {
    if s == ResetState::Newline3 && b == ready_seq()[8] {
        (ResetState::Idle, true)
    } else if progress(s) < 8 && b == ready_seq()[progress(s) as int] {
        (state_at(progress(s) + 1), false)
    } else {
        (ResetState::Idle, false)
    }
}

/// Feed one byte to the detector. Returns true exactly when this byte
/// completes the reboot-announcement sequence; the state is then back
/// at its initial value so a subsequent announcement is detected too.
pub fn do_reset(read: u8, last: &mut ResetState) -> (matched: bool)
    ensures
        (*final(last), matched) == spec_advance(*old(last), read),
{
    let (next, matched): (ResetState, bool) = match (*last, read) {
        (ResetState::Idle, NEWLINE) => (ResetState::Newline1, false),
        (ResetState::Newline1, NEWLINE) => (ResetState::Newline2, false),
        (ResetState::Newline2, UPPER_R) => (ResetState::SawR, false),
        (ResetState::SawR, UPPER_E) => (ResetState::SawE, false),
        (ResetState::SawE, UPPER_A) => (ResetState::SawA, false),
        (ResetState::SawA, UPPER_D) => (ResetState::SawD, false),
        (ResetState::SawD, UPPER_Y) => (ResetState::SawY, false),
        (ResetState::SawY, NEWLINE) => (ResetState::Newline3, false),
        (ResetState::Newline3, NEWLINE) => (ResetState::Idle, true),
        (_, _) => (ResetState::Idle, false),
    };
    *last = next;
    matched
}

/// Detector state after consuming `bytes`, one at a time, starting
/// from the initial state.
pub open spec fn run_state(bytes: Seq<u8>) -> ResetState
    decreases bytes.len(),
{
    if bytes.len() == 0 {
        ResetState::Idle
    } else {
        spec_advance(run_state(bytes.drop_last()), bytes.last()).0
    }
}

/// How many matches the detector reports while consuming `bytes`,
/// starting from the initial state.
pub open spec fn match_count(bytes: Seq<u8>) -> nat
    decreases bytes.len(),
{
    if bytes.len() == 0 {
        0
    } else {
        match_count(bytes.drop_last()) + (
            if spec_advance(run_state(bytes.drop_last()), bytes.last()).1 {
                1nat
            } else {
                0nat
            }
        )
    }
}

/// Whether `bytes` holds the reboot announcement as a contiguous run.
pub open spec fn contains_ready(bytes: Seq<u8>) -> bool {
    exists|i: int|
        0 <= i && i + 9 <= bytes.len() && #[trigger] bytes.subrange(i, i + 9) == ready_seq()
}

/// The detector's progress never exceeds the number of bytes consumed,
/// and the bytes it stands for are exactly the announcement's prefix of
/// that length, ending at the last byte consumed.
pub proof fn lemma_progress_matches_suffix(bytes: Seq<u8>)
    ensures
        progress(run_state(bytes)) <= bytes.len(),
        bytes.skip(bytes.len() - progress(run_state(bytes))) =~= ready_seq().take(
            progress(run_state(bytes)) as int,
        ),
    decreases bytes.len(),
{
    if bytes.len() > 0 {
        let prefix = bytes.drop_last();
        let b = bytes.last();
        lemma_progress_matches_suffix(prefix);
        let s = run_state(prefix);
        let p = progress(s) as int;
        if s != ResetState::Newline3 && p < 8 && b == ready_seq()[p] {
            assert(bytes.skip(bytes.len() - (p + 1)) =~= ready_seq().take(p + 1)) by {
                assert(forall|j: int|
                    0 <= j < p + 1 ==> #[trigger] bytes.skip(bytes.len() - (p + 1))[j]
                        == ready_seq().take(p + 1)[j]) by {
                    assert(forall|j: int|
                        0 <= j < p ==> #[trigger] prefix.skip(prefix.len() - p)[j]
                            == ready_seq().take(p)[j]);
                }
            }
        }
    }
}

/// A reported match always means the announcement just ended: the nine
/// bytes ending at the matching byte are exactly the sequence.
pub proof fn lemma_match_sees_ready(prefix: Seq<u8>, b: u8)
    requires
        spec_advance(run_state(prefix), b).1,
    ensures
        prefix.len() >= 8,
        prefix.push(b).subrange(prefix.len() - 8, prefix.len() + 1int) =~= ready_seq(),
{
    lemma_progress_matches_suffix(prefix);
    assert(prefix.skip(prefix.len() - 8) =~= ready_seq().take(8));
    assert(prefix.push(b).subrange(prefix.len() - 8, prefix.len() + 1int) =~= prefix.skip(
        prefix.len() - 8,
    ).push(b));
    assert(ready_seq().take(8).push(ready_seq()[8]) =~= ready_seq());
}

/// A stream that does not hold the reboot announcement as a contiguous
/// run never produces a match, however the other bytes are arranged.
pub proof fn lemma_no_ready_no_match(bytes: Seq<u8>)
    requires
        !contains_ready(bytes),
    ensures
        match_count(bytes) == 0,
    decreases bytes.len(),
{
    if bytes.len() > 0 {
        let prefix = bytes.drop_last();
        let b = bytes.last();
        assert(!contains_ready(prefix)) by {
            if contains_ready(prefix) {
                let i = choose|i: int|
                    0 <= i && i + 9 <= prefix.len() && #[trigger] prefix.subrange(i, i + 9)
                        == ready_seq();
                assert(bytes.subrange(i, i + 9) =~= prefix.subrange(i, i + 9));
            }
        }
        lemma_no_ready_no_match(prefix);
        if spec_advance(run_state(prefix), b).1 {
            lemma_match_sees_ready(prefix, b);
            assert(bytes =~= prefix.push(b));
            let k = bytes.len() - 9;
            assert(bytes.subrange(k, k + 9) == ready_seq());
            assert(contains_ready(bytes));
        }
    }
}

} // verus!
