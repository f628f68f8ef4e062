use cwduino_client::reset_detector::{do_reset, ResetState};

const READY: &[u8] = b"\n\nREADY\n\n";

fn feed(state: &mut ResetState, bytes: &[u8]) -> usize {
    let mut matches: usize = 0;
    for &b in bytes {
        if do_reset(b, state) {
            matches += 1;
        }
    }
    matches
}

#[test]
fn full_sequence_matches_once() {
    let mut state = ResetState::Idle;
    let mut matches = 0usize;
    for (i, &b) in READY.iter().enumerate() {
        let matched = do_reset(b, &mut state);
        if i + 1 < READY.len() {
            assert!(!matched, "match reported before the sequence ended");
        } else {
            assert!(matched, "no match on the completing byte");
        }
        if matched {
            matches += 1;
        }
    }
    assert_eq!(matches, 1);
    assert_eq!(state, ResetState::Idle);
}

#[test]
fn detector_ready_again_after_match() {
    let mut state = ResetState::Idle;
    assert_eq!(feed(&mut state, READY), 1);
    assert_eq!(feed(&mut state, READY), 1);
    assert_eq!(state, ResetState::Idle);
}

#[test]
fn aborted_attempt_does_not_count_or_corrupt() {
    let mut state = ResetState::Idle;
    let mut stream: Vec<u8> = b"\n\nREAD".to_vec();
    stream.push(b'{');
    stream.extend_from_slice(READY);
    assert_eq!(feed(&mut state, &stream), 1);
    assert_eq!(state, ResetState::Idle);
}

#[test]
fn partial_attempt_requires_restart_from_scratch() {
    let mut state = ResetState::Idle;
    assert_eq!(feed(&mut state, b"\n\nR"), 0);
    assert_eq!(feed(&mut state, b"X"), 0);
    // Continuing where the aborted attempt left off is not credited.
    assert_eq!(feed(&mut state, b"EADY\n\n"), 0);
    // A full announcement is: the machine just saw the two newlines
    // above, so they serve as its lead-in.
    assert_eq!(feed(&mut state, b"READY\n\n"), 1);
}

#[test]
fn streams_without_the_sequence_never_match() {
    let cases: &[&[u8]] = &[
        b"",
        b"{}[].{}[].",
        b"\n\nREADY\n",
        b"\nREADY\n\n",
        b"\n\nREAD{Y\n\n",
        b"READY",
        b"\n\n\n\n",
    ];
    for case in cases {
        let mut state = ResetState::Idle;
        assert_eq!(feed(&mut state, case), 0, "false match on {:?}", case);
    }
}

#[test]
fn back_to_back_announcements_both_match() {
    let mut state = ResetState::Idle;
    let mut stream: Vec<u8> = READY.to_vec();
    stream.extend_from_slice(READY);
    assert_eq!(feed(&mut state, &stream), 2);
}
