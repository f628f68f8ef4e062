use cwduino_client::app::{App, AppOptions, Request, Side, Sound};
use cwduino_client::decoder::{Event, SerialDecoder};

fn fresh(dit_side: Side) -> App {
    App::new(AppOptions { dit_side })
}

#[test]
fn initial_state_is_released_and_connected() {
    let app = fresh(Side::Left);
    assert!(!app.left_paddle);
    assert!(!app.right_paddle);
    assert!(app.connected);
    assert!(!app.dit_running);
    assert!(!app.dah_running);
}

#[test]
fn double_press_starts_once() {
    let mut app = fresh(Side::Left);
    let first = app.apply_event(Event::LeftPress);
    let second = app.apply_event(Event::LeftPress);
    assert_eq!(first, vec![Request::Start(Sound::Dit)]);
    assert_eq!(second, Vec::<Request>::new());
    assert!(app.left_paddle);
}

#[test]
fn press_release_left_with_dit_side_left() {
    let mut app = fresh(Side::Left);
    let on_press = app.apply_event(Event::LeftPress);
    assert!(app.left_paddle);
    let on_release = app.apply_event(Event::LeftRelease);
    assert!(!app.left_paddle);
    assert_eq!(on_press, vec![Request::Start(Sound::Dit)]);
    assert_eq!(on_release, vec![Request::Stop(Sound::Dit)]);
    // No request named dah at any point.
    for q in on_press.iter().chain(on_release.iter()) {
        assert!(!matches!(q, Request::Start(Sound::Dah) | Request::Stop(Sound::Dah)));
    }
}

#[test]
fn side_mapping_honors_dit_side_right() {
    let mut app = fresh(Side::Right);
    assert_eq!(app.apply_event(Event::LeftPress), vec![Request::Start(Sound::Dah)]);
    assert_eq!(app.apply_event(Event::RightPress), vec![Request::Start(Sound::Dit)]);
    assert_eq!(app.apply_event(Event::LeftRelease), vec![Request::Stop(Sound::Dah)]);
    assert_eq!(app.apply_event(Event::RightRelease), vec![Request::Stop(Sound::Dit)]);
}

#[test]
fn reset_clears_paddles_and_stops_both_sounds() {
    let mut app = fresh(Side::Left);
    app.apply_event(Event::LeftPress);
    app.apply_event(Event::RightPress);
    assert!(app.left_paddle && app.right_paddle);
    let requests = app.apply_event(Event::Reset);
    assert!(!app.left_paddle);
    assert!(!app.right_paddle);
    assert!(!app.dit_running);
    assert!(!app.dah_running);
    assert!(app.connected);
    assert_eq!(requests, vec![Request::Stop(Sound::Dit), Request::Stop(Sound::Dah)]);
}

#[test]
fn reset_with_one_registered_process_still_clears_everything() {
    let mut app = fresh(Side::Left);
    app.apply_event(Event::LeftPress);
    app.apply_event(Event::RightPress);
    // The dah launch failed: only dit has a registered process.
    app.launch_failed(Sound::Dah);
    let requests = app.apply_event(Event::Reset);
    assert!(!app.left_paddle);
    assert!(!app.right_paddle);
    assert!(!app.dit_running);
    assert!(!app.dah_running);
    assert_eq!(requests, vec![Request::Stop(Sound::Dit)]);
}

#[test]
fn disconnect_acts_as_reset_and_drops_the_connection() {
    let mut app = fresh(Side::Left);
    app.apply_event(Event::LeftPress);
    app.apply_event(Event::RightPress);
    let requests = app.apply_event(Event::Disconnected);
    assert!(!app.left_paddle);
    assert!(!app.right_paddle);
    assert!(!app.dit_running);
    assert!(!app.dah_running);
    assert!(!app.connected);
    assert_eq!(requests, vec![Request::Stop(Sound::Dit), Request::Stop(Sound::Dah)]);
}

#[test]
fn press_after_disconnect_still_starts_the_sound() {
    let mut app = fresh(Side::Left);
    app.apply_event(Event::Disconnected);
    assert!(!app.connected);
    let requests = app.apply_event(Event::LeftPress);
    assert_eq!(requests, vec![Request::Start(Sound::Dit)]);
    // No event sets the connection flag back.
    assert!(!app.connected);
    app.apply_event(Event::LeftRelease);
    app.apply_event(Event::Reset);
    assert!(!app.connected);
}

#[test]
fn failed_launch_allows_a_retry() {
    let mut app = fresh(Side::Left);
    assert_eq!(app.apply_event(Event::LeftPress), vec![Request::Start(Sound::Dit)]);
    app.launch_failed(Sound::Dit);
    assert_eq!(app.apply_event(Event::LeftPress), vec![Request::Start(Sound::Dit)]);
}

#[test]
fn sound_for_reports_the_mapping() {
    let app = fresh(Side::Left);
    assert_eq!(app.sound_for(Side::Left), Sound::Dit);
    assert_eq!(app.sound_for(Side::Right), Sound::Dah);
    let app = fresh(Side::Right);
    assert_eq!(app.sound_for(Side::Left), Sound::Dah);
    assert_eq!(app.sound_for(Side::Right), Sound::Dit);
}

#[test]
fn end_to_end_byte_stream_drives_the_state_machine() {
    let mut dec = SerialDecoder::new(0, 5000);
    let mut app = fresh(Side::Left);
    let mut events: Vec<Option<Event>> = Vec::new();
    let mut requests: Vec<Request> = Vec::new();
    for &b in b"{.[}]" {
        let ev = dec.decode_byte(b, 1);
        events.push(ev);
        if let Some(ev) = ev {
            requests.extend(app.apply_event(ev));
        }
    }
    assert_eq!(
        events,
        vec![
            Some(Event::LeftPress),
            None,
            Some(Event::LeftRelease),
            Some(Event::RightPress),
            Some(Event::RightRelease),
        ]
    );
    assert_eq!(
        requests,
        vec![
            Request::Start(Sound::Dit),
            Request::Stop(Sound::Dit),
            Request::Start(Sound::Dah),
            Request::Stop(Sound::Dah),
        ]
    );
    assert_eq!(dec.last_heartbeat_ms, 1);
}
