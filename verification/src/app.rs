//! The paddle/process state machine.
//!
//! Consumes decoded events and decides which sound processes to start
//! or stop, honoring the configured mapping of paddle side to sound.
//! The machine tracks, beside the paddle and connection flags, whether
//! a child process handle currently exists for each sound; starting is
//! idempotent by construction — a start is requested only when no
//! handle exists — so duplicate press events never spawn a second
//! overlapping process. The launcher itself lives outside this crate:
//! the machine hands out [`Request`] values, and a failed launch is
//! reported back through [`App::launch_failed`] so that a later press
//! may retry.

use vstd::prelude::*;

use crate::decoder::Event;

verus! {

/// A physical side of the paddle.
#[derive(Clone, Copy, PartialEq, Eq, Debug, Structural)]
pub enum Side {
    /// The left paddle arm.
    Left,
    /// The right paddle arm.
    Right,
}

/// One of the two sounds an external script can play.
#[derive(Clone, Copy, PartialEq, Eq, Debug, Structural)]
pub enum Sound {
    /// The short morse element.
    Dit,
    /// The long morse element.
    Dah,
}

/// An instruction for the external process launcher.
#[derive(Clone, Copy, PartialEq, Eq, Debug, Structural)]
pub enum Request {
    /// Start the process playing this sound.
    Start(Sound),
    /// Terminate the process playing this sound.
    Stop(Sound),
}

/// Configuration of the state machine.
#[derive(Clone, Copy, PartialEq, Eq, Debug, Structural)]
pub struct AppOptions {
    /// Which side produces the dit sound; the other side produces dah.
    pub dit_side: Side,
}

impl Default for AppOptions {
    /// By default the left side produces the dit sound.
    fn default() -> (r: Self)
        ensures
            r.dit_side == Side::Left,
    {
        AppOptions { dit_side: Side::Left }
    }
}

/// The application state: paddle flags, connection flag, configuration,
/// and whether a child process handle exists for each sound.
#[derive(Clone, Copy, PartialEq, Eq, Debug, Structural)]
pub struct App {
    /// Whether the left paddle is currently held.
    pub left_paddle: bool,
    /// Whether the right paddle is currently held.
    pub right_paddle: bool,
    /// Whether the link is believed alive.
    pub connected: bool,
    /// The side-to-sound configuration.
    pub options: AppOptions,
    /// Whether a handle for the dit process exists.
    pub dit_running: bool,
    /// Whether a handle for the dah process exists.
    pub dah_running: bool,
}

/// The sound a side triggers under the given configuration.
pub open spec fn sound_for_side(opts: AppOptions, side: Side) -> Sound {
    if opts.dit_side == side {
        Sound::Dit
    } else {
        Sound::Dah
    }
}

/// Whether a handle for `sound` exists in state `s`.
pub open spec fn sound_running(s: App, sound: Sound) -> bool {
    match sound {
        Sound::Dit => s.dit_running,
        Sound::Dah => s.dah_running,
    }
}

/// The state `s` with the handle flag of `sound` set to `running`.
pub open spec fn with_running(s: App, sound: Sound, running: bool) -> App {
    match sound {
        Sound::Dit => App { dit_running: running, ..s },
        Sound::Dah => App { dah_running: running, ..s },
    }
}

/// The press event of a side.
pub open spec fn press_event(side: Side) -> Event {
    match side {
        Side::Left => Event::LeftPress,
        Side::Right => Event::RightPress,
    }
}

/// The release event of a side.
pub open spec fn release_event(side: Side) -> Event {
    match side {
        Side::Left => Event::LeftRelease,
        Side::Right => Event::RightRelease,
    }
}

/// The state `s` with the paddle flag of `side` set to `held`.
pub open spec fn with_paddle(s: App, side: Side, held: bool) -> App {
    match side {
        Side::Left => App { left_paddle: held, ..s },
        Side::Right => App { right_paddle: held, ..s },
    }
}

/// State after a press on `side`: the paddle flag is set and the
/// mapped sound's handle exists (a start was requested if it did not).
pub open spec fn spec_press(s: App, side: Side) -> App {
    with_running(with_paddle(s, side, true), sound_for_side(s.options, side), true)
}

/// State after a release on `side`: the paddle flag is cleared and the
/// mapped sound's handle is gone.
pub open spec fn spec_release(s: App, side: Side) -> App {
    with_running(with_paddle(s, side, false), sound_for_side(s.options, side), false)
}

/// State after a reset: both paddles cleared, both handles gone; the
/// connection flag and the configuration stay.
pub open spec fn spec_reset(s: App) -> App {
    App { left_paddle: false, right_paddle: false, dit_running: false, dah_running: false, ..s }
}

/// State after an event.
pub open spec fn spec_step(s: App, ev: Event) -> App {
    match ev {
        Event::LeftPress => spec_press(s, Side::Left),
        Event::RightPress => spec_press(s, Side::Right),
        Event::LeftRelease => spec_release(s, Side::Left),
        Event::RightRelease => spec_release(s, Side::Right),
        Event::Reset => spec_reset(s),
        Event::Disconnected => App { connected: false, ..spec_reset(s) },
    }
}

/// The launcher requests an event causes in state `s`, in order: a
/// press starts the mapped sound only when no handle exists; a release
/// stops it only when one does; a reset or disconnect stops whatever
/// was running, dit before dah.
pub open spec fn spec_requests(s: App, ev: Event) -> Seq<Request> {
    match ev {
        Event::LeftPress => start_requests(s, sound_for_side(s.options, Side::Left)),
        Event::RightPress => start_requests(s, sound_for_side(s.options, Side::Right)),
        Event::LeftRelease => stop_requests(s, sound_for_side(s.options, Side::Left)),
        Event::RightRelease => stop_requests(s, sound_for_side(s.options, Side::Right)),
        Event::Reset => reset_requests(s),
        Event::Disconnected => reset_requests(s),
    }
}

/// The start request a press issues: one, unless the sound already has
/// a handle.
pub open spec fn start_requests(s: App, sound: Sound) -> Seq<Request> {
    if sound_running(s, sound) {
        Seq::empty()
    } else {
        seq![Request::Start(sound)]
    }
}

/// The stop request a release issues: one, unless no handle exists.
pub open spec fn stop_requests(s: App, sound: Sound) -> Seq<Request> {
    if sound_running(s, sound) {
        seq![Request::Stop(sound)]
    } else {
        Seq::empty()
    }
}

/// The stop requests a reset issues: exactly the running sounds.
pub open spec fn reset_requests(s: App) -> Seq<Request> {
    stop_requests(s, Sound::Dit) + stop_requests(s, Sound::Dah)
}

/// The requests an `Option` result of one of the single-sound methods
/// stands for.
pub open spec fn option_requests(r: Option<Request>) -> Seq<Request> {
    match r {
        None => Seq::empty(),
        Some(q) => seq![q],
    }
}

impl App {
    /// The initial state: nothing pressed, nothing running, connected.
    pub fn new(options: AppOptions) -> (r: App)
        ensures
            r == (App {
                left_paddle: false,
                right_paddle: false,
                connected: true,
                options,
                dit_running: false,
                dah_running: false,
            }),
    {
        App {
            left_paddle: false,
            right_paddle: false,
            connected: true,
            options,
            dit_running: false,
            dah_running: false,
        }
    }

    /// Ensure the dit process is running: request a start only when no
    /// handle exists yet.
    pub fn start_dit(&mut self) -> (r: Option<Request>)
        ensures
            *final(self) == with_running(*old(self), Sound::Dit, true),
            option_requests(r) == start_requests(*old(self), Sound::Dit),
    {
        if self.dit_running {
            return None;
        }
        self.dit_running = true;
        Some(Request::Start(Sound::Dit))
    }

    /// Ensure the dah process is running: request a start only when no
    /// handle exists yet.
    pub fn start_dah(&mut self) -> (r: Option<Request>)
        ensures
            *final(self) == with_running(*old(self), Sound::Dah, true),
            option_requests(r) == start_requests(*old(self), Sound::Dah),
    {
        if self.dah_running {
            return None;
        }
        self.dah_running = true;
        Some(Request::Start(Sound::Dah))
    }

    /// Ensure the dit process is stopped: request a stop exactly when a
    /// handle exists, and clear the handle regardless.
    pub fn kill_dit(&mut self) -> (r: Option<Request>)
        ensures
            *final(self) == with_running(*old(self), Sound::Dit, false),
            option_requests(r) == stop_requests(*old(self), Sound::Dit),
    {
        if self.dit_running {
            self.dit_running = false;
            Some(Request::Stop(Sound::Dit))
        } else {
            None
        }
    }

    /// Ensure the dah process is stopped: request a stop exactly when a
    /// handle exists, and clear the handle regardless.
    pub fn kill_dah(&mut self) -> (r: Option<Request>)
        ensures
            *final(self) == with_running(*old(self), Sound::Dah, false),
            option_requests(r) == stop_requests(*old(self), Sound::Dah),
    {
        if self.dah_running {
            self.dah_running = false;
            Some(Request::Stop(Sound::Dah))
        } else {
            None
        }
    }

    /// Press of the left paddle: hold the flag and ensure the mapped
    /// sound is running.
    pub fn press_left(&mut self) -> (r: Option<Request>)
        ensures
            *final(self) == spec_step(*old(self), Event::LeftPress),
            option_requests(r) == spec_requests(*old(self), Event::LeftPress),
    {
        self.left_paddle = true;
        if self.options.dit_side == Side::Left {
            self.start_dit()
        } else {
            self.start_dah()
        }
    }

    /// Press of the right paddle: hold the flag and ensure the mapped
    /// sound is running.
    pub fn press_right(&mut self) -> (r: Option<Request>)
        ensures
            *final(self) == spec_step(*old(self), Event::RightPress),
            option_requests(r) == spec_requests(*old(self), Event::RightPress),
    {
        self.right_paddle = true;
        if self.options.dit_side == Side::Right {
            self.start_dit()
        } else {
            self.start_dah()
        }
    }

    /// Release of the left paddle: clear the flag and ensure the mapped
    /// sound is stopped.
    pub fn release_left(&mut self) -> (r: Option<Request>)
        ensures
            *final(self) == spec_step(*old(self), Event::LeftRelease),
            option_requests(r) == spec_requests(*old(self), Event::LeftRelease),
    {
        self.left_paddle = false;
        if self.options.dit_side == Side::Left {
            self.kill_dit()
        } else {
            self.kill_dah()
        }
    }

    /// Release of the right paddle: clear the flag and ensure the
    /// mapped sound is stopped.
    pub fn release_right(&mut self) -> (r: Option<Request>)
        ensures
            *final(self) == spec_step(*old(self), Event::RightRelease),
            option_requests(r) == spec_requests(*old(self), Event::RightRelease),
    {
        self.right_paddle = false;
        if self.options.dit_side == Side::Right {
            self.kill_dit()
        } else {
            self.kill_dah()
        }
    }

    /// The hardware rebooted: release both paddles and stop whatever
    /// sounds were running, dit before dah.
    pub fn reset(&mut self) -> (r: Vec<Request>)
        ensures
            *final(self) == spec_step(*old(self), Event::Reset),
            r@ == spec_requests(*old(self), Event::Reset),
    {
        let mut requests: Vec<Request> = Vec::new();
        self.left_paddle = false;
        self.right_paddle = false;
        if let Some(q) = self.kill_dit() {
            requests.push(q);
        }
        if let Some(q) = self.kill_dah() {
            requests.push(q);
        }
        proof {
            assert(requests@ =~= reset_requests(*old(self)));
        }
        requests
    }

    /// Apply one decoded event and hand back the launcher requests it
    /// causes, in order.
    pub fn apply_event(&mut self, ev: Event) -> (r: Vec<Request>)
        ensures
            *final(self) == spec_step(*old(self), ev),
            r@ == spec_requests(*old(self), ev),
    {
        let mut requests: Vec<Request> = Vec::new();
        match ev {
            Event::LeftPress => {
                if let Some(q) = self.press_left() {
                    requests.push(q);
                }
            },
            Event::RightPress => {
                if let Some(q) = self.press_right() {
                    requests.push(q);
                }
            },
            Event::LeftRelease => {
                if let Some(q) = self.release_left() {
                    requests.push(q);
                }
            },
            Event::RightRelease => {
                if let Some(q) = self.release_right() {
                    requests.push(q);
                }
            },
            Event::Reset => {
                return self.reset();
            },
            Event::Disconnected => {
                let r = self.reset();
                self.connected = false;
                return r;
            },
        }
        proof {
            assert(requests@ =~= spec_requests(*old(self), ev));
        }
        requests
    }

    /// The launcher failed to start `sound`: no handle exists after
    /// all, so a later press may retry the start.
    pub fn launch_failed(&mut self, sound: Sound)
        ensures
            *final(self) == with_running(*old(self), sound, false),
    {
        match sound {
            Sound::Dit => self.dit_running = false,
            Sound::Dah => self.dah_running = false,
        }
    }

    /// The sound a side currently triggers, for the display.
    pub fn sound_for(&self, side: Side) -> (r: Sound)
        ensures
            r == sound_for_side(self.options, side),
    {
        if self.options.dit_side == side {
            Sound::Dit
        } else {
            Sound::Dah
        }
    }
}

/// Pressing a side twice in a row changes the state exactly as one
/// press does, and the second press issues no request at all: a held
/// paddle never asks the launcher for a second overlapping process.
pub proof fn lemma_press_idempotent(s: App, side: Side)
    ensures
        spec_step(spec_step(s, press_event(side)), press_event(side)) == spec_step(
            s,
            press_event(side),
        ),
        spec_requests(spec_step(s, press_event(side)), press_event(side)) == Seq::<
            Request,
        >::empty(),
{
}

/// A press on a side whose sound is not running issues exactly one
/// start of that sound, and the release that follows issues exactly one
/// stop of it; no request ever names the other sound.
pub proof fn lemma_press_release_requests(s: App, side: Side)
    requires
        !sound_running(s, sound_for_side(s.options, side)),
    ensures
        spec_requests(s, press_event(side)) =~= seq![
            Request::Start(sound_for_side(s.options, side)),
        ],
        spec_requests(spec_step(s, press_event(side)), release_event(side)) =~= seq![
            Request::Stop(sound_for_side(s.options, side)),
        ],
{
}

/// A reset clears both paddle flags and leaves no handle behind,
/// whatever was pressed or running, and asks the launcher to stop
/// exactly the sounds that had a handle.
pub proof fn lemma_reset_clears(s: App)
    ensures
        spec_step(s, Event::Reset) == (App {
            left_paddle: false,
            right_paddle: false,
            dit_running: false,
            dah_running: false,
            ..s
        }),
        spec_requests(s, Event::Reset).contains(Request::Stop(Sound::Dit)) == s.dit_running,
        spec_requests(s, Event::Reset).contains(Request::Stop(Sound::Dah)) == s.dah_running,
        forall|sound: Sound|
            !(#[trigger] spec_requests(s, Event::Reset).contains(Request::Start(sound))),
{
    reveal_requests_membership(s, Event::Reset);
}

/// A disconnect has exactly the effect of a reset, plus dropping the
/// connection flag; it issues the same launcher requests.
pub proof fn lemma_disconnect_is_reset(s: App)
    ensures
        spec_step(s, Event::Disconnected) == (App { connected: false, ..spec_step(s, Event::Reset) }),
        spec_requests(s, Event::Disconnected) == spec_requests(s, Event::Reset),
{
}

/// No event ever raises the connection flag: once the state reads
/// disconnected, it stays so, since the protocol has no reconnection.
pub proof fn lemma_connected_never_set(s: App, ev: Event)
    ensures
        spec_step(s, ev).connected ==> s.connected,
{
}

/// A press right after a disconnect still starts the matching sound:
/// the machine resumes normal operation without any reconnection event.
pub proof fn lemma_press_after_disconnect(s: App, side: Side)
    ensures
        spec_requests(spec_step(s, Event::Disconnected), press_event(side)) =~= seq![
            Request::Start(sound_for_side(s.options, side)),
        ],
{
}

/// Which requests a reset-like event's sequence holds, spelled out for
/// the membership claims above.
proof fn reveal_requests_membership(s: App, ev: Event)
    requires
        ev == Event::Reset || ev == Event::Disconnected,
    ensures
        spec_requests(s, ev).contains(Request::Stop(Sound::Dit)) == s.dit_running,
        spec_requests(s, ev).contains(Request::Stop(Sound::Dah)) == s.dah_running,
        forall|sound: Sound| !(#[trigger] spec_requests(s, ev).contains(Request::Start(sound))),
{
    let rs = spec_requests(s, ev);
    if s.dit_running {
        assert(rs.contains(Request::Stop(Sound::Dit))) by {
            assert(rs[0] == Request::Stop(Sound::Dit));
        }
    }
    if s.dah_running {
        assert(rs.contains(Request::Stop(Sound::Dah))) by {
            assert(rs[rs.len() - 1] == Request::Stop(Sound::Dah));
        }
    }
    assert(forall|i: int| 0 <= i < rs.len() ==> (#[trigger] rs[i]) matches Request::Stop(_));
}

} // verus!
