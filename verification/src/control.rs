//! The simulation's control state and how input events and frame ticks
//! change it.
//!
//! The window's main loop polls events and hands each to
//! [`Simulation::handle_event`], which updates the state and says what the
//! loop must do on the GPU side ([`Action`]). At the end of every frame the
//! loop calls [`Simulation::end_frame`], which maintains the frame-rate
//! counter.

use vstd::prelude::*;
use crate::rng::thread_rng;
use crate::passes::{frame_plan, frame_passes, FramePlan};
use crate::spawn::{SpawnGrid, SpawnPoint, spawn_points, JITTER_SPAN, WINDOW_HEIGHT};

verus! {

/// Size of the particle array shared with the GPU.
pub const MAX_PARTICLES: usize = 10000;
/// Number of particles dropped by one middle click, and removed by one
/// right click.
pub const BURST_SIZE: usize = 100;
/// Length of the window over which frames are counted, in milliseconds.
pub const FPS_WINDOW_MS: u32 = 1000;

/// A mouse button, as far as the simulation tells them apart.
#[derive(Clone, Copy, Debug, PartialEq, Eq)]
pub enum MouseButton {
    Left,
    Middle,
    Right,
    Other,
}

/// An input event of the window.
#[derive(Clone, Copy, Debug, PartialEq, Eq)]
pub enum Event {
    /// The window was closed.
    Quit,
    /// The mouse moved to `(x, y)` in window coordinates (y grows downwards).
    MouseMotion { x: i32, y: i32 },
    /// A mouse button was pressed.
    MouseButtonDown { button: MouseButton },
    /// Any other event.
    Other,
}

/// What the main loop must do after an event.
#[derive(Debug)]
pub enum Action {
    /// Nothing beyond the state change.
    Continue,
    /// Leave the main loop.
    Exit,
    /// Read the first `read_back` particles back from the GPU, write
    /// `spawned[k]` into slot `read_back + k` of the particle array, and
    /// upload the first `upload` particles again.
    Resize { read_back: usize, upload: usize, spawned: Vec<SpawnPoint> },
}

/// The abstract state of a [`Simulation`].
pub struct SimView {
    /// Number of live particles.
    pub num_particles: int,
    /// Last mouse position, with y growing upwards.
    pub mouse_x: int,
    pub mouse_y: int,
    /// Whether the physics passes are suspended.
    pub paused: bool,
    /// Frames ended in the current counting window.
    pub frames: int,
    /// Frames counted in the last complete window (the displayed rate).
    pub shown_fps: int,
    /// Timer value at which the current window started, in milliseconds.
    pub window_start: int,
}

/// The control state of the particle simulation.
pub struct Simulation {
    rng: rand::rngs::ThreadRng,
    num_particles: usize,
    mouse_x: i32,
    mouse_y: i32,
    paused: bool,
    fps: i32,
    real_fps: i32,
    last_time: u32,
}

/// A state that the simulation can be in.
pub open spec fn valid_view(s: SimView) -> bool {
    &&& 0 <= s.num_particles <= MAX_PARTICLES
    &&& 0 <= s.frames <= i32::MAX
    &&& 0 <= s.shown_fps <= i32::MAX
    &&& i32::MIN <= s.mouse_x <= i32::MAX
    &&& i32::MIN <= s.mouse_y <= i32::MAX
    &&& 0 <= s.window_start <= u32::MAX
}

/// The grid on which a middle click drops its burst, at the mouse.
pub open spec fn burst_grid(s: SimView) -> SpawnGrid {
    SpawnGrid { origin_x: s.mouse_x as i32, origin_y: s.mouse_y as i32, cols_end: 16, rows_end: 56 }
}

/// The events that the simulation accepts in state `s`: flipping the
/// mouse's y coordinate stays within `i32`; a burst fits in the particle
/// array and its positions within `i32`; a removal has particles to remove.
pub open spec fn event_permitted(s: SimView, e: Event) -> bool {
    match e {
        Event::MouseMotion { x, y } => WINDOW_HEIGHT - y <= i32::MAX,
        Event::MouseButtonDown { button: MouseButton::Middle } => {
            &&& s.num_particles + BURST_SIZE <= MAX_PARTICLES
            &&& burst_grid(s).spec_fits(BURST_SIZE as int)
        },
        Event::MouseButtonDown { button: MouseButton::Right } => s.num_particles >= BURST_SIZE,
        _ => true,
    }
}

/// The state after event `e` in state `s`.
pub open spec fn next_view(s: SimView, e: Event) -> SimView {
    match e {
        Event::MouseMotion { x, y } => SimView { mouse_x: x as int, mouse_y: WINDOW_HEIGHT - y, ..s },
        Event::MouseButtonDown { button: MouseButton::Middle } => SimView {
            num_particles: s.num_particles + BURST_SIZE,
            ..s
        },
        Event::MouseButtonDown { button: MouseButton::Right } => SimView {
            num_particles: s.num_particles - BURST_SIZE,
            ..s
        },
        _ => s,
    }
}

/// The state after a frame ends at timer value `now`; `later` is the timer
/// value read when a new counting window starts.
pub open spec fn tick_view(s: SimView, now: int, later: int) -> SimView {
    if now - s.window_start > FPS_WINDOW_MS {
        SimView { shown_fps: s.frames, frames: 0, window_start: later, ..s }
    } else {
        SimView { frames: s.frames + 1, ..s }
    }
}

/// A frame may end at `now` in state `s`: the timer has not gone back, and
/// the frame counter has room for one more frame.
pub open spec fn tick_permitted(s: SimView, now: int) -> bool {
    &&& s.window_start <= now
    &&& (now - s.window_start > FPS_WINDOW_MS || s.frames < i32::MAX)
}

/// The burst spawned in state `s` by a middle click: `BURST_SIZE` points on
/// the burst grid at the mouse, each jittered within `[0, JITTER_SPAN)`.
pub open spec fn is_burst(s: SimView, spawned: Seq<SpawnPoint>) -> bool {
    &&& spawned.len() == BURST_SIZE
    &&& forall|k: int| 0 <= k < spawned.len() ==> {
        &&& (#[trigger] spawned[k]).base_x == burst_grid(s).base_x(k)
        &&& spawned[k].base_y == burst_grid(s).base_y(k)
        &&& 0 <= spawned[k].jitter < JITTER_SPAN
    }
}

/// What the main loop is told to do after event `e` in state `s`.
pub open spec fn action_matches(s: SimView, e: Event, a: Action) -> bool {
    match e {
        Event::Quit => a is Exit,
        Event::MouseButtonDown { button: MouseButton::Middle } => match a {
            Action::Resize { read_back, upload, spawned } => {
                &&& read_back == s.num_particles
                &&& upload == s.num_particles + BURST_SIZE
                &&& is_burst(s, spawned@)
            },
            _ => false,
        },
        Event::MouseButtonDown { button: MouseButton::Right } => match a {
            Action::Resize { read_back, upload, spawned } => {
                &&& read_back == s.num_particles
                &&& upload == s.num_particles - BURST_SIZE
                &&& spawned@.len() == 0
            },
            _ => false,
        },
        _ => a is Continue,
    }
}

impl View for Simulation {
    type V = SimView;

    closed spec fn view(&self) -> SimView {
        SimView {
            num_particles: self.num_particles as int,
            mouse_x: self.mouse_x as int,
            mouse_y: self.mouse_y as int,
            paused: self.paused,
            frames: self.fps as int,
            shown_fps: self.real_fps as int,
            window_start: self.last_time as int,
        }
    }
}

impl Simulation {
    /// Starts the simulation with `initial` particles at timer value
    /// `start_time`: the mouse at the origin, not paused, no frames counted.
    /// The particles are laid out on the initial grid; those that do not fit
    /// on it (beyond its capacity) are not returned and keep the particle
    /// array's default.
    pub fn new(initial: usize, start_time: u32) -> (r: (Simulation, Vec<SpawnPoint>))
        requires
            initial <= MAX_PARTICLES,
        ensures
            valid_view(r.0@),
            r.0@ == (SimView {
                num_particles: initial as int,
                mouse_x: 0,
                mouse_y: 0,
                paused: false,
                frames: 0,
                shown_fps: 0,
                window_start: start_time as int,
            }),
            r.1.len() == SpawnGrid::initial_spec().placed(initial as int),
            forall|k: int| 0 <= k < r.1.len() ==> {
                &&& (#[trigger] r.1[k]).base_x == SpawnGrid::initial_spec().base_x(k)
                &&& r.1[k].base_y == SpawnGrid::initial_spec().base_y(k)
                &&& 0 <= r.1[k].jitter < JITTER_SPAN
            },
    {
        let mut rng = thread_rng();
        let grid = SpawnGrid::initial();
        proof {
            let n = grid.placed(initial as int);
            if n > 0 {
                vstd::arithmetic::div_mod::lemma_div_is_ordered(n - 1, 49 * 55 - 1, 49);
            }
        }
        let points = spawn_points(&mut rng, &grid, initial);
        let sim = Simulation {
            rng,
            num_particles: initial,
            mouse_x: 0,
            mouse_y: 0,
            paused: false,
            fps: 0,
            real_fps: 0,
            last_time: start_time,
        };
        (sim, points)
    }

    /// Whether `handle_event` accepts `e` in the current state.
    pub fn permits(&self, e: Event) -> (r: bool)
        ensures
            r == event_permitted(self@, e),
    {
        match e {
            Event::MouseMotion { x, y } => y as i64 >= WINDOW_HEIGHT as i64 - i32::MAX as i64,
            Event::MouseButtonDown { button: MouseButton::Middle } => {
                self.num_particles <= MAX_PARTICLES - BURST_SIZE
                    && SpawnGrid::burst(self.mouse_x, self.mouse_y).fits(BURST_SIZE)
            },
            Event::MouseButtonDown { button: MouseButton::Right } => self.num_particles >= BURST_SIZE,
            _ => true,
        }
    }

    /// Applies an input event: a mouse motion records the position with y
    /// flipped upwards; a middle click drops a burst of `BURST_SIZE`
    /// particles on the grid at the mouse; a right click removes the last
    /// `BURST_SIZE` particles; closing the window exits.
    pub fn handle_event(&mut self, e: Event) -> (a: Action)
        requires
            valid_view(old(self)@),
            event_permitted(old(self)@, e),
        ensures
            final(self)@ == next_view(old(self)@, e),
            valid_view(final(self)@),
            action_matches(old(self)@, e, a),
    {
        match e {
            Event::Quit => Action::Exit,
            Event::MouseMotion { x, y } => {
                self.mouse_x = x;
                self.mouse_y = WINDOW_HEIGHT - y;
                Action::Continue
            },
            Event::MouseButtonDown { button: MouseButton::Middle } => {
                let read_back = self.num_particles;
                let grid = SpawnGrid::burst(self.mouse_x, self.mouse_y);
                let spawned = spawn_points(&mut self.rng, &grid, BURST_SIZE);
                self.num_particles = self.num_particles + BURST_SIZE;
                Action::Resize { read_back, upload: self.num_particles, spawned }
            },
            Event::MouseButtonDown { button: MouseButton::Right } => {
                let read_back = self.num_particles;
                self.num_particles = self.num_particles - BURST_SIZE;
                Action::Resize { read_back, upload: self.num_particles, spawned: Vec::new() }
            },
            _ => Action::Continue,
        }
    }

    /// Whether `end_frame` accepts a frame ending at `now`.
    pub fn tick_permits(&self, now: u32) -> (r: bool)
        ensures
            r == tick_permitted(self@, now as int),
    {
        self.last_time <= now && (now - self.last_time > FPS_WINDOW_MS || self.fps < i32::MAX)
    }

    /// Ends a frame at timer value `now`. When more than `FPS_WINDOW_MS`
    /// have passed since the counting window started, the frames counted
    /// become the displayed rate and a new window starts at `later`;
    /// otherwise the frame is counted.
    pub fn end_frame(&mut self, now: u32, later: u32)
        requires
            valid_view(old(self)@),
            tick_permitted(old(self)@, now as int),
        ensures
            final(self)@ == tick_view(old(self)@, now as int, later as int),
            valid_view(final(self)@),
    {
        if now - self.last_time > FPS_WINDOW_MS {
            self.real_fps = self.fps;
            self.fps = 0;
            self.last_time = later;
        } else {
            self.fps = self.fps + 1;
        }
    }

    /// The GPU work of the coming frame: the physics passes run unless the
    /// simulation is paused; the image is always cleared and redrawn.
    pub fn frame_plan(&self) -> (p: FramePlan)
        requires
            valid_view(self@),
        ensures
            p.upload_params == !self@.paused,
            p.passes@ == frame_passes(self@.num_particles as u32, self@.paused),
    {
        frame_plan(self.num_particles, self.paused)
    }

    /// Suspends or resumes the physics passes.
    pub fn set_paused(&mut self, paused: bool)
        ensures
            final(self)@ == (SimView { paused, ..old(self)@ }),
    {
        self.paused = paused;
    }

    /// Number of live particles.
    pub fn num_particles(&self) -> (n: usize)
        ensures
            n == self@.num_particles,
    {
        self.num_particles
    }

    /// Last mouse position, with y growing upwards.
    pub fn mouse_pos(&self) -> (p: (i32, i32))
        ensures
            p.0 == self@.mouse_x,
            p.1 == self@.mouse_y,
    {
        (self.mouse_x, self.mouse_y)
    }

    /// Whether the physics passes are suspended.
    pub fn paused(&self) -> (p: bool)
        ensures
            p == self@.paused,
    {
        self.paused
    }

    /// The displayed frame rate: frames counted in the last complete window.
    pub fn real_fps(&self) -> (f: i32)
        ensures
            f == self@.shown_fps,
    {
        self.real_fps
    }

    /// Timer value at which the current counting window started.
    pub fn frame_window_start(&self) -> (t: u32)
        ensures
            t == self@.window_start,
    {
        self.last_time
    }

    /// Frames ended in the current counting window.
    pub fn frames(&self) -> (f: i32)
        ensures
            f == self@.frames,
    {
        self.fps
    }
}

/// The state after the frames of `times` end in turn, each given as the
/// timer value at its end and the value read if a new window starts.
pub open spec fn ticks_view(s: SimView, times: Seq<(int, int)>) -> SimView
    decreases times.len(),
{
    if times.len() == 0 {
        s
    } else {
        tick_view(ticks_view(s, times.drop_last()), times.last().0, times.last().1)
    }
}

/// A middle click followed by a right click leaves the state as it was:
/// the burst that one adds, the other removes.
pub proof fn lemma_burst_then_remove_restores(s: SimView)
    requires
        valid_view(s),
        event_permitted(s, Event::MouseButtonDown { button: MouseButton::Middle }),
    ensures
        event_permitted(
            next_view(s, Event::MouseButtonDown { button: MouseButton::Middle }),
            Event::MouseButtonDown { button: MouseButton::Right },
        ),
        next_view(
            next_view(s, Event::MouseButtonDown { button: MouseButton::Middle }),
            Event::MouseButtonDown { button: MouseButton::Right },
        ) == s,
{
}

/// Every accepted event keeps the state valid: in particular the number of
/// particles never exceeds `MAX_PARTICLES`.
pub proof fn lemma_event_keeps_valid(s: SimView, e: Event)
    requires
        valid_view(s),
        event_permitted(s, e),
    ensures
        valid_view(next_view(s, e)),
{
}

/// Every accepted frame end keeps the state valid.
pub proof fn lemma_tick_keeps_valid(s: SimView, now: u32, later: u32)
    requires
        valid_view(s),
        tick_permitted(s, now as int),
    ensures
        valid_view(tick_view(s, now as int, later as int)),
{
}

/// Events other than mouse clicks never change the number of particles,
/// and no event changes the frame counter or the pause flag.
pub proof fn lemma_event_frame_fields(s: SimView, e: Event)
    ensures
        !(e is MouseButtonDown) ==> next_view(s, e).num_particles == s.num_particles,
        next_view(s, e).frames == s.frames,
        next_view(s, e).shown_fps == s.shown_fps,
        next_view(s, e).window_start == s.window_start,
        next_view(s, e).paused == s.paused,
{
}

/// Frames that end within the counting window are each counted once, and
/// leave the displayed rate and the window's start alone.
pub proof fn lemma_frames_counted(s: SimView, times: Seq<(int, int)>)
    requires
        forall|i: int| 0 <= i < times.len() ==> (#[trigger] times[i]).0 - s.window_start <= FPS_WINDOW_MS,
    ensures
        ticks_view(s, times).frames == s.frames + times.len(),
        ticks_view(s, times).shown_fps == s.shown_fps,
        ticks_view(s, times).window_start == s.window_start,
        ticks_view(s, times).num_particles == s.num_particles,
    decreases times.len(),
{
    if times.len() > 0 {
        let rest = times.drop_last();
        assert forall|i: int| 0 <= i < rest.len() implies (#[trigger] rest[i]).0 - s.window_start <= FPS_WINDOW_MS by {
            assert(rest[i] == times[i]);
        }
        lemma_frames_counted(s, rest);
        assert(times.last() == times[times.len() - 1]);
    }
}

/// The first frame that ends after the counting window displays the
/// number of frames counted in it, and starts a new window with no frames.
pub proof fn lemma_window_closes(s: SimView, now: int, later: int)
    requires
        now - s.window_start > FPS_WINDOW_MS,
    ensures
        tick_view(s, now, later).shown_fps == s.frames,
        tick_view(s, now, later).frames == 0,
        tick_view(s, now, later).window_start == later,
{
}

/// A middle click is accepted exactly when the burst fits in the particle
/// array and its positions (at most 210 pixels right of and 112 pixels above
/// the mouse) stay within `i32`; where the mouse is in the window does not
/// matter otherwise.
pub proof fn lemma_middle_click_permitted(s: SimView)
    requires
        valid_view(s),
    ensures
        event_permitted(s, Event::MouseButtonDown { button: MouseButton::Middle }) <==> {
            &&& s.num_particles + 100 <= 10000
            &&& s.mouse_x + 210 <= i32::MAX
            &&& s.mouse_y + 112 <= i32::MAX
        },
{
    let g = burst_grid(s);
    assert(g.spec_capacity() == 825) by (nonlinear_arith)
        requires g.cols_end == 16, g.rows_end == 56;
    assert(g.placed(100) == 100);
    assert(g.max_dx(100) == 210);
    assert(99int / 15int == 6);
    assert(g.max_dy(100) == 112);
}

/// A right click is accepted exactly when there are at least 100 particles
/// to remove; a mouse motion exactly when `900 - y` fits in `i32`; every
/// other event always.
pub proof fn lemma_other_events_permitted(s: SimView, e: Event)
    ensures
        e == (Event::MouseButtonDown { button: MouseButton::Right }) ==> (event_permitted(s, e) <==> s.num_particles >= 100),
        e is MouseMotion ==> (event_permitted(s, e) <==> e->y >= 900 - i32::MAX),
        e == Event::Quit || e == Event::Other || e == (Event::MouseButtonDown { button: MouseButton::Left })
            || e == (Event::MouseButtonDown { button: MouseButton::Other }) ==> event_permitted(s, e),
{
}

/// A mouse motion records exactly the pointer's x and its y flipped
/// upwards (`900 - y`), and changes nothing else.
pub proof fn lemma_mouse_motion_records_position(s: SimView, x: i32, y: i32)
    ensures
        next_view(s, Event::MouseMotion { x, y }).mouse_x == x,
        next_view(s, Event::MouseMotion { x, y }).mouse_y == 900 - y,
        next_view(s, Event::MouseMotion { x, y }).num_particles == s.num_particles,
        next_view(s, Event::MouseMotion { x, y }).paused == s.paused,
        next_view(s, Event::MouseMotion { x, y }).frames == s.frames,
        next_view(s, Event::MouseMotion { x, y }).shown_fps == s.shown_fps,
        next_view(s, Event::MouseMotion { x, y }).window_start == s.window_start,
{
}

/// A middle click adds exactly 100 particles and a right click removes
/// exactly 100; neither moves the mouse or touches anything else.
pub proof fn lemma_clicks_change_count_by_burst(s: SimView)
    ensures
        next_view(s, Event::MouseButtonDown { button: MouseButton::Middle }) == (SimView {
            num_particles: s.num_particles + 100,
            ..s
        }),
        next_view(s, Event::MouseButtonDown { button: MouseButton::Right }) == (SimView {
            num_particles: s.num_particles - 100,
            ..s
        }),
{
}

/// Closing the window, a left click, an unknown button and any other event
/// leave the whole state as it was; no event other than a middle or right
/// click changes the number of particles.
pub proof fn lemma_other_events_change_nothing(s: SimView, e: Event)
    ensures
        e == Event::Quit || e == Event::Other || e == (Event::MouseButtonDown { button: MouseButton::Left })
            || e == (Event::MouseButtonDown { button: MouseButton::Other }) ==> next_view(s, e) == s,
        e != (Event::MouseButtonDown { button: MouseButton::Middle })
            && e != (Event::MouseButtonDown { button: MouseButton::Right })
            ==> next_view(s, e).num_particles == s.num_particles,
{
}

/// The loop is told to exit on closing the window and to do nothing on a
/// motion, a left click, an unknown button or any other event.
pub proof fn lemma_actions_of_plain_events(s: SimView, e: Event, a: Action)
    requires
        action_matches(s, e, a),
    ensures
        e == Event::Quit ==> a is Exit,
        e is MouseMotion || e == Event::Other || e == (Event::MouseButtonDown { button: MouseButton::Left })
            || e == (Event::MouseButtonDown { button: MouseButton::Other }) ==> a is Continue,
{
}

/// A middle click asks the loop to read back the `n` live particles, place
/// 100 new ones after them and upload `n + 100`; the `k`-th new particle
/// sits `14 * (1 + k % 15)` pixels right of and `16 * (1 + k / 15)` pixels
/// above the mouse, jittered within `[0, 10)`.
pub proof fn lemma_middle_click_action(s: SimView, a: Action)
    requires
        valid_view(s),
        action_matches(s, Event::MouseButtonDown { button: MouseButton::Middle }, a),
    ensures
        a is Resize,
        a->read_back == s.num_particles,
        a->upload == s.num_particles + 100,
        a->spawned@.len() == 100,
        forall|k: int| 0 <= k < 100 ==> {
            &&& (#[trigger] a->spawned@[k]).base_x == s.mouse_x + 14 * (1 + k % 15)
            &&& a->spawned@[k].base_y == s.mouse_y + 16 * (1 + k / 15)
            &&& 0 <= a->spawned@[k].jitter < 10
        },
{
    assert forall|k: int| 0 <= k < 100 implies {
        &&& (#[trigger] a->spawned@[k]).base_x == s.mouse_x + 14 * (1 + k % 15)
        &&& a->spawned@[k].base_y == s.mouse_y + 16 * (1 + k / 15)
        &&& 0 <= a->spawned@[k].jitter < 10
    } by {
        assert(burst_grid(s).base_x(k) == s.mouse_x + 14 * (1 + k % 15));
    }
}

/// A right click asks the loop to read back the `n` live particles and
/// upload only the first `n - 100`, spawning none.
pub proof fn lemma_right_click_action(s: SimView, a: Action)
    requires
        action_matches(s, Event::MouseButtonDown { button: MouseButton::Right }, a),
    ensures
        a is Resize,
        a->read_back == s.num_particles,
        a->upload == s.num_particles - 100,
        a->spawned@.len() == 0,
{
}

/// A frame end is accepted whenever the timer has not gone back and the
/// counting window is over (the window then closes), and within the window
/// whenever the counter has room for one more frame.
pub proof fn lemma_tick_permitted(s: SimView, now: int)
    ensures
        s.window_start <= now && now - s.window_start > 1000 ==> tick_permitted(s, now),
        s.window_start <= now && s.frames < i32::MAX ==> tick_permitted(s, now),
        now < s.window_start ==> !tick_permitted(s, now),
{
}

/// A frame that ends within 1000 ms of the window's start is counted and
/// changes nothing else; one that ends later shows the count, restarts the
/// counter at zero and starts the window at the second reading.
pub proof fn lemma_tick_effect(s: SimView, now: int, later: int)
    ensures
        now - s.window_start <= 1000 ==> tick_view(s, now, later) == (SimView { frames: s.frames + 1, ..s }),
        now - s.window_start > 1000 ==> tick_view(s, now, later) == (SimView {
            frames: 0,
            shown_fps: s.frames,
            window_start: later,
            ..s
        }),
{
}

} // verus!
