use crate::controller::{controller_after, Controller, ControllerLayout, ControllerView};
use crate::frame_limiter::{budget_left, delta_since, frame_nanos_for, FrameLimiter, FrameLimiterView};
use crate::input::{function_key, function_key_numbered, Key, KeyState};
use crate::settings::GameSettings;
use vstd::prelude::*;

verus! {

/// Vertical field of view of the scene camera, in degrees.
pub const FOV_DEGREES: u32 = 70;

/// Near clipping distance, in thousandths of a world unit.
pub const Z_NEAR_MILLI: u32 = 100;

/// Far clipping distance, in thousandths of a world unit.
pub const Z_FAR_MILLI: u32 = 100_000;

/// Number of selectable post-processing effects (keys F1 to F10).
pub const EFFECT_COUNT: u8 = 10;

/// A window event as the frame loop sees it.
#[derive(Clone, Copy, Debug, PartialEq, Eq, Structural)]
pub enum WindowEvent {
    /// The framebuffer now has this width and height, in pixels.
    FramebufferSize(i32, i32),
    /// Any other event (cursor, scroll, ...); the loop drains it and does nothing.
    Other,
}

/// A perspective projection: aspect ratio as width over height, vertical
/// field of view, and clipping distances.
#[derive(Clone, Copy, Debug, PartialEq, Eq, Structural)]
pub struct Projection {
    pub aspect_width: u32,
    pub aspect_height: u32,
    pub fov_degrees: u32,
    pub z_near_milli: u32,
    pub z_far_milli: u32,
}

/// One step of a frame, for the window and graphics side to carry out in order.
#[derive(Clone, Copy, Debug, PartialEq, Eq, Structural)]
pub enum Command {
    /// Set the viewport and resize the offscreen target to this size.
    Resize { width: i32, height: i32 },
    /// Tell the window that it should close.
    RequestClose,
    /// Advance the scene by this many nanoseconds, with the current controllers.
    UpdateScene { dt_nanos: u64 },
    /// Bind the offscreen target, clear it, draw the scene through this
    /// projection, and unbind it.
    DrawScene { projection: Projection },
    /// Clear the screen and composite the offscreen image with this effect.
    Composite { effect: i32 },
    /// Swap buffers.
    Present,
}

pub open spec fn projection_for(width: u32, height: u32) -> Projection {
    Projection {
        aspect_width: width,
        aspect_height: height,
        fov_degrees: FOV_DEGREES,
        z_near_milli: Z_NEAR_MILLI,
        z_far_milli: Z_FAR_MILLI,
    }
}

/// The resize commands for a run of events: one per framebuffer-size event
/// with positive dimensions, in order. Events with a zero or negative
/// dimension are drained without a resize.
pub open spec fn resizes_of(events: Seq<WindowEvent>) -> Seq<Command>
    decreases events.len(),
{
    if events.len() == 0 {
        seq![]
    } else {
        let prev = resizes_of(events.drop_last());
        match events.last() {
            WindowEvent::FramebufferSize(w, h) => if w > 0 && h > 0 {
                prev.push(Command::Resize { width: w, height: h })
            } else {
                prev
            },
            WindowEvent::Other => prev,
        }
    }
}

/// The size after a run of events, starting from `(width, height)`: that of
/// the last framebuffer-size event with positive dimensions, if any.
pub open spec fn size_after(width: u32, height: u32, events: Seq<WindowEvent>) -> (u32, u32)
    decreases events.len(),
{
    if events.len() == 0 {
        (width, height)
    } else {
        let prev = size_after(width, height, events.drop_last());
        match events.last() {
            WindowEvent::FramebufferSize(w, h) => if w > 0 && h > 0 {
                (w as u32, h as u32)
            } else {
                prev
            },
            WindowEvent::Other => prev,
        }
    }
}

/// The effect after checking F1 to F`n` in order, each held key overwriting
/// the selection: the highest held one wins.
pub open spec fn effect_after(current: i32, keys: Set<Key>, n: int) -> i32
    decreases n,
{
    if n <= 0 {
        current
    } else if keys.contains(function_key(n)) {
        n as i32
    } else {
        effect_after(current, keys, n - 1)
    }
}

/// What a game holds, apart from the window and graphics resources.
pub struct GameView {
    pub settings: GameSettings,
    pub limiter: FrameLimiterView,
    pub target_width: u32,
    pub target_height: u32,
    pub effect: i32,
    pub controllers: Seq<ControllerView>,
    pub running: bool,
}

/// The state after draining a run of window events.
pub open spec fn after_events(v: GameView, events: Seq<WindowEvent>) -> GameView {
    let size = size_after(v.settings.width, v.settings.height, events);
    let target = size_after(v.target_width, v.target_height, events);
    GameView {
        settings: GameSettings { width: size.0, height: size.1, ..v.settings },
        target_width: target.0,
        target_height: target.1,
        ..v
    }
}

/// The state after reading a key snapshot: Escape stops the game, F1 to F10
/// select an effect, and each controller reads its own keys.
pub open spec fn after_input(v: GameView, keys: Set<Key>) -> GameView {
    GameView {
        running: v.running && !keys.contains(Key::Escape),
        effect: effect_after(v.effect, keys, EFFECT_COUNT as int),
        controllers: v.controllers.map_values(|c: ControllerView| controller_after(c, keys)),
        ..v
    }
}

/// The state after one frame that started at `now`.
pub open spec fn frame_state(
    v: GameView,
    now: u64,
    events: Seq<WindowEvent>,
    keys: Set<Key>,
) -> GameView {
    if !v.running {
        v
    } else {
        let started = GameView { limiter: FrameLimiterView { frame_start: Some(now), ..v.limiter }, ..v };
        after_input(after_events(started, events), keys)
    }
}

/// The commands of one frame, in the order they are carried out.
pub open spec fn frame_commands(
    resizes: Seq<Command>,
    close: bool,
    dt_nanos: u64,
    projection: Projection,
    effect: i32,
) -> Seq<Command> {
    resizes + (if close { seq![Command::RequestClose] } else { seq![] }) + seq![
        Command::UpdateScene { dt_nanos },
        Command::DrawScene { projection },
        Command::Composite { effect },
        Command::Present,
    ]
}

/// The commands of one frame that started at `now`; none once the game has
/// stopped.
pub open spec fn frame_output(
    v: GameView,
    now: u64,
    events: Seq<WindowEvent>,
    keys: Set<Key>,
) -> Seq<Command> {
    if !v.running {
        seq![]
    } else {
        let next = frame_state(v, now, events, keys);
        frame_commands(
            resizes_of(events),
            keys.contains(Key::Escape),
            delta_since(v.limiter, now) as u64,
            projection_for(next.settings.width, next.settings.height),
            next.effect,
        )
    }
}

/// The game's own state: settings, pacing, the size of the offscreen target,
/// the selected post-processing effect, the controllers, and whether the
/// loop still runs.
pub struct Game {
    settings: GameSettings,
    frame_limiter: FrameLimiter,
    target_width: u32,
    target_height: u32,
    post_proc_effect: i32,
    controllers: Vec<Controller>,
    running: bool,
}

impl View for Game {
    type V = GameView;

    closed spec fn view(&self) -> GameView {
        GameView {
            settings: self.settings,
            limiter: self.frame_limiter@,
            target_width: self.target_width,
            target_height: self.target_height,
            effect: self.post_proc_effect,
            controllers: self.controllers@.map_values(|c: Controller| c@),
            running: self.running,
        }
    }
}

fn update_controllers(controllers: &mut Vec<Controller>, keys: &KeyState)
    ensures
        final(controllers)@.len() == old(controllers)@.len(),
        forall|j: int|
            0 <= j < old(controllers)@.len() ==> #[trigger] final(controllers)@[j]@ == controller_after(
                old(controllers)@[j]@,
                keys@,
            ),
{
    let n = controllers.len();
    let mut i: usize = 0;
    while i < n
        invariant
            n == controllers@.len(),
            n == old(controllers)@.len(),
            0 <= i <= n,
            forall|j: int| 0 <= j < i ==> #[trigger] controllers@[j]@ == controller_after(old(controllers)@[j]@, keys@),
            forall|j: int| i <= j < n ==> #[trigger] controllers@[j] == old(controllers)@[j],
        decreases n - i,
    {
        let mut c = controllers[i];
        c.process_input(keys);
        controllers.set(i, c);
        i += 1;
    }
}

impl Game {
    /// A running game with the given settings: no effect selected, an
    /// offscreen target of the window's size, and two active controllers,
    /// WASD first and the arrow keys second.
    pub fn new(settings: GameSettings) -> (r: Game)
        ensures
            r@.settings == settings,
            r@.limiter == (FrameLimiterView { frame_nanos: frame_nanos_for(settings.fps), frame_start: None }),
            r@.target_width == settings.width,
            r@.target_height == settings.height,
            r@.effect == 0,
            r@.controllers == seq![
                ControllerView { layout: ControllerLayout::WASD, active: true, throttle: 0, steer: 0 },
                ControllerView { layout: ControllerLayout::Arrows, active: true, throttle: 0, steer: 0 },
            ],
            r@.running,
    {
        let controllers = vec![
            Controller::new(true, &ControllerLayout::WASD),
            Controller::new(true, &ControllerLayout::Arrows),
        ];
        let r = Game {
            settings,
            frame_limiter: FrameLimiter::new(settings.fps),
            target_width: settings.width,
            target_height: settings.height,
            post_proc_effect: 0,
            controllers,
            running: true,
        };
        assert(r@.controllers =~= seq![
            ControllerView { layout: ControllerLayout::WASD, active: true, throttle: 0, steer: 0 },
            ControllerView { layout: ControllerLayout::Arrows, active: true, throttle: 0, steer: 0 },
        ]);
        r
    }

    /// Drains a run of window events in order. Each framebuffer-size event
    /// with positive dimensions updates the stored size and the offscreen
    /// target's size, and yields a resize command; the others change nothing.
    pub fn process_events(&mut self, events: &Vec<WindowEvent>) -> (r: Vec<Command>)
        ensures
            final(self)@ == after_events(old(self)@, events@),
            r@ == resizes_of(events@),
    {
        let mut out: Vec<Command> = Vec::new();
        let mut i: usize = 0;
        while i < events.len()
            invariant
                0 <= i <= events@.len(),
                self@ == after_events(old(self)@, events@.take(i as int)),
                out@ == resizes_of(events@.take(i as int)),
            decreases events.len() - i,
        {
            let e = events[i];
            match e {
                WindowEvent::FramebufferSize(w, h) => {
                    if w > 0 && h > 0 {
                        self.settings.width = w as u32;
                        self.settings.height = h as u32;
                        self.target_width = w as u32;
                        self.target_height = h as u32;
                        out.push(Command::Resize { width: w, height: h });
                    }
                },
                WindowEvent::Other => {},
            }
            assert(events@.take(i + 1).drop_last() =~= events@.take(i as int));
            i += 1;
        }
        assert(events@.take(events@.len() as int) =~= events@);
        out
    }

    /// Reads a key snapshot: Escape stops the game; F1 to F10 are checked in
    /// order and each held one selects its effect, so the highest held wins;
    /// then each controller derives its state from its own keys.
    pub fn process_input(&mut self, keys: &KeyState)
        ensures
            final(self)@ == after_input(old(self)@, keys@),
    {
        if keys.is_down(Key::Escape) {
            self.running = false;
        }
        let mut n: u8 = 1;
        while n <= EFFECT_COUNT
            invariant
                1 <= n <= EFFECT_COUNT + 1,
                self@ == (GameView {
                    running: old(self)@.running && !keys@.contains(Key::Escape),
                    effect: effect_after(old(self)@.effect, keys@, n - 1),
                    ..old(self)@
                }),
            decreases EFFECT_COUNT + 1 - n,
        {
            if keys.is_down(function_key_numbered(n)) {
                self.post_proc_effect = n as i32;
            }
            n += 1;
        }
        update_controllers(&mut self.controllers, keys);
        assert(self@.controllers =~= old(self)@.controllers.map_values(
            |c: ControllerView| controller_after(c, keys@),
        ));
    }

    /// Stops the game, as when the window was asked to close.
    pub fn signal_close(&mut self)
        ensures
            final(self)@ == (GameView { running: false, ..old(self)@ }),
    {
        self.running = false;
    }

    /// The projection for the current window size.
    pub fn projection(&self) -> (r: Projection)
        ensures
            r == projection_for(self@.settings.width, self@.settings.height),
    {
        Projection {
            aspect_width: self.settings.width,
            aspect_height: self.settings.height,
            fov_degrees: FOV_DEGREES,
            z_near_milli: Z_NEAR_MILLI,
            z_far_milli: Z_FAR_MILLI,
        }
    }

    /// Runs the decisions of one frame that starts at `now`: starts the frame
    /// limiter, drains the window events, reads the keys, and returns the
    /// frame's commands in order. A stopped game does nothing and returns no
    /// command.
    pub fn frame(&mut self, now: u64, events: &Vec<WindowEvent>, keys: &KeyState) -> (r: Vec<
        Command,
    >)
        ensures
            final(self)@ == frame_state(old(self)@, now, events@, keys@),
            r@ == frame_output(old(self)@, now, events@, keys@),
    {
        if !self.running {
            return Vec::new();
        }
        let dt = self.frame_limiter.start(now);
        let mut cmds = self.process_events(events);
        let close = keys.is_down(Key::Escape);
        self.process_input(keys);
        if close {
            cmds.push(Command::RequestClose);
        }
        cmds.push(Command::UpdateScene { dt_nanos: dt });
        cmds.push(Command::DrawScene { projection: self.projection() });
        cmds.push(Command::Composite { effect: self.post_proc_effect });
        cmds.push(Command::Present);
        assert(cmds@ =~= frame_output(old(self)@, now, events@, keys@));
        cmds
    }

    /// Whether the current frame still has time left at `now`; the loop idles
    /// while this holds.
    pub fn frame_budget_left(&self, now: u64) -> (r: bool)
        ensures
            r == budget_left(self@.limiter, now),
    {
        self.frame_limiter.stop(now)
    }

    /// Whether the loop still runs.
    pub fn is_running(&self) -> (r: bool)
        ensures
            r == self@.running,
    {
        self.running
    }

    pub fn settings(&self) -> (r: GameSettings)
        ensures
            r == self@.settings,
    {
        self.settings
    }

    /// The selected post-processing effect: 0 for none, 1 to 10 for F1 to F10.
    pub fn post_proc_effect(&self) -> (r: i32)
        ensures
            r == self@.effect,
    {
        self.post_proc_effect
    }

    /// Width and height of the offscreen target.
    pub fn target_size(&self) -> (r: (u32, u32))
        ensures
            r == (self@.target_width, self@.target_height),
    {
        (self.target_width, self.target_height)
    }

    pub fn controllers(&self) -> (r: &Vec<Controller>)
        ensures
            r@.map_values(|c: Controller| c@) == self@.controllers,
    {
        &self.controllers
    }
}

/// Checking F1 to F`n` selects the highest held key among them, or keeps the
/// current effect when none of them is held.
pub proof fn lemma_highest_function_key_wins(current: i32, keys: Set<Key>, n: int, top: int)
    requires
        0 <= n <= EFFECT_COUNT,
        0 <= top <= n,
        top > 0 ==> keys.contains(function_key(top)),
        forall|m: int| top < m <= n ==> !keys.contains(#[trigger] function_key(m)),
    ensures
        effect_after(current, keys, n) == if top == 0 { current } else { top as i32 },
    decreases n,
{
    if n > top {
        assert(!keys.contains(function_key(n)));
        lemma_highest_function_key_wins(current, keys, n - 1, top);
    }
}

/// Draining framebuffer-size events that all have positive dimensions skips
/// none of them: one resize command each, in order, and the stored size is
/// that of the last one.
pub proof fn lemma_last_resize_wins(width: u32, height: u32, events: Seq<WindowEvent>)
    requires
        events.len() > 0,
        forall|i: int|
            0 <= i < events.len() ==> (#[trigger] events[i] matches WindowEvent::FramebufferSize(w, h)
                && w > 0 && h > 0),
    ensures
        resizes_of(events).len() == events.len(),
        forall|i: int|
            0 <= i < events.len() ==> (#[trigger] events[i] matches WindowEvent::FramebufferSize(w, h)
                && resizes_of(events)[i] == (Command::Resize { width: w, height: h })),
        events.last() matches WindowEvent::FramebufferSize(w, h) && size_after(width, height, events)
            == (w as u32, h as u32),
    decreases events.len(),
{
    let prefix = events.drop_last();
    let last = events[events.len() - 1];
    assert(last matches WindowEvent::FramebufferSize(w, h) && w > 0 && h > 0);
    if prefix.len() == 0 {
        assert(resizes_of(prefix) == Seq::<Command>::empty());
    } else {
        assert forall|i: int| 0 <= i < prefix.len() implies (#[trigger] prefix[i] matches WindowEvent::FramebufferSize(
            w,
            h,
        ) && w > 0 && h > 0) by {
            assert(prefix[i] == events[i]);
        }
        lemma_last_resize_wins(width, height, prefix);
    }
    assert forall|i: int| 0 <= i < events.len() implies (#[trigger] events[i] matches WindowEvent::FramebufferSize(
        w,
        h,
    ) && resizes_of(events)[i] == (Command::Resize { width: w, height: h })) by {
        if i < prefix.len() {
            assert(prefix[i] == events[i]);
        }
    }
}

/// A frame whose last event resizes the framebuffer to `(w, h)` resizes the
/// offscreen target to `(w, h)` before it draws, and draws through a
/// projection of aspect `w / h`.
pub proof fn lemma_draw_after_resize(
    v: GameView,
    now: u64,
    events: Seq<WindowEvent>,
    keys: Set<Key>,
    w: i32,
    h: i32,
)
    requires
        v.running,
        events.len() > 0,
        events.last() == WindowEvent::FramebufferSize(w, h),
        w > 0,
        h > 0,
    ensures
        ({
            let next = frame_state(v, now, events, keys);
            let out = frame_output(v, now, events, keys);
            let k: int = resizes_of(events).len() as int;
            &&& next.target_width == w && next.target_height == h
            &&& next.settings.width == w && next.settings.height == h
            &&& k > 0 && out[k - 1] == (Command::Resize { width: w, height: h })
            &&& out[out.len() - 3] == (Command::DrawScene { projection: projection_for(w as u32, h as u32) })
        }),
{
}

/// Escape held in a running frame stops the game by the end of that frame's
/// input step; the frame itself still updates and draws the scene, asks the
/// window to close, and every later frame does nothing.
pub proof fn lemma_escape_closes(
    v: GameView,
    now: u64,
    events: Seq<WindowEvent>,
    keys: Set<Key>,
    later_now: u64,
    later_events: Seq<WindowEvent>,
    later_keys: Set<Key>,
)
    requires
        v.running,
        keys.contains(Key::Escape),
    ensures
        ({
            let next = frame_state(v, now, events, keys);
            let out = frame_output(v, now, events, keys);
            let k: int = resizes_of(events).len() as int;
            &&& !next.running
            &&& out.len() == k + 5
            &&& out[k] == Command::RequestClose
            &&& out[k + 1] is UpdateScene
            &&& out[k + 2] is DrawScene
            &&& out[k + 4] == Command::Present
            &&& frame_output(next, later_now, later_events, later_keys) == Seq::<Command>::empty()
            &&& frame_state(next, later_now, later_events, later_keys) == next
        }),
{
}

} // verus!
