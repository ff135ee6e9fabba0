//! The render canvas: its window and backend settings, and the decisions of its
//! event loop. The window, the surface and the user's loop live with the caller:
//! each method here takes what happened and gives back, in order, what to do.

use vstd::prelude::*;

use crate::el::{counted, frame_rate, WAIT_TIME_NANOS};
use crate::time::{max_duration_nanos, Fps};
use crate::screen::Screen;

verus! {

/// The window mode.
#[derive(Clone, Copy, Debug, PartialEq, Eq, Structural)]
pub enum WindowMode {
    Fullscreen,
    Windowed { width: u32, height: u32 },
}

impl Default for WindowMode {
    fn default() -> (m: Self)
        ensures
            m == WindowMode::Fullscreen,
    {
        WindowMode::Fullscreen
    }
}

impl WindowMode {
    /// The inner size of a windowed window, each side at least one pixel; `None`
    /// for the fullscreen mode.
    pub fn inner_size(self) -> (s: Option<(u32, u32)>)
        ensures
            s == match self {
                WindowMode::Fullscreen => None,
                WindowMode::Windowed { width, height } => Some(
                    (if width < 1 { 1u32 } else { width }, if height < 1 { 1u32 } else { height }),
                ),
            },
    {
        match self {
            WindowMode::Fullscreen => None,
            WindowMode::Windowed { width, height } => Some(
                (if width < 1 { 1 } else { width }, if height < 1 { 1 } else { height }),
            ),
        }
    }
}

/// The size a window takes in an element of the page whose client area is
/// `client_width` by `client_height`, each side at least one pixel; `None` when
/// the window already has that size.
pub fn element_size(client_width: i32, client_height: i32, inner: (u32, u32)) -> (r: Option<(u32, u32)>)
    ensures
        ({
            let w = if client_width < 1 { 1u32 } else { client_width as u32 };
            let h = if client_height < 1 { 1u32 } else { client_height as u32 };
            r == if (w, h) == inner {
                None
            } else {
                Some((w, h))
            }
        }),
{
    let w: u32 = if client_width < 1 { 1 } else { client_width as u32 };
    let h: u32 = if client_height < 1 { 1 } else { client_height as u32 };
    if w == inner.0 && h == inner.1 {
        None
    } else {
        Some((w, h))
    }
}

/// The initial window state.
#[derive(Clone, Copy)]
pub struct InitialState<'a> {
    pub title: &'a str,
    pub mode: WindowMode,
    pub show_cursor: bool,
}

impl Default for InitialState<'_> {
    fn default() -> (s: Self)
        ensures
            s.title@ == "Dunge"@,
            s.mode == WindowMode::Fullscreen,
            s.show_cursor,
    {
        proof {
            reveal_strlit("Dunge");
        }
        InitialState { title: "Dunge", mode: WindowMode::default(), show_cursor: true }
    }
}

/// The render backend.
#[derive(Clone, Copy, Debug, PartialEq, Eq, Structural)]
pub enum Backend {
    Vulkan,
    Gl,
    Dx12,
    Dx11,
    Metal,
    WebGpu,
}

impl Default for Backend {
    fn default() -> (b: Self)
        ensures
            b == Backend::Vulkan,
    {
        Backend::Vulkan
    }
}

/// The device type.
#[derive(Clone, Copy, Debug, PartialEq, Eq, Structural)]
pub enum Device {
    IntegratedGpu,
    DiscreteGpu,
    VirtualGpu,
    Cpu,
    Other,
}

/// The render context info.
#[derive(Clone, Debug)]
pub struct Info {
    pub backend: Backend,
    pub name: String,
    pub device: Device,
}

/// Description of backend selection behavior: automatic, or by a callback that
/// picks one of the adapters found.
pub enum Selector<F> {
    Auto,
    Callback(F),
}

impl<F> Default for Selector<F> {
    fn default() -> (s: Self)
        ensures
            s is Auto,
    {
        Selector::Auto
    }
}

/// The canvas config.
pub struct CanvasConfig<F> {
    pub backend: Backend,
    pub selector: Selector<F>,
}

impl<F> Default for CanvasConfig<F> {
    fn default() -> (c: Self)
        ensures
            c.backend == Backend::Vulkan,
            c.selector is Auto,
    {
        CanvasConfig { backend: Backend::default(), selector: Selector::default() }
    }
}

/// The events the application sends to its canvas.
#[derive(Clone, Copy)]
pub enum CanvasEvent {
    SetScreen(Screen),
    Close,
}

/// A mouse button.
#[derive(Clone, Copy, Debug, PartialEq, Eq, Structural)]
pub enum MouseButton {
    Left,
    Right,
    Middle,
    Other,
}

/// Which mouse buttons were last seen pressed in this frame.
#[derive(Clone, Copy, Debug, Default, PartialEq, Eq, Structural)]
pub struct MouseButtons {
    pub pressed_left: bool,
    pub pressed_middle: bool,
    pub pressed_right: bool,
}

/// The events of the window whose handling needs no floating point.
pub enum WindowEvent<K> {
    Resized(u32, u32),
    CloseRequested,
    Focused(bool),
    /// A key; `key` is `None` for a key that could not be identified.
    KeyboardInput { key: Option<K>, pressed: bool },
    MouseInput { button: MouseButton, pressed: bool },
    /// Any other event, which needs nothing of the loop.
    Other,
}

/// Why the surface could not draw a frame.
#[derive(Clone, Copy, Debug, PartialEq, Eq, Structural)]
pub enum FrameError {
    Timeout,
    Outdated,
    Lost,
    OutOfMemory,
    /// Any other error of the surface.
    Other,
}

/// What the caller has to do, in order.
pub enum Step<I> {
    /// Stop the event loop.
    Exit,
    /// Wait this many nanoseconds before the next iteration.
    Wait(u128),
    /// Wait until this instant.
    WaitUntil(I),
    RequestRedraw,
    /// Fit the window to its container.
    SetWindowSize,
    /// Resize the render to this size.
    Resize(u32, u32),
    /// Resize the render to the window's inner size.
    ResizeToWindow,
    /// Give the render this screen.
    SetScreen(Screen),
    /// Ask the user's loop whether to close, and stop the event loop if so.
    CloseIfRequested,
    /// Drop the render surface.
    DropSurface,
    /// Create the render surface again.
    RecreateSurface,
    /// Start timing the next frame from now.
    ResetTimer,
    /// Run the user's update with the gathered input, then report it with
    /// `CanvasLoop::after_update`.
    Update,
    /// Draw the frame.
    DrawFrame,
}

/// The canvas loop's own state: whether it is active, the screen set while it was
/// not, the keys and mouse buttons gathered for the next update, the frame rate
/// counter and the last frame rate it reported.
pub struct CanvasLoop<K> {
    active: bool,
    deferred_screen: Option<Screen>,
    pressed_keys: Vec<K>,
    released_keys: Vec<K>,
    mouse: MouseButtons,
    counter: Fps,
    fps: u32,
}

/// The value of a canvas loop.
pub struct CanvasLoopState<K> {
    pub active: bool,
    pub deferred_screen: Option<Screen>,
    pub pressed_keys: Seq<K>,
    pub released_keys: Seq<K>,
    pub mouse: MouseButtons,
    pub counter: Fps,
    pub fps: u32,
}

/// `n`, or one where it is zero.
pub open spec fn at_least_one(n: u32) -> u32 {
    if n == 0 {
        1
    } else {
        n
    }
}

/// The buttons after `button` was pressed or released: the left, right and middle
/// buttons keep their last state, the others are ignored.
pub open spec fn pressed_buttons(m: MouseButtons, button: MouseButton, pressed: bool) -> MouseButtons {
    match button {
        MouseButton::Left => MouseButtons { pressed_left: pressed, ..m },
        MouseButton::Right => MouseButtons { pressed_right: pressed, ..m },
        MouseButton::Middle => MouseButtons { pressed_middle: pressed, ..m },
        MouseButton::Other => m,
    }
}

/// The state after an event sent by the application.
pub open spec fn after_user_event<K>(s: CanvasLoopState<K>, event: CanvasEvent) -> CanvasLoopState<K> {
    match event {
        CanvasEvent::SetScreen(screen) => if s.active {
            s
        } else {
            CanvasLoopState { deferred_screen: Some(screen), ..s }
        },
        CanvasEvent::Close => s,
    }
}

/// The steps for an event sent by the application.
pub open spec fn user_event_steps<K, I>(s: CanvasLoopState<K>, event: CanvasEvent) -> Seq<Step<I>> {
    match event {
        CanvasEvent::SetScreen(screen) => if s.active {
            seq![Step::<I>::SetScreen(screen)]
        } else {
            Seq::empty()
        },
        CanvasEvent::Close => seq![Step::<I>::CloseIfRequested],
    }
}

/// The state after a resume: active, with no screen kept.
pub open spec fn after_resume<K>(s: CanvasLoopState<K>) -> CanvasLoopState<K> {
    CanvasLoopState { active: true, deferred_screen: None, ..s }
}

/// The steps of a resume with a window of `width` by `height`.
pub open spec fn resume_steps<K, I>(s: CanvasLoopState<K>, width: u32, height: u32) -> Seq<Step<I>> {
    seq![
        Step::<I>::RecreateSurface,
        match s.deferred_screen {
            Some(screen) => Step::<I>::SetScreen(
                Screen { width: at_least_one(width), height: at_least_one(height), ..screen },
            ),
            None => Step::<I>::Resize(width, height),
        },
        Step::<I>::RequestRedraw,
        Step::<I>::ResetTimer,
    ]
}

/// What a redraw does, from state `s` to state `t` with steps `r`, when the time
/// since the last frame is `delta` and the shortest frame time is `min`.
pub open spec fn canvas_redraw<K, I>(
    s: CanvasLoopState<K>,
    delta: u128,
    min: u128,
    t: CanvasLoopState<K>,
    r: Seq<Step<I>>,
) -> bool {
    if !s.active {
        r == seq![Step::<I>::Wait(WAIT_TIME_NANOS)] && t == s
    } else if delta < min {
        r == seq![Step::<I>::Wait((min - delta) as u128)] && t == s
    } else {
        &&& r == seq![Step::<I>::ResetTimer, Step::Update]
        &&& counted(s.counter, delta, t.counter)
        &&& t == (CanvasLoopState {
            counter: t.counter,
            fps: match frame_rate(s.counter, delta) {
                Some(n) => n,
                None => s.fps,
            },
            ..s
        })
    }
}

/// What an event of the window does, from state `s` to state `t` with steps `r`:
/// `same_window` tells whether it is this canvas's window.
pub open spec fn window_event_effect<K, I>(
    s: CanvasLoopState<K>,
    same_window: bool,
    event: WindowEvent<K>,
    t: CanvasLoopState<K>,
    r: Seq<Step<I>>,
) -> bool {
    if !same_window {
        r == Seq::<Step<I>>::empty() && t == s
    } else {
        match event {
            WindowEvent::Resized(w, h) => r == seq![Step::<I>::Resize(w, h)] && t == s,
            WindowEvent::CloseRequested => r == seq![Step::<I>::CloseIfRequested] && t == s,
            WindowEvent::Focused(focused) => r == (if focused {
                seq![Step::<I>::RequestRedraw]
            } else {
                Seq::empty()
            }) && t == s,
            WindowEvent::KeyboardInput { key, pressed } => r == Seq::<Step<I>>::empty() && t == match key {
                Some(k) => if pressed {
                    CanvasLoopState { pressed_keys: s.pressed_keys.push(k), ..s }
                } else {
                    CanvasLoopState { released_keys: s.released_keys.push(k), ..s }
                },
                None => s,
            },
            WindowEvent::MouseInput { button, pressed } => r == Seq::<Step<I>>::empty() && t == (
            CanvasLoopState { mouse: pressed_buttons(s.mouse, button, pressed), ..s }),
            WindowEvent::Other => r == Seq::<Step<I>>::empty() && t == s,
        }
    }
}

/// The state with the gathered keys and buttons dropped.
pub open spec fn input_cleared<K>(s: CanvasLoopState<K>) -> CanvasLoopState<K> {
    CanvasLoopState {
        pressed_keys: Seq::empty(),
        released_keys: Seq::empty(),
        mouse: MouseButtons { pressed_left: false, pressed_middle: false, pressed_right: false },
        ..s
    }
}

/// The state after a suspension: inactive.
pub open spec fn after_suspend<K>(s: CanvasLoopState<K>) -> CanvasLoopState<K> {
    CanvasLoopState { active: false, ..s }
}

/// The steps after the render failed to draw a frame.
pub open spec fn frame_error_steps<I>(e: FrameError) -> Seq<Step<I>> {
    match e {
        FrameError::Timeout => Seq::<Step<I>>::empty(),
        FrameError::Outdated | FrameError::Lost => seq![Step::<I>::ResizeToWindow],
        FrameError::OutOfMemory | FrameError::Other => seq![Step::<I>::Exit],
    }
}

/// The steps when an event came before the time to wait for.
pub open spec fn wait_cancelled_steps<I>(requested_resume: Option<I>) -> Seq<Step<I>> {
    match requested_resume {
        Some(i) => seq![Step::<I>::WaitUntil(i)],
        None => seq![Step::<I>::Wait(WAIT_TIME_NANOS)],
    }
}

/// What the event loop hands to a canvas loop, one call of it each.
pub enum LoopEvent<K, I> {
    /// `window_event`.
    Window { same_window: bool, event: WindowEvent<K> },
    /// `redraw`, `delta` after the last frame with frames at least `min` apart.
    Redraw { delta: u128, min: u128 },
    /// `after_update`: the user's update ran.
    Updated,
    /// `frame_error`.
    FrameFailed(FrameError),
    /// `user_event`.
    User(CanvasEvent),
    /// `resumed`, with the window's size.
    Resumed(u32, u32),
    /// `suspended`.
    Suspended,
    /// `resume_time_reached`.
    TimeReached,
    /// `wait_cancelled`.
    WaitCancelled(Option<I>),
}

/// What one call does to the loop, from state `s` to state `t` with steps `r`, as
/// the call's contract states it.
pub open spec fn canvas_step<K, I>(
    s: CanvasLoopState<K>,
    e: LoopEvent<K, I>,
    t: CanvasLoopState<K>,
    r: Seq<Step<I>>,
) -> bool {
    match e {
        LoopEvent::Window { same_window, event } => window_event_effect(s, same_window, event, t, r),
        LoopEvent::Redraw { delta, min } => canvas_redraw(s, delta, min, t, r),
        LoopEvent::Updated => r == seq![Step::<I>::DrawFrame] && t == input_cleared(s),
        LoopEvent::FrameFailed(err) => r == frame_error_steps::<I>(err) && t == s,
        LoopEvent::User(ev) => r == user_event_steps::<K, I>(s, ev) && t == after_user_event(s, ev),
        LoopEvent::Resumed(w, h) => r == resume_steps::<K, I>(s, w, h) && t == after_resume(s),
        LoopEvent::Suspended => r == seq![Step::<I>::DropSurface] && t == after_suspend(s),
        LoopEvent::TimeReached => r == seq![Step::<I>::SetWindowSize, Step::RequestRedraw] && t == s,
        LoopEvent::WaitCancelled(req) => r == wait_cancelled_steps(req) && t == s,
    }
}

/// Whether the loop runs after the first `n` events: the last resume or suspension
/// among them was a resume.
pub open spec fn running_after<K, I>(events: Seq<LoopEvent<K, I>>, n: int) -> bool
    decreases n,
{
    if n <= 0 {
        false
    } else {
        match events[n - 1] {
            LoopEvent::Resumed(_, _) => true,
            LoopEvent::Suspended => false,
            _ => running_after(events, n - 1),
        }
    }
}

/// Whether the event asks the loop to close: a close request of this window, or a
/// close sent by the application.
pub open spec fn asks_close<K, I>(e: LoopEvent<K, I>) -> bool {
    ||| e matches LoopEvent::Window { same_window: true, event: WindowEvent::CloseRequested }
    ||| e matches LoopEvent::User(CanvasEvent::Close)
}

/// Whether the event is a failure to draw that stops the loop.
pub open spec fn stops_loop<K, I>(e: LoopEvent<K, I>) -> bool {
    ||| e matches LoopEvent::FrameFailed(FrameError::OutOfMemory)
    ||| e matches LoopEvent::FrameFailed(FrameError::Other)
}

impl<K> View for CanvasLoop<K> {
    type V = CanvasLoopState<K>;

    closed spec fn view(&self) -> CanvasLoopState<K> {
        CanvasLoopState {
            active: self.active,
            deferred_screen: self.deferred_screen,
            pressed_keys: self.pressed_keys@,
            released_keys: self.released_keys@,
            mouse: self.mouse,
            counter: self.counter,
            fps: self.fps,
        }
    }
}

impl<K> CanvasLoop<K> {
    /// An inactive loop with no input and no screen set.
    pub fn new() -> (l: Self)
        ensures
            !l@.active,
            l@.deferred_screen is None,
            l@.pressed_keys == Seq::<K>::empty(),
            l@.released_keys == Seq::<K>::empty(),
            l@.mouse == (MouseButtons { pressed_left: false, pressed_middle: false, pressed_right: false }),
            l@.counter.timer_nanos() == 0,
            l@.counter.frames() == 0,
            l@.fps == 0,
    {
        CanvasLoop {
            active: false,
            deferred_screen: None,
            pressed_keys: Vec::new(),
            released_keys: Vec::new(),
            mouse: MouseButtons { pressed_left: false, pressed_middle: false, pressed_right: false },
            counter: Fps::new(),
            fps: 0,
        }
    }

    /// The frame rate last reported.
    pub fn fps(&self) -> (n: u32)
        ensures
            n == self@.fps,
    {
        self.fps
    }

    /// Whether one more frame can be counted.
    pub fn can_count_frame(&self) -> (b: bool)
        ensures
            b == (self@.counter.frames() < u32::MAX),
    {
        self.counter.can_count()
    }

    /// A redraw was requested, `delta_nanos` after the last drawn frame, with frames
    /// at least `min_delta_nanos` apart. An inactive loop waits a while; before the
    /// shortest frame time has passed, the loop waits for the rest of it; otherwise
    /// the frame is counted, the timer starts again and the user's update runs.
    pub fn redraw<I>(&mut self, delta_nanos: u128, min_delta_nanos: u128) -> (r: Vec<Step<I>>)
        requires
            delta_nanos <= max_duration_nanos(),
            old(self)@.counter.frames() < u32::MAX,
        ensures
            canvas_redraw(old(self)@, delta_nanos, min_delta_nanos, final(self)@, r@),
    {
        let mut r: Vec<Step<I>> = Vec::new();
        if !self.active {
            r.push(Step::Wait(WAIT_TIME_NANOS));
            return r;
        }
        if delta_nanos < min_delta_nanos {
            r.push(Step::Wait(min_delta_nanos - delta_nanos));
            return r;
        }
        if let Some(fps) = self.counter.count(delta_nanos) {
            self.fps = fps;
        }
        r.push(Step::ResetTimer);
        r.push(Step::Update);
        assert(r@ =~= seq![Step::<I>::ResetTimer, Step::Update]);
        r
    }

    /// The user's update has run: the gathered input starts over and the frame is
    /// drawn.
    pub fn after_update<I>(&mut self) -> (r: Vec<Step<I>>)
        ensures
            r@ == seq![Step::<I>::DrawFrame],
            final(self)@ == input_cleared(old(self)@),
    {
        self.input_consumed();
        let mut r: Vec<Step<I>> = Vec::new();
        r.push(Step::DrawFrame);
        r
    }

    /// Whether the loop is active.
    pub fn active(&self) -> (b: bool)
        ensures
            b == self@.active,
    {
        self.active
    }

    /// The keys pressed since the last update.
    pub fn pressed_keys(&self) -> (k: &[K])
        ensures
            k@ == self@.pressed_keys,
    {
        self.pressed_keys.as_slice()
    }

    /// The keys released since the last update.
    pub fn released_keys(&self) -> (k: &[K])
        ensures
            k@ == self@.released_keys,
    {
        self.released_keys.as_slice()
    }

    /// The mouse buttons seen pressed since the last update.
    pub fn mouse(&self) -> (m: MouseButtons)
        ensures
            m == self@.mouse,
    {
        self.mouse
    }

    /// The loop woke up: when the time to wait for has come, the window is fitted
    /// and redrawn; when an event came first, the loop waits until the requested
    /// instant, or a while.
    pub fn resume_time_reached<I>() -> (r: Vec<Step<I>>)
        ensures
            r@ == seq![Step::<I>::SetWindowSize, Step::RequestRedraw],
    {
        let mut r: Vec<Step<I>> = Vec::new();
        r.push(Step::SetWindowSize);
        r.push(Step::RequestRedraw);
        r
    }

    /// An event came before the time to wait for.
    pub fn wait_cancelled<I>(requested_resume: Option<I>) -> (r: Vec<Step<I>>)
        ensures
            r@ == wait_cancelled_steps(requested_resume),
    {
        let mut r: Vec<Step<I>> = Vec::new();
        match requested_resume {
            Some(i) => r.push(Step::WaitUntil(i)),
            None => r.push(Step::Wait(WAIT_TIME_NANOS)),
        }
        r
    }

    /// A key with a known code was pressed or released.
    pub fn key(&mut self, key: K, pressed: bool)
        ensures
            final(self)@ == (if pressed {
                CanvasLoopState { pressed_keys: old(self)@.pressed_keys.push(key), ..old(self)@ }
            } else {
                CanvasLoopState { released_keys: old(self)@.released_keys.push(key), ..old(self)@ }
            }),
    {
        if pressed {
            self.pressed_keys.push(key);
        } else {
            self.released_keys.push(key);
        }
    }

    /// A mouse button was pressed or released: the left, right and middle
    /// buttons keep their last state, the others are ignored.
    pub fn mouse_input(&mut self, button: MouseButton, pressed: bool)
        ensures
            final(self)@ == (CanvasLoopState { mouse: pressed_buttons(old(self)@.mouse, button, pressed), ..old(self)@ }),
    {
        match button {
            MouseButton::Left => self.mouse.pressed_left = pressed,
            MouseButton::Right => self.mouse.pressed_right = pressed,
            MouseButton::Middle => self.mouse.pressed_middle = pressed,
            MouseButton::Other => {},
        }
    }

    /// An event of the window: `same_window` tells whether it is this canvas's window.
    pub fn window_event<I>(&mut self, same_window: bool, event: WindowEvent<K>) -> (r: Vec<Step<I>>)
        ensures
            window_event_effect(old(self)@, same_window, event, final(self)@, r@),
    {
        let mut r: Vec<Step<I>> = Vec::new();
        if !same_window {
            return r;
        }
        match event {
            WindowEvent::Resized(w, h) => r.push(Step::Resize(w, h)),
            WindowEvent::CloseRequested => r.push(Step::CloseIfRequested),
            WindowEvent::Focused(focused) => {
                if focused {
                    r.push(Step::RequestRedraw);
                }
            },
            WindowEvent::KeyboardInput { key, pressed } => {
                if let Some(k) = key {
                    self.key(k, pressed);
                }
            },
            WindowEvent::MouseInput { button, pressed } => self.mouse_input(button, pressed),
            WindowEvent::Other => {},
        }
        r
    }

    /// The user's loop has read the input: the keys and buttons start over.
    pub fn input_consumed(&mut self)
        ensures
            final(self)@ == (CanvasLoopState {
                pressed_keys: Seq::empty(),
                released_keys: Seq::empty(),
                mouse: MouseButtons { pressed_left: false, pressed_middle: false, pressed_right: false },
                ..old(self)@
            }),
    {
        self.mouse = MouseButtons { pressed_left: false, pressed_middle: false, pressed_right: false };
        self.pressed_keys.clear();
        self.released_keys.clear();
    }

    /// The render could not draw the frame: an outdated or lost surface is
    /// resized to the window, a lack of memory or another error stops the loop.
    pub fn frame_error<I>(e: FrameError) -> (r: Vec<Step<I>>)
        ensures
            r@ == frame_error_steps::<I>(e),
    {
        let mut r: Vec<Step<I>> = Vec::new();
        match e {
            FrameError::Timeout => {},
            FrameError::Outdated | FrameError::Lost => r.push(Step::ResizeToWindow),
            FrameError::OutOfMemory | FrameError::Other => r.push(Step::Exit),
        }
        r
    }

    /// An event sent by the application: a screen is given to the render at once
    /// while the loop is active and kept for the next resume otherwise.
    pub fn user_event<I>(&mut self, event: CanvasEvent) -> (r: Vec<Step<I>>)
        ensures
            r@ == user_event_steps::<K, I>(old(self)@, event),
            final(self)@ == after_user_event(old(self)@, event),
    {
        let mut r: Vec<Step<I>> = Vec::new();
        match event {
            CanvasEvent::SetScreen(screen) => {
                if self.active {
                    r.push(Step::SetScreen(screen));
                } else {
                    self.deferred_screen = Some(screen);
                }
            },
            CanvasEvent::Close => r.push(Step::CloseIfRequested),
        }
        r
    }

    /// The application was suspended: the surface is dropped.
    pub fn suspended<I>(&mut self) -> (r: Vec<Step<I>>)
        ensures
            r@ == seq![Step::<I>::DropSurface],
            final(self)@ == after_suspend(old(self)@),
    {
        self.active = false;
        let mut r: Vec<Step<I>> = Vec::new();
        r.push(Step::DropSurface);
        r
    }

    /// The application was resumed with a window of `width` by `height`: the
    /// surface is made again, the render gets the screen kept while inactive
    /// (sized to the window) or is resized to the window, and a redraw is asked
    /// for with a fresh timer.
    pub fn resumed<I>(&mut self, width: u32, height: u32) -> (r: Vec<Step<I>>)
        ensures
            r@ == resume_steps::<K, I>(old(self)@, width, height),
            final(self)@ == after_resume(old(self)@),
    {
        let mut r: Vec<Step<I>> = Vec::new();
        r.push(Step::RecreateSurface);
        match self.deferred_screen.take() {
            Some(screen) => {
                let w = if width == 0 { 1 } else { width };
                let h = if height == 0 { 1 } else { height };
                r.push(Step::SetScreen(Screen { width: w, height: h, ..screen }));
            },
            None => r.push(Step::Resize(width, height)),
        }
        self.active = true;
        r.push(Step::RequestRedraw);
        if let Some(screen) = self.deferred_screen.take() {
            r.push(Step::SetScreen(screen));
        }
        r.push(Step::ResetTimer);
        r
    }
}

/// A screen set while the canvas is suspended reaches the render at the next
/// resume, sized to the window, and is not kept afterwards; a screen set while the
/// canvas runs reaches the render at once and is not kept at all.
pub proof fn lemma_screen_reaches_render<K, I>(s: CanvasLoopState<K>, screen: Screen, width: u32, height: u32)
    ensures
        !s.active ==> {
            let t = after_user_event(s, CanvasEvent::SetScreen(screen));
            &&& user_event_steps::<K, I>(s, CanvasEvent::SetScreen(screen)) == Seq::<Step<I>>::empty()
            &&& resume_steps::<K, I>(t, width, height)[1] == Step::<I>::SetScreen(
                Screen { width: at_least_one(width), height: at_least_one(height), ..screen },
            )
            &&& after_resume(t).deferred_screen is None
        },
        s.active ==> {
            &&& user_event_steps::<K, I>(s, CanvasEvent::SetScreen(screen)) == seq![Step::<I>::SetScreen(screen)]
            &&& after_user_event(s, CanvasEvent::SetScreen(screen)) == s
        },
{
}

/// A canvas redraw paces the frames: it waits while the loop is inactive, or for
/// the rest of the shortest frame time and no longer; it runs the update only once
/// that time has passed, and then leaves the gathered input for the update.
pub proof fn lemma_canvas_redraw_paces<K, I>(
    s: CanvasLoopState<K>,
    delta: u128,
    min: u128,
    t: CanvasLoopState<K>,
    r: Seq<Step<I>>,
)
    requires
        canvas_redraw(s, delta, min, t, r),
    ensures
        r[0] matches Step::Wait(n) ==> 0 < n && (n <= WAIT_TIME_NANOS || n <= min) && t == s,
        r.contains(Step::<I>::Update) ==> {
            &&& s.active
            &&& delta >= min
            &&& t.pressed_keys == s.pressed_keys
            &&& t.released_keys == s.released_keys
            &&& t.mouse == s.mouse
        },
{
    if r.contains(Step::<I>::Update) {
        let i = choose|i: int| 0 <= i < r.len() && r[i] == Step::<I>::Update;
        if !s.active || delta < min {
            assert(r.len() == 1);
        }
    }
}

/// Whether the steps run the user's update only for a redraw of a running loop
/// after the shortest frame time, and then as its only update.
pub open spec fn update_paced<K, I>(s: CanvasLoopState<K>, e: LoopEvent<K, I>, r: Seq<Step<I>>) -> bool {
    r.contains(Step::<I>::Update) ==> {
        &&& e matches LoopEvent::Redraw { delta, min } && delta >= min
        &&& s.active
        &&& r == seq![Step::<I>::ResetTimer, Step::Update]
    }
}

/// The facts of one call that the whole run is made of.
proof fn lemma_canvas_step<K, I>(s: CanvasLoopState<K>, e: LoopEvent<K, I>, t: CanvasLoopState<K>, r: Seq<Step<I>>)
    requires
        canvas_step(s, e, t, r),
    ensures
        update_paced(s, e, r),
        t.active == match e {
            LoopEvent::Resumed(_, _) => true,
            LoopEvent::Suspended => false,
            _ => s.active,
        },
        e is Updated ==> t == input_cleared(s),
        r.contains(Step::<I>::CloseIfRequested) <==> asks_close(e),
        r.contains(Step::<I>::Exit) <==> stops_loop(e),
{
    match e {
        LoopEvent::Redraw { delta, min } => {
            if s.active && delta >= min {
                assert(r[1] == Step::<I>::Update);
            }
        },
        LoopEvent::Window { same_window, event } => {
            if same_window && event is CloseRequested {
                assert(r[0] == Step::<I>::CloseIfRequested);
            }
        },
        LoopEvent::User(ev) => {
            if ev is Close {
                assert(r[0] == Step::<I>::CloseIfRequested);
            }
        },
        LoopEvent::FrameFailed(err) => {
            if err is OutOfMemory || err is Other {
                assert(r[0] == Step::<I>::Exit);
            }
        },
        _ => {},
    }
}

/// A run of the canvas loop from its start, over any events, each call as its
/// contract states it (`states[i]` to `states[i + 1]` with the steps `outs[i]`):
/// the user's update runs at most once per redraw, and only for a redraw after the
/// shortest frame time while the loop runs, that is after a resume and before the
/// next suspension; the keys and buttons start over after each update; the loop
/// asks the user's loop whether to close exactly on a close request of its window
/// or a close sent by the application, and stops by itself only when a frame
/// failed for lack of memory or another error of the surface.
pub proof fn lemma_canvas_run<K, I>(
    events: Seq<LoopEvent<K, I>>,
    states: Seq<CanvasLoopState<K>>,
    outs: Seq<Seq<Step<I>>>,
)
    requires
        states.len() == events.len() + 1,
        outs.len() == events.len(),
        !states[0].active,
        forall|i: int| 0 <= i < events.len() ==> canvas_step(states[i], events[i], states[i + 1], outs[i]),
    ensures
        forall|i: int| 0 <= i <= events.len() ==> states[i].active == running_after(events, i),
        forall|i: int| 0 <= i < events.len() ==> update_paced(states[i], #[trigger] events[i], outs[i]),
        forall|i: int|
            0 <= i < events.len() && outs[i].contains(Step::<I>::Update) ==> running_after(events, i),
        forall|i: int|
            0 <= i < events.len() && #[trigger] events[i] is Updated ==> states[i + 1] == input_cleared(
                states[i],
            ),
        forall|i: int|
            0 <= i < events.len() ==> (#[trigger] outs[i].contains(Step::<I>::CloseIfRequested) <==> asks_close(
                events[i],
            )),
        forall|i: int|
            0 <= i < events.len() ==> (#[trigger] outs[i].contains(Step::<I>::Exit) <==> stops_loop(events[i])),
{
    assert forall|i: int| 0 <= i < events.len() implies {
        &&& update_paced(states[i], events[i], outs[i])
        &&& states[i + 1].active == match events[i] {
            LoopEvent::Resumed(_, _) => true,
            LoopEvent::Suspended => false,
            _ => states[i].active,
        }
        &&& events[i] is Updated ==> states[i + 1] == input_cleared(states[i])
        &&& outs[i].contains(Step::<I>::CloseIfRequested) <==> asks_close(events[i])
        &&& outs[i].contains(Step::<I>::Exit) <==> stops_loop(events[i])
    } by {
        lemma_canvas_step(states[i], events[i], states[i + 1], outs[i]);
    }
    assert forall|i: int| 0 <= i < events.len() && #[trigger] events[i] is Updated implies states[i + 1]
        == input_cleared(states[i]) by {
        lemma_canvas_step(states[i], events[i], states[i + 1], outs[i]);
    }
    assert forall|i: int| 0 <= i <= events.len() implies states[i].active == running_after(events, i) by {
        lemma_running_after(events, states, outs, i);
    }
}

/// The loop runs after the first `n` events exactly when the last resume or
/// suspension among them was a resume.
proof fn lemma_running_after<K, I>(
    events: Seq<LoopEvent<K, I>>,
    states: Seq<CanvasLoopState<K>>,
    outs: Seq<Seq<Step<I>>>,
    n: int,
)
    requires
        states.len() == events.len() + 1,
        outs.len() == events.len(),
        !states[0].active,
        forall|i: int| 0 <= i < events.len() ==> canvas_step(states[i], events[i], states[i + 1], outs[i]),
        0 <= n <= events.len(),
    ensures
        states[n].active == running_after(events, n),
    decreases n,
{
    if n > 0 {
        lemma_running_after(events, states, outs, n - 1);
        lemma_canvas_step(states[n - 1], events[n - 1], states[n], outs[n - 1]);
    }
}

} // verus!
