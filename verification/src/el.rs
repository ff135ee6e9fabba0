//! The decisions of the main event loop. The window, the surface and the user's
//! update live with the caller: each method here takes what happened and gives
//! back, in order, what the caller has to do.

use vstd::prelude::*;

use crate::time::{max_duration_nanos, Fps, Time};

verus! {

/// How long the loop waits for the window to become active, in nanoseconds.
pub const WAIT_TIME_NANOS: u128 = 100_000_000;

/// The control flow type.
pub enum Then<E> {
    /// Keep running the application.
    Run,
    /// Close the application.
    Close,
    /// Exit with an error.
    Fail(E),
}

/// The control flow trait for the update stage.
pub trait Flow<E> {
    fn flow(self) -> Then<E>;
}

impl<E> Flow<E> for () {
    fn flow(self) -> Then<E>
        returns
            Then::<E>::Run,
    {
        Then::Run
    }
}

impl<E> Flow<E> for Then<E> {
    fn flow(self) -> (t: Then<E>)
        ensures
            t == self,
    {
        self
    }
}

/// Keyboard input.
#[derive(Clone)]
pub struct Key<C, T> {
    pub code: C,
    pub text: Option<T>,
}

/// Mouse buttons.
pub struct Buttons<B>(Vec<B>);

impl<B> Buttons<B> {
    pub closed spec fn buttons(&self) -> Seq<B> {
        self.0@
    }

    pub fn push(&mut self, button: B)
        ensures
            final(self).buttons() == old(self).buttons().push(button),
    {
        self.0.push(button);
    }

    /// The buttons, in the order they came.
    pub fn as_slice(&self) -> (s: &[B])
        ensures
            s@ == self.buttons(),
    {
        self.0.as_slice()
    }

    fn clear(&mut self)
        ensures
            final(self).buttons() == Seq::<B>::empty(),
    {
        self.0.clear();
    }
}

/// Mouse input: the buttons pressed and released since the last frame.
pub struct Mouse<B> {
    pub pressed_buttons: Buttons<B>,
    pub released_buttons: Buttons<B>,
}

impl<B> Mouse<B> {
    fn clear(&mut self)
        ensures
            final(self).pressed_buttons.buttons() == Seq::<B>::empty(),
            final(self).released_buttons.buttons() == Seq::<B>::empty(),
    {
        self.pressed_buttons.clear();
        self.released_buttons.clear();
    }
}

/// What the update stage sees of the loop.
pub struct ControlState<C, T, B> {
    pub resized: Option<(u32, u32)>,
    pub min_delta_time: u128,
    pub delta_time: u128,
    pub fps: u32,
    pub pressed_keys: Seq<Key<C, T>>,
    pub released_keys: Seq<Key<C, T>>,
    pub pressed_buttons: Seq<B>,
    pub released_buttons: Seq<B>,
}

/// The control type of the main event loop. Times are in nanoseconds.
pub struct Control<C, T, B> {
    resized: Option<(u32, u32)>,
    min_delta_time: u128,
    delta_time: u128,
    fps: u32,
    pressed_keys: Vec<Key<C, T>>,
    released_keys: Vec<Key<C, T>>,
    mouse: Mouse<B>,
}

impl<C, T, B> View for Control<C, T, B> {
    type V = ControlState<C, T, B>;

    closed spec fn view(&self) -> ControlState<C, T, B> {
        ControlState {
            resized: self.resized,
            min_delta_time: self.min_delta_time,
            delta_time: self.delta_time,
            fps: self.fps,
            pressed_keys: self.pressed_keys@,
            released_keys: self.released_keys@,
            pressed_buttons: self.mouse.pressed_buttons.buttons(),
            released_buttons: self.mouse.released_buttons.buttons(),
        }
    }
}

impl<C, T, B> Control<C, T, B> {
    /// The new size of the window, if it was resized since the last frame.
    pub fn resized(&self) -> (r: Option<(u32, u32)>)
        ensures
            r == self@.resized,
    {
        self.resized
    }

    /// Records the size of the window after a resize.
    pub fn resize(&mut self, size: (u32, u32))
        ensures
            final(self)@ == (ControlState { resized: Some(size), ..old(self)@ }),
    {
        self.resized = Some(size);
    }

    /// Sets the shortest time between two frames.
    pub fn set_min_delta_time(&mut self, min_delta_time: u128)
        ensures
            final(self)@ == (ControlState { min_delta_time, ..old(self)@ }),
    {
        self.min_delta_time = min_delta_time;
    }

    /// The shortest time between two frames.
    pub fn min_delta_time(&self) -> (t: u128)
        ensures
            t == self@.min_delta_time,
    {
        self.min_delta_time
    }

    /// The time since the previous frame.
    pub fn delta_time(&self) -> (t: u128)
        ensures
            t == self@.delta_time,
    {
        self.delta_time
    }

    /// The frames drawn in the last whole second counted.
    pub fn fps(&self) -> (n: u32)
        ensures
            n == self@.fps,
    {
        self.fps
    }

    /// The keys pressed since the last frame.
    pub fn pressed_keys(&self) -> (k: &[Key<C, T>])
        ensures
            k@ == self@.pressed_keys,
    {
        self.pressed_keys.as_slice()
    }

    /// The keys released since the last frame.
    pub fn released_keys(&self) -> (k: &[Key<C, T>])
        ensures
            k@ == self@.released_keys,
    {
        self.released_keys.as_slice()
    }

    /// The mouse buttons pressed and released since the last frame.
    pub fn mouse(&self) -> (m: &Mouse<B>)
        ensures
            m.pressed_buttons.buttons() == self@.pressed_buttons,
            m.released_buttons.buttons() == self@.released_buttons,
    {
        &self.mouse
    }

    /// Forgets the input of the frame just drawn.
    fn clear_state(&mut self)
        ensures
            final(self)@ == (ControlState {
                resized: None,
                pressed_keys: Seq::empty(),
                released_keys: Seq::empty(),
                pressed_buttons: Seq::empty(),
                released_buttons: Seq::empty(),
                ..old(self)@
            }),
    {
        self.pressed_keys.clear();
        self.released_keys.clear();
        self.resized = None;
        self.mouse.clear();
    }
}

/// What the loop was woken up for.
pub enum StartCause<I> {
    /// The time to wait for has come.
    ResumeTimeReached,
    /// An event came before the time to wait for.
    WaitCancelled { requested_resume: Option<I> },
    Poll,
    /// The loop has just started.
    Init,
}

/// The events of the window that the loop handles itself.
pub enum WindowEvent<C, T, B> {
    Resized,
    CloseRequested,
    Focused(bool),
    /// A key; `code` is `None` for a key that could not be identified.
    KeyboardInput { code: Option<C>, text: Option<T>, pressed: bool, is_synthetic: bool },
    MouseInput { pressed: bool, button: B },
    RedrawRequested,
    /// Any other event, which needs nothing of the loop.
    Other,
}

/// Why the surface could not give a frame.
#[derive(Clone, Copy, Debug, PartialEq, Eq, Structural)]
pub enum SurfaceError {
    Timeout,
    Outdated,
    Lost,
    OutOfMemory,
    Other,
}

/// What the caller has to do, in order.
pub enum Action<I> {
    /// Stop the event loop.
    Exit,
    /// Wait this many nanoseconds before the next iteration.
    Wait(u128),
    /// Wait until this instant.
    WaitUntil(I),
    /// Ask the window for a redraw.
    RequestRedraw,
    /// Fit the window to its container.
    SetWindowSize,
    /// Resize the surface, then report the window's size with `Handler::resize`.
    Resize,
    /// Initialize the window and the user's update.
    Initialize,
    /// Run the user's update and report its flow with `Handler::after_update`.
    Update,
    /// Draw a frame and present it, or report the surface's error with
    /// `Handler::surface_error`.
    Draw,
}

/// The event loop handler: the input gathered for the update stage, whether the
/// application is active, the frame timer and the frame rate counter.
pub struct Handler<C, T, B> {
    ctrl: Control<C, T, B>,
    active: bool,
    time: Time,
    fps: Fps,
}

impl<C, T, B> Handler<C, T, B> {
    pub closed spec fn control_state(&self) -> ControlState<C, T, B> {
        self.ctrl@
    }

    pub closed spec fn is_active(&self) -> bool {
        self.active
    }

    /// The time accumulated since the last drawn frame.
    pub closed spec fn elapsed(&self) -> u128 {
        self.time.delta_nanos()
    }

    pub closed spec fn frame_counter(&self) -> Fps {
        self.fps
    }

    /// A handler of an inactive loop with no input, whose frames are at least
    /// `min_delta_time` apart.
    pub fn new(min_delta_time: u128) -> (h: Self)
        ensures
            !h.is_active(),
            h.elapsed() == 0,
            h.frame_counter().frames() == 0,
            h.frame_counter().timer_nanos() == 0,
            h.control_state() == (ControlState::<C, T, B> {
                resized: None,
                min_delta_time,
                delta_time: 0,
                fps: 0,
                pressed_keys: Seq::empty(),
                released_keys: Seq::empty(),
                pressed_buttons: Seq::empty(),
                released_buttons: Seq::empty(),
            }),
    {
        let ctrl = Control {
            resized: None,
            min_delta_time,
            delta_time: 0,
            fps: 0,
            pressed_keys: Vec::new(),
            released_keys: Vec::new(),
            mouse: Mouse { pressed_buttons: Buttons(Vec::new()), released_buttons: Buttons(Vec::new()) },
        };
        Handler { ctrl, active: false, time: Time::now(), fps: Fps::new() }
    }

    /// What the update stage sees.
    pub fn control(&self) -> (c: &Control<C, T, B>)
        ensures
            c@ == self.control_state(),
    {
        &self.ctrl
    }

    /// Whether the application is active.
    pub fn active(&self) -> (b: bool)
        ensures
            b == self.is_active(),
    {
        self.active
    }

    /// Whether one more frame can be counted.
    pub fn can_count_frame(&self) -> (b: bool)
        ensures
            b == (self.frame_counter().frames() < u32::MAX),
    {
        self.fps.can_count()
    }

    /// Records the size of the window after a resize.
    pub fn resize(&mut self, size: (u32, u32))
        ensures
            final(self).control_state() == (ControlState { resized: Some(size), ..old(self).control_state() }),
            final(self).is_active() == old(self).is_active(),
            final(self).elapsed() == old(self).elapsed(),
            final(self).frame_counter() == old(self).frame_counter(),
    {
        self.ctrl.resize(size);
    }

    /// Sets the shortest time between two frames.
    pub fn set_min_delta_time(&mut self, min_delta_time: u128)
        ensures
            final(self).control_state() == (ControlState { min_delta_time, ..old(self).control_state() }),
            final(self).is_active() == old(self).is_active(),
            final(self).elapsed() == old(self).elapsed(),
            final(self).frame_counter() == old(self).frame_counter(),
    {
        self.ctrl.set_min_delta_time(min_delta_time);
    }

    /// The application became active: ask for a redraw, wait a while and start
    /// timing from now.
    pub fn resumed<I>(&mut self) -> (r: Vec<Action<I>>)
        ensures
            r@ == seq![Action::<I>::RequestRedraw, Action::Wait(WAIT_TIME_NANOS)],
            final(self).is_active(),
            final(self).elapsed() == 0,
            final(self).control_state() == old(self).control_state(),
            final(self).frame_counter() == old(self).frame_counter(),
    {
        self.active = true;
        self.time.reset();
        let mut r: Vec<Action<I>> = Vec::new();
        r.push(Action::RequestRedraw);
        r.push(Action::Wait(WAIT_TIME_NANOS));
        r
    }

    /// The application was suspended.
    pub fn suspended(&mut self)
        ensures
            !final(self).is_active(),
            final(self).elapsed() == old(self).elapsed(),
            final(self).control_state() == old(self).control_state(),
            final(self).frame_counter() == old(self).frame_counter(),
    {
        self.active = false;
    }

    /// The loop woke up for `cause`.
    pub fn new_events<I>(&mut self, cause: StartCause<I>) -> (r: Vec<Action<I>>)
        ensures
            r@ == match cause {
                StartCause::ResumeTimeReached => seq![Action::<I>::SetWindowSize, Action::RequestRedraw],
                StartCause::WaitCancelled { requested_resume: Some(resume) } => seq![Action::WaitUntil(resume)],
                StartCause::WaitCancelled { requested_resume: None } => seq![Action::Wait(WAIT_TIME_NANOS)],
                StartCause::Poll => Seq::empty(),
                StartCause::Init => seq![Action::Initialize],
            },
            *final(self) == *old(self),
    {
        let mut r: Vec<Action<I>> = Vec::new();
        match cause {
            StartCause::ResumeTimeReached => {
                r.push(Action::SetWindowSize);
                r.push(Action::RequestRedraw);
            },
            StartCause::WaitCancelled { requested_resume } => match requested_resume {
                Some(resume) => r.push(Action::WaitUntil(resume)),
                None => r.push(Action::Wait(WAIT_TIME_NANOS)),
            },
            StartCause::Poll => {},
            StartCause::Init => r.push(Action::Initialize),
        }
        r
    }

    /// An event of the window: `same_window` tells whether it is this loop's window.
    /// Keys and mouse buttons are gathered for the next update; a redraw request
    /// draws a frame when the application is active and the shortest time between
    /// frames has passed.
    pub fn window_event<I>(&mut self, same_window: bool, event: WindowEvent<C, T, B>) -> (r: Vec<
        Action<I>,
    >)
        requires
            same_window && event is RedrawRequested ==> old(self).frame_counter().frames() < u32::MAX,
        ensures
            final(self).is_active() == old(self).is_active(),
            !same_window ==> r@ == Seq::<Action<I>>::empty() && *final(self) == *old(self),
            same_window ==> match event {
                WindowEvent::Resized => r@ == seq![Action::<I>::Resize] && *final(self) == *old(self),
                WindowEvent::CloseRequested => r@ == seq![Action::<I>::Exit] && *final(self) == *old(self),
                WindowEvent::Focused(focused) => r@ == (if focused {
                    seq![Action::<I>::RequestRedraw]
                } else {
                    Seq::empty()
                }) && *final(self) == *old(self),
                WindowEvent::KeyboardInput { code, text, pressed, is_synthetic } => {
                    &&& r@ == Seq::<Action<I>>::empty()
                    &&& final(self).elapsed() == old(self).elapsed()
                    &&& final(self).frame_counter() == old(self).frame_counter()
                    &&& final(self).control_state() == key_input(old(self).control_state(), code, text, pressed, is_synthetic)
                },
                WindowEvent::MouseInput { pressed, button } => {
                    &&& r@ == Seq::<Action<I>>::empty()
                    &&& final(self).elapsed() == old(self).elapsed()
                    &&& final(self).frame_counter() == old(self).frame_counter()
                    &&& final(self).control_state() == mouse_input(old(self).control_state(), pressed, button)
                },
                WindowEvent::RedrawRequested => redraw_step(*old(self), *final(self), r@),
                WindowEvent::Other => r@ == Seq::<Action<I>>::empty() && *final(self) == *old(self),
            },
    {
        let mut r: Vec<Action<I>> = Vec::new();
        if !same_window {
            return r;
        }
        match event {
            WindowEvent::Resized => r.push(Action::Resize),
            WindowEvent::CloseRequested => r.push(Action::Exit),
            WindowEvent::Focused(focused) => {
                if focused {
                    r.push(Action::RequestRedraw);
                }
            },
            WindowEvent::KeyboardInput { code, text, pressed, is_synthetic } => {
                if !is_synthetic {
                    if let Some(code) = code {
                        let key = Key { code, text };
                        if pressed {
                            self.ctrl.pressed_keys.push(key);
                        } else {
                            self.ctrl.released_keys.push(key);
                        }
                    }
                }
            },
            WindowEvent::MouseInput { pressed, button } => {
                if pressed {
                    self.ctrl.mouse.pressed_buttons.push(button);
                } else {
                    self.ctrl.mouse.released_buttons.push(button);
                }
            },
            WindowEvent::RedrawRequested => {
                r = self.redraw();
            },
            WindowEvent::Other => {},
        }
        r
    }

    /// A redraw was requested.
    fn redraw<I>(&mut self) -> (r: Vec<Action<I>>)
        requires
            old(self).frame_counter().frames() < u32::MAX,
        ensures
            final(self).is_active() == old(self).is_active(),
            redraw_step(*old(self), *final(self), r@),
    {
        let mut r: Vec<Action<I>> = Vec::new();
        if !self.active {
            r.push(Action::Wait(WAIT_TIME_NANOS));
            return r;
        }
        let delta_time = self.time.delta();
        let min_delta_time = self.ctrl.min_delta_time;
        if delta_time < min_delta_time {
            r.push(Action::Wait(min_delta_time - delta_time));
            assert(redraw_after(*old(self), *self, r@, delta_time));
            return r;
        }
        self.time.reset();
        self.ctrl.delta_time = delta_time;
        if let Some(fps) = self.fps.count(delta_time) {
            self.ctrl.fps = fps;
        }
        r.push(Action::Update);
        assert(redraw_after(*old(self), *self, r@, delta_time));
        r
    }

    /// The user's update asked for `then`. `Err` carries the user's error: the
    /// caller keeps it as the loop's outcome and exits.
    pub fn after_update<I, E>(&mut self, then: Then<E>) -> (r: Result<Vec<Action<I>>, E>)
        ensures
            final(self).is_active() == old(self).is_active(),
            final(self).elapsed() == old(self).elapsed(),
            final(self).frame_counter() == old(self).frame_counter(),
            match then {
                Then::Run => {
                    &&& r matches Ok(a) && a@ == seq![Action::<I>::Draw]
                    &&& final(self).control_state() == (ControlState {
                        resized: None,
                        pressed_keys: Seq::empty(),
                        released_keys: Seq::empty(),
                        pressed_buttons: Seq::empty(),
                        released_buttons: Seq::empty(),
                        ..old(self).control_state()
                    })
                },
                Then::Close => {
                    &&& r matches Ok(a) && a@ == seq![Action::<I>::Exit]
                    &&& final(self).control_state() == old(self).control_state()
                },
                Then::Fail(e) => {
                    &&& r == Err::<Vec<Action<I>>, E>(e)
                    &&& final(self).control_state() == old(self).control_state()
                },
            },
    {
        match then {
            Then::Run => {
                self.ctrl.clear_state();
                let mut r: Vec<Action<I>> = Vec::new();
                r.push(Action::Draw);
                Ok(r)
            },
            Then::Close => {
                let mut r: Vec<Action<I>> = Vec::new();
                r.push(Action::Exit);
                Ok(r)
            },
            Then::Fail(e) => Err(e),
        }
    }

    /// The surface could not give a frame: a lost surface is resized, a lack of
    /// memory or another error stops the loop, and the rest is let pass.
    pub fn surface_error<I>(&self, e: SurfaceError) -> (r: Vec<Action<I>>)
        ensures
            r@ == match e {
                SurfaceError::Timeout | SurfaceError::Outdated => Seq::<Action<I>>::empty(),
                SurfaceError::Lost => seq![Action::<I>::Resize],
                SurfaceError::OutOfMemory | SurfaceError::Other => seq![Action::<I>::Exit],
            },
    {
        let mut r: Vec<Action<I>> = Vec::new();
        match e {
            SurfaceError::Timeout | SurfaceError::Outdated => {},
            SurfaceError::Lost => r.push(Action::Resize),
            SurfaceError::OutOfMemory | SurfaceError::Other => r.push(Action::Exit),
        }
        r
    }
}

/// The input after a key event: a key identified by its code and not made up
/// by the system is added to the pressed or the released keys.
pub open spec fn key_input<C, T, B>(
    s: ControlState<C, T, B>,
    code: Option<C>,
    text: Option<T>,
    pressed: bool,
    is_synthetic: bool,
) -> ControlState<C, T, B> {
    match code {
        Some(c) if !is_synthetic => if pressed {
            ControlState { pressed_keys: s.pressed_keys.push(Key { code: c, text }), ..s }
        } else {
            ControlState { released_keys: s.released_keys.push(Key { code: c, text }), ..s }
        },
        _ => s,
    }
}

/// The input after a mouse button event.
pub open spec fn mouse_input<C, T, B>(s: ControlState<C, T, B>, pressed: bool, button: B) -> ControlState<
    C,
    T,
    B,
> {
    if pressed {
        ControlState { pressed_buttons: s.pressed_buttons.push(button), ..s }
    } else {
        ControlState { released_buttons: s.released_buttons.push(button), ..s }
    }
}

/// What a redraw request does, from handler `h` to handler `g` with actions `r`:
/// an inactive application waits; otherwise the time since the last frame is
/// measured, as in `redraw_after`.
pub open spec fn redraw_step<C, T, B, I>(h: Handler<C, T, B>, g: Handler<C, T, B>, r: Seq<Action<I>>) -> bool {
    if !h.is_active() {
        r == seq![Action::<I>::Wait(WAIT_TIME_NANOS)] && g == h
    } else {
        exists|delta: u128| #[trigger] redraw_after(h, g, r, delta)
    }
}

/// A redraw of an active application that measured `delta` nanoseconds since the
/// last frame: before the shortest time between frames has passed, the loop waits
/// for the rest of it; otherwise the timer starts again, `delta` becomes the
/// frame's delta time, the frame is counted and the user's update runs.
pub open spec fn redraw_after<C, T, B, I>(
    h: Handler<C, T, B>,
    g: Handler<C, T, B>,
    r: Seq<Action<I>>,
    delta: u128,
) -> bool {
    let min = h.control_state().min_delta_time;
    &&& h.elapsed() <= delta <= max_duration_nanos()
    &&& g.is_active() == h.is_active()
    &&& if delta < min {
        &&& r == seq![Action::<I>::Wait((min - delta) as u128)]
        &&& g.elapsed() == delta
        &&& g.control_state() == h.control_state()
        &&& g.frame_counter() == h.frame_counter()
    } else {
        &&& r == seq![Action::<I>::Update]
        &&& g.elapsed() == 0
        &&& counted(h.frame_counter(), delta, g.frame_counter())
        &&& g.control_state() == (ControlState {
            delta_time: delta,
            fps: match frame_rate(h.frame_counter(), delta) {
                Some(n) => n,
                None => h.control_state().fps,
            },
            ..h.control_state()
        })
    }
}

/// The frame rate that counting a frame of `delta` nanoseconds reports, if the
/// second is over.
pub open spec fn frame_rate(f: Fps, delta: u128) -> Option<u32> {
    if f.timer_nanos() + delta > crate::time::second_nanos() {
        Some((f.frames() + 1) as u32)
    } else {
        None
    }
}

/// `g` is `f` after counting a frame of `delta` nanoseconds.
pub open spec fn counted(f: Fps, delta: u128, g: Fps) -> bool {
    if f.timer_nanos() + delta > crate::time::second_nanos() {
        g.timer_nanos() == 0 && g.frames() == 0
    } else {
        g.timer_nanos() == f.timer_nanos() + delta && g.frames() == f.frames() + 1
    }
}

/// A redraw paces the frames: it either waits or runs the update. It waits while
/// the application is inactive, or, when the shortest frame time has not passed,
/// for the rest of it and no longer; it runs the update only once that time has
/// passed, with the passed time as the frame's delta and the timer back at zero.
pub proof fn lemma_redraw_paces_frames<C, T, B, I>(h: Handler<C, T, B>, g: Handler<C, T, B>, r: Seq<Action<I>>)
    requires
        redraw_step(h, g, r),
    ensures
        r.len() == 1,
        r[0] is Wait || r[0] is Update,
        r[0] matches Action::Wait(n) ==> 0 < n && (n <= WAIT_TIME_NANOS || n <= h.control_state().min_delta_time),
        r[0] is Update ==> {
            &&& h.is_active()
            &&& g.control_state().delta_time >= h.control_state().min_delta_time
            &&& g.elapsed() == 0
        },
{
    if h.is_active() {
        let delta = choose|delta: u128| #[trigger] redraw_after(h, g, r, delta);
        assert(redraw_after(h, g, r, delta));
    }
}

} // verus!
