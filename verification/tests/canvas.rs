use dunge::canvas::{
    element_size, Backend, CanvasConfig, CanvasEvent, CanvasLoop, FrameError, InitialState, MouseButton, Selector, Step,
    WindowEvent, WindowMode,
};
use dunge::screen::{FrameFilter, PixelSize, Screen};

type L = CanvasLoop<u32>;

fn screen(w: u32, h: u32) -> Screen {
    Screen { width: w, height: h, pixel_size: PixelSize::X2, filter: FrameFilter::Linear }
}

#[test]
fn defaults() {
    let s = InitialState::default();
    assert_eq!(s.title, "Dunge");
    assert_eq!(s.mode, WindowMode::Fullscreen);
    assert!(s.show_cursor);
    assert_eq!(Backend::default(), Backend::Vulkan);
    let c: CanvasConfig<()> = CanvasConfig::default();
    assert_eq!(c.backend, Backend::Vulkan);
    assert!(matches!(c.selector, Selector::Auto));
}

#[test]
fn windowed_mode_keeps_at_least_one_pixel() {
    assert_eq!(WindowMode::Fullscreen.inner_size(), None);
    assert_eq!(WindowMode::Windowed { width: 0, height: 600 }.inner_size(), Some((1, 600)));
    assert_eq!(WindowMode::Windowed { width: 800, height: 0 }.inner_size(), Some((800, 1)));
}

#[test]
fn a_screen_set_while_suspended_is_given_at_resume() {
    let mut l = L::new();
    let r = l.user_event::<u64>(CanvasEvent::SetScreen(screen(10, 20)));
    assert!(r.is_empty());
    let r = l.resumed::<u64>(0, 300);
    assert!(l.active());
    assert_eq!(r.len(), 4);
    assert!(matches!(r[0], Step::RecreateSurface));
    match r[1] {
        Step::SetScreen(s) => assert_eq!(s, screen(1, 300)),
        _ => panic!("expected the screen"),
    }
    assert!(matches!(r[2], Step::RequestRedraw));
    assert!(matches!(r[3], Step::ResetTimer));
    let r = l.resumed::<u64>(5, 6);
    assert!(matches!(r[1], Step::Resize(5, 6)));
}

#[test]
fn a_screen_set_while_active_is_given_at_once() {
    let mut l = L::new();
    l.resumed::<u64>(1, 1);
    let r = l.user_event::<u64>(CanvasEvent::SetScreen(screen(3, 4)));
    assert_eq!(r.len(), 1);
    assert!(matches!(r[0], Step::SetScreen(s) if s == screen(3, 4)));
    let r = l.suspended::<u64>();
    assert!(!l.active());
    assert!(matches!(r[0], Step::DropSurface));
    assert!(matches!(l.user_event::<u64>(CanvasEvent::Close)[0], Step::CloseIfRequested));
}

#[test]
fn input_is_gathered_then_consumed() {
    let mut l = L::new();
    l.window_event::<u64>(true, WindowEvent::KeyboardInput { key: Some(1), pressed: true });
    l.window_event::<u64>(true, WindowEvent::KeyboardInput { key: Some(2), pressed: false });
    l.window_event::<u64>(true, WindowEvent::KeyboardInput { key: None, pressed: true });
    l.window_event::<u64>(true, WindowEvent::MouseInput { button: MouseButton::Left, pressed: true });
    l.window_event::<u64>(true, WindowEvent::MouseInput { button: MouseButton::Middle, pressed: true });
    l.window_event::<u64>(true, WindowEvent::MouseInput { button: MouseButton::Middle, pressed: false });
    l.window_event::<u64>(true, WindowEvent::MouseInput { button: MouseButton::Other, pressed: true });
    l.window_event::<u64>(false, WindowEvent::MouseInput { button: MouseButton::Right, pressed: true });
    assert_eq!(l.pressed_keys(), &[1]);
    assert_eq!(l.released_keys(), &[2]);
    let m = l.mouse();
    assert!(m.pressed_left && !m.pressed_middle && !m.pressed_right);
    l.input_consumed();
    assert!(l.pressed_keys().is_empty() && l.released_keys().is_empty());
    assert!(!l.mouse().pressed_left);
}

#[test]
fn window_events_and_frame_errors() {
    let mut l = L::new();
    assert!(matches!(l.window_event::<u64>(true, WindowEvent::Resized(7, 8))[0], Step::Resize(7, 8)));
    assert!(matches!(l.window_event::<u64>(true, WindowEvent::CloseRequested)[0], Step::CloseIfRequested));
    assert!(matches!(l.window_event::<u64>(true, WindowEvent::Focused(true))[0], Step::RequestRedraw));
    assert!(l.window_event::<u64>(false, WindowEvent::Resized(7, 8)).is_empty());
    assert!(L::frame_error::<u64>(FrameError::Timeout).is_empty());
    assert!(matches!(L::frame_error::<u64>(FrameError::Lost)[0], Step::ResizeToWindow));
    assert!(matches!(L::frame_error::<u64>(FrameError::Outdated)[0], Step::ResizeToWindow));
    assert!(matches!(L::frame_error::<u64>(FrameError::OutOfMemory)[0], Step::Exit));
    assert!(matches!(L::frame_error::<u64>(FrameError::Other)[0], Step::Exit));
    assert!(matches!(L::wait_cancelled::<u64>(Some(4))[0], Step::WaitUntil(4)));
    assert!(matches!(L::wait_cancelled::<u64>(None)[0], Step::Wait(100_000_000)));
    let r = L::resume_time_reached::<u64>();
    assert!(matches!(r[0], Step::SetWindowSize) && matches!(r[1], Step::RequestRedraw));
}

#[test]
fn window_fits_its_element() {
    assert_eq!(element_size(640, 480, (640, 480)), None);
    assert_eq!(element_size(640, 480, (1, 1)), Some((640, 480)));
    assert_eq!(element_size(0, -5, (1, 1)), None);
    assert_eq!(element_size(-3, 20, (7, 7)), Some((1, 20)));
}

#[test]
fn canvas_redraw_paces_frames() {
    let mut l = L::new();
    let r = l.redraw::<u64>(5, 0);
    assert!(matches!(r[0], Step::Wait(100_000_000)) && r.len() == 1);
    l.resumed::<u64>(1, 1);
    let r = l.redraw::<u64>(4, 10);
    assert!(matches!(r[0], Step::Wait(6)) && r.len() == 1);
    l.window_event::<u64>(true, WindowEvent::KeyboardInput { key: Some(9), pressed: true });
    let r = l.redraw::<u64>(600_000_000, 10);
    assert_eq!(r.len(), 2);
    assert!(matches!(r[0], Step::ResetTimer) && matches!(r[1], Step::Update));
    assert_eq!(l.pressed_keys(), &[9]);
    let r = l.after_update::<u64>();
    assert!(matches!(r[0], Step::DrawFrame) && r.len() == 1);
    assert!(l.pressed_keys().is_empty());
    assert_eq!(l.fps(), 0);
    l.redraw::<u64>(600_000_000, 10);
    assert_eq!(l.fps(), 2);
    assert!(l.can_count_frame());
}

#[test]
fn canvas_run_updates_only_while_running_and_closes_on_request() {
    let mut l = L::new();
    let updates = |r: &Vec<Step<u64>>| r.iter().filter(|s| matches!(s, Step::Update)).count();
    assert_eq!(updates(&l.redraw::<u64>(50, 10)), 0);
    l.resumed::<u64>(4, 4);
    assert!(l.active());
    assert_eq!(updates(&l.redraw::<u64>(50, 10)), 1);
    l.window_event::<u64>(true, WindowEvent::MouseInput { button: MouseButton::Left, pressed: true });
    l.after_update::<u64>();
    assert!(!l.mouse().pressed_left);
    l.suspended::<u64>();
    assert!(!l.active());
    assert_eq!(updates(&l.redraw::<u64>(50, 10)), 0);
    let r = l.window_event::<u64>(true, WindowEvent::CloseRequested);
    assert!(matches!(r[..], [Step::CloseIfRequested]));
    let r = l.window_event::<u64>(false, WindowEvent::CloseRequested);
    assert!(r.is_empty());
    let r = l.user_event::<u64>(CanvasEvent::Close);
    assert!(matches!(r[..], [Step::CloseIfRequested]));
    assert!(matches!(L::frame_error::<u64>(FrameError::Other)[..], [Step::Exit]));
    assert!(L::frame_error::<u64>(FrameError::Timeout).is_empty());
}
