use dunge::time::Fps;
use dunge::el::{Action, Flow, Handler, StartCause, SurfaceError, Then, WindowEvent, WAIT_TIME_NANOS};

type H = Handler<u32, String, u8>;
type Act = Action<u64>;

fn is_wait(a: &Act, n: u128) -> bool {
    matches!(a, Action::Wait(m) if *m == n)
}

#[test]
fn a_new_handler_is_inactive_and_empty() {
    let h = H::new(0);
    assert!(!h.active());
    let c = h.control();
    assert_eq!(c.resized(), None);
    assert_eq!(c.delta_time(), 0);
    assert_eq!(c.fps(), 0);
    assert_eq!(c.min_delta_time(), 0);
    assert!(c.pressed_keys().is_empty());
    assert!(c.released_keys().is_empty());
    assert!(c.mouse().pressed_buttons.as_slice().is_empty());
}

#[test]
fn redraw_waits_while_inactive() {
    let mut h = H::new(0);
    let r = h.window_event::<u64>(true, WindowEvent::RedrawRequested);
    assert_eq!(r.len(), 1);
    assert!(is_wait(&r[0], WAIT_TIME_NANOS));
    assert_eq!(WAIT_TIME_NANOS, 100_000_000);
}

#[test]
fn resumed_asks_for_a_redraw_and_waits() {
    let mut h = H::new(0);
    let r = h.resumed::<u64>();
    assert!(h.active());
    assert_eq!(r.len(), 2);
    assert!(matches!(r[0], Action::RequestRedraw));
    assert!(is_wait(&r[1], 100_000_000));
    h.suspended();
    assert!(!h.active());
}

#[test]
fn redraw_runs_the_update_once_the_frame_time_passed() {
    let mut h = H::new(0);
    h.resumed::<u64>();
    let r = h.window_event::<u64>(true, WindowEvent::RedrawRequested);
    assert_eq!(r.len(), 1);
    assert!(matches!(r[0], Action::Update));
}

#[test]
fn redraw_waits_for_the_rest_of_a_long_frame_time() {
    let hour: u128 = 3_600_000_000_000;
    let mut h = H::new(hour);
    h.resumed::<u64>();
    let r = h.window_event::<u64>(true, WindowEvent::RedrawRequested);
    assert_eq!(r.len(), 1);
    match r[0] {
        Action::Wait(n) => assert!(0 < n && n <= hour),
        _ => panic!("expected a wait"),
    }
}

#[test]
fn keys_and_buttons_are_gathered_until_the_frame_is_drawn() {
    let mut h = H::new(0);
    let r = h.window_event::<u64>(
        true,
        WindowEvent::KeyboardInput { code: Some(7), text: Some("a".to_string()), pressed: true, is_synthetic: false },
    );
    assert!(r.is_empty());
    h.window_event::<u64>(true, WindowEvent::KeyboardInput { code: Some(8), text: None, pressed: false, is_synthetic: false });
    h.window_event::<u64>(true, WindowEvent::KeyboardInput { code: None, text: None, pressed: true, is_synthetic: false });
    h.window_event::<u64>(true, WindowEvent::KeyboardInput { code: Some(9), text: None, pressed: true, is_synthetic: true });
    h.window_event::<u64>(true, WindowEvent::MouseInput { pressed: true, button: 1 });
    h.window_event::<u64>(true, WindowEvent::MouseInput { pressed: false, button: 2 });
    h.window_event::<u64>(false, WindowEvent::MouseInput { pressed: false, button: 3 });
    {
        let c = h.control();
        assert_eq!(c.pressed_keys().len(), 1);
        assert_eq!(c.pressed_keys()[0].code, 7);
        assert_eq!(c.pressed_keys()[0].text.as_deref(), Some("a"));
        assert_eq!(c.released_keys().len(), 1);
        assert_eq!(c.released_keys()[0].code, 8);
        assert_eq!(c.mouse().pressed_buttons.as_slice(), &[1]);
        assert_eq!(c.mouse().released_buttons.as_slice(), &[2]);
    }
    h.resize((640, 480));
    assert_eq!(h.control().resized(), Some((640, 480)));
    let r = h.after_update::<u64, String>(Then::Run).ok().expect("draw");
    assert_eq!(r.len(), 1);
    assert!(matches!(r[0], Action::Draw));
    let c = h.control();
    assert!(c.pressed_keys().is_empty());
    assert!(c.released_keys().is_empty());
    assert!(c.mouse().pressed_buttons.as_slice().is_empty());
    assert!(c.mouse().released_buttons.as_slice().is_empty());
    assert_eq!(c.resized(), None);
}

#[test]
fn escape_closes_the_application() {
    let escape = 27u32;
    let mut h = H::new(0);
    h.resumed::<u64>();
    h.window_event::<u64>(true, WindowEvent::KeyboardInput { code: Some(escape), text: None, pressed: true, is_synthetic: false });
    let r = h.window_event::<u64>(true, WindowEvent::RedrawRequested);
    assert!(matches!(r[0], Action::Update));
    let then: Then<String> = if h.control().pressed_keys().iter().any(|k| k.code == escape) { Then::Close } else { Then::Run };
    let r = h.after_update::<u64, String>(then).ok().expect("actions");
    assert_eq!(r.len(), 1);
    assert!(matches!(r[0], Action::Exit));
}

#[test]
fn a_failed_update_hands_back_its_error() {
    let mut h = H::new(0);
    match h.after_update::<u64, String>(Then::Fail("broken".to_string())) {
        Err(e) => assert_eq!(e, "broken"),
        Ok(_) => panic!("expected the error"),
    }
}

#[test]
fn unit_flows_to_run() {
    assert!(matches!(Flow::<String>::flow(()), Then::Run));
    assert!(matches!(Flow::<String>::flow(Then::<String>::Close), Then::Close));
}

#[test]
fn window_events_ask_for_their_actions() {
    let mut h = H::new(0);
    assert!(matches!(h.window_event::<u64>(true, WindowEvent::Resized)[0], Action::Resize));
    assert!(matches!(h.window_event::<u64>(true, WindowEvent::CloseRequested)[0], Action::Exit));
    assert!(matches!(h.window_event::<u64>(true, WindowEvent::Focused(true))[0], Action::RequestRedraw));
    assert!(h.window_event::<u64>(true, WindowEvent::Focused(false)).is_empty());
    assert!(h.window_event::<u64>(true, WindowEvent::Other).is_empty());
    assert!(h.window_event::<u64>(false, WindowEvent::CloseRequested).is_empty());
}

#[test]
fn new_events_by_cause() {
    let mut h = H::new(0);
    let r = h.new_events::<u64>(StartCause::ResumeTimeReached);
    assert!(matches!(r[0], Action::SetWindowSize));
    assert!(matches!(r[1], Action::RequestRedraw));
    let r = h.new_events::<u64>(StartCause::WaitCancelled { requested_resume: Some(5) });
    assert!(matches!(r[0], Action::WaitUntil(5)));
    let r = h.new_events::<u64>(StartCause::WaitCancelled { requested_resume: None });
    assert!(is_wait(&r[0], 100_000_000));
    assert!(h.new_events::<u64>(StartCause::Poll).is_empty());
    assert!(matches!(h.new_events::<u64>(StartCause::Init)[0], Action::Initialize));
}

#[test]
fn surface_errors() {
    let h = H::new(0);
    assert!(h.surface_error::<u64>(SurfaceError::Timeout).is_empty());
    assert!(h.surface_error::<u64>(SurfaceError::Outdated).is_empty());
    assert!(matches!(h.surface_error::<u64>(SurfaceError::Lost)[0], Action::Resize));
    assert!(matches!(h.surface_error::<u64>(SurfaceError::OutOfMemory)[0], Action::Exit));
    assert!(matches!(h.surface_error::<u64>(SurfaceError::Other)[0], Action::Exit));
}

#[test]
fn frames_are_counted_each_second() {
    let mut f = Fps::new();
    assert_eq!(f.count(400_000_000), None);
    assert_eq!(f.count(600_000_000), None);
    assert_eq!(f.count(1), Some(3));
    assert_eq!(f.count(1_000_000_001), Some(1));
    assert!(f.can_count());
}
