use dunge::time::accumulate;
use dunge::postproc::{FrameParameters, PostProcessor, Remake};
use dunge::screen::{BufferSize, FrameFilter};
use dunge::bind_groups::{BindingNumbers, LayoutKind, Layouts, Shader};
use dunge::error::{InvalidSize, NotSet};
use dunge::frame::{EncoderStep, Frame};
use dunge::pipeline::{EntryKind, Visibility};
use dunge::runtime::{poll_state, TicketPoll, DONE, FAIL, WAIT};
use dunge::time::Time;

fn numbers() -> BindingNumbers {
    BindingNumbers { tdiff: 0, sdiff: 1, camera: 0, data: 0, sources: 0, n_sources: 1, ambient: 0 }
}

#[test]
fn shared_layouts() {
    let l = Layouts::new(numbers());
    assert_eq!(l.textured.label, "texture bind group layout");
    assert_eq!(l.textured.entries.len(), 2);
    assert_eq!(l.textured.entries[0].kind, EntryKind::Texture2d);
    assert_eq!(l.textured.entries[1].kind, EntryKind::Sampler);
    assert_eq!(l.textured.entries[1].binding, 1);
    assert_eq!(l.camera.entries[0].visibility, Visibility { vertex: true, fragment: false });
    assert_eq!(l.post_shader_data.entries[0].visibility, Visibility { vertex: true, fragment: true });
    assert_eq!(l.lights.entries.len(), 2);
    assert_eq!(l.lights.entries[1].binding, 1);
    assert_eq!(l.ambient.label, "ambient bind group layout");
}

#[test]
fn layouts_of_each_shader() {
    let l = Layouts::new(numbers());
    assert_eq!(l.bind_group_layouts(Shader::Color), vec![LayoutKind::Camera, LayoutKind::Lights, LayoutKind::Ambient]);
    assert_eq!(l.bind_group_layouts(Shader::Flat), vec![LayoutKind::Textured]);
    assert_eq!(l.bind_group_layouts(Shader::Post), vec![LayoutKind::PostShaderData, LayoutKind::Textured]);
    assert_eq!(
        l.bind_group_layouts(Shader::Textured),
        vec![LayoutKind::Camera, LayoutKind::Textured, LayoutKind::Lights, LayoutKind::Ambient],
    );
}

#[test]
fn a_frame_is_drawn_once() {
    let mut f = Frame::new();
    assert_eq!(f.draw(), vec![EncoderStep::CreateEncoder, EncoderStep::DrawOnScreen, EncoderStep::Submit]);
    assert_eq!(f.draw(), vec![]);
    assert_eq!(
        f.start_layer(true),
        vec![EncoderStep::CreateEncoder, EncoderStep::BeginLayer { clear_depth: true }],
    );
    assert_eq!(
        f.start_layer(false),
        vec![EncoderStep::Submit, EncoderStep::CreateEncoder, EncoderStep::BeginLayer { clear_depth: false }],
    );
    assert_eq!(f.draw(), vec![EncoderStep::DrawOnScreen, EncoderStep::Submit]);
    assert_eq!(f.draw(), vec![]);
}

#[test]
fn ticket_states() {
    assert_eq!(poll_state(WAIT), TicketPoll::Pending);
    assert_eq!(poll_state(DONE), TicketPoll::Ready(true));
    assert_eq!(poll_state(FAIL), TicketPoll::Ready(false));
    assert_eq!((WAIT, DONE, FAIL), (0, 1, 2));
}

#[test]
fn time_accumulates_until_reset() {
    let outer = std::time::Instant::now();
    let mut t = Time::now();
    let a = t.delta();
    let b = t.delta();
    let total = outer.elapsed().as_nanos();
    assert!(a <= b);
    assert!(b <= total);
    t.reset();
    let c = t.delta();
    assert!(c <= outer.elapsed().as_nanos());
}

#[test]
fn errors_compare() {
    assert_eq!(NotSet::Globals, NotSet::Globals);
    assert_ne!(NotSet::Lights, NotSet::Spaces);
    assert_eq!(InvalidSize, InvalidSize);
}

#[test]
fn accumulated_time_stops_at_the_largest_duration() {
    let max = 18_446_744_073_709_551_615_999_999_999u128;
    assert_eq!(accumulate(5, 7), 12);
    assert_eq!(accumulate(0, 0), 0);
    assert_eq!(accumulate(max - 1, 1), max);
    assert_eq!(accumulate(max - 1, 10), max);
    assert_eq!(accumulate(max, u128::MAX), max);
}

#[test]
fn post_processor_remakes_what_changed() {
    let mut p = PostProcessor::new();
    let same = p.params();
    assert_eq!(
        p.set_parameters(same, false, false),
        Remake { pipeline: false, sampler: false, data: false, bind_group: false },
    );
    let next = FrameParameters { buffer_size: BufferSize(4, 3), filter: FrameFilter::Linear, antialiasing: true };
    assert_eq!(
        p.set_parameters(next, false, true),
        Remake { pipeline: true, sampler: true, data: true, bind_group: true },
    );
    assert_eq!(p.params(), next);
    assert_eq!(
        p.set_parameters(next, true, false),
        Remake { pipeline: true, sampler: false, data: false, bind_group: false },
    );
}
