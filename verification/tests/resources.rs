use dunge::buffer::{
    try_copy, BufferData, CopyResource, DimensionsNumber, InvalidLen, ReadFailed, Size, SizeError, Texture,
    TextureData, WriteFailed, ZeroSized,
};
use dunge::format::Format;
use dunge::handles::{LightsHandle, SpacesHandle};
use dunge::instance::Setter;
use dunge::shader::{Globals, Group, Layout, Lights, Spaces, Textures};
use dunge::spaces::SpaceBindings;
use dunge::textures::TextureBindings;
use dunge::layer::{Blend, BlendState, Config, DepthState, Layer, LayerMismatch, Polygon, SlotNumbers, TargetState, Topology};
use dunge::pipeline::{Compare, DrawMode, Instances, LayerBuilder, Parameters, Pipeline, Slots, VertexFormat, VertexInputLayout};
use dunge::screen::{BufferSize, FrameFilter, PixelSize, RenderScreen, Screen};

#[test]
fn sizes_refuse_zero() {
    assert!(Size::try_from_width(0).is_err());
    assert!(Size::try_from_width_height(3, 0).is_err());
    let s = Size::try_from_width_height(3, 2).ok().expect("size");
    assert_eq!((s.width(), s.height(), s.depth()), (3, 2, 1));
    assert_eq!(Size::new(2, 3, 4).volume(), 24);
}

#[test]
fn texture_data_length_must_match() {
    let size = Size::from_width_height(2, 2);
    let bytes = [0u8; 16];
    assert!(TextureData::new(size, Format::RgbAlpha, &bytes).is_ok());
    assert!(TextureData::new(size, Format::RgbAlpha, &bytes[..15]).is_err());
    assert!(TextureData::new(size, Format::Byte, &bytes[..4]).is_ok());
    let d = TextureData::new(size, Format::Byte, &bytes[..4]).ok().expect("data").read().bind();
    assert!(d.usage().read && d.usage().bind && !d.usage().write);
    assert_eq!(d.data().len(), 4);
}

#[test]
fn texture_rows_are_aligned_for_copies() {
    let data = TextureData::empty(Size::from_width_height(10, 3), Format::RgbAlpha);
    let t = Texture::new(&data, DimensionsNumber::D2);
    assert_eq!(t.bytes_per_row_aligned(), 256);
    assert!(!t.usage.copy_to);
    let copy = t.copy_buffer_data();
    assert_eq!(copy.size(), 768);
    assert!(copy.usage().copy_to);

    let wide = TextureData::empty(Size::from_width(65), Format::RgbAlpha);
    assert_eq!(Texture::new(&wide, DimensionsNumber::D1).bytes_per_row_aligned(), 512);
    let exact = TextureData::empty(Size::from_width(64), Format::RgbAlpha);
    assert_eq!(Texture::new(&exact, DimensionsNumber::D1).bytes_per_row_aligned(), 256);

    let bytes = [1u8; 4];
    let uploaded = TextureData::new(Size::from_width(4), Format::Byte, &bytes).ok().expect("data");
    let t = Texture::new(&uploaded, DimensionsNumber::D2);
    assert!(t.uploads_data && t.usage.copy_to);
}

#[test]
fn copies_need_equal_sizes() {
    let data = TextureData::empty(Size::from_width_height(10, 3), Format::RgbAlpha);
    let t = Texture::new(&data, DimensionsNumber::D2);
    assert!(try_copy(CopyResource::Texture(t), CopyResource::Buffer { size: 768 }).is_ok());
    let e = try_copy(CopyResource::Texture(t), CopyResource::Buffer { size: 10 }).err().expect("error");
    assert_eq!((e.from_size, e.to_size), (768, 10));
    assert_eq!(e.message(), "can't copy from size 768 to size 10");
    assert!(try_copy(CopyResource::Buffer { size: 4 }, CopyResource::Buffer { size: 4 }).is_ok());
    assert!(try_copy(CopyResource::Buffer { size: 4 }, CopyResource::Buffer { size: 5 }).is_err());
    let _ = SizeError { from_size: 0, to_size: 0 };
}

#[test]
fn buffer_data() {
    let bytes = [1u8, 2, 3];
    let b = BufferData::new(&bytes).write().copy_from();
    assert_eq!(b.size(), 3);
    assert!(b.usage().write && b.usage().copy_from && !b.usage().read);
    assert_eq!(BufferData::empty(9).size(), 9);
}

#[test]
fn error_messages() {
    assert_eq!(ZeroSized.message(), "zero sized data");
    assert_eq!(InvalidLen.message(), "invalid data length");
    assert_eq!(ReadFailed.message(), "failed to read buffer");
    assert_eq!(WriteFailed.message(), "failed to write buffer");
}

#[test]
fn format_bytes() {
    assert_eq!(Format::Byte.bytes(), 1);
    assert_eq!(Format::Depth.bytes(), 4);
    assert!(Format::SrgbAlpha.is_standard());
    assert!(!Format::RgbAlpha.is_standard());
}

#[test]
fn screen_sizes() {
    let s = Screen { width: 5, height: 9, pixel_size: PixelSize::X2, filter: FrameFilter::Nearest };
    assert_eq!(s.physical_size(), (5, 9));
    assert_eq!(s.virtual_size(), (2, 4));
    let a = Screen { pixel_size: PixelSize::Antialiasing, ..s };
    assert_eq!(a.virtual_size_with_antialiasing(), (10, 18));
    let tiny = Screen { width: 1, height: 3, pixel_size: PixelSize::X4, filter: FrameFilter::Linear };
    assert_eq!(tiny.virtual_size(), (1, 1));
}

#[test]
fn buffer_size_is_clamped_to_the_device() {
    assert_eq!(BufferSize::new(0, 5000, 4096), BufferSize(1, 4096));
    let mut r = RenderScreen::new(8);
    r.set_screen(Screen { width: 100, height: 4, pixel_size: PixelSize::Antialiasing, filter: FrameFilter::Nearest });
    assert_eq!(r.virtual_size(), (100, 4));
    assert_eq!(r.exceeds_max(), (true, false));
    assert_eq!(r.buffer_size(), BufferSize(8, 8));
    assert_eq!(BufferSize::default(), BufferSize(1, 1));
}

#[test]
fn layers_describe_their_pipeline() {
    let conf = Config { format: Format::SrgbAlpha, blend: Blend::Alpha, topology: Topology::TriangleStrip, polygon: Polygon::Fill, depth: true };
    let l = Layer::new(conf, SlotNumbers { vertex: 0, instance: 1 });
    let d = l.desc();
    assert_eq!(l.slots(), SlotNumbers { vertex: 0, instance: 1 });
    assert_eq!(d.depth, Some(DepthState { format: Format::Depth, write_enabled: true, depth_compare: Compare::LessEqual }));
    assert_eq!(d.blend, Some(BlendState::AlphaBlending));
    assert!(d.strip_index_u32);
    assert!(d.cull_back);
    assert!(l.depth());
    assert_eq!(l.format(), Format::SrgbAlpha);
    assert!(Topology::LineStrip.is_strip());
    assert!(!Topology::TriangleList.is_strip());
    assert_eq!(Blend::NoBlend.state(), None);
    assert_eq!(Config::from_format(Format::Byte).blend, Blend::NoBlend);
    assert_eq!(Layer::vertex_entry(), "vs");
    assert_eq!(Layer::fragment_entry(), "fs");
}

#[test]
fn layer_builder_sets_parameters() {
    let p = LayerBuilder::new()
        .with_blend(dunge::pipeline::Blend::AlphaBlending)
        .with_cull_faces(false)
        .with_draw_mode(DrawMode::Line)
        .with_depth_compare(Compare::Greater)
        .build();
    assert_eq!(p.blend, BlendState::AlphaBlending);
    assert!(!p.cull_faces);
    assert_eq!(p.mode, DrawMode::Line);
    assert_eq!(p.depth_stencil, Some(Compare::Greater));
    assert_eq!(Parameters::default().depth_stencil, Some(Compare::Less));
}

#[test]
fn vertex_slots_and_attributes() {
    assert_eq!(Instances { color: true }.slots(), Slots { instance: 0, instance_color: 1, vertex: 2 });
    assert_eq!(Instances { color: false }.slots().vertex, 1);
    let l = VertexInputLayout::new(20, 3, None, Some(2), 4);
    assert_eq!(l.attrs.len(), 2);
    assert_eq!((l.attrs[0].format, l.attrs[0].offset, l.attrs[0].shader_location), (VertexFormat::Float32x3, 0, 4));
    assert_eq!((l.attrs[1].format, l.attrs[1].offset, l.attrs[1].shader_location), (VertexFormat::Float32x2, 12, 5));
    let b = l.buffer_layout();
    assert_eq!(b.array_stride, 20);
    assert!(!b.step_per_instance);
}

#[test]
fn instances_are_the_shortest_row() {
    assert_eq!(dunge::instance::set(2, &[5, 3, 7]), (3, 5));
    assert_eq!(dunge::instance::set(0, &[]), (0, 0));
    let mut s = Setter::new(1);
    assert_eq!(s.set_member(4), 1);
    assert_eq!(s.set_member(9), 2);
    assert_eq!(s.len(), 4);
}

#[test]
fn handles_keep_their_id() {
    assert_eq!(LightsHandle::<u8>::new(3).id(), 3);
    assert_eq!(SpacesHandle::<u8>::new(4).id(), 4);
}

#[test]
fn pipeline_of_an_empty_layout() {
    let layout = Layout {
        globals: Group { num: 0, bindings: Globals { post_data: None, camera: Some(0), ambient: None } },
        textures: Group { num: 1, bindings: Textures { map: TextureBindings { tmaps: vec![], smap: 0 } } },
        lights: Group { num: 1, bindings: Lights { source_arrays: vec![] } },
        spaces: Group { num: 1, bindings: Spaces { light_spaces: SpaceBindings { spaces: 0, tspaces: vec![], sspace: 0 } } },
    };
    let p = Pipeline::new(&layout, Some(true), Parameters::default());
    assert_eq!(p.slots().vertex, 2);
    assert_eq!(p.globals().map(|g| g.num), Some(0));
    assert!(p.textures().is_none() && p.lights().is_none() && p.spaces().is_none());
    assert_eq!(p.groups.layouts(), vec![0]);
}

#[test]
fn a_layer_must_fit_its_target() {
    let conf = Config { format: Format::RgbAlpha, blend: Blend::NoBlend, topology: Topology::TriangleList, polygon: Polygon::Fill, depth: true };
    let layer = Layer::new(conf, SlotNumbers { vertex: 0, instance: 0 });
    assert_eq!(TargetState { format: Format::RgbAlpha, use_depth: true }.check_layer(&layer), Ok(()));
    assert_eq!(TargetState { format: Format::RgbAlpha, use_depth: false }.check_layer(&layer), Err(LayerMismatch::Depth));
    assert_eq!(TargetState { format: Format::BgrAlpha, use_depth: false }.check_layer(&layer), Err(LayerMismatch::Format));
    assert_eq!(LayerMismatch::Format.message(), "layer format doesn't match frame format");
    assert_eq!(
        LayerMismatch::Depth.message(),
        "the target for a layer with depth must contain a depth buffer",
    );
    let flat = Layer::new(Config { depth: false, ..conf }, SlotNumbers { vertex: 1, instance: 0 });
    assert_eq!(flat.desc().depth, None);
    assert_eq!(TargetState { format: Format::RgbAlpha, use_depth: false }.check_layer(&flat), Ok(()));
}
