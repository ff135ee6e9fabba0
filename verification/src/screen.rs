//! The render screen: physical and virtual sizes of the frame and its buffer.

use vstd::prelude::*;

verus! {

/// The size of a virtual pixel in physical pixels.
#[derive(Clone, Copy, Debug, PartialEq, Eq, Structural)]
pub enum PixelSize {
    Antialiasing,
    X1,
    X2,
    X3,
    X4,
}

impl Default for PixelSize {
    fn default() -> (p: Self)
        ensures
            p == PixelSize::X1,
    {
        PixelSize::X1
    }
}

/// Describes a frame render filter mode.
#[derive(Clone, Copy, Debug, PartialEq, Eq, Structural)]
pub enum FrameFilter {
    Nearest,
    Linear,
}

impl Default for FrameFilter {
    fn default() -> (f: Self)
        ensures
            f == FrameFilter::Nearest,
    {
        FrameFilter::Nearest
    }
}

/// The size of the frame buffer: width and height.
#[derive(Clone, Copy, Debug, PartialEq, Eq, Structural)]
pub struct BufferSize(pub u32, pub u32);

/// `v` clamped to `lo ..= hi`.
pub open spec fn clamped(v: u32, lo: u32, hi: u32) -> u32 {
    if v < lo {
        lo
    } else if v > hi {
        hi
    } else {
        v
    }
}

impl BufferSize {
    /// The smallest buffer size.
    pub fn min() -> (b: Self)
        ensures
            b == BufferSize(1, 1),
    {
        BufferSize(1, 1)
    }

    /// The buffer size clamped to `1 ..= max_size` in both dimensions.
    pub fn new(width: u32, height: u32, max_size: u32) -> (b: Self)
        requires
            max_size >= 1,
        ensures
            b == BufferSize(clamped(width, 1, max_size), clamped(height, 1, max_size)),
    {
        BufferSize(clamp(width, 1, max_size), clamp(height, 1, max_size))
    }
}

impl Default for BufferSize {
    fn default() -> (b: Self)
        ensures
            b == BufferSize(1, 1),
    {
        BufferSize(1, 1)
    }
}

fn clamp(v: u32, lo: u32, hi: u32) -> (r: u32)
    requires
        lo <= hi,
    ensures
        r == clamped(v, lo, hi),
{
    if v < lo {
        lo
    } else if v > hi {
        hi
    } else {
        v
    }
}

/// The screen parameters: the physical size, the pixel size and the filter.
#[derive(Clone, Copy, Debug, PartialEq, Eq, Structural)]
pub struct Screen {
    pub width: u32,
    pub height: u32,
    pub pixel_size: PixelSize,
    pub filter: FrameFilter,
}

/// The number of physical pixels per virtual pixel, per side.
pub open spec fn pixel_factor(p: PixelSize) -> u32 {
    match p {
        PixelSize::Antialiasing | PixelSize::X1 => 1,
        PixelSize::X2 => 2,
        PixelSize::X3 => 3,
        PixelSize::X4 => 4,
    }
}

/// At least one.
pub open spec fn at_least_one(v: u32) -> u32 {
    if v < 1 {
        1
    } else {
        v
    }
}

impl Screen {
    /// The virtual size: the physical size divided by the pixel size, at least one.
    pub open spec fn spec_virtual_size(self) -> (u32, u32) {
        (
            at_least_one((self.width / pixel_factor(self.pixel_size)) as u32),
            at_least_one((self.height / pixel_factor(self.pixel_size)) as u32),
        )
    }

    /// The virtual size doubled when antialiasing is on.
    pub open spec fn spec_virtual_size_with_antialiasing(self) -> (u32, u32) {
        let (w, h) = self.spec_virtual_size();
        if self.pixel_size == PixelSize::Antialiasing {
            ((w * 2) as u32, (h * 2) as u32)
        } else {
            (w, h)
        }
    }

    /// Whether the antialiased size can be computed without overflow.
    pub open spec fn fits(self) -> bool {
        let (w, h) = self.spec_virtual_size();
        self.pixel_size == PixelSize::Antialiasing ==> w * 2 <= u32::MAX && h * 2 <= u32::MAX
    }

    /// The physical size of the frame.
    pub fn physical_size(&self) -> (s: (u32, u32))
        ensures
            s == (self.width, self.height),
    {
        (self.width, self.height)
    }

    /// The virtual size of the frame without antialiasing factor.
    pub fn virtual_size(&self) -> (s: (u32, u32))
        ensures
            s == self.spec_virtual_size(),
            s.0 >= 1 && s.1 >= 1,
    {
        let (width, height) = self.physical_size();
        let n = match self.pixel_size {
            PixelSize::Antialiasing | PixelSize::X1 => 1,
            PixelSize::X2 => 2,
            PixelSize::X3 => 3,
            PixelSize::X4 => 4,
        };
        let w = width / n;
        let h = height / n;
        (if w < 1 {
            1
        } else {
            w
        }, if h < 1 {
            1
        } else {
            h
        })
    }

    /// Whether antialiasing is on.
    pub fn is_antialiasing_enabled(&self) -> (b: bool)
        ensures
            b == (self.pixel_size == PixelSize::Antialiasing),
    {
        match self.pixel_size {
            PixelSize::Antialiasing => true,
            _ => false,
        }
    }

    /// The virtual size of the frame, doubled when antialiasing is on.
    pub fn virtual_size_with_antialiasing(&self) -> (s: (u32, u32))
        requires
            self.fits(),
        ensures
            s == self.spec_virtual_size_with_antialiasing(),
    {
        let (w, h) = self.virtual_size();
        if self.is_antialiasing_enabled() {
            (w * 2, h * 2)
        } else {
            (w, h)
        }
    }
}

impl Default for Screen {
    fn default() -> (s: Self)
        ensures
            s == (Screen {
                width: 1,
                height: 1,
                pixel_size: PixelSize::X1,
                filter: FrameFilter::Nearest,
            }),
    {
        Screen { width: 1, height: 1, pixel_size: PixelSize::X1, filter: FrameFilter::Nearest }
    }
}

/// The screen of a render with the texture size limit of the device.
#[derive(Clone, Copy, Debug, PartialEq, Eq, Structural)]
pub struct RenderScreen {
    max_texture_size: u32,
    screen: Screen,
}

impl RenderScreen {
    pub closed spec fn max_size(self) -> u32 {
        self.max_texture_size
    }

    pub closed spec fn spec_screen(self) -> Screen {
        self.screen
    }

    /// A render screen with the default screen, for a device whose largest 2d texture
    /// side is `max_texture_size`.
    pub fn new(max_texture_size: u32) -> (r: Self)
        ensures
            r.max_size() == max_texture_size,
            r.spec_screen() == (Screen {
                width: 1,
                height: 1,
                pixel_size: PixelSize::X1,
                filter: FrameFilter::Nearest,
            }),
    {
        RenderScreen { max_texture_size, screen: Screen::default() }
    }

    /// Replaces the screen.
    pub fn set_screen(&mut self, screen: Screen)
        ensures
            final(self).spec_screen() == screen,
            final(self).max_size() == old(self).max_size(),
    {
        self.screen = screen;
    }

    /// The screen.
    pub fn screen(&self) -> (s: Screen)
        ensures
            s == self.spec_screen(),
    {
        self.screen
    }

    /// The largest 2d texture side of the device.
    pub fn max_texture_size(&self) -> (m: u32)
        ensures
            m == self.max_size(),
    {
        self.max_texture_size
    }

    /// The virtual size of the screen.
    pub fn virtual_size(&self) -> (s: (u32, u32))
        ensures
            s == self.spec_screen().spec_virtual_size(),
    {
        self.screen.virtual_size()
    }

    /// The virtual size of the screen with antialiasing.
    pub fn virtual_size_with_antialiasing(&self) -> (s: (u32, u32))
        requires
            self.spec_screen().fits(),
        ensures
            s == self.spec_screen().spec_virtual_size_with_antialiasing(),
    {
        self.screen.virtual_size_with_antialiasing()
    }

    /// Whether the antialiased size exceeds the texture size limit, per side.
    pub fn exceeds_max(&self) -> (r: (bool, bool))
        requires
            self.spec_screen().fits(),
        ensures
            r == (
                self.spec_screen().spec_virtual_size_with_antialiasing().0 > self.max_size(),
                self.spec_screen().spec_virtual_size_with_antialiasing().1 > self.max_size(),
            ),
    {
        let (width, height) = self.screen.virtual_size_with_antialiasing();
        (width > self.max_texture_size, height > self.max_texture_size)
    }

    /// The buffer size of the frame: the antialiased size clamped to the texture limit.
    pub fn buffer_size(&self) -> (b: BufferSize)
        requires
            self.spec_screen().fits(),
            self.max_size() >= 1,
        ensures
            b == BufferSize(
                clamped(self.spec_screen().spec_virtual_size_with_antialiasing().0, 1, self.max_size()),
                clamped(self.spec_screen().spec_virtual_size_with_antialiasing().1, 1, self.max_size()),
            ),
            1 <= b.0 <= self.max_size(),
            1 <= b.1 <= self.max_size(),
    {
        let (width, height) = self.screen.virtual_size_with_antialiasing();
        BufferSize::new(width, height, self.max_texture_size)
    }
}

/// The frame buffer: its size, for which its render and depth textures are made.
pub struct Framebuffer {
    size: BufferSize,
}

impl Framebuffer {
    pub closed spec fn spec_size(&self) -> BufferSize {
        self.size
    }

    /// A frame buffer of the smallest size.
    pub fn new() -> (f: Self)
        ensures
            f.spec_size() == BufferSize(1, 1),
    {
        Framebuffer { size: BufferSize::min() }
    }

    /// Sets the size; returns whether the textures have to be made again, which is
    /// when the size changed.
    pub fn set_size(&mut self, size: BufferSize) -> (remake: bool)
        ensures
            remake == (old(self).spec_size() != size),
            final(self).spec_size() == size,
    {
        if self.size.0 == size.0 && self.size.1 == size.1 {
            return false;
        }
        self.size = size;
        true
    }

    /// The size.
    pub fn size(&self) -> (s: BufferSize)
        ensures
            s == self.spec_size(),
    {
        self.size
    }
}

} // verus!
