//! Texture and buffer data descriptions: sizes, usages and the checks on their lengths.

use vstd::prelude::*;

use crate::format::Format;
use crate::out::{dec, Out};

verus! {

/// The data is zero sized.
#[derive(Debug, Clone, Copy, PartialEq, Eq, Structural)]
pub struct ZeroSized;

impl ZeroSized {
    /// The error message.
    pub fn message(&self) -> (s: String)
        ensures
            s@ == "zero sized data"@,
    {
        String::from_str("zero sized data")
    }
}

/// The texture data length doesn't match with size and format.
#[derive(Debug, Clone, Copy, PartialEq, Eq, Structural)]
pub struct InvalidLen;

impl InvalidLen {
    /// The error message.
    pub fn message(&self) -> (s: String)
        ensures
            s@ == "invalid data length"@,
    {
        String::from_str("invalid data length")
    }
}

/// Reading a buffer failed.
#[derive(Debug, Clone, Copy, PartialEq, Eq, Structural)]
pub struct ReadFailed;

impl ReadFailed {
    /// The error message.
    pub fn message(&self) -> (s: String)
        ensures
            s@ == "failed to read buffer"@,
    {
        String::from_str("failed to read buffer")
    }
}

/// Writing a buffer failed.
#[derive(Debug, Clone, Copy, PartialEq, Eq, Structural)]
pub struct WriteFailed;

impl WriteFailed {
    /// The error message.
    pub fn message(&self) -> (s: String)
        ensures
            s@ == "failed to write buffer"@,
    {
        String::from_str("failed to write buffer")
    }
}

/// A copy between resources of different sizes.
#[derive(Debug, Clone, Copy, PartialEq, Eq, Structural)]
pub struct SizeError {
    pub from_size: u64,
    pub to_size: u64,
}

impl SizeError {
    /// The error message.
    pub fn message(&self) -> (s: String)
        ensures
            s@ == "can't copy from size "@ + dec(self.from_size as nat) + " to size "@ + dec(
                self.to_size as nat,
            ),
    {
        let mut o = Out::new();
        o.write_str("can't copy from size ").write_u64(self.from_size).write_str(
            " to size ",
        ).write_u64(self.to_size);
        o.into_string()
    }
}

/// The size of a texture: width, height and depth, none of them zero.
#[derive(Clone, Copy, Debug, PartialEq, Eq, Structural)]
pub struct Size {
    width: u32,
    height: u32,
    depth: u32,
}

impl Size {
    #[verifier::type_invariant]
    spec fn non_zero(self) -> bool {
        self.width > 0 && self.height > 0 && self.depth > 0
    }

    pub closed spec fn w(self) -> u32 {
        self.width
    }

    pub closed spec fn h(self) -> u32 {
        self.height
    }

    pub closed spec fn d(self) -> u32 {
        self.depth
    }

    /// The number of texels.
    pub open spec fn spec_volume(self) -> nat {
        (self.w() as nat) * (self.h() as nat) * (self.d() as nat)
    }

    /// A size with all three dimensions. None of them may be zero.
    pub fn new(width: u32, height: u32, depth: u32) -> (s: Self)
        requires
            width > 0,
            height > 0,
            depth > 0,
        ensures
            s.w() == width,
            s.h() == height,
            s.d() == depth,
    {
        Size { width, height, depth }
    }

    /// A one-dimensional size.
    pub fn from_width(width: u32) -> (s: Self)
        requires
            width > 0,
        ensures
            s.w() == width,
            s.h() == 1,
            s.d() == 1,
    {
        Size { width, height: 1, depth: 1 }
    }

    /// A two-dimensional size.
    pub fn from_width_height(width: u32, height: u32) -> (s: Self)
        requires
            width > 0,
            height > 0,
        ensures
            s.w() == width,
            s.h() == height,
            s.d() == 1,
    {
        Size { width, height, depth: 1 }
    }

    /// A one-dimensional size, or an error when the width is zero.
    pub fn try_from_width(width: u32) -> (r: Result<Self, ZeroSized>)
        ensures
            width == 0 <==> r is Err,
            r matches Ok(s) ==> s.w() == width && s.h() == 1 && s.d() == 1,
    {
        if width == 0 {
            Err(ZeroSized)
        } else {
            Ok(Self::from_width(width))
        }
    }

    /// A two-dimensional size, or an error when a dimension is zero.
    pub fn try_from_width_height(width: u32, height: u32) -> (r: Result<Self, ZeroSized>)
        ensures
            (width == 0 || height == 0) <==> r is Err,
            r matches Ok(s) ==> s.w() == width && s.h() == height && s.d() == 1,
    {
        if width == 0 || height == 0 {
            Err(ZeroSized)
        } else {
            Ok(Self::from_width_height(width, height))
        }
    }

    /// The width.
    pub fn width(self) -> (n: u32)
        ensures
            n == self.w(),
            n > 0,
    {
        proof {
            use_type_invariant(self);
        }
        self.width
    }

    /// The height.
    pub fn height(self) -> (n: u32)
        ensures
            n == self.h(),
            n > 0,
    {
        proof {
            use_type_invariant(self);
        }
        self.height
    }

    /// The depth.
    pub fn depth(self) -> (n: u32)
        ensures
            n == self.d(),
            n > 0,
    {
        proof {
            use_type_invariant(self);
        }
        self.depth
    }

    /// The number of texels.
    pub fn volume(self) -> (n: usize)
        requires
            self.spec_volume() <= usize::MAX,
        ensures
            n == self.spec_volume(),
    {
        proof {
            use_type_invariant(self);
        }
        let width = self.width as usize;
        let height = self.height as usize;
        let depth = self.depth as usize;
        assert(width * height <= width * height * depth) by (nonlinear_arith)
            requires
                depth >= 1,
        ;
        width * height * depth
    }
}

/// The usages a texture is created with.
#[derive(Clone, Copy, Debug, PartialEq, Eq, Structural)]
pub struct TextureUsages {
    pub read: bool,
    pub write: bool,
    pub copy_from: bool,
    pub copy_to: bool,
    pub bind: bool,
    pub render: bool,
}

impl TextureUsages {
    /// No usages.
    pub open spec fn empty() -> Self {
        TextureUsages {
            read: false,
            write: false,
            copy_from: false,
            copy_to: false,
            bind: false,
            render: false,
        }
    }

    /// No usages.
    pub fn none() -> (u: Self)
        ensures
            u == Self::empty(),
    {
        TextureUsages {
            read: false,
            write: false,
            copy_from: false,
            copy_to: false,
            bind: false,
            render: false,
        }
    }
}

/// The data of a new texture: its bytes, size, format and usages.
#[derive(Clone, Copy)]
pub struct TextureData<'data> {
    data: &'data [u8],
    size: Size,
    format: Format,
    usage: TextureUsages,
}

impl<'data> TextureData<'data> {
    pub closed spec fn bytes(self) -> Seq<u8> {
        self.data@
    }

    pub closed spec fn texture_size(self) -> Size {
        self.size
    }

    pub closed spec fn texture_format(self) -> Format {
        self.format
    }

    pub closed spec fn usages(self) -> TextureUsages {
        self.usage
    }

    /// The number of bytes the data of a texture of this size and format holds.
    pub open spec fn expected_len(size: Size, format: Format) -> nat {
        size.spec_volume() * (format.spec_bytes() as nat)
    }

    /// A texture description without initial data.
    pub fn empty(size: Size, format: Format) -> (r: Self)
        ensures
            r.bytes().len() == 0,
            r.texture_size() == size,
            r.texture_format() == format,
            r.usages() == TextureUsages::empty(),
    {
        let data: &'data [u8] = &[];
        TextureData { data, size, format, usage: TextureUsages::none() }
    }

    /// A texture description with initial data, or an error when the data length
    /// doesn't match the size and format.
    pub fn new(size: Size, format: Format, data: &'data [u8]) -> (r: Result<Self, InvalidLen>)
        requires
            Self::expected_len(size, format) <= usize::MAX,
        ensures
            (data@.len() == Self::expected_len(size, format)) <==> r is Ok,
            r matches Ok(t) ==> {
                &&& t.bytes() == data@
                &&& t.texture_size() == size
                &&& t.texture_format() == format
                &&& t.usages() == TextureUsages::empty()
            },
    {
        proof {
            crate::format::lemma_format_bytes(format);
            assert(size.spec_volume() <= size.spec_volume() * (format.spec_bytes() as nat))
                by (nonlinear_arith)
                requires
                    format.spec_bytes() >= 1,
            ;
        }
        let empty = Self::empty(size, format);
        let len = size.volume() * format.bytes() as usize;
        if data.len() == len {
            Ok(TextureData { data, ..empty })
        } else {
            Err(InvalidLen)
        }
    }

    /// The data bytes.
    pub fn data(&self) -> (d: &'data [u8])
        ensures
            d@ == self.bytes(),
    {
        self.data
    }

    /// The texture size.
    pub fn size(&self) -> (s: Size)
        ensures
            s == self.texture_size(),
    {
        self.size
    }

    /// The texture format.
    pub fn format(&self) -> (f: Format)
        ensures
            f == self.texture_format(),
    {
        self.format
    }

    /// The usages.
    pub fn usage(&self) -> (u: TextureUsages)
        ensures
            u == self.usages(),
    {
        self.usage
    }

    /// Adds the read usage.
    pub fn read(self) -> (r: Self)
        ensures
            r.bytes() == self.bytes(),
            r.texture_size() == self.texture_size(),
            r.texture_format() == self.texture_format(),
            r.usages() == (TextureUsages { read: true, ..self.usages() }),
    {
        TextureData { usage: TextureUsages { read: true, ..self.usage }, ..self }
    }

    /// Adds the write usage.
    pub fn write(self) -> (r: Self)
        ensures
            r.bytes() == self.bytes(),
            r.texture_size() == self.texture_size(),
            r.texture_format() == self.texture_format(),
            r.usages() == (TextureUsages { write: true, ..self.usages() }),
    {
        TextureData { usage: TextureUsages { write: true, ..self.usage }, ..self }
    }

    /// Adds the copy-from usage.
    pub fn copy_from(self) -> (r: Self)
        ensures
            r.bytes() == self.bytes(),
            r.texture_size() == self.texture_size(),
            r.texture_format() == self.texture_format(),
            r.usages() == (TextureUsages { copy_from: true, ..self.usages() }),
    {
        TextureData { usage: TextureUsages { copy_from: true, ..self.usage }, ..self }
    }

    /// Adds the copy-to usage.
    pub fn copy_to(self) -> (r: Self)
        ensures
            r.bytes() == self.bytes(),
            r.texture_size() == self.texture_size(),
            r.texture_format() == self.texture_format(),
            r.usages() == (TextureUsages { copy_to: true, ..self.usages() }),
    {
        TextureData { usage: TextureUsages { copy_to: true, ..self.usage }, ..self }
    }

    /// Adds the bind usage.
    pub fn bind(self) -> (r: Self)
        ensures
            r.bytes() == self.bytes(),
            r.texture_size() == self.texture_size(),
            r.texture_format() == self.texture_format(),
            r.usages() == (TextureUsages { bind: true, ..self.usages() }),
    {
        TextureData { usage: TextureUsages { bind: true, ..self.usage }, ..self }
    }

    /// Adds the render usage.
    pub fn render(self) -> (r: Self)
        ensures
            r.bytes() == self.bytes(),
            r.texture_size() == self.texture_size(),
            r.texture_format() == self.texture_format(),
            r.usages() == (TextureUsages { render: true, ..self.usages() }),
    {
        TextureData { usage: TextureUsages { render: true, ..self.usage }, ..self }
    }
}

/// `value` rounded up to a multiple of `alignment`.
pub open spec fn spec_align(value: nat, alignment: nat) -> nat {
    if value % alignment == 0 {
        value
    } else {
        (value + alignment - value % alignment) as nat
    }
}

/// Calls `wgpu::util::align_to`, which rounds `value` up to a multiple of `alignment`:
/// it returns `value` when the remainder is zero and `value + alignment - remainder`
/// otherwise. The `requires` keeps `value + alignment` within `u32` where it is computed.
#[verifier::external_body]
fn align_to(value: u32, alignment: u32) -> (r: u32)
    requires
        alignment != 0,
        value % alignment == 0 || value + alignment <= u32::MAX,
    ensures
        r == spec_align(value as nat, alignment as nat),
{
    wgpu::util::align_to(value, alignment)
}

/// Reads `wgpu::COPY_BYTES_PER_ROW_ALIGNMENT`, which the wgpu source defines as 256.
#[verifier::external_body]
fn copy_bytes_per_row_alignment() -> (r: u32)
    ensures
        r == 256,
{
    wgpu::COPY_BYTES_PER_ROW_ALIGNMENT
}

/// A row whose aligned length fits in `u32` can be aligned without overflow.
proof fn lemma_align_fits(value: u32)
    requires
        spec_align(value as nat, 256) <= u32::MAX,
    ensures
        value % 256 == 0 || value + 256 <= u32::MAX,
{
    if value % 256 != 0 {
        let q = value / 256;
        assert(value == 256 * q + value % 256);
        assert(spec_align(value as nat, 256) == 256 * (q + 1));
        assert(256 * (q + 1) <= u32::MAX);
        assert(q + 1 <= 16777215);
    }
}

/// The aligned length of a row is the smallest multiple of the alignment that holds
/// the row.
pub proof fn lemma_align(value: nat, alignment: nat)
    requires
        alignment > 0,
    ensures
        spec_align(value, alignment) % alignment == 0,
        value <= spec_align(value, alignment) < value + alignment,
{
    let r = value % alignment;
    let q = value / alignment;
    assert(value == alignment * q + r) by (nonlinear_arith)
        requires
            alignment > 0,
            r == value % alignment,
            q == value / alignment,
    ;
    if r != 0 {
        assert((value + alignment - r) == alignment * (q + 1)) by (nonlinear_arith)
            requires
                value == alignment * q + r,
        ;
        assert((alignment * (q + 1)) % alignment == 0) by (nonlinear_arith)
            requires
                alignment > 0,
        ;
    }
}

/// The number of bytes of a texture row, rounded up to the row alignment of copies.
pub open spec fn spec_bytes_per_row_aligned(width: u32, format: Format) -> nat {
    spec_align((width as nat) * (format.spec_bytes() as nat), 256)
}

/// The number of texture dimensions.
#[derive(Clone, Copy, Debug, PartialEq, Eq, Structural)]
pub enum DimensionsNumber {
    D1,
    D2,
    D3,
}

/// The texture sampling filter.
#[derive(Clone, Copy, Debug, PartialEq, Eq, Structural)]
pub enum Filter {
    Nearest,
    Linear,
}

/// The usages a buffer is created with.
#[derive(Clone, Copy, Debug, PartialEq, Eq, Structural)]
pub struct BufferUsages {
    pub read: bool,
    pub write: bool,
    pub copy_from: bool,
    pub copy_to: bool,
}

impl BufferUsages {
    /// No usages.
    pub open spec fn empty() -> Self {
        BufferUsages { read: false, write: false, copy_from: false, copy_to: false }
    }

    /// No usages.
    pub fn none() -> (u: Self)
        ensures
            u == Self::empty(),
    {
        BufferUsages { read: false, write: false, copy_from: false, copy_to: false }
    }
}

/// The data of a new buffer: its bytes or its size, and its usages.
#[derive(Clone, Copy)]
pub struct BufferData<'data> {
    data: &'data [u8],
    size: u32,
    usage: BufferUsages,
}

impl<'data> BufferData<'data> {
    pub closed spec fn bytes(self) -> Seq<u8> {
        self.data@
    }

    pub closed spec fn buffer_size(self) -> u32 {
        self.size
    }

    pub closed spec fn usages(self) -> BufferUsages {
        self.usage
    }

    /// A buffer of the given size without initial data.
    pub fn empty(size: u32) -> (r: Self)
        ensures
            r.bytes().len() == 0,
            r.buffer_size() == size,
            r.usages() == BufferUsages::empty(),
    {
        let data: &'data [u8] = &[];
        BufferData { data, size, usage: BufferUsages::none() }
    }

    /// A buffer holding the given data. Its length must fit into `u32`.
    pub fn new(data: &'data [u8]) -> (r: Self)
        requires
            data@.len() <= u32::MAX,
        ensures
            r.bytes() == data@,
            r.buffer_size() == data@.len(),
            r.usages() == BufferUsages::empty(),
    {
        let size = data.len() as u32;
        let empty = Self::empty(size);
        BufferData { data, ..empty }
    }

    /// The data bytes.
    pub fn data(&self) -> (d: &'data [u8])
        ensures
            d@ == self.bytes(),
    {
        self.data
    }

    /// The buffer size.
    pub fn size(&self) -> (n: u32)
        ensures
            n == self.buffer_size(),
    {
        self.size
    }

    /// The usages.
    pub fn usage(&self) -> (u: BufferUsages)
        ensures
            u == self.usages(),
    {
        self.usage
    }

    /// Adds the read usage.
    pub fn read(self) -> (r: Self)
        ensures
            r.bytes() == self.bytes(),
            r.buffer_size() == self.buffer_size(),
            r.usages() == (BufferUsages { read: true, ..self.usages() }),
    {
        BufferData { usage: BufferUsages { read: true, ..self.usage }, ..self }
    }

    /// Adds the write usage.
    pub fn write(self) -> (r: Self)
        ensures
            r.bytes() == self.bytes(),
            r.buffer_size() == self.buffer_size(),
            r.usages() == (BufferUsages { write: true, ..self.usages() }),
    {
        BufferData { usage: BufferUsages { write: true, ..self.usage }, ..self }
    }

    /// Adds the copy-from usage.
    pub fn copy_from(self) -> (r: Self)
        ensures
            r.bytes() == self.bytes(),
            r.buffer_size() == self.buffer_size(),
            r.usages() == (BufferUsages { copy_from: true, ..self.usages() }),
    {
        BufferData { usage: BufferUsages { copy_from: true, ..self.usage }, ..self }
    }

    /// Adds the copy-to usage.
    pub fn copy_to(self) -> (r: Self)
        ensures
            r.bytes() == self.bytes(),
            r.buffer_size() == self.buffer_size(),
            r.usages() == (BufferUsages { copy_to: true, ..self.usages() }),
    {
        BufferData { usage: BufferUsages { copy_to: true, ..self.usage }, ..self }
    }
}

/// What the library knows of a created texture: its size, format, dimensions, usages and
/// the aligned length of its rows.
#[derive(Clone, Copy, Debug, PartialEq, Eq, Structural)]
pub struct Texture {
    pub size: Size,
    pub format: Format,
    pub dimension: DimensionsNumber,
    pub usage: TextureUsages,
    pub uploads_data: bool,
    pub bytes_per_row_aligned: u32,
}

impl Texture {
    /// Describes the texture created from the data: the rows are aligned for copies,
    /// and the texture is also a copy destination when it has initial data to upload.
    pub fn new(data: &TextureData, dimension: DimensionsNumber) -> (r: Texture)
        requires
            (data.texture_size().w() as nat) * (data.texture_format().spec_bytes() as nat)
                <= u32::MAX,
            spec_bytes_per_row_aligned(data.texture_size().w(), data.texture_format()) <= u32::MAX,
        ensures
            r.size == data.texture_size(),
            r.format == data.texture_format(),
            r.dimension == dimension,
            r.uploads_data == (data.bytes().len() > 0),
            r.usage == (if data.bytes().len() > 0 {
                TextureUsages { copy_to: true, ..data.usages() }
            } else {
                data.usages()
            }),
            r.bytes_per_row_aligned == spec_bytes_per_row_aligned(
                data.texture_size().w(),
                data.texture_format(),
            ),
    {
        let size = data.size();
        let format = data.format();
        let copy_data = data.data().len() > 0;
        let mut usage = data.usage();
        if copy_data {
            usage = TextureUsages { copy_to: true, ..usage };
        }
        let bytes_per_row = size.width() * format.bytes();
        let alignment = copy_bytes_per_row_alignment();
        proof {
            lemma_align_fits(bytes_per_row);
        }
        let bytes_per_row_aligned = align_to(bytes_per_row, alignment);
        Texture {
            size,
            format,
            dimension,
            usage,
            uploads_data: copy_data,
            bytes_per_row_aligned,
        }
    }

    /// The texture size.
    pub fn size(&self) -> (s: Size)
        ensures
            s == self.size,
    {
        self.size
    }

    /// The texture format.
    pub fn format(&self) -> (f: Format)
        ensures
            f == self.format,
    {
        self.format
    }

    /// The length of a row, aligned for copies.
    pub fn bytes_per_row_aligned(&self) -> (n: u32)
        ensures
            n == self.bytes_per_row_aligned,
    {
        self.bytes_per_row_aligned
    }

    /// The number of bytes a copy of the whole texture takes.
    pub open spec fn copy_len(&self) -> nat {
        (self.bytes_per_row_aligned as nat) * (self.size.h() as nat) * (self.size.d() as nat)
    }

    /// The data of a buffer the whole texture can be copied to.
    pub fn copy_buffer_data(&self) -> (r: BufferData<'static>)
        requires
            self.copy_len() <= u32::MAX,
        ensures
            r.bytes().len() == 0,
            r.buffer_size() == self.copy_len(),
            r.usages() == (BufferUsages { copy_to: true, ..BufferUsages::empty() }),
    {
        let height = self.size.height();
        let depth = self.size.depth();
        let row = self.bytes_per_row_aligned;
        assert(row * height <= row * height * depth) by (nonlinear_arith)
            requires
                depth >= 1,
        ;
        let size = row * height * depth;
        BufferData::empty(size).copy_to()
    }
}

/// A resource that takes part in a copy.
#[derive(Clone, Copy)]
pub enum CopyResource {
    Texture(Texture),
    Buffer { size: u64 },
}

impl CopyResource {
    /// The number of bytes a copy of the resource takes.
    pub open spec fn copy_len(self) -> nat {
        match self {
            CopyResource::Texture(t) => t.copy_len(),
            CopyResource::Buffer { size } => size as nat,
        }
    }
}

/// Checks a copy from a texture or buffer into a buffer: both sides must take the same
/// number of bytes.
pub fn try_copy(from: CopyResource, to: CopyResource) -> (r: Result<(), SizeError>)
    requires
        to is Buffer,
        from.copy_len() <= u64::MAX,
    ensures
        r is Ok <==> from.copy_len() == to.copy_len(),
        r matches Err(e) ==> e.from_size == from.copy_len() && e.to_size == to.copy_len(),
{
    let to_size = match to {
        CopyResource::Buffer { size } => size,
        CopyResource::Texture(_) => 0,
    };
    let from_size = match from {
        CopyResource::Texture(t) => {
            let height = t.size.height() as u64;
            let depth = t.size.depth() as u64;
            let row = t.bytes_per_row_aligned as u64;
            assert(row * height <= row * height * depth) by (nonlinear_arith)
                requires
                    depth >= 1,
            ;
            row * height * depth
        },
        CopyResource::Buffer { size } => size,
    };
    if from_size != to_size {
        return Err(SizeError { from_size, to_size });
    }
    Ok(())
}

} // verus!
