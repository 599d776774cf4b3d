//! Frame buffers, the luma post-processing of raw frames, and the bounded
//! history of observations that an agent collects.

use crate::text::{four_digit_string, four_digits};
use vstd::arithmetic::div_mod::lemma_add_mod_noop;
use vstd::arithmetic::div_mod::lemma_fundamental_div_mod;
use vstd::arithmetic::div_mod::lemma_fundamental_div_mod_converse;
use vstd::prelude::*;

verus! {

/// Pixel layouts of a raw frame, by the names the display library gives them.
#[derive(Clone, Copy, Debug, PartialEq, Eq, Structural)]
pub enum PixelFormatEnumDef {
    Unknown,
    Index1LSB,
    Index1MSB,
    Index4LSB,
    Index4MSB,
    Index8,
    RGB332,
    RGB444,
    RGB555,
    BGR555,
    ARGB4444,
    RGBA4444,
    ABGR4444,
    BGRA4444,
    ARGB1555,
    RGBA5551,
    ABGR1555,
    BGRA5551,
    RGB565,
    BGR565,
    RGB24,
    BGR24,
    RGB888,
    RGBX8888,
    BGR888,
    BGRX8888,
    ARGB8888,
    RGBA8888,
    ABGR8888,
    BGRA8888,
    ARGB2101010,
    YV12,
    IYUV,
    YUY2,
    UYVY,
    YVYU,
    NV12,
    NV21,
}

/// The pixel layout that frames of `bpp` bytes per pixel come in, if any.
pub open spec fn format_for_depth(bpp: u32) -> Option<PixelFormatEnumDef> {
    if bpp == 2 {
        Some(PixelFormatEnumDef::RGB565)
    } else if bpp == 4 {
        Some(PixelFormatEnumDef::ABGR8888)
    } else {
        None
    }
}

/// The pixel layout for `bpp` bytes per pixel: 2 gives RGB565, 4 gives
/// ABGR8888, and no other depth is supported.
pub fn pixel_format_for_depth(bpp: u32) -> (r: Option<PixelFormatEnumDef>)
    ensures
        r == format_for_depth(bpp),
{
    if bpp == 2 {
        Some(PixelFormatEnumDef::RGB565)
    } else if bpp == 4 {
        Some(PixelFormatEnumDef::ABGR8888)
    } else {
        None
    }
}

/// floor(0.2989 r + 0.5870 g + 0.114 b), computed exactly.
pub open spec fn luma(r: u8, g: u8, b: u8) -> int {
    (2989 * r + 5870 * g + 1140 * b) / 10000
}

/// The luma byte of the 4-byte pixel at `pixel` in `raw`.
pub open spec fn pixel_luma(raw: Seq<u8>, pixel: int) -> int {
    luma(raw[4 * pixel], raw[4 * pixel + 1], raw[4 * pixel + 2])
}

/// The luma byte of one pixel: bytes R, G, B (a fourth byte is ignored).
pub fn luma_of(r: u8, g: u8, b: u8) -> (y: u8)
    ensures
        y == luma(r, g, b),
{
    let sum: u32 = 2989 * (r as u32) + 5870 * (g as u32) + 1140 * (b as u32);
    (sum / 10000) as u8
}

/// Sum of the bytes of `s`.
pub open spec fn byte_sum(s: Seq<u8>) -> int
    decreases s.len(),
{
    if s.len() == 0 {
        0
    } else {
        byte_sum(s.drop_last()) + s.last()
    }
}

/// Two's complement of the wrap-around 32-bit sum of `s`.
pub open spec fn checksum_of(s: Seq<u8>) -> u32 {
    ((0x1_0000_0000 - byte_sum(s) % 0x1_0000_0000) % 0x1_0000_0000) as u32
}

/// The integrity checksum of a raw pixel buffer: the two's complement of the
/// wrap-around sum of its bytes.
pub fn get_pixel_buffer_checksum(pixel_buffer: &Vec<u8>) -> (r: u32)
    ensures
        r == checksum_of(pixel_buffer@),
{
    let mut ret: u32 = 0;
    let mut i: usize = 0;
    while i < pixel_buffer.len()
        invariant
            i <= pixel_buffer.len(),
            ret == byte_sum(pixel_buffer@.subrange(0, i as int)) % 0x1_0000_0000,
        decreases pixel_buffer.len() - i,
    {
        let x = pixel_buffer[i];
        proof {
            let prefix = pixel_buffer@.subrange(0, i as int);
            let next = pixel_buffer@.subrange(0, i + 1);
            assert(next.drop_last() =~= prefix);
            lemma_add_mod_noop(byte_sum(prefix), x as int, 0x1_0000_0000);
            lemma_fundamental_div_mod_converse(x as int, 0x1_0000_0000, 0, x as int);
            lemma_wrapped_sum(ret as int, x as int, 0x1_0000_0000);
        }
        ret = ret.wrapping_add(x as u32);
        i = i + 1;
    }
    assert(pixel_buffer@.subrange(0, i as int) =~= pixel_buffer@);
    0u32.wrapping_sub(ret)
}

proof fn lemma_wrapped_sum(a: int, b: int, m: int)
    requires
        0 <= a < m,
        0 <= b < m,
    ensures
        (a + b) % m == if a + b >= m {
            a + b - m
        } else {
            a + b
        },
{
    if a + b >= m {
        lemma_fundamental_div_mod_converse(a + b, m, 1, a + b - m);
    } else {
        lemma_fundamental_div_mod_converse(a + b, m, 0, a + b);
    }
}

/// One frame, raw as the backend wrote it and processed to one byte per pixel.
#[derive(Clone, Debug)]
pub struct FrameBuffer {
    pub width: u32,
    pub height: u32,
    pub bpp: u32,
    pub pixel_format: PixelFormatEnumDef,
    /// width × height × bpp bytes, as the backend produced them.
    pub frame_data: Vec<u8>,
    /// width × height bytes, one luma byte per pixel.
    pub processed_data: Vec<u8>,
}

/// Bytes of a raw frame.
pub open spec fn raw_len(width: u32, height: u32, bpp: u32) -> int {
    width as int * height as int * bpp as int
}

/// Bytes of a processed frame.
pub open spec fn processed_len(width: u32, height: u32) -> int {
    width as int * height as int
}

impl FrameBuffer {
    /// The buffers have the lengths the geometry gives.
    pub open spec fn wf(&self) -> bool {
        &&& self.frame_data@.len() == raw_len(self.width, self.height, self.bpp)
        &&& self.processed_data@.len() == processed_len(self.width, self.height)
    }

    /// A zeroed frame buffer of the given geometry.
    pub fn new(width: u32, height: u32, bpp: u32, pixel_format: PixelFormatEnumDef) -> (r: Self)
        requires
            raw_len(width, height, bpp) <= usize::MAX,
            processed_len(width, height) <= usize::MAX,
        ensures
            r.wf(),
            r.width == width,
            r.height == height,
            r.bpp == bpp,
            r.pixel_format == pixel_format,
            forall|i: int| 0 <= i < r.frame_data@.len() ==> #[trigger] r.frame_data@[i] == 0,
            forall|i: int| 0 <= i < r.processed_data@.len() ==> #[trigger] r.processed_data@[i] == 0,
    {
        let pixels: usize = (width as usize) * (height as usize);
        let bytes: usize = pixels * (bpp as usize);
        FrameBuffer {
            width,
            height,
            bpp,
            pixel_format,
            frame_data: vec![0u8; bytes],
            processed_data: vec![0u8; pixels],
        }
    }

    /// A copy of this frame buffer.
    pub fn snapshot(&self) -> (r: FrameBuffer)
        ensures
            r.width == self.width,
            r.height == self.height,
            r.bpp == self.bpp,
            r.pixel_format == self.pixel_format,
            r.frame_data@ == self.frame_data@,
            r.processed_data@ == self.processed_data@,
    {
        let frame_data = self.frame_data.clone();
        let processed_data = self.processed_data.clone();
        assert(frame_data@ =~= self.frame_data@);
        assert(processed_data@ =~= self.processed_data@);
        FrameBuffer {
            width: self.width,
            height: self.height,
            bpp: self.bpp,
            pixel_format: self.pixel_format,
            frame_data,
            processed_data,
        }
    }

    /// Bytes of the raw frame.
    pub fn get_size(&self) -> (r: usize)
        requires
            self.wf(),
        ensures
            r == raw_len(self.width, self.height, self.bpp),
    {
        self.frame_data.len()
    }

    /// The raw frame.
    pub fn get_buffer(&self) -> (r: &[u8])
        ensures
            r@ == self.frame_data@,
    {
        self.frame_data.as_slice()
    }

    /// Replaces the raw frame by `data`, which has the same length.
    pub fn write_buffer(&mut self, data: &[u8])
        requires
            data@.len() == old(self).frame_data@.len(),
        ensures
            final(self).frame_data@ == data@,
            final(self).processed_data == old(self).processed_data,
            final(self).width == old(self).width,
            final(self).height == old(self).height,
            final(self).bpp == old(self).bpp,
            final(self).pixel_format == old(self).pixel_format,
    {
        let mut i: usize = 0;
        while i < data.len()
            invariant
                i <= data@.len(),
                self.frame_data@.len() == data@.len(),
                forall|j: int| 0 <= j < i ==> self.frame_data@[j] == data@[j],
                self.processed_data == old(self).processed_data,
                self.width == old(self).width,
                self.height == old(self).height,
                self.bpp == old(self).bpp,
                self.pixel_format == old(self).pixel_format,
            decreases data@.len() - i,
        {
            self.frame_data[i] = data[i];
            i = i + 1;
        }
        assert(self.frame_data@ =~= data@);
    }

    /// Reduces each 4-byte pixel (R, G, B, ignored) of the raw frame to its
    /// luma byte in the processed frame. The transform is defined for 4-byte
    /// pixels only: a frame of another depth leaves the processed frame as it is.
    pub fn post_process_data(&mut self)
        requires
            old(self).wf(),
        ensures
            final(self).wf(),
            final(self).frame_data == old(self).frame_data,
            final(self).width == old(self).width,
            final(self).height == old(self).height,
            final(self).bpp == old(self).bpp,
            final(self).pixel_format == old(self).pixel_format,
            old(self).bpp == 4 ==> forall|i: int|
                0 <= i < old(self).processed_data@.len() ==> #[trigger] final(self).processed_data@[i]
                    == pixel_luma(old(self).frame_data@, i),
            old(self).bpp != 4 ==> final(self).processed_data == old(self).processed_data,
    {
        if self.bpp != 4 {
            return;
        }
        let n = self.processed_data.len();
        assert(self.frame_data@.len() == 4 * n) by (nonlinear_arith)
            requires
                self.frame_data@.len() == self.width as int * self.height as int * self.bpp as int,
                n == self.width as int * self.height as int,
                self.bpp == 4,
        ;
        let total = self.frame_data.len();
        let mut i: usize = 0;
        while i < n
            invariant
                i <= n,
                n == old(self).processed_data@.len(),
                total == self.frame_data@.len(),
                4 * n == total,
                self.frame_data == old(self).frame_data,
                self.width == old(self).width,
                self.height == old(self).height,
                self.bpp == old(self).bpp,
                self.pixel_format == old(self).pixel_format,
                self.processed_data@.len() == n,
                forall|j: int|
                    0 <= j < i ==> #[trigger] self.processed_data@[j] == pixel_luma(
                        old(self).frame_data@,
                        j,
                    ),
            decreases n - i,
        {
            let y = luma_of(
                self.frame_data[4 * i],
                self.frame_data[4 * i + 1],
                self.frame_data[4 * i + 2],
            );
            self.processed_data[i] = y;
            i = i + 1;
        }
    }
}

/// One sample: a frame and the control input that the next step used.
#[derive(Clone, Debug)]
pub struct ObservationData {
    pub frame_buffer: FrameBuffer,
    pub keycode_data: u16,
}

/// Samples kept per second of history.
pub const SAMPLES_PER_SECOND: usize = 60;

/// Seconds of history that an album keeps.
pub const ALBUM_SECONDS: usize = 10;

/// Most observations an album keeps: the latest ten seconds at 60 per second.
pub const ALBUM_CAPACITY: usize = ALBUM_SECONDS * SAMPLES_PER_SECOND;

/// Index of the first observation an album keeps out of `len`.
pub open spec fn album_start_of(len: nat) -> nat {
    if len > ALBUM_CAPACITY {
        (len - ALBUM_CAPACITY) as nat
    } else {
        0
    }
}

/// An append-only sequence of observations that share one geometry.
#[derive(Clone, Debug)]
pub struct ObservationSet {
    observations: Vec<ObservationData>,
    width: u32,
    height: u32,
    pixel_type: PixelFormatEnumDef,
}

impl View for ObservationSet {
    type V = Seq<ObservationData>;

    closed spec fn view(&self) -> Seq<ObservationData> {
        self.observations@
    }
}

impl ObservationSet {
    /// Frame width of the set.
    pub closed spec fn spec_width(&self) -> u32 {
        self.width
    }

    /// Frame height of the set.
    pub closed spec fn spec_height(&self) -> u32 {
        self.height
    }

    /// Pixel layout of the set.
    pub closed spec fn spec_pixel_type(&self) -> PixelFormatEnumDef {
        self.pixel_type
    }

    /// A set of the given geometry, holding `data` if it is given.
    pub fn new(
        data: Option<ObservationData>,
        width: u32,
        height: u32,
        pixel_type: PixelFormatEnumDef,
    ) -> (r: Self)
        ensures
            r@ == match data {
                Some(d) => seq![d],
                None => Seq::<ObservationData>::empty(),
            },
            r.spec_width() == width,
            r.spec_height() == height,
            r.spec_pixel_type() == pixel_type,
    {
        let mut observations: Vec<ObservationData> = Vec::new();
        match data {
            Some(d) => {
                observations.push(d);
            },
            None => {},
        }
        assert(observations@ =~= match data {
            Some(d) => seq![d],
            None => Seq::<ObservationData>::empty(),
        });
        ObservationSet { observations, width, height, pixel_type }
    }

    /// Appends one observation.
    pub fn push(&mut self, data: ObservationData)
        ensures
            final(self)@ == old(self)@.push(data),
            final(self).spec_width() == old(self).spec_width(),
            final(self).spec_height() == old(self).spec_height(),
            final(self).spec_pixel_type() == old(self).spec_pixel_type(),
    {
        self.observations.push(data);
    }

    /// Number of observations.
    pub fn len(&self) -> (r: usize)
        ensures
            r == self@.len(),
    {
        self.observations.len()
    }

    /// The observation at `index`.
    pub fn get(&self, index: usize) -> (r: &ObservationData)
        requires
            index < self@.len(),
        ensures
            *r == self@[index as int],
    {
        &self.observations[index]
    }

    /// Frame width of the set.
    pub fn width(&self) -> (r: u32)
        ensures
            r == self.spec_width(),
    {
        self.width
    }

    /// Frame height of the set.
    pub fn height(&self) -> (r: u32)
        ensures
            r == self.spec_height(),
    {
        self.height
    }

    /// Pixel layout of the set.
    pub fn pixel_type(&self) -> (r: PixelFormatEnumDef)
        ensures
            r == self.spec_pixel_type(),
    {
        self.pixel_type
    }

    /// Index of the first observation an album keeps: only the latest
    /// `ALBUM_CAPACITY` are written.
    pub fn album_start(&self) -> (r: usize)
        ensures
            r == album_start_of(self@.len()),
    {
        self.observations.len().saturating_sub(ALBUM_CAPACITY)
    }
}

/// Name of the album entry that holds the `position`-th kept observation:
/// four decimal digits, zeros in front.
pub fn album_entry_name(position: usize) -> (r: String)
    requires
        position < 10000,
    ensures
        r@ == four_digits(position as nat),
{
    four_digit_string(position as u64)
}

} // verus!
