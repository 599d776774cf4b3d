//! The byte protocol between an agent and a remote execution backend.
//!
//! Handshake, once, from the backend: width, height and bytes per pixel, each
//! a 4-byte big-endian unsigned integer. Then, for every step, the agent
//! writes the 2-byte big-endian control input and the backend answers with
//! exactly width × height × bpp raw frame bytes.

use crate::observation::{
    format_for_depth, pixel_format_for_depth, processed_len, raw_len, FrameBuffer,
    PixelFormatEnumDef,
};
use vstd::prelude::*;

verus! {

/// Bytes of the backend's handshake.
pub const HANDSHAKE_LEN: usize = 12;

/// Bytes of one control message.
pub const CONTROL_LEN: usize = 2;

/// The unsigned integer that four big-endian bytes hold.
pub open spec fn be_u32(b: Seq<u8>) -> int
    recommends
        b.len() == 4,
{
    b[0] * 0x100_0000 + b[1] * 0x1_0000 + b[2] * 0x100 + b[3]
}

/// The four big-endian bytes of `v`.
pub open spec fn be_bytes_u32(v: u32) -> Seq<u8> {
    seq![
        (v / 0x100_0000) as u8,
        ((v / 0x1_0000) % 0x100) as u8,
        ((v / 0x100) % 0x100) as u8,
        (v % 0x100) as u8,
    ]
}

/// The two big-endian bytes of `v`.
pub open spec fn be_bytes_u16(v: u16) -> Seq<u8> {
    seq![(v / 0x100) as u8, (v % 0x100) as u8]
}

/// Reads a 4-byte big-endian unsigned integer.
pub fn u32_from_be(bytes: &[u8]) -> (r: u32)
    requires
        bytes@.len() == 4,
    ensures
        r == be_u32(bytes@),
{
    (bytes[0] as u32) * 0x100_0000 + (bytes[1] as u32) * 0x1_0000 + (bytes[2] as u32) * 0x100
        + (bytes[3] as u32)
}

/// Writes `v` as four big-endian bytes.
pub fn u32_to_be(v: u32) -> (r: Vec<u8>)
    ensures
        r@ == be_bytes_u32(v),
        be_u32(r@) == v,
{
    let mut r: Vec<u8> = Vec::new();
    r.push((v / 0x100_0000) as u8);
    r.push(((v / 0x1_0000) % 0x100) as u8);
    r.push(((v / 0x100) % 0x100) as u8);
    r.push((v % 0x100) as u8);
    assert(r@ =~= be_bytes_u32(v));
    r
}

/// The geometry of the frames a backend produces.
#[derive(Clone, Copy, Debug, PartialEq, Eq, Structural)]
pub struct FrameGeometry {
    pub width: u32,
    pub height: u32,
    pub bpp: u32,
    pub pixel_format: PixelFormatEnumDef,
}

impl FrameGeometry {
    /// A supported depth, its layout, and buffers that fit in memory.
    pub open spec fn wf(&self) -> bool {
        &&& format_for_depth(self.bpp) == Some(self.pixel_format)
        &&& raw_len(self.width, self.height, self.bpp) <= usize::MAX
        &&& processed_len(self.width, self.height) <= usize::MAX
    }

    /// Bytes of one raw frame: width × height × bpp.
    pub fn frame_len(&self) -> (r: usize)
        requires
            self.wf(),
        ensures
            r == raw_len(self.width, self.height, self.bpp),
    {
        (self.width as usize) * (self.height as usize) * (self.bpp as usize)
    }

    /// Bytes of one processed frame: width × height.
    pub fn processed_len(&self) -> (r: usize)
        requires
            self.wf(),
        ensures
            r == processed_len(self.width, self.height),
    {
        (self.width as usize) * (self.height as usize)
    }

    /// A zeroed frame buffer of this geometry.
    pub fn frame_buffer(&self) -> (r: FrameBuffer)
        requires
            self.wf(),
        ensures
            r.wf(),
            r.width == self.width,
            r.height == self.height,
            r.bpp == self.bpp,
            r.pixel_format == self.pixel_format,
            r.frame_data@.len() == raw_len(self.width, self.height, self.bpp),
            r.processed_data@.len() == processed_len(self.width, self.height),
    {
        FrameBuffer::new(self.width, self.height, self.bpp, self.pixel_format)
    }
}

/// Why a backend's handshake is refused. Each ends the session.
#[derive(Clone, Copy, Debug, PartialEq, Eq, Structural)]
pub enum HandshakeError {
    /// Not exactly twelve bytes.
    WrongLength,
    /// A depth other than 2 or 4 bytes per pixel.
    UnsupportedDepth(u32),
    /// A frame that does not fit in memory.
    FrameTooLarge,
}

/// What a handshake of these bytes yields.
pub open spec fn handshake_result(b: Seq<u8>) -> Result<FrameGeometry, HandshakeError> {
    if b.len() != HANDSHAKE_LEN {
        Err(HandshakeError::WrongLength)
    } else {
        let w = be_u32(b.subrange(0, 4)) as u32;
        let h = be_u32(b.subrange(4, 8)) as u32;
        let d = be_u32(b.subrange(8, 12)) as u32;
        match format_for_depth(d) {
            None => Err(HandshakeError::UnsupportedDepth(d)),
            Some(f) => if raw_len(w, h, d) > usize::MAX {
                Err(HandshakeError::FrameTooLarge)
            } else {
                Ok(FrameGeometry { width: w, height: h, bpp: d, pixel_format: f })
            },
        }
    }
}

/// Reads the backend's handshake: width, height and bytes per pixel.
pub fn parse_handshake(bytes: &[u8]) -> (r: Result<FrameGeometry, HandshakeError>)
    ensures
        r == handshake_result(bytes@),
        r matches Ok(g) ==> g.wf(),
{
    if bytes.len() != HANDSHAKE_LEN {
        return Err(HandshakeError::WrongLength);
    }
    let width = u32_from_be(slice_range(bytes, 0, 4));
    let height = u32_from_be(slice_range(bytes, 4, 8));
    let bpp = u32_from_be(slice_range(bytes, 8, 12));
    match pixel_format_for_depth(bpp) {
        None => Err(HandshakeError::UnsupportedDepth(bpp)),
        Some(pixel_format) => {
            assert((width as u128) * (height as u128) <= 0xffff_ffff_ffff_ffff)
                by (nonlinear_arith)
                requires
                    width <= u32::MAX,
                    height <= u32::MAX,
            ;
            let pixels: u128 = (width as u128) * (height as u128);
            assert(pixels * (bpp as u128) <= 0xffff_ffff_ffff_ffff_ffff_ffff_ffff_ffff)
                by (nonlinear_arith)
                requires
                    pixels <= 0xffff_ffff_ffff_ffff,
                    bpp <= 4,
            ;
            let bytes_needed: u128 = pixels * (bpp as u128);
            if bytes_needed > usize::MAX as u128 {
                Err(HandshakeError::FrameTooLarge)
            } else {
                assert(pixels <= bytes_needed) by (nonlinear_arith)
                    requires
                        bytes_needed == pixels * bpp,
                        bpp >= 2,
                ;
                Ok(FrameGeometry { width, height, bpp, pixel_format })
            }
        },
    }
}

/// The bytes `bytes[from..to]`.
fn slice_range(bytes: &[u8], from: usize, to: usize) -> (r: &[u8])
    requires
        from <= to <= bytes@.len(),
    ensures
        r@ == bytes@.subrange(from as int, to as int),
{
    vstd::slice::slice_subrange(bytes, from, to)
}

/// The handshake a backend sends for this geometry.
pub fn encode_handshake(width: u32, height: u32, bpp: u32) -> (r: Vec<u8>)
    ensures
        r@ == be_bytes_u32(width) + be_bytes_u32(height) + be_bytes_u32(bpp),
{
    let mut r = u32_to_be(width);
    let mut h = u32_to_be(height);
    let mut d = u32_to_be(bpp);
    r.append(&mut h);
    r.append(&mut d);
    r
}

/// The message that carries one control input.
pub fn encode_control(keycode: u16) -> (r: Vec<u8>)
    ensures
        r@ == be_bytes_u16(keycode),
{
    let mut r: Vec<u8> = Vec::new();
    r.push((keycode / 0x100) as u8);
    r.push((keycode % 0x100) as u8);
    assert(r@ =~= be_bytes_u16(keycode));
    r
}

/// The control input that a control message carries.
pub fn decode_control(bytes: &[u8]) -> (r: u16)
    requires
        bytes@.len() == CONTROL_LEN,
    ensures
        r == bytes@[0] * 0x100 + bytes@[1],
{
    (bytes[0] as u16) * 0x100 + (bytes[1] as u16)
}

proof fn lemma_be_u32(v: u32)
    ensures
        be_u32(be_bytes_u32(v)) == v,
{
}

/// Decoding undoes encoding, for the handshake and for control messages.
pub proof fn lemma_wire_round_trip(width: u32, height: u32, bpp: u32, keycode: u16)
    ensures
        ({
            let b = be_bytes_u32(width) + be_bytes_u32(height) + be_bytes_u32(bpp);
            &&& b.len() == HANDSHAKE_LEN
            &&& be_u32(b.subrange(0, 4)) == width
            &&& be_u32(b.subrange(4, 8)) == height
            &&& be_u32(b.subrange(8, 12)) == bpp
        }),
        be_bytes_u16(keycode)[0] * 0x100 + be_bytes_u16(keycode)[1] == keycode,
{
    let b = be_bytes_u32(width) + be_bytes_u32(height) + be_bytes_u32(bpp);
    lemma_be_u32(width);
    lemma_be_u32(height);
    lemma_be_u32(bpp);
    assert(b.subrange(0, 4) =~= be_bytes_u32(width));
    assert(b.subrange(4, 8) =~= be_bytes_u32(height));
    assert(b.subrange(8, 12) =~= be_bytes_u32(bpp));
}

} // verus!
