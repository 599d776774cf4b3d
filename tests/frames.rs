use rust_mgba::observation::{
    album_entry_name, get_pixel_buffer_checksum, luma_of, pixel_format_for_depth, FrameBuffer,
    ObservationData, ObservationSet, PixelFormatEnumDef, ALBUM_CAPACITY,
};
use rust_mgba::wire::{
    decode_control, encode_control, encode_handshake, parse_handshake, FrameGeometry, HandshakeError,
};

#[test]
fn luma_of_sample_pixel() {
    assert_eq!(luma_of(10, 20, 30), 18);
    assert_eq!(luma_of(0, 0, 0), 0);
    assert_eq!(luma_of(255, 255, 255), 254);
    assert_eq!(luma_of(100, 0, 0), 29);
}

#[test]
fn post_processing_reduces_each_pixel() {
    let mut fb = FrameBuffer::new(2, 1, 4, PixelFormatEnumDef::ABGR8888);
    assert_eq!(fb.get_size(), 8);
    fb.write_buffer(&[10, 20, 30, 255, 255, 255, 255, 0]);
    fb.post_process_data();
    assert_eq!(fb.processed_data, vec![18, 254]);
    assert_eq!(fb.get_buffer(), &[10, 20, 30, 255, 255, 255, 255, 0]);
}

#[test]
fn checksum_is_twos_complement_of_byte_sum() {
    assert_eq!(get_pixel_buffer_checksum(&vec![]), 0);
    assert_eq!(get_pixel_buffer_checksum(&vec![1, 2, 3]), u32::MAX - 5);
    assert_eq!(get_pixel_buffer_checksum(&vec![255; 4]), (4_294_967_296u64 - 1020) as u32);
    let sum = vec![1u8, 2, 3].iter().map(|b| *b as u32).sum::<u32>();
    assert_eq!(get_pixel_buffer_checksum(&vec![1, 2, 3]).wrapping_add(sum), 0);
}

#[test]
fn handshake_gives_buffer_sizes() {
    let bytes = encode_handshake(240, 160, 4);
    assert_eq!(bytes, vec![0, 0, 0, 240, 0, 0, 0, 160, 0, 0, 0, 4]);
    let g = parse_handshake(&bytes).unwrap();
    assert_eq!(g, FrameGeometry { width: 240, height: 160, bpp: 4, pixel_format: PixelFormatEnumDef::ABGR8888 });
    assert_eq!(g.frame_len(), 153600);
    assert_eq!(g.processed_len(), 38400);
    let fb = g.frame_buffer();
    assert_eq!(fb.frame_data.len(), 153600);
    assert_eq!(fb.processed_data.len(), 38400);
}

#[test]
fn handshake_errors() {
    assert_eq!(parse_handshake(&[0, 0, 0, 240]), Err(HandshakeError::WrongLength));
    assert_eq!(
        parse_handshake(&encode_handshake(240, 160, 3)),
        Err(HandshakeError::UnsupportedDepth(3))
    );
    let g = parse_handshake(&encode_handshake(4, 2, 2)).unwrap();
    assert_eq!(g.pixel_format, PixelFormatEnumDef::RGB565);
    assert_eq!(g.frame_len(), 16);
    assert_eq!(pixel_format_for_depth(1), None);
}

#[test]
fn control_messages_are_big_endian() {
    assert_eq!(encode_control(0x1234), vec![0x12, 0x34]);
    assert_eq!(decode_control(&[0x02, 0x40]), 0x0240);
    assert_eq!(decode_control(&encode_control(0x3ff)), 0x3ff);
}

#[test]
fn observation_set_grows_and_keeps_latest_album() {
    let fb = FrameBuffer::new(1, 1, 4, PixelFormatEnumDef::ABGR8888);
    let mut set = ObservationSet::new(None, 1, 1, PixelFormatEnumDef::ABGR8888);
    assert_eq!(set.len(), 0);
    assert_eq!(set.album_start(), 0);
    for k in 0..700u16 {
        set.push(ObservationData { frame_buffer: fb.clone(), keycode_data: k });
    }
    assert_eq!(set.len(), 700);
    assert_eq!(set.album_start(), 700 - ALBUM_CAPACITY);
    assert_eq!(set.get(100).keycode_data, 100);
    assert_eq!((set.width(), set.height(), set.pixel_type()), (1, 1, PixelFormatEnumDef::ABGR8888));
    let one = ObservationSet::new(Some(ObservationData { frame_buffer: fb, keycode_data: 9 }), 1, 1, PixelFormatEnumDef::ABGR8888);
    assert_eq!(one.len(), 1);
    assert_eq!(one.get(0).keycode_data, 9);
}

#[test]
fn album_entry_names_are_four_digits() {
    assert_eq!(album_entry_name(0), "0000");
    assert_eq!(album_entry_name(7), "0007");
    assert_eq!(album_entry_name(599), "0599");
    assert_eq!(album_entry_name(9999), "9999");
}

#[test]
fn snapshot_copies_both_buffers() {
    let mut fb = FrameBuffer::new(1, 2, 4, PixelFormatEnumDef::ABGR8888);
    assert_eq!(fb.frame_data, vec![0; 8]);
    assert_eq!(fb.processed_data, vec![0; 2]);
    fb.write_buffer(&[100, 0, 0, 0, 0, 100, 0, 0]);
    fb.post_process_data();
    let copy = fb.snapshot();
    assert_eq!(copy.frame_data, fb.frame_data);
    assert_eq!(copy.processed_data, vec![29, 58]);
    assert_eq!((copy.width, copy.height, copy.bpp), (1, 2, 4));
}

#[test]
fn two_byte_frames_are_not_transformed() {
    let mut fb = FrameBuffer::new(2, 1, 2, PixelFormatEnumDef::RGB565);
    fb.processed_data[1] = 7;
    fb.write_buffer(&[10, 20, 30, 40]);
    fb.post_process_data();
    assert_eq!(fb.processed_data, vec![0, 7]);
    assert_eq!(fb.frame_data, vec![10, 20, 30, 40]);
}
