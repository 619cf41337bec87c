use vulkanapp::frame::{FrameCursor, IN_FLIGHT_FRAMES};
use vulkanapp::texture::{texture_upload, PixelLayout, PixelSource, TextureError, TextureUpload};
use vulkanapp::world::{Block, Chunk, CHUNK_HEIGHT, CHUNK_WIDTH};

#[test]
fn narrow_layouts_are_converted_to_rgba() {
    assert_eq!(
        texture_upload(PixelLayout::Luma8, 4, 3),
        Ok(TextureUpload { pixels: PixelSource::ConvertToRgba8, byte_size: 48 })
    );
    assert_eq!(
        texture_upload(PixelLayout::Rgb8, 256, 256),
        Ok(TextureUpload { pixels: PixelSource::ConvertToRgba8, byte_size: 262144 })
    );
}

#[test]
fn layouts_with_alpha_are_taken_as_stored() {
    assert_eq!(
        texture_upload(PixelLayout::Rgba8, 1, 1),
        Ok(TextureUpload { pixels: PixelSource::StoredBytes, byte_size: 4 })
    );
    assert_eq!(
        texture_upload(PixelLayout::LumaA8, 10, 10),
        Ok(TextureUpload { pixels: PixelSource::StoredBytes, byte_size: 400 })
    );
}

#[test]
fn texture_size_must_fit_in_u32() {
    assert_eq!(
        texture_upload(PixelLayout::Rgba8, 32768, 32768),
        Err(TextureError::SizeOverflow)
    );
    assert_eq!(
        texture_upload(PixelLayout::Rgba8, u32::MAX, u32::MAX),
        Err(TextureError::SizeOverflow)
    );
    assert_eq!(texture_upload(PixelLayout::Other, 65536, 65536), Err(TextureError::SizeOverflow));
    assert_eq!(
        texture_upload(PixelLayout::Rgba8, 32768, 32767),
        Ok(TextureUpload { pixels: PixelSource::StoredBytes, byte_size: 4294836224 })
    );
    assert_eq!(
        texture_upload(PixelLayout::Rgba8, 0x3fff_ffff, 1),
        Ok(TextureUpload { pixels: PixelSource::StoredBytes, byte_size: 0xffff_fffc })
    );
    assert_eq!(texture_upload(PixelLayout::Rgba8, 0x4000_0000, 1), Err(TextureError::SizeOverflow));
}

#[test]
fn other_layouts_are_unsupported() {
    assert_eq!(texture_upload(PixelLayout::Other, 4, 4), Err(TextureError::UnsupportedLayout));
    assert_eq!(texture_upload(PixelLayout::Other, 0, 4), Err(TextureError::UnsupportedLayout));
}

#[test]
fn an_image_without_pixels_is_rejected() {
    assert_eq!(texture_upload(PixelLayout::Rgba8, 0, 4), Err(TextureError::Empty));
    assert_eq!(texture_upload(PixelLayout::Luma8, 4, 0), Err(TextureError::Empty));
    assert_eq!(texture_upload(PixelLayout::Rgb8, 0, 0), Err(TextureError::Empty));
}

#[test]
fn cursor_needs_a_command_buffer() {
    assert_eq!(FrameCursor::new(0), None);
    let cursor = FrameCursor::new(3).unwrap();
    assert_eq!(cursor.cur_frame(), 0);
    assert_eq!(cursor.in_flight_frame(), 0);
}

#[test]
fn cursor_walks_both_rings() {
    assert_eq!(IN_FLIGHT_FRAMES, 2);
    let mut cursor = FrameCursor::new(3).unwrap();
    let mut seen = Vec::new();
    for _ in 0..7 {
        seen.push((cursor.cur_frame(), cursor.in_flight_frame()));
        cursor.advance();
    }
    assert_eq!(seen, vec![(0, 0), (1, 1), (2, 0), (0, 1), (1, 0), (2, 1), (0, 0)]);
}

#[test]
fn cursor_returns_after_a_full_round() {
    let start = FrameCursor::new(5).unwrap();
    let mut cursor = start;
    for _ in 0..5 {
        cursor.advance();
    }
    assert_eq!(cursor.cur_frame(), start.cur_frame());
    let mut single = FrameCursor::new(1).unwrap();
    single.advance();
    assert_eq!((single.cur_frame(), single.in_flight_frame()), (0, 1));
}

#[test]
fn chunk_holds_a_flat_list_of_blocks() {
    let chunk = Chunk {
        blocks: vec![Block {}; CHUNK_WIDTH * CHUNK_HEIGHT * CHUNK_WIDTH],
        position: (-3, 7),
    };
    assert_eq!(chunk.blocks.len(), 65536);
    assert_eq!(chunk.position, (-3, 7));
}
