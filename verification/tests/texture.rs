use image::png::PNGEncoder;
use image::ColorType;
use pathfinder_hal::memory::{Extent, StagingCopy};
use pathfinder_hal::primitives::Point2DI32;
use pathfinder_hal::texture::{load_luminance_texture_layout, luminance_texture_layout};

fn png_bytes(width: u32, height: u32) -> Vec<u8> {
    let texels: Vec<u8> = (0..width * height).map(|i| (i * 17) as u8).collect();
    let mut bytes = Vec::new();
    PNGEncoder::new(&mut bytes).encode(&texels, width, height, ColorType::Gray(8)).unwrap();
    bytes
}

#[test]
fn luminance_layout_of_a_decoded_size() {
    let (size, copy) = luminance_texture_layout(4, 5);
    assert_eq!(size, Point2DI32::new(4, 5));
    assert_eq!(
        copy,
        StagingCopy {
            staging_buffer_size: 20,
            buffer_width: 4,
            buffer_height: 5,
            image_extent: Extent { width: 4, height: 5, depth: 1 },
        }
    );
}

#[test]
fn png_file_gives_its_image_size() {
    let layout = load_luminance_texture_layout(&png_bytes(3, 2));
    assert_eq!(
        layout,
        Some((
            Point2DI32::new(3, 2),
            StagingCopy {
                staging_buffer_size: 6,
                buffer_width: 3,
                buffer_height: 2,
                image_extent: Extent { width: 3, height: 2, depth: 1 },
            }
        ))
    );
}

#[test]
fn bytes_that_are_not_png_give_none() {
    assert_eq!(load_luminance_texture_layout(&vec![1, 2, 3, 4, 5, 6, 7, 8]), None);
    assert_eq!(load_luminance_texture_layout(&vec![]), None);
}
