use effect_engine::atlas::{pack, CellImage};
use effect_engine::extent::Extent2D;
use effect_engine::id::TextureID;
use effect_engine::image_data::conform_images;

fn solid(id: &str, w: u32, h: u32, val: u8) -> CellImage {
    CellImage {
        id: TextureID(id.to_string()),
        path: String::new(),
        pixels: vec![val; (4 * w * h) as usize],
        width: w,
        height: h,
    }
}

#[test]
fn three_cells_two_per_row() {
    let images = vec![solid("a", 32, 32, 1), solid("b", 32, 32, 2), solid("c", 32, 32, 3)];
    let layout = pack(&images, Extent2D::new(32, 32), 64, 8192).unwrap();
    assert_eq!(layout.width_count, 2);
    assert_eq!(layout.count, 3);
    assert_eq!(layout.width, 64);
    assert_eq!(layout.height, 64);
    assert_eq!(layout.cell_index(0), [0, 0]);
    assert_eq!(layout.cell_index(1), [1, 0]);
    assert_eq!(layout.cell_index(2), [0, 1]);
    let ts = layout.tex_coord_size();
    assert_eq!(ts.width.num, 32);
    assert_eq!(ts.width.den, 64);
    assert_eq!(ts.height.num, 32);
    assert_eq!(ts.height.den, 64);
    assert_eq!(ts.width.num as f64 / ts.width.den as f64, 0.5);
    // UV offset of the cell at index (1, 0) is (0.5, 0.0).
    let u = (1 * 32) as f64 / layout.width as f64;
    let v = (0 * 32) as f64 / layout.height as f64;
    assert_eq!((u, v), (0.5, 0.0));
}

#[test]
fn composited_pixels_sit_at_their_offsets() {
    let images = vec![solid("a", 32, 32, 1), solid("b", 32, 32, 2), solid("c", 32, 32, 3)];
    let layout = pack(&images, Extent2D::new(32, 32), 64, 8192).unwrap();
    assert_eq!(layout.pixels.len(), 4 * 64 * 64);
    // Cell 0 starts at the top-left corner.
    assert_eq!(layout.pixels[0], 1);
    // Cell 1 starts 32 pixels to the right: byte 4 * 32.
    assert_eq!(layout.pixels[4 * 32], 2);
    // Cell 2 starts 32 rows down: byte 4 * 32 * 64.
    assert_eq!(layout.pixels[4 * 32 * 64], 3);
    // The last byte of cell 1's first row.
    assert_eq!(layout.pixels[4 * 64 - 1], 2);
}

#[test]
fn capacity_boundary() {
    // A 32 x 32 maximum with 16 x 16 cells holds exactly 4 textures.
    let cell = Extent2D::new(16, 16);
    let four: Vec<CellImage> =
        (0..4).map(|i| solid(&format!("t{}", i), 16, 16, i as u8)).collect();
    assert!(pack(&four, cell, 32, 32).is_ok());
    let five: Vec<CellImage> =
        (0..5).map(|i| solid(&format!("t{}", i), 16, 16, i as u8)).collect();
    let err = pack(&five, cell, 32, 32).unwrap_err();
    assert_eq!(err.msg, "Not enough space for textures in atlas");
}

#[test]
fn packing_is_deterministic() {
    let make = || vec![solid("a", 8, 8, 9), solid("b", 8, 8, 7), solid("c", 8, 8, 5)];
    let l1 = pack(&make(), Extent2D::new(8, 8), 16, 64).unwrap();
    let l2 = pack(&make(), Extent2D::new(8, 8), 16, 64).unwrap();
    assert_eq!(l1.width_count, l2.width_count);
    assert_eq!(l1.width, l2.width);
    assert_eq!(l1.height, l2.height);
    for i in 0..3 {
        assert_eq!(l1.cell_index(i), l2.cell_index(i));
    }
    assert_eq!(l1.pixels, l2.pixels);
}

#[test]
fn zero_textures_pack_to_an_empty_atlas() {
    let images: Vec<CellImage> = Vec::new();
    let layout = pack(&images, Extent2D::new(32, 32), 64, 64).unwrap();
    assert_eq!(layout.count, 0);
    assert_eq!(layout.width, 0);
    assert_eq!(layout.height, 0);
    assert!(layout.pixels.is_empty());
}

#[test]
fn one_texture_gets_a_tight_atlas() {
    let images = vec![solid("only", 32, 32, 4)];
    let layout = pack(&images, Extent2D::new(32, 32), 8192, 8192).unwrap();
    assert_eq!(layout.width, 32);
    assert_eq!(layout.height, 32);
    assert_eq!(layout.pixels.len(), 4 * 32 * 32);
    assert!(layout.pixels.iter().all(|&b| b == 4));
}

#[test]
fn oversized_image_is_resampled_to_the_cell() {
    let images = vec![solid("big", 64, 64, 10)];
    let out = conform_images(images, Extent2D::new(32, 32)).unwrap();
    assert_eq!(out.len(), 1);
    assert_eq!(out[0].width, 32);
    assert_eq!(out[0].height, 32);
    assert_eq!(out[0].pixels.len(), 4 * 32 * 32);
    assert_eq!(out[0].id.as_str(), "big");
}

#[test]
fn matching_image_passes_through_untouched() {
    let images = vec![solid("fit", 32, 32, 11)];
    let out = conform_images(images, Extent2D::new(32, 32)).unwrap();
    assert_eq!(out[0].pixels, vec![11u8; 4 * 32 * 32]);
}

#[test]
fn mismatched_pixel_buffer_names_its_position() {
    let good = solid("good", 8, 8, 1);
    let bad = CellImage {
        id: TextureID("bad".to_string()),
        path: String::new(),
        pixels: vec![0u8; 7],
        width: 8,
        height: 8,
    };
    let err = conform_images(vec![good, bad], Extent2D::new(8, 8)).unwrap_err();
    assert_eq!(err.msg, "Texture pixel data does not match its dimensions at index 1");
}
