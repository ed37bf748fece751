use nanoterm::blit::{blit, load_logo, Cell, DecodeError, RasterImage};

fn solid_image(width: u32, height: u32, rgb: (u8, u8, u8)) -> RasterImage {
    let mut pixels = Vec::new();
    for _ in 0..(width * height) {
        pixels.extend_from_slice(&[rgb.0, rgb.1, rgb.2, 255]);
    }
    RasterImage { width, height, pixels }
}

fn cell(grid: &nanoterm::blit::CellGrid, r: u16, c: u16) -> Cell {
    grid.cells[r as usize * grid.cols as usize + c as usize]
}

#[test]
fn wide_image_letterboxes_uniform_bands_top_and_bottom() {
    let img = solid_image(4, 2, (255, 0, 0));
    let grid = blit(&img, 8, 8);
    assert_eq!(grid.rows, 8);
    assert_eq!(grid.cols, 8);
    assert_eq!(grid.cells.len(), 64);
    // scaled height 2 * 8 / 4 = 4, centered: two empty rows above and below
    for r in [0u16, 1, 6, 7] {
        for c in 0..8 {
            assert_eq!(cell(&grid, r, c), Cell::Empty);
        }
    }
    for r in 2u16..6 {
        for c in 0..8 {
            assert_eq!(cell(&grid, r, c), Cell::Rgb(255, 0, 0));
        }
    }
}

#[test]
fn tall_image_letterboxes_left_and_right() {
    let img = solid_image(2, 4, (0, 0, 255));
    let grid = blit(&img, 8, 8);
    // scaled width 2 * 8 / 4 = 4, centered: two empty columns each side
    for c in [0u16, 1, 6, 7] {
        for r in 0..8 {
            assert_eq!(cell(&grid, r, c), Cell::Empty);
        }
    }
    for c in 2u16..6 {
        for r in 0..8 {
            assert_eq!(cell(&grid, r, c), Cell::Rgb(0, 0, 255));
        }
    }
}

#[test]
fn sampling_follows_the_source_pixels() {
    // one row of two pixels: red then blue
    let pixels = vec![255, 0, 0, 255, 0, 0, 255, 255];
    let img = RasterImage { width: 2, height: 1, pixels };
    let grid = blit(&img, 2, 4);
    // wide fit fills the grid: 2 rows by 4 columns, halves by color
    for r in 0..2 {
        for c in 0..2 {
            assert_eq!(cell(&grid, r, c), Cell::Rgb(255, 0, 0));
        }
        for c in 2..4 {
            assert_eq!(cell(&grid, r, c), Cell::Rgb(0, 0, 255));
        }
    }
}

#[test]
fn empty_target_yields_no_cells() {
    let img = solid_image(3, 3, (1, 2, 3));
    let grid = blit(&img, 0, 5);
    assert_eq!(grid.cells.len(), 0);
}

#[test]
fn undecodable_bytes_are_a_decode_error() {
    match load_logo(&[0x13, 0x37, 0x00]) {
        Err(e) => assert_eq!(e, DecodeError),
        Ok(_) => panic!("garbage bytes must not decode"),
    }
    match load_logo(&[]) {
        Err(e) => assert_eq!(e, DecodeError),
        Ok(_) => panic!("empty bytes must not decode"),
    }
}

#[test]
fn encoded_image_round_trips_through_the_decoder() {
    // encode a 3x2 image with the image crate, then decode it here
    let mut buf = image::RgbaImage::new(3, 2);
    for (_, _, p) in buf.enumerate_pixels_mut() {
        *p = image::Rgba([10, 20, 30, 255]);
    }
    let mut bytes = std::io::Cursor::new(Vec::new());
    image::DynamicImage::ImageRgba8(buf)
        .write_to(&mut bytes, image::ImageOutputFormat::Png)
        .expect("encode");
    let img = load_logo(bytes.get_ref()).expect("decode");
    assert_eq!(img.width, 3);
    assert_eq!(img.height, 2);
    assert_eq!(img.pixels.len(), 3 * 2 * 4);
    assert_eq!(&img.pixels[0..4], &[10, 20, 30, 255]);
}
