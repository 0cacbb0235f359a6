use speedy_spritesheets::error::SpriteError;
use speedy_spritesheets::pixels::Pixels;

fn numbered(width: u32, height: u32, seed: u8) -> Pixels {
    let len = (width * height * 4) as usize;
    let data: Vec<u8> = (0..len).map(|i| seed.wrapping_add((i * 7) as u8)).collect();
    Pixels::new(width, height, data).unwrap()
}

#[test]
fn new_accepts_exactly_four_bytes_per_pixel() {
    let p = Pixels::new(3, 2, vec![9; 24]).unwrap();
    assert_eq!(p.width(), 3);
    assert_eq!(p.height(), 2);
    assert_eq!(p.as_bytes(), &vec![9u8; 24]);
}

#[test]
fn new_rejects_a_short_buffer() {
    assert_eq!(Pixels::new(3, 2, vec![9; 23]), Err(SpriteError::SizeMismatch));
}

#[test]
fn new_rejects_a_long_buffer() {
    assert_eq!(Pixels::new(3, 2, vec![9; 25]), Err(SpriteError::SizeMismatch));
}

#[test]
fn new_rejects_bytes_for_an_empty_raster() {
    assert_eq!(Pixels::new(0, 7, vec![1, 2, 3, 4]), Err(SpriteError::SizeMismatch));
    assert!(Pixels::new(0, 7, Vec::new()).is_ok());
    assert!(Pixels::new(7, 0, Vec::new()).is_ok());
}

#[test]
fn new_accepts_the_widest_empty_raster() {
    let p = Pixels::new(u32::MAX, 0, Vec::new()).unwrap();
    assert_eq!(p.width(), u32::MAX);
    assert_eq!(p.height(), 0);
}

#[test]
fn blank_is_all_zero() {
    let p = Pixels::blank(5, 4);
    assert_eq!(p.width(), 5);
    assert_eq!(p.height(), 4);
    assert_eq!(p.as_bytes(), &vec![0u8; 80]);
}

#[test]
fn blank_of_no_pixels_is_empty() {
    assert_eq!(Pixels::blank(0, 0).into_bytes(), Vec::<u8>::new());
    assert_eq!(Pixels::blank(0, 9).into_bytes(), Vec::<u8>::new());
}

#[test]
fn get_reads_row_major_rgba() {
    let data: Vec<u8> = (0..24).collect();
    let p = Pixels::new(3, 2, data).unwrap();
    assert_eq!(p.get(0, 0, 0), Some(0));
    assert_eq!(p.get(0, 0, 3), Some(3));
    assert_eq!(p.get(2, 0, 1), Some(9));
    assert_eq!(p.get(0, 1, 0), Some(12));
    assert_eq!(p.get(2, 1, 3), Some(23));
}

#[test]
fn get_is_none_outside_the_raster() {
    let p = Pixels::new(3, 2, vec![1; 24]).unwrap();
    assert_eq!(p.get(3, 0, 0), None);
    assert_eq!(p.get(0, 2, 0), None);
    assert_eq!(p.get(0, 0, 4), None);
    assert_eq!(p.get(u32::MAX, u32::MAX, 255), None);
}

#[test]
fn into_bytes_gives_the_buffer_back() {
    let data: Vec<u8> = (0..16).collect();
    assert_eq!(Pixels::new(2, 2, data.clone()).unwrap().into_bytes(), data);
}

#[test]
fn clone_is_equal_and_independent() {
    let a = numbered(3, 3, 11);
    let mut b = a.clone();
    assert_eq!(a, b);
    b.blit(&Pixels::blank(1, 1), 0, 0);
    assert_ne!(a, b);
    assert_eq!(a, numbered(3, 3, 11));
}

#[test]
fn blit_copies_into_the_rectangle_and_nowhere_else() {
    let mut target = numbered(4, 3, 100);
    let before = target.clone();
    let src = numbered(2, 2, 1);
    target.blit(&src, 1, 1);
    for y in 0..3u32 {
        for x in 0..4u32 {
            for c in 0..4u8 {
                let inside = (1..3).contains(&x) && (1..3).contains(&y);
                let expected = if inside { src.get(x - 1, y - 1, c) } else { before.get(x, y, c) };
                assert_eq!(target.get(x, y, c), expected, "at ({x}, {y}, {c})");
            }
        }
    }
}

#[test]
fn blit_of_the_whole_raster_replaces_it() {
    let mut target = numbered(3, 2, 50);
    let src = numbered(3, 2, 7);
    target.blit(&src, 0, 0);
    assert_eq!(target, src);
}

#[test]
fn blit_into_the_bottom_right_corner() {
    let mut target = Pixels::blank(3, 3);
    let src = Pixels::new(1, 1, vec![10, 20, 30, 40]).unwrap();
    target.blit(&src, 2, 2);
    let mut expected = vec![0u8; 36];
    expected[32..36].copy_from_slice(&[10, 20, 30, 40]);
    assert_eq!(target.into_bytes(), expected);
}

#[test]
fn blit_of_an_empty_raster_changes_nothing() {
    let mut target = numbered(3, 3, 5);
    target.blit(&Pixels::blank(0, 0), 3, 3);
    target.blit(&Pixels::blank(0, 2), 1, 1);
    target.blit(&Pixels::blank(2, 0), 1, 3);
    assert_eq!(target, numbered(3, 3, 5));
}

#[test]
fn blit_agrees_with_the_image_crate() {
    let mut target = numbered(7, 5, 3);
    let src = numbered(4, 2, 200);
    let mut theirs =
        image::RgbaImage::from_raw(7, 5, target.as_bytes().clone()).unwrap();
    let their_src = image::RgbaImage::from_raw(4, 2, src.as_bytes().clone()).unwrap();
    image::GenericImage::copy_from(&mut theirs, &their_src, 3, 2).unwrap();
    target.blit(&src, 3, 2);
    assert_eq!(target.into_bytes(), theirs.into_raw());
}
