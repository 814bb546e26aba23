use qr_clipboard_preview::bitmap::{load_bmp_image, DecodeError, Pixel};
use qr_code::bmp_monochrome::Bmp;

fn bitmap(rows: Vec<Vec<bool>>) -> Bmp {
    Bmp::new(rows).unwrap()
}

#[test]
fn single_module_keeps_its_colour() {
    let lit = load_bmp_image(&bitmap(vec![vec![true]])).unwrap();
    assert_eq!(lit.width(), 1);
    assert_eq!(lit.height(), 1);
    assert_eq!(lit.get(0, 0), Some(Pixel::White));

    let dark = load_bmp_image(&bitmap(vec![vec![false]])).unwrap();
    assert_eq!(dark.get(0, 0), Some(Pixel::Black));
}

#[test]
fn two_by_two_is_read_at_x_and_height_minus_one_minus_y() {
    let bmp = bitmap(vec![vec![true, false], vec![false, false]]);
    let picture = load_bmp_image(&bmp).unwrap();
    assert_eq!(picture.width(), 2);
    assert_eq!(picture.height(), 2);
    // The only set module is (0, 0); it is shown at x = 0, y = 1.
    assert_eq!(picture.get(0, 0), Some(Pixel::Black));
    assert_eq!(picture.get(1, 0), Some(Pixel::Black));
    assert_eq!(picture.get(0, 1), Some(Pixel::White));
    assert_eq!(picture.get(1, 1), Some(Pixel::Black));
}

#[test]
fn three_by_three_exact_picture() {
    let bmp = bitmap(vec![
        vec![true, false, false],
        vec![false, false, true],
        vec![false, true, true],
    ]);
    let picture = load_bmp_image(&bmp).unwrap();
    let b = Some(Pixel::Black);
    let w = Some(Pixel::White);
    let expected = [[b, w, w], [b, b, w], [w, b, b]];
    let mut y: usize = 0;
    while y < 3 {
        let mut x: usize = 0;
        while x < 3 {
            assert_eq!(picture.get(x, y), expected[y][x], "pixel ({x}, {y})");
            x += 1;
        }
        y += 1;
    }
}

#[test]
fn every_pixel_follows_the_accessor_of_the_bitmap() {
    let bmp = bitmap(vec![
        vec![true, true, false, true],
        vec![false, true, false, false],
        vec![true, false, false, true],
        vec![false, false, true, true],
    ]);
    let picture = load_bmp_image(&bmp).unwrap();
    assert_eq!(picture.width(), usize::from(bmp.width()));
    assert_eq!(picture.height(), usize::from(bmp.height()));
    let side: u16 = bmp.height();
    let mut y: u16 = 0;
    while y < side {
        let mut x: u16 = 0;
        while x < side {
            let white = picture.get(usize::from(x), usize::from(y)) == Some(Pixel::White);
            assert_eq!(white, bmp.get(x, side - 1 - y), "pixel ({x}, {y})");
            x += 1;
        }
        y += 1;
    }
}

#[test]
fn pixels_outside_the_picture_are_absent() {
    let picture = load_bmp_image(&bitmap(vec![vec![true, false], vec![false, true]])).unwrap();
    assert_eq!(picture.get(2, 0), None);
    assert_eq!(picture.get(0, 2), None);
    assert_eq!(picture.get(2, 2), None);
    assert_eq!(picture.get(usize::MAX, usize::MAX), None);
    assert_eq!(picture.get(1, 0), Some(Pixel::White));
    assert_eq!(picture.get(1, 1), Some(Pixel::Black));
}

#[test]
fn wide_bitmap_is_refused() {
    let bmp = bitmap(vec![vec![true, false]]);
    assert_eq!(load_bmp_image(&bmp), Err(DecodeError::NotSquare));
}

#[test]
fn tall_bitmap_is_refused() {
    let bmp = bitmap(vec![vec![true], vec![false], vec![true]]);
    assert_eq!(load_bmp_image(&bmp), Err(DecodeError::NotSquare));
}

#[test]
fn decoding_twice_gives_the_same_picture() {
    let bmp = bitmap(vec![vec![true, false], vec![true, true]]);
    assert_eq!(load_bmp_image(&bmp), load_bmp_image(&bmp));
}
