use pharosa::utils::to_hex_color;
use pharosa::Film;

#[test]
fn new_with_color_fills_every_pixel() {
    let film = Film::new_with_color(4, 3, 7u8);
    assert_eq!(film.width(), 4);
    assert_eq!(film.height(), 3);
    assert_eq!(film.size(), 12);
    assert!(film.to_raw().iter().all(|&p| p == 7));
}

#[test]
fn empty_film_has_no_pixels() {
    let film = Film::new_with_color(0, 5, 1u32);
    assert_eq!(film.size(), 0);
    assert_eq!(film.width(), 0);
    assert_eq!(film.height(), 5);
}

#[test]
fn pixels_are_row_major() {
    let mut film = Film::new_with_color(4, 3, 0u32);
    *film.at_mut(1, 2) = 9;
    assert_eq!(film.to_raw()[1 + 2 * 4], 9);
    assert_eq!(*film.at(1, 2), 9);
    assert_eq!(film.to_raw().iter().filter(|&&p| p == 9).count(), 1);
    assert_eq!(*film.at(2, 1), 0);
}

#[test]
fn last_pixel_is_reachable() {
    let mut film = Film::new_with_color(5, 4, 0u32);
    *film.at_mut(4, 3) = 3;
    assert_eq!(film.to_raw()[19], 3);
}

#[test]
fn hex_color_packs_channels() {
    assert_eq!(to_hex_color([0x12, 0x34, 0x56]), 0x123456);
    assert_eq!(to_hex_color([255, 255, 255]), 0xFFFFFF);
    assert_eq!(to_hex_color([0, 0, 0]), 0);
    assert_eq!(to_hex_color([1, 0, 0]), 0x010000);
}

#[test]
fn raster_bytes_follow_pixels() {
    let mut film = Film::new_with_color(2, 2, [0u8, 0, 0]);
    *film.at_mut(1, 0) = [10, 20, 30];
    *film.at_mut(0, 1) = [40, 50, 60];
    assert_eq!(
        film.to_rgb_bytes(),
        vec![0, 0, 0, 10, 20, 30, 40, 50, 60, 0, 0, 0]
    );
}

#[test]
fn hex_colors_follow_pixels() {
    let mut film = Film::new_with_color(3, 1, [0u8, 0, 0]);
    *film.at_mut(2, 0) = [0xAB, 0xCD, 0xEF];
    assert_eq!(film.to_hex_colors(), vec![0, 0, 0xABCDEF]);
}

#[test]
fn new_film_is_default_filled() {
    let film: Film<u32> = Film::new(3, 2);
    assert_eq!(film.size(), 6);
    assert!(film.to_raw().iter().all(|&p| p == 0));
}
