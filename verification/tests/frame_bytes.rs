use sdl_wrapper::ScreenContextManager;
use std::io::Cursor;

fn patterned(width: u32, height: u32) -> ScreenContextManager {
    let mut s = ScreenContextManager::new(width, height).unwrap();
    for y in 0..height {
        for x in 0..width {
            s.set_color(
                ((x * 7 + y * 3) % 256) as i64,
                ((x * 5 + y * 11 + 1) % 256) as i64,
                ((x * 13 + y * 17 + 2) % 256) as i64,
            );
            s.plot_pixel(x, y).unwrap();
        }
    }
    s
}

#[test]
fn bytes_are_rgb_triples_in_row_major_order() {
    let mut s = ScreenContextManager::new(3, 2).unwrap();
    s.set_color(1, 2, 3);
    s.plot_pixel(0, 0).unwrap();
    s.set_color(4, 5, 6);
    s.plot_pixel(2, 0).unwrap();
    s.set_color(7, 8, 9);
    s.plot_pixel(1, 1).unwrap();
    let want: [u8; 18] = [1, 2, 3, 0, 0, 0, 4, 5, 6, 0, 0, 0, 7, 8, 9, 0, 0, 0];
    assert_eq!(s.as_bytes(), &want[..]);
}

#[test]
fn bytes_are_not_the_cells_handed_back() {
    let mut s = ScreenContextManager::new(2, 2).unwrap();
    s.clear_with_rgb(10, 20, 30);
    let bytes = s.as_bytes();
    assert_eq!(bytes.len(), 12);
    assert_eq!(bytes[0], 10);
    assert_eq!(bytes[1], 20);
    assert_eq!(bytes[2], 30);
    assert_eq!(bytes[9], 10);
    assert_eq!(bytes[11], 30);
}

#[test]
fn pitch_is_three_bytes_per_column() {
    assert_eq!(ScreenContextManager::new(4, 4).unwrap().pitch(), 12);
    assert_eq!(ScreenContextManager::new(1000, 1).unwrap().pitch(), 3000);
    assert_eq!(ScreenContextManager::new(0, 9).unwrap().pitch(), 0);
}

#[test]
fn frame_has_height_rows_of_pitch_bytes() {
    let s = patterned(7, 5);
    assert_eq!(s.as_bytes().len(), s.pitch() * 5);
    assert_eq!(ScreenContextManager::new(0, 0).unwrap().as_bytes().len(), 0);
    assert_eq!(ScreenContextManager::new(9, 0).unwrap().as_bytes().len(), 0);
}

#[test]
fn channel_sits_at_row_times_pitch_plus_three_times_column() {
    let s = patterned(7, 5);
    let bytes = s.as_bytes();
    let pitch = s.pitch();
    for y in 0..5u32 {
        for x in 0..7u32 {
            let p = s.pixel(x, y).unwrap();
            let at = y as usize * pitch + 3 * x as usize;
            assert_eq!(bytes[at], p.r);
            assert_eq!(bytes[at + 1], p.g);
            assert_eq!(bytes[at + 2], p.b);
        }
    }
    assert_eq!(bytes[2 * pitch + 3 * 4], ((4 * 7 + 2 * 3) % 256) as u8);
}

#[test]
fn frame_survives_a_png_round_trip() {
    let s = patterned(16, 9);
    let mut file = Cursor::new(Vec::new());
    image::write_buffer_with_format(
        &mut file,
        s.as_bytes(),
        s.get_width(),
        s.get_height(),
        image::ColorType::Rgb8,
        image::ImageOutputFormat::Png,
    )
    .unwrap();
    let loaded = image::load_from_memory(file.get_ref()).unwrap().to_rgb8();
    assert_eq!(loaded.width(), 16);
    assert_eq!(loaded.height(), 9);
    assert_eq!(loaded.as_raw().as_slice(), s.as_bytes());
    for y in 0..9u32 {
        for x in 0..16u32 {
            let p = s.pixel(x, y).unwrap();
            assert_eq!(loaded.get_pixel(x, y).0, [p.r, p.g, p.b]);
        }
    }
}

#[test]
fn frame_survives_a_bmp_round_trip() {
    let s = patterned(5, 4);
    let mut file = Cursor::new(Vec::new());
    image::write_buffer_with_format(
        &mut file,
        s.as_bytes(),
        s.get_width(),
        s.get_height(),
        image::ColorType::Rgb8,
        image::ImageOutputFormat::Bmp,
    )
    .unwrap();
    let loaded = image::load_from_memory(file.get_ref()).unwrap().to_rgb8();
    assert_eq!(loaded.as_raw().as_slice(), s.as_bytes());
}
