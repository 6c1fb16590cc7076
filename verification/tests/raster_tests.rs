use cerulean::craster::CRaster;
use cerulean::window::{Window, new};

#[test]
fn raster_new_is_black() {
    let r = CRaster::new(4, 3);
    assert_eq!(r.width, 4);
    assert_eq!(r.height, 3);
    assert_eq!(r.data.len(), 12);
    assert!(r.data.iter().all(|&p| p == 0));
}

#[test]
fn raster_set_get_round_trip() {
    let mut r = CRaster::new(4, 3);
    r.set(2, 1, 0x00ABCDEF);
    assert_eq!(r.get(2, 1), 0x00ABCDEF);
    assert_eq!(r.data[2 + 4 * 1], 0x00ABCDEF);
}

#[test]
fn raster_out_of_range_is_silent() {
    let mut r = CRaster::new(4, 3);
    r.set(10, 10, 0x00FFFFFF);
    assert!(r.data.iter().all(|&p| p == 0));
    assert_eq!(r.get(4, 0), 0);
    assert_eq!(r.get(0, 3), 0);
}

#[test]
fn window_new_sizes_pixel_buffer() {
    let w = Window::new_window(6, 5);
    assert_eq!(w.width, 6);
    assert_eq!(w.height, 5);
    assert_eq!(w.pixels.len(), 30);
    let v = new(3, 2);
    assert_eq!(v.pixels.len(), 6);
}
