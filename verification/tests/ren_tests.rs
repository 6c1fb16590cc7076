use cerulean::cren::CRen;
use cerulean::craster::CRaster;

#[test]
fn set_pixel_writes_in_bounds_only() {
    let mut ren = CRen::new(8, 8);
    ren.set_pixel(3, 2, 0x00112233);
    assert_eq!(ren.raster.data[3 + 8 * 2], 0x00112233);
    ren.set_pixel(-1, 0, 0x00FFFFFF);
    ren.set_pixel(0, 8, 0x00FFFFFF);
    assert_eq!(ren.raster.data.iter().filter(|&&p| p != 0).count(), 1);
}

#[test]
fn clear_and_fill() {
    let mut ren = CRen::new(4, 4);
    ren.fill(0x00AA55AA);
    assert!(ren.raster.data.iter().all(|&p| p == 0x00AA55AA));
    ren.clear();
    assert!(ren.raster.data.iter().all(|&p| p == 0));
}

#[test]
fn horizontal_and_vertical_lines() {
    let mut ren = CRen::new(8, 8);
    ren.draw_line(1, 2, 5, 2, 7);
    for x in 1..=5 {
        assert_eq!(ren.raster.data[x + 8 * 2], 7);
    }
    assert_eq!(ren.raster.data[6 + 8 * 2], 0);
    ren.draw_line(6, 1, 6, 4, 9);
    for y in 1..=4 {
        assert_eq!(ren.raster.data[6 + 8 * y], 9);
    }
}

#[test]
fn line_symmetry_gentle() {
    let mut a = CRen::new(16, 16);
    let mut b = CRen::new(16, 16);
    a.draw_line(1, 1, 12, 5, 3);
    b.draw_line(12, 5, 1, 1, 3);
    assert_eq!(a.raster.data, b.raster.data);
}

#[test]
fn line_symmetry_steep_and_diagonal() {
    let mut a = CRen::new(16, 16);
    let mut b = CRen::new(16, 16);
    a.draw_line(2, 1, 5, 13, 3);
    b.draw_line(5, 13, 2, 1, 3);
    assert_eq!(a.raster.data, b.raster.data);

    let mut c = CRen::new(16, 16);
    let mut d = CRen::new(16, 16);
    c.draw_line(1, 1, 9, 9, 4);
    d.draw_line(9, 9, 1, 1, 4);
    assert_eq!(c.raster.data, d.raster.data);
}

#[test]
fn gentle_and_steep_walk_their_major_axis() {
    let mut ren = CRen::new(16, 16);
    ren.draw_gentle_line(0, 0, 7, 3, 5);
    // one pixel per column
    for x in 0..=7usize {
        let hits = (0..16usize).filter(|&y| ren.raster.data[x + 16 * y] == 5).count();
        assert_eq!(hits, 1);
    }
    let mut ren2 = CRen::new(16, 16);
    ren2.draw_steep_line(0, 0, 3, 7, 5);
    for y in 0..=7usize {
        let hits = (0..16usize).filter(|&x| ren2.raster.data[x + 16 * y] == 5).count();
        assert_eq!(hits, 1);
    }
}

#[test]
fn fill_rect_covers_half_open_rows() {
    let mut ren = CRen::new(8, 8);
    ren.fill_rect(1, 1, 4, 3, 6);
    for y in 1..3usize {
        for x in 1..=4usize {
            assert_eq!(ren.raster.data[x + 8 * y], 6);
        }
    }
    assert_eq!(ren.raster.data[1 + 8 * 3], 0);
}

#[test]
fn draw_rect_outlines() {
    let mut ren = CRen::new(8, 8);
    ren.draw_rect(1, 1, 5, 4, 2);
    assert_eq!(ren.raster.data[1 + 8 * 1], 2);
    assert_eq!(ren.raster.data[5 + 8 * 4], 2);
    assert_eq!(ren.raster.data[3 + 8 * 1], 2);
    assert_eq!(ren.raster.data[3 + 8 * 2], 0);
}

#[test]
fn draw_triangle_marks_corners() {
    let mut ren = CRen::new(16, 16);
    ren.draw_triangle(1, 1, 9, 1, 1, 9, 8);
    assert_eq!(ren.raster.data[1 + 16 * 1], 8);
    assert_eq!(ren.raster.data[9 + 16 * 1], 8);
    assert_eq!(ren.raster.data[1 + 16 * 9], 8);
    assert_eq!(ren.raster.data[14 + 16 * 14], 0);
}

#[test]
fn fill_triangle_paints_interior() {
    let mut ren = CRen::new(16, 16);
    ren.fill_triangle(1, 1, 9, 1, 1, 9, 0x00336699);
    assert_eq!(ren.raster.data[2 + 16 * 2], 0x00336699);
    assert_eq!(ren.raster.data[3 + 16 * 4], 0x00336699);
    assert_eq!(ren.raster.data[14 + 16 * 14], 0);
}

#[test]
fn fill_triangle_vertex_order_does_not_matter() {
    let mut a = CRen::new(16, 16);
    let mut b = CRen::new(16, 16);
    a.fill_triangle(1, 1, 9, 2, 4, 11, 5);
    b.fill_triangle(4, 11, 1, 1, 9, 2, 5);
    assert_eq!(a.raster.data, b.raster.data);
}

#[test]
fn color_channels_unpack_and_pack() {
    let mut ren = CRen::new(1, 1);
    assert_eq!(ren.get_alpha(0x11223344), 0x11);
    assert_eq!(ren.get_red(0x11223344), 0x22);
    assert_eq!(ren.get_green(0x11223344), 0x33);
    assert_eq!(ren.get_blue(0x11223344), 0x44);
    assert_eq!(ren.get_color(0x22, 0x33, 0x44), 0x00223344);
}

#[test]
fn scale_color_halves_channels() {
    let mut ren = CRen::new(1, 1);
    assert_eq!(ren.scale_color(0x00808080, 32768), 0x00404040);
    assert_eq!(ren.scale_color(0x00FF0000, 65536), 0x00FF0000);
    assert_eq!(ren.scale_color(0x00112233, 0), 0);
    // a negative factor saturates every channel at zero
    assert_eq!(ren.scale_color(0x00112233, -65536), 0);
}

#[test]
fn shaded_fill_at_unit_intensity_matches_flat_fill() {
    let mut a = CRen::new(16, 16);
    let mut b = CRen::new(16, 16);
    a.fill_triangle(1, 1, 9, 2, 4, 11, 0x00123456);
    b.fill_shaded_triangle(1, 1, 65536, 9, 2, 65536, 4, 11, 65536, 0x00123456);
    assert_eq!(a.raster.data, b.raster.data);
}

#[test]
fn depth_test_keeps_near_triangle_in_either_order() {
    let near_color = 0x00FF0000;
    let far_color = 0x000000FF;
    let near_z = 32768i64;
    let far_z = 16384i64;

    let mut a = CRen::new(8, 8);
    let mut za = vec![-65536i64; 64];
    a.fill_triangle_with_z_buffer(&mut za, 0, 0, near_z, 7, 0, near_z, 0, 7, near_z, near_color);
    a.fill_triangle_with_z_buffer(&mut za, 0, 0, far_z, 7, 0, far_z, 0, 7, far_z, far_color);

    let mut b = CRen::new(8, 8);
    let mut zb = vec![-65536i64; 64];
    b.fill_triangle_with_z_buffer(&mut zb, 0, 0, far_z, 7, 0, far_z, 0, 7, far_z, far_color);
    b.fill_triangle_with_z_buffer(&mut zb, 0, 0, near_z, 7, 0, near_z, 0, 7, near_z, near_color);

    assert_eq!(a.raster.data, b.raster.data);
    assert_eq!(za, zb);
    assert_eq!(a.raster.data[1 + 8 * 1], near_color);
}

#[test]
fn draw_raster_blits_at_offset() {
    let mut ren = CRen::new(8, 8);
    let mut src = CRaster::new(2, 2);
    src.set(0, 0, 1);
    src.set(1, 0, 2);
    src.set(0, 1, 3);
    src.set(1, 1, 4);
    ren.draw_raster(3, 4, &src);
    assert_eq!(ren.raster.data[3 + 8 * 4], 1);
    assert_eq!(ren.raster.data[4 + 8 * 4], 2);
    assert_eq!(ren.raster.data[3 + 8 * 5], 3);
    assert_eq!(ren.raster.data[4 + 8 * 5], 4);
}
