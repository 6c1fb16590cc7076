use cerulean::ccamera;
use cerulean::cmatrix::SinCos;
use cerulean::cmodel_instance;
use cerulean::cren::CRen;

const ONE: i64 = 65536;

fn fx(x: f64) -> i64 {
    (x * 65536.0).round() as i64
}

#[test]
fn cube_in_front_of_camera_shows_its_facing_side() {
    let cube = cmodel_instance::new_cube(0, 0, 10 * ONE);
    let camera = ccamera::new();
    let mut ren = CRen::new(160, 120);
    let mut z_buffer = vec![0i64; 160 * 120];
    let scene = vec![cube];

    ren.render_scene(&camera, &scene, &mut z_buffer);

    // the face turned toward the camera is the blue one; the depth test must
    // keep it in front of the red face behind it
    assert_eq!(ren.raster.data[80 + 160 * 60], 0x000000FF);
    // well off the cube's silhouette nothing is drawn
    assert_eq!(ren.raster.data[5 + 160 * 5], 0);
    // the depth buffer recorded something nearer than the sentinel there
    assert!(z_buffer[80 + 160 * 60] > -ONE);
    assert_eq!(z_buffer[5 + 160 * 5], -ONE);
}

#[test]
fn rotating_an_instance_changes_pixels_not_connectivity() {
    let cube = cmodel_instance::new_cube(0, 0, 10 * ONE);
    let camera = ccamera::new();
    let mut ren = CRen::new(160, 120);
    let mut z_buffer = vec![0i64; 160 * 120];
    let mut scene = vec![cube];

    let triangles_before: Vec<(usize, usize, usize, u32)> = scene[0]
        .model
        .triangles
        .iter()
        .map(|t| (t.i0, t.i1, t.i2, t.color))
        .collect();

    ren.render_scene(&camera, &scene, &mut z_buffer);
    let frame1 = ren.raster.data.clone();

    let a = (0.3f64, 0.2f64, 0.1f64);
    scene[0].transform.rot = (
        SinCos { s: fx(a.0.sin()), c: fx(a.0.cos()) },
        SinCos { s: fx(a.1.sin()), c: fx(a.1.cos()) },
        SinCos { s: fx(a.2.sin()), c: fx(a.2.cos()) },
    );
    ren.clear();
    ren.render_scene(&camera, &scene, &mut z_buffer);
    let frame2 = ren.raster.data.clone();

    let triangles_after: Vec<(usize, usize, usize, u32)> = scene[0]
        .model
        .triangles
        .iter()
        .map(|t| (t.i0, t.i1, t.i2, t.color))
        .collect();

    assert_eq!(triangles_before, triangles_after);
    assert_eq!(triangles_after.len(), 12);
    assert_ne!(frame1, frame2);
    assert!(frame2.iter().any(|&p| p != 0));
}

#[test]
fn tilted_cube_shows_more_than_one_face() {
    let mut cube = cmodel_instance::new_cube(0, 0, 10 * ONE);
    let a = (0.5f64, 0.6f64, 0.0f64);
    cube.transform.rot = (
        SinCos { s: fx(a.0.sin()), c: fx(a.0.cos()) },
        SinCos { s: fx(a.1.sin()), c: fx(a.1.cos()) },
        SinCos { s: fx(a.2.sin()), c: fx(a.2.cos()) },
    );
    let camera = ccamera::new();
    let mut ren = CRen::new(160, 120);
    let mut z_buffer = vec![0i64; 160 * 120];
    let scene = vec![cube];

    ren.render_scene(&camera, &scene, &mut z_buffer);

    let mut colors: Vec<u32> = ren.raster.data.iter().copied().filter(|&p| p != 0).collect();
    colors.sort();
    colors.dedup();
    assert!(colors.len() >= 2, "expected several visible faces, saw {:?}", colors);
    // every drawn pixel carries one of the cube's six face colors
    for c in colors {
        assert!(
            c == 0x00ff0000 || c == 0x0000ff00 || c == 0x000000ff
                || c == 0x00ffff00 || c == 0x00a020f0 || c == 0x0000ffff
        );
    }
}
