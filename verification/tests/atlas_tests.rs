use textware::atlas::{ATLAS_SIZE, AtlasPacker, PADDING};

fn overlaps(a: (u32, u32, u32, u32), b: (u32, u32, u32, u32)) -> bool {
    // reserved regions include trailing padding
    !(a.0 + a.2 + PADDING <= b.0
        || b.0 + b.2 + PADDING <= a.0
        || a.1 + a.3 + PADDING <= b.1
        || b.1 + b.3 + PADDING <= a.1)
}

#[test]
fn first_placement_origin_and_uv() {
    let mut p = AtlasPacker::new();
    let (x, y) = p.place(10, 10).expect("empty atlas must take a 10x10 bitmap");
    assert_eq!((x, y), (1, 1));
    let u = x as f32 / ATLAS_SIZE as f32;
    let v = y as f32 / ATLAS_SIZE as f32;
    let uw = 10.0f32 / ATLAS_SIZE as f32;
    let vh = 10.0f32 / ATLAS_SIZE as f32;
    assert_eq!(u, 1.0 / 2048.0);
    assert_eq!(v, 1.0 / 2048.0);
    assert_eq!(uw, 10.0 / 2048.0);
    assert_eq!(vh, 10.0 / 2048.0);
}

#[test]
fn placement_bounds_hold() {
    let mut p = AtlasPacker::new();
    let sizes = [(10u32, 10u32), (100, 30), (1, 1), (2000, 5), (0, 0), (300, 300)];
    for &(w, h) in sizes.iter() {
        if let Some((x, y)) = p.place(w, h) {
            assert!(x >= PADDING);
            assert!(y >= PADDING);
            assert!(x + w + PADDING <= ATLAS_SIZE);
            assert!(y + h + PADDING <= ATLAS_SIZE);
        }
    }
}

#[test]
fn placements_do_not_overlap() {
    let mut p = AtlasPacker::new();
    let mut placed: Vec<(u32, u32, u32, u32)> = Vec::new();
    for i in 0..300u32 {
        let w = 5 + (i * 7) % 90;
        let h = 5 + (i * 13) % 40;
        if let Some((x, y)) = p.place(w, h) {
            placed.push((x, y, w, h));
        }
    }
    assert!(placed.len() > 2);
    for i in 0..placed.len() {
        for j in (i + 1)..placed.len() {
            assert!(!overlaps(placed[i], placed[j]), "{:?} vs {:?}", placed[i], placed[j]);
        }
    }
}

#[test]
fn row_wrap_y_origin() {
    let mut p = AtlasPacker::new();
    let (x0, y0) = p.place(10, 10).unwrap();
    assert_eq!((x0, y0), (1, 1));
    // fill the rest of the first row with same-height bitmaps
    let mut last_y = y0;
    loop {
        let (_, y) = p.place(10, 10).unwrap();
        if y != last_y {
            // first placement after the wrap
            assert_eq!(y, 10 + 2 * PADDING);
            break;
        }
        last_y = y;
    }
}

#[test]
fn exhaustion_is_final_for_height() {
    let mut p = AtlasPacker::new();
    assert!(p.place(10, 3000).is_none());
    assert!(p.place(10, 3000).is_none());
}

#[test]
fn exhaustion_is_final_for_width() {
    let mut p = AtlasPacker::new();
    assert!(p.place(3000, 10).is_none());
    assert!(p.place(3000, 10).is_none());
}

#[test]
fn exhaustion_is_final_after_filling() {
    let mut p = AtlasPacker::new();
    assert!(p.place(2046, 2046).is_some());
    assert!(p.place(2046, 2046).is_none());
    assert!(p.place(2046, 2046).is_none());
    // smaller requests may no longer fit either, and stay refused
    assert!(p.place(10, 2000).is_none());
    assert!(p.place(10, 2000).is_none());
}
