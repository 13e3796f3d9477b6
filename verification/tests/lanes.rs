use wide_vec2::lanes::{Vec2x16, Vec2x2, Vec2x4, Vec2x8};
use wide_vec2::vec2::Vec2;

#[test]
fn from_vecs_puts_vector_i_in_lane_i() {
    let vecs = [
        Vec2::new(1.0f32, 2.0),
        Vec2::new(3.0, 4.0),
        Vec2::new(5.0, 6.0),
        Vec2::new(7.0, 8.0),
    ];
    let w: Vec2x4<f32> = Vec2::from_vecs(vecs);
    assert_eq!(w.x, [1.0, 3.0, 5.0, 7.0]);
    assert_eq!(w.y, [2.0, 4.0, 6.0, 8.0]);
}

#[test]
fn to_vecs_reads_lane_i_into_element_i() {
    let w: Vec2x2<f64> = Vec2::new([0.5, -0.5], [1.5, -1.5]);
    let vecs = w.to_vecs();
    assert_eq!((vecs[0].x, vecs[0].y), (0.5, 1.5));
    assert_eq!((vecs[1].x, vecs[1].y), (-0.5, -1.5));
}

#[test]
fn unpack_after_pack_is_identity_eight_lanes() {
    let mut vecs = [Vec2::new(0i32, 0i32); 8];
    for i in 0..8 {
        vecs[i] = Vec2::new(i as i32, 100 - i as i32);
    }
    let w: Vec2x8<i32> = Vec2::from_vecs(vecs);
    let back = w.to_vecs();
    for i in 0..8 {
        assert_eq!((back[i].x, back[i].y), (vecs[i].x, vecs[i].y));
    }
}

#[test]
fn pack_after_unpack_is_identity_sixteen_lanes() {
    let mut xs = [0u32; 16];
    let mut ys = [0u32; 16];
    for i in 0..16 {
        xs[i] = (i * 3) as u32;
        ys[i] = (i * i) as u32;
    }
    let w: Vec2x16<u32> = Vec2::new(xs, ys);
    let again: Vec2x16<u32> = Vec2::from_vecs(w.to_vecs());
    assert_eq!(again.x, xs);
    assert_eq!(again.y, ys);
}

#[test]
fn splat_fills_every_lane() {
    let w: Vec2x8<f32> = Vec2::splat(Vec2::new(2.0, -3.0));
    assert_eq!(w.x, [2.0; 8]);
    assert_eq!(w.y, [-3.0; 8]);
    for v in w.to_vecs().iter() {
        assert_eq!((v.x, v.y), (2.0, -3.0));
    }
}

#[test]
fn new_splat_fills_every_lane() {
    let w: Vec2x4<f64> = Vec2::new_splat(1.25, 4.5);
    assert_eq!(w.x, [1.25; 4]);
    assert_eq!(w.y, [4.5; 4]);
}

#[test]
fn splat_equals_packing_copies() {
    let v = Vec2::new(6u16, 7u16);
    let packed: Vec2x2<u16> = Vec2::from_vecs([v, v]);
    let splatted: Vec2x2<u16> = Vec2::splat(v);
    assert_eq!(packed.x, splatted.x);
    assert_eq!(packed.y, splatted.y);
}
