use rav1e::activity::{variance_8x8, ActivityMask};
use rav1e::frame::Plane;

#[test]
fn variance_of_constant_block_is_zero() {
  let data = vec![100u8; 8 * 8];
  assert_eq!(variance_8x8(&data, 0, 8), 0);
}

#[test]
fn variance_of_alternating_block() {
  let data: Vec<u16> = (0..64).map(|i| if i % 2 == 0 { 0 } else { 2 }).collect();
  assert_eq!(variance_8x8(&data, 0, 8), 64);
}

#[test]
fn activity_mask_covers_padded_plane() {
  let mut plane: Plane<u8> = Plane::new(12, 9, 0, 0, 8, 8);
  let stride = plane.cfg.stride;
  let (xo, yo) = (plane.cfg.xorigin, plane.cfg.yorigin);
  for y in 0..16 {
    for x in 0..16 {
      plane.data[(yo + y) * stride + xo + x] = if x >= 8 && y < 8 { 4 * (x % 2) as u8 } else { 7 };
    }
  }
  let mask = ActivityMask::from_plane(&plane);
  assert_eq!(mask.width, 12);
  assert_eq!(mask.height, 9);
  assert_eq!(mask.variances, vec![0, 256, 0, 0]);
}
