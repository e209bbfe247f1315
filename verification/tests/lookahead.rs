use rav1e::api::lookahead::{
  importance_block_difference, importance_propagation_targets,
  IMP_BLOCK_AREA_IN_MV_UNITS,
};
use rav1e::frame::Plane;

fn plane_with(f: impl Fn(usize, usize) -> u16) -> Plane<u16> {
  let mut p: Plane<u16> = Plane::new(16, 16, 0, 0, 0, 0);
  let stride = p.cfg.stride;
  let (xo, yo) = (p.cfg.xorigin, p.cfg.yorigin);
  for y in 0..16 {
    for x in 0..16 {
      p.data[(yo + y) * stride + xo + x] = f(x, y);
    }
  }
  p
}

#[test]
fn block_difference_of_shifted_brightness() {
  let org = plane_with(|_, _| 100);
  let rf = plane_with(|_, _| 90);
  assert_eq!(importance_block_difference(&org, &rf, 2, 2), 40);
  assert_eq!(importance_block_difference(&rf, &org, 2, 2), 40);
}

#[test]
fn block_difference_rounds_means() {
  // One block moves by a mean of 1.5 (rounded to 2 against 0), the others
  // do not move.
  let org = plane_with(|x, y| if x < 8 && y < 8 { if (x + y) % 2 == 0 { 1 } else { 2 } } else { 7 });
  let rf = plane_with(|x, y| if x < 8 && y < 8 { 0 } else { 7 });
  assert_eq!(importance_block_difference(&org, &rf, 2, 2), 2);
  assert_eq!(importance_block_difference(&org, &org, 2, 2), 0);
}

#[test]
fn propagation_of_an_aligned_match_goes_to_one_block() {
  assert_eq!(
    importance_propagation_targets(64, 128, 4, 4),
    vec![(9, 4096), (10, 0), (13, 0), (14, 0)]
  );
}

#[test]
fn propagation_splits_by_overlap_area() {
  let t = importance_propagation_targets(100, 70, 10, 10);
  assert_eq!(t, vec![(11, 1624), (12, 2088), (21, 168), (22, 216)]);
  let total: i64 = t.iter().map(|&(_, a)| a).sum();
  assert_eq!(total, IMP_BLOCK_AREA_IN_MV_UNITS);
}

#[test]
fn propagation_drops_blocks_outside_the_frame() {
  // One sample right of block column 1 and one sample above the frame.
  assert_eq!(
    importance_propagation_targets(72, -8, 4, 4),
    vec![(1, 3136), (2, 448)]
  );
  // An eighth of a sample left of the frame.
  assert_eq!(importance_propagation_targets(-1, 0, 2, 2), vec![(0, 4032), (2, 0)]);
  // Past the bottom-right corner.
  assert_eq!(importance_propagation_targets(200, 200, 3, 3), Vec::new());
}
