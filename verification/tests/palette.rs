use rav1e::frame::Plane;
use rav1e::palette::{
  count_distinct_colors, dominant_colors, palette_luma_colors,
  allow_palette_mode, color_cache_from, color_cache_size, count_colors,
  enable_palette_mode, get_end_n_stage2, get_start_n, get_start_n_stage2,
  get_step_size, optimize_palette_colors, remove_duplicates,
  PaletteSearchLevel,
};

#[test]
fn remove_duplicates_sorts_and_dedups() {
  // Only the first six centroids are sorted and deduplicated.
  let mut c = [5, 3, 5, 1, 3, 9, 0, 0];
  let n = remove_duplicates(&mut c, 6);
  assert_eq!(n, 4);
  assert_eq!(&c[..4], &[1, 3, 5, 9]);
  assert_eq!(&c[6..], &[0, 0]);
  let mut d = [5, 3, 5, 1, 3, 9, 7, 8];
  assert_eq!(remove_duplicates(&mut d, 8), 6);
  assert_eq!(&d[..6], &[1, 3, 5, 7, 8, 9]);
}

#[test]
fn remove_duplicates_ignores_entries_past_the_centroids() {
  let mut c = [3, 7, 0, 0, 0, 0, 0, 0];
  assert_eq!(remove_duplicates(&mut c, 2), 2);
  assert_eq!(c, [3, 7, 0, 0, 0, 0, 0, 0]);
  let mut d = [7, 7, 7, 2, 2, 2, 2, 2];
  assert_eq!(remove_duplicates(&mut d, 3), 1);
  assert_eq!(d, [7, 7, 7, 2, 2, 2, 2, 2]);
}

#[test]
fn remove_duplicates_of_nothing_keeps_one() {
  let mut c = [4, 3, 2, 1, 0, 0, 0, 0];
  assert_eq!(remove_duplicates(&mut c, 0), 1);
}

#[test]
fn optimize_snaps_close_centroids() {
  let cache = color_cache_from(&[10, 50, 51, 200]);
  assert_eq!(color_cache_size(&cache), 4);
  let mut c = [9, 52, 100, 201, 0, 0, 0, 0];
  optimize_palette_colors(&cache, &mut c, 4, 1);
  assert_eq!(c, [10, 51, 100, 200, 0, 0, 0, 0]);
}

#[test]
fn optimize_with_stride_skips_other_entries() {
  let cache = color_cache_from(&[10]);
  let mut c = [11, 11, 9, 9, 12, 0, 0, 0];
  optimize_palette_colors(&cache, &mut c, 2, 2);
  assert_eq!(c, [10, 11, 10, 9, 12, 0, 0, 0]);
}

#[test]
fn optimize_with_empty_cache_changes_nothing() {
  let cache = color_cache_from(&[]);
  let mut c = [11, 12, 13, 14, 15, 16, 17, 18];
  optimize_palette_colors(&cache, &mut c, 8, 1);
  assert_eq!(c, [11, 12, 13, 14, 15, 16, 17, 18]);
}

#[test]
fn optimize_first_closest_color_wins() {
  let cache = color_cache_from(&[9, 11]);
  let mut c = [10, 0, 0, 0, 0, 0, 0, 0];
  optimize_palette_colors(&cache, &mut c, 1, 1);
  assert_eq!(c[0], 9);
}

#[test]
fn coarse_search_parameters() {
  assert_eq!(get_start_n(8), 2);
  assert_eq!(get_start_n(7), 3);
  assert_eq!(get_start_n(2), 0);
  assert_eq!(get_step_size(8), 3);
  assert_eq!(get_step_size(1), 0);
  assert_eq!(get_start_n_stage2(2), 3);
  assert_eq!(get_start_n_stage2(5), 4);
  assert_eq!(get_end_n_stage2(5, 8), 6);
  assert_eq!(get_end_n_stage2(8, 8), 7);
  assert_eq!(get_end_n_stage2(8, 7), 8);
}

#[test]
fn palette_mode_needs_screen_content_and_block_size() {
  assert!(allow_palette_mode(true, 8, 64));
  assert!(!allow_palette_mode(true, 4, 8));
  assert!(!allow_palette_mode(false, 16, 16));
  assert!(!enable_palette_mode(PaletteSearchLevel::Off, true, 16, 16));
  assert!(enable_palette_mode(PaletteSearchLevel::FullSearch, true, 16, 16));
}

#[test]
fn count_colors_of_a_block() {
  let mut plane: Plane<u8> = Plane::new(16, 16, 0, 0, 0, 0);
  let stride = plane.cfg.stride;
  for y in 0..16 {
    for x in 0..16 {
      plane.data[y * stride + x] = ((x + y) % 3) as u8;
    }
  }
  let counts = count_colors(&plane, 8, 8, 1, 0);
  assert_eq!(counts.len(), 4096);
  let mut expected = [0usize; 3];
  for y in 0..8 {
    for x in 8..16 {
      expected[(x + y) % 3] += 1;
    }
  }
  assert_eq!(&counts[..3], &expected[..]);
  assert_eq!(counts[3..].iter().sum::<usize>(), 0);
}

#[test]
fn dominant_colors_most_frequent_first() {
  let mut counts = vec![0usize; 4096];
  counts[3] = 5;
  counts[7] = 9;
  counts[9] = 5;
  counts[200] = 1;
  counts[300] = 50;
  assert_eq!(count_distinct_colors(&counts), 5);
  let top = dominant_colors(&mut counts, 5, 8);
  // Value 300 lies above the 8-bit range and is never picked.
  assert_eq!(top, [7, 3, 9, 200, 0, 0, 0, 0]);
  assert_eq!(counts[300], 50);
  assert_eq!(counts[7] + counts[3] + counts[9] + counts[200], 0);
}

#[test]
fn dominant_colors_takes_at_most_eight() {
  let mut counts = vec![0usize; 4096];
  for v in 0..20 {
    counts[v * 10] = 100 - v;
  }
  let top = dominant_colors(&mut counts, 20, 10);
  assert_eq!(top, [0, 10, 20, 30, 40, 50, 60, 70]);
  assert_eq!(counts[80], 92);
}

#[test]
fn luma_palette_from_centroids() {
  let cache = color_cache_from(&[10, 50]);
  let mut c = [9, 51, 51, 100, 300, 7, 7, 1];
  assert_eq!(
    palette_luma_colors(&cache, &mut c, 8, 8),
    Some(vec![1, 7, 10, 50, 100, 256])
  );
  let mut same = [5; 8];
  assert_eq!(palette_luma_colors(&cache, &mut same, 8, 8), None);
  // Only the first `num_colors` centroids count.
  let mut few = [20, 30, 1, 1, 1, 1, 1, 1];
  assert_eq!(palette_luma_colors(&cache, &mut few, 2, 8), Some(vec![20, 30]));
  let mut one = [20, 20, 1, 2, 3, 4, 5, 6];
  assert_eq!(palette_luma_colors(&cache, &mut one, 2, 8), None);
}
