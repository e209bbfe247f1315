use rav1e::transform::butterfly::{cospi_arr, ButterflyParams};
use rav1e::transform::inverse::{
  get_eobx_eoby_scan_default, get_highbd_inv_txfm, iadst16, iadst8, idct32,
  idct64, idct64_low1, idct8, inv_txfm_lane, TxType1D, TxfmKernel,
};
use rav1e::transform::{
  round_shift_32, round_shift_array_32, round_shift_rect_array_32, TxSize,
  NEW_INV_SQRT2,
};

fn params(bit: u32, bd: u32, out_shift: u32) -> ButterflyParams {
  ButterflyParams { bit, bd, out_shift }
}

#[test]
fn cospi_table_rows() {
  assert_eq!(cospi_arr(12)[32], 2896);
  assert_eq!(cospi_arr(10)[0], 1024);
  assert_eq!(cospi_arr(16)[63], 1608);
}

#[test]
fn idct8_known_values() {
  let input = [100, 50, -30, 20, 0, 10, -5, 3];
  let mut row = input;
  idct8(&mut row, false, params(12, 10, 1));
  assert_eq!(row, [57, 46, 46, 53, 49, 33, 19, -15]);
  let mut col = input;
  idct8(&mut col, true, params(12, 10, 0));
  assert_eq!(col, [113, 91, 91, 105, 97, 65, 37, -31]);
}

#[test]
fn idct8_clamps_to_column_range() {
  let mut data = [100_000_000, 0, 0, 0, 0, 0, 0, 0];
  idct8(&mut data, true, params(12, 8, 0));
  assert_eq!(data, [32767; 8]);
}

#[test]
fn iadst8_known_values() {
  let mut col = [100, 50, -30, 20, 0, 10, -5, 3];
  iadst8(&mut col, true, params(12, 10, 0));
  assert_eq!(col, [31, 55, 66, 101, 131, 112, 84, 4]);
}

#[test]
fn iadst16_known_values() {
  let mut data: Vec<i32> = (0..16).map(|i| (i * 37) % 101 - 50).collect();
  iadst16(&mut data, false, params(12, 10, 2));
  assert_eq!(
    data,
    vec![-10, 7, -12, -17, 4, 2, -20, 10, 2, -28, -27, -59, 24, -2, -14, 4]
  );
}

#[test]
fn idct32_known_values() {
  let mut data: Vec<i32> = (0..32).map(|i| (i * 53) % 97 - 48).collect();
  idct32(&mut data, true, params(12, 10, 0));
  assert_eq!(
    data,
    vec![
      -89, -32, -45, -44, -72, -233, 88, 28, 10, 3, -12, -144, 26, 15, 10, 10,
      14, -132, 5, 10, 12, 22, 53, -164, -22, 0, 19, 56, 220, -419, -158, -123
    ]
  );
}

#[test]
fn idct64_known_values() {
  let mut data: Vec<i32> =
    (0..64).map(|i| if i < 32 { (i * 29) % 89 - 44 } else { 0 }).collect();
  idct64(&mut data, false, params(12, 10, 2));
  assert_eq!(&data[..8], &[23, 26, 14, -8, -20, -13, -7, -13]);
  assert_eq!(&data[40..44], &[-61, 1, 95, 116]);
}

#[test]
fn idct64_low1_spreads_dc() {
  let mut data = vec![0i32; 64];
  data[0] = 1000;
  idct64_low1(&mut data, true, params(12, 10, 0));
  assert!(data.iter().all(|&v| v == 707));
}

fn idct_ref(input: &[i32]) -> Vec<f64> {
  let n = input.len();
  (0..n)
    .map(|x| {
      let mut s = input[0] as f64 * std::f64::consts::FRAC_1_SQRT_2;
      for k in 1..n {
        s += input[k] as f64
          * (std::f64::consts::PI * ((2 * x + 1) * k) as f64 / (2 * n) as f64)
            .cos();
      }
      s
    })
    .collect()
}

fn iadst_ref(input: &[i32]) -> Vec<f64> {
  let n = input.len();
  (0..n)
    .map(|x| {
      (0..n)
        .map(|k| {
          input[k] as f64
            * (std::f64::consts::PI * ((2 * x + 1) * (2 * k + 1)) as f64
              / (4 * n) as f64)
              .sin()
        })
        .sum()
    })
    .collect()
}

#[test]
fn every_transform_approximates_its_formula() {
  let kernels = [
    (TxfmKernel::Idct8Low1, 8, 1, true),
    (TxfmKernel::Idct8, 8, 8, true),
    (TxfmKernel::Idct16Low1, 16, 1, true),
    (TxfmKernel::Idct16Low8, 16, 8, true),
    (TxfmKernel::Idct16, 16, 16, true),
    (TxfmKernel::Idct32Low1, 32, 1, true),
    (TxfmKernel::Idct32Low8, 32, 8, true),
    (TxfmKernel::Idct32Low16, 32, 16, true),
    (TxfmKernel::Idct32, 32, 32, true),
    (TxfmKernel::Idct64Low1, 64, 1, true),
    (TxfmKernel::Idct64Low8, 64, 8, true),
    (TxfmKernel::Idct64Low16, 64, 16, true),
    (TxfmKernel::Idct64, 64, 32, true),
    (TxfmKernel::Iadst8Low1, 8, 1, false),
    (TxfmKernel::Iadst8, 8, 8, false),
    (TxfmKernel::Iadst16Low1, 16, 1, false),
    (TxfmKernel::Iadst16Low8, 16, 8, false),
    (TxfmKernel::Iadst16, 16, 16, false),
  ];
  let mut seed: u64 = 12345;
  for &(kernel, n, nonzero, is_dct) in kernels.iter() {
    for do_cols in [true, false] {
      for _ in 0..10 {
        let input: Vec<i32> = (0..n)
          .map(|k| {
            seed = seed.wrapping_mul(6364136223846793005).wrapping_add(1);
            if k < nonzero {
              ((seed >> 33) % 4001) as i32 - 2000
            } else {
              0
            }
          })
          .collect();
        let mut data = input.clone();
        inv_txfm_lane(kernel, &mut data, do_cols, params(12, 10, 0));
        let expected =
          if is_dct { idct_ref(&input) } else { iadst_ref(&input) };
        for (got, want) in data.iter().zip(expected.iter()) {
          assert!(
            (*got as f64 - want).abs() < 10.0,
            "{:?} {} {} {}",
            kernel,
            do_cols,
            got,
            want
          );
        }
      }
    }
  }
}

#[test]
fn eob_scan_positions() {
  assert_eq!(get_eobx_eoby_scan_default(TxSize::TX_8X8, 1), (0, 0));
  assert_eq!(get_eobx_eoby_scan_default(TxSize::TX_32X32, 100), (15, 15));
  assert_eq!(get_eobx_eoby_scan_default(TxSize::TX_16X8, 50), (15, 7));
  assert_eq!(get_eobx_eoby_scan_default(TxSize::TX_8X32, 128), (7, 31));
  assert_eq!(get_eobx_eoby_scan_default(TxSize::TX_64X64, 1024), (31, 31));
}

#[test]
fn transform_selection() {
  assert_eq!(get_highbd_inv_txfm(32, TxType1D::DCT, 2), TxfmKernel::Idct32Low16);
  assert_eq!(get_highbd_inv_txfm(8, TxType1D::ADST, 0), TxfmKernel::Iadst8Low1);
  assert_eq!(get_highbd_inv_txfm(64, TxType1D::DCT, 3), TxfmKernel::Idct64);
}

#[test]
fn transform_size_dimensions() {
  assert_eq!(TxSize::TX_16X64.width(), 16);
  assert_eq!(TxSize::TX_16X64.height(), 64);
  assert_eq!(TxSize::TX_32X8.width_log2(), 5);
}

#[test]
fn rounding_shifts() {
  assert_eq!(round_shift_32(13, 2), 3);
  assert_eq!(round_shift_32(-13, 2), -3);
  let mut a = [5, -6, 7];
  round_shift_array_32(&mut a, 1);
  assert_eq!(a, [3, -3, 4]);
  let mut b = [5, -6, 7];
  round_shift_array_32(&mut b, -2);
  assert_eq!(b, [20, -24, 28]);
  let mut c = [4096, 100];
  round_shift_rect_array_32(&mut c, 0, NEW_INV_SQRT2);
  assert_eq!(c, [2896, 71]);
}

use rav1e::transform::inverse_2d::{highbd_inv_txfm2d_add_no_identity, highbd_recon};

#[test]
fn recon_clamps_to_bit_depth() {
  assert_eq!(highbd_recon(100, 20, 10), 120);
  assert_eq!(highbd_recon(1000, 100, 10), 1023);
  assert_eq!(highbd_recon(5, -20, 10), 0);
  // Sums past 32767 read as negative 16-bit values and clamp to zero.
  assert_eq!(highbd_recon(30000, 5000, 15), 0);
}

#[test]
fn dc_only_8x8_block() {
  let mut input = vec![0i32; 64];
  input[0] = 1024;
  let mut out = vec![100u16; 64];
  highbd_inv_txfm2d_add_no_identity(
    &input,
    &mut out,
    8,
    TxType1D::DCT,
    TxType1D::DCT,
    false,
    false,
    TxSize::TX_8X8,
    1,
    10,
  );
  assert!(out.iter().all(|&v| v == 116));
}

#[test]
fn flipped_rectangular_adst_block_leaves_the_rest_of_the_rows() {
  let input: Vec<i32> = (0..16 * 8).map(|i| ((i * 37) % 23) - 11).collect();
  let mut out = vec![500u16; 8 * 20];
  highbd_inv_txfm2d_add_no_identity(
    &input,
    &mut out,
    20,
    TxType1D::ADST,
    TxType1D::DCT,
    true,
    true,
    TxSize::TX_16X8,
    100,
    10,
  );
  assert_eq!(
    &out[..20],
    &[
      500, 500, 500, 499, 501, 501, 500, 501, 500, 497, 500, 500, 500, 499, 500,
      500, 500, 500, 500, 500
    ]
  );
  assert_eq!(
    &out[60..80],
    &[
      499, 499, 497, 498, 503, 500, 501, 500, 500, 500, 501, 499, 500, 500, 499,
      499, 500, 500, 500, 500
    ]
  );
  assert!(out.chunks(20).all(|row| row[16..].iter().all(|&v| v == 500)));
}

#[test]
fn sparse_32x32_block() {
  let mut input = vec![0i32; 32 * 32];
  input[0] = 3000;
  input[1] = -500;
  input[33] = 200;
  let mut out = vec![128u16; 32 * 32];
  highbd_inv_txfm2d_add_no_identity(
    &input,
    &mut out,
    32,
    TxType1D::DCT,
    TxType1D::DCT,
    false,
    false,
    TxSize::TX_32X32,
    40,
    8,
  );
  assert_eq!(
    &out[..32],
    &[
      149, 149, 149, 149, 149, 149, 150, 150, 150, 150, 150, 150, 151, 151, 151,
      151, 152, 152, 152, 152, 153, 153, 153, 153, 153, 153, 153, 154, 154, 154,
      154, 154
    ]
  );
  assert_eq!(
    &out[32 * 31..],
    &[
      143, 143, 143, 143, 144, 144, 145, 145, 146, 146, 147, 148, 149, 149, 150,
      151, 152, 153, 154, 154, 155, 156, 157, 157, 158, 158, 159, 159, 160, 160,
      160, 160
    ]
  );
}

#[test]
fn zero_coefficients_leave_the_prediction() {
  let input = vec![0i32; 16 * 16];
  let mut out: Vec<u16> = (0..16 * 16).map(|i| (i % 1024) as u16).collect();
  let expected = out.clone();
  highbd_inv_txfm2d_add_no_identity(
    &input,
    &mut out,
    16,
    TxType1D::ADST,
    TxType1D::ADST,
    false,
    true,
    TxSize::TX_16X16,
    1,
    10,
  );
  assert_eq!(out, expected);
}

#[test]
fn outputs_stay_in_the_clamping_range() {
  // bd 10: range of max(16, 16) bits, -32768..=32767.
  let mut data = [i32::MAX / 4, -(i32::MAX / 4), 1 << 20, -(1 << 20), 7, 9, 1 << 25, 3];
  idct8(&mut data, false, params(12, 10, 1));
  assert!(data.iter().all(|&v| (-32768..=32767).contains(&v)));
  // bd 12: range of 18 bits.
  let mut big = [0i32; 16];
  for (i, v) in big.iter_mut().enumerate() {
    *v = if i % 2 == 0 { 1 << 28 } else { -(1 << 28) };
  }
  iadst16(&mut big, false, params(12, 12, 2));
  assert!(big.iter().all(|&v| (-(1 << 17)..(1 << 17)).contains(&v)));
}

#[test]
fn dc_only_idct_spreads_the_first_coefficient() {
  // (100 * 2896 + 2048) >> 12 = 71, then (71 + 1) >> 1 = 36 for the row pass.
  let mut col = [0i32; 64];
  col[0] = 100;
  idct64_low1(&mut col, true, params(12, 10, 0));
  assert!(col.iter().all(|&v| v == 71));
  let mut row = [0i32; 64];
  row[0] = 100;
  idct64_low1(&mut row, false, params(12, 10, 1));
  assert!(row.iter().all(|&v| v == 36));
}
