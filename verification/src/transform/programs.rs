//! The butterfly programs of the 1-D inverse transforms, one for the column
//! pass and one for the row pass of each. The row pass differs in its
//! clamping ranges and in the final rounding shift.

use vstd::prelude::*;

verus! {

/// Operations of the column pass of `idct8_low1`.
#[verifier::opaque]
pub const IDCT8_LOW1_COL_OPS: [i32; 20] = [
    1, 0, 0, 32, 4, 9, 0, 0, 5, 10, 0, 0, 8, 11, 0, 6,
    9, 12, 0, 6,
];

/// Output registers of the column pass of `idct8_low1`.
#[verifier::opaque]
pub const IDCT8_LOW1_COL_OUTS: [i32; 8] = [
    13, 13, 13, 13, 13, 13, 13, 13,
];

/// Operations of the row pass of `idct8_low1`.
#[verifier::opaque]
pub const IDCT8_LOW1_ROW_OPS: [i32; 28] = [
    1, 0, 0, 32, 4, 9, 0, 0, 5, 10, 0, 0, 10, 11, 0, 0,
    12, 12, 0, 0, 8, 13, 0, 6, 9, 14, 0, 6,
];

/// Output registers of the row pass of `idct8_low1`.
#[verifier::opaque]
pub const IDCT8_LOW1_ROW_OUTS: [i32; 8] = [
    15, 15, 15, 15, 15, 15, 15, 15,
];

/// Operations of the column pass of `idct8`.
#[verifier::opaque]
pub const IDCT8_COL_OPS: [i32; 312] = [
    1, 1, 0, 56, 1, 7, 0, 72, 2, 9, 10, 0, 4, 11, 0, 0,
    5, 12, 0, 0, 1, 1, 0, 8, 1, 7, 0, 56, 2, 14, 15, 0,
    4, 16, 0, 0, 5, 17, 0, 0, 1, 5, 0, 24, 1, 3, 0, 104,
    2, 19, 20, 0, 4, 21, 0, 0, 5, 22, 0, 0, 1, 5, 0, 40,
    1, 3, 0, 24, 2, 24, 25, 0, 4, 26, 0, 0, 5, 27, 0, 0,
    1, 0, 0, 32, 1, 4, 0, 32, 2, 29, 30, 0, 4, 31, 0, 0,
    5, 32, 0, 0, 3, 29, 30, 0, 4, 34, 0, 0, 5, 35, 0, 0,
    1, 2, 0, 48, 1, 6, 0, 80, 2, 37, 38, 0, 4, 39, 0, 0,
    5, 40, 0, 0, 1, 2, 0, 16, 1, 6, 0, 48, 2, 42, 43, 0,
    4, 44, 0, 0, 5, 45, 0, 0, 2, 13, 23, 0, 14, 47, 0, 6,
    3, 13, 23, 0, 14, 49, 0, 6, 2, 18, 28, 0, 14, 51, 0, 6,
    3, 18, 28, 0, 14, 53, 0, 6, 2, 33, 46, 0, 14, 55, 0, 6,
    3, 33, 46, 0, 14, 57, 0, 6, 2, 36, 41, 0, 14, 59, 0, 6,
    3, 36, 41, 0, 14, 61, 0, 6, 1, 50, 0, 32, 1, 54, 0, 32,
    2, 64, 63, 0, 4, 65, 0, 0, 5, 66, 0, 0, 3, 64, 63, 0,
    4, 68, 0, 0, 5, 69, 0, 0, 2, 56, 52, 0, 14, 71, 0, 6,
    3, 56, 52, 0, 14, 73, 0, 6, 2, 60, 67, 0, 14, 75, 0, 6,
    3, 60, 67, 0, 14, 77, 0, 6, 2, 62, 70, 0, 14, 79, 0, 6,
    3, 62, 70, 0, 14, 81, 0, 6, 2, 58, 48, 0, 14, 83, 0, 6,
    3, 58, 48, 0, 14, 85, 0, 6,
];

/// Output registers of the column pass of `idct8`.
#[verifier::opaque]
pub const IDCT8_COL_OUTS: [i32; 8] = [
    72, 76, 80, 84, 86, 82, 78, 74,
];

/// Operations of the row pass of `idct8`.
#[verifier::opaque]
pub const IDCT8_ROW_OPS: [i32; 376] = [
    1, 1, 0, 56, 1, 7, 0, 72, 2, 9, 10, 0, 4, 11, 0, 0,
    5, 12, 0, 0, 1, 1, 0, 8, 1, 7, 0, 56, 2, 14, 15, 0,
    4, 16, 0, 0, 5, 17, 0, 0, 1, 5, 0, 24, 1, 3, 0, 104,
    2, 19, 20, 0, 4, 21, 0, 0, 5, 22, 0, 0, 1, 5, 0, 40,
    1, 3, 0, 24, 2, 24, 25, 0, 4, 26, 0, 0, 5, 27, 0, 0,
    1, 0, 0, 32, 1, 4, 0, 32, 2, 29, 30, 0, 4, 31, 0, 0,
    5, 32, 0, 0, 3, 29, 30, 0, 4, 34, 0, 0, 5, 35, 0, 0,
    1, 2, 0, 48, 1, 6, 0, 80, 2, 37, 38, 0, 4, 39, 0, 0,
    5, 40, 0, 0, 1, 2, 0, 16, 1, 6, 0, 48, 2, 42, 43, 0,
    4, 44, 0, 0, 5, 45, 0, 0, 2, 13, 23, 0, 14, 47, 0, 8,
    3, 13, 23, 0, 14, 49, 0, 8, 2, 18, 28, 0, 14, 51, 0, 8,
    3, 18, 28, 0, 14, 53, 0, 8, 2, 33, 46, 0, 14, 55, 0, 8,
    3, 33, 46, 0, 14, 57, 0, 8, 2, 36, 41, 0, 14, 59, 0, 8,
    3, 36, 41, 0, 14, 61, 0, 8, 1, 50, 0, 32, 1, 54, 0, 32,
    2, 64, 63, 0, 4, 65, 0, 0, 5, 66, 0, 0, 3, 64, 63, 0,
    4, 68, 0, 0, 5, 69, 0, 0, 2, 56, 52, 0, 14, 71, 0, 8,
    3, 56, 52, 0, 14, 73, 0, 8, 2, 60, 67, 0, 14, 75, 0, 8,
    3, 60, 67, 0, 14, 77, 0, 8, 2, 62, 70, 0, 14, 79, 0, 8,
    3, 62, 70, 0, 14, 81, 0, 8, 2, 58, 48, 0, 14, 83, 0, 8,
    3, 58, 48, 0, 14, 85, 0, 8, 13, 72, 0, 0, 13, 76, 0, 0,
    13, 80, 0, 0, 13, 84, 0, 0, 13, 86, 0, 0, 13, 82, 0, 0,
    13, 78, 0, 0, 13, 74, 0, 0, 14, 87, 0, 6, 14, 88, 0, 6,
    14, 89, 0, 6, 14, 90, 0, 6, 14, 91, 0, 6, 14, 92, 0, 6,
    14, 93, 0, 6, 14, 94, 0, 6,
];

/// Output registers of the row pass of `idct8`.
#[verifier::opaque]
pub const IDCT8_ROW_OUTS: [i32; 8] = [
    95, 96, 97, 98, 99, 100, 101, 102,
];

/// Operations of the column pass of `idct16_low1`.
#[verifier::opaque]
pub const IDCT16_LOW1_COL_OPS: [i32; 20] = [
    1, 0, 0, 32, 4, 17, 0, 0, 5, 18, 0, 0, 8, 19, 0, 6,
    9, 20, 0, 6,
];

/// Output registers of the column pass of `idct16_low1`.
#[verifier::opaque]
pub const IDCT16_LOW1_COL_OUTS: [i32; 16] = [
    21, 21, 21, 21, 21, 21, 21, 21, 21, 21, 21, 21, 21, 21, 21, 21,
];

/// Operations of the row pass of `idct16_low1`.
#[verifier::opaque]
pub const IDCT16_LOW1_ROW_OPS: [i32; 28] = [
    1, 0, 0, 32, 4, 17, 0, 0, 5, 18, 0, 0, 10, 19, 0, 0,
    12, 20, 0, 0, 8, 21, 0, 6, 9, 22, 0, 6,
];

/// Output registers of the row pass of `idct16_low1`.
#[verifier::opaque]
pub const IDCT16_LOW1_ROW_OUTS: [i32; 16] = [
    23, 23, 23, 23, 23, 23, 23, 23, 23, 23, 23, 23, 23, 23, 23, 23,
];

/// Operations of the column pass of `idct16_low8`.
#[verifier::opaque]
pub const IDCT16_LOW8_COL_OPS: [i32; 564] = [
    7, 1, 0, 4, 7, 1, 0, 60, 7, 7, 0, 100, 7, 7, 0, 28,
    7, 5, 0, 20, 7, 5, 0, 44, 7, 3, 0, 116, 7, 3, 0, 12,
    7, 2, 0, 8, 7, 2, 0, 56, 7, 6, 0, 104, 7, 6, 0, 24,
    2, 18, 19, 0, 14, 29, 0, 6, 3, 18, 19, 0, 14, 31, 0, 6,
    2, 23, 22, 0, 14, 33, 0, 6, 3, 23, 22, 0, 14, 35, 0, 6,
    2, 24, 21, 0, 14, 37, 0, 6, 3, 24, 21, 0, 14, 39, 0, 6,
    2, 17, 20, 0, 14, 41, 0, 6, 3, 17, 20, 0, 14, 43, 0, 6,
    1, 0, 0, 32, 4, 45, 0, 0, 5, 46, 0, 0, 7, 4, 0, 16,
    7, 4, 0, 48, 2, 26, 27, 0, 14, 50, 0, 6, 3, 26, 27, 0,
    14, 52, 0, 6, 2, 25, 28, 0, 14, 54, 0, 6, 3, 25, 28, 0,
    14, 56, 0, 6, 6, 32, 44, 6224, 6, 32, 44, 2096, 6, 36, 40, 10352,
    6, 36, 40, 6224, 2, 47, 48, 0, 14, 62, 0, 6, 3, 47, 48, 0,
    14, 64, 0, 6, 2, 47, 49, 0, 14, 66, 0, 6, 3, 47, 49, 0,
    14, 68, 0, 6, 1, 53, 0, 32, 1, 57, 0, 32, 3, 71, 70, 0,
    4, 72, 0, 0, 5, 73, 0, 0, 2, 71, 70, 0, 4, 75, 0, 0,
    5, 76, 0, 0, 2, 30, 34, 0, 14, 78, 0, 6, 3, 30, 34, 0,
    14, 80, 0, 6, 2, 58, 60, 0, 14, 82, 0, 6, 3, 58, 60, 0,
    14, 84, 0, 6, 2, 42, 38, 0, 14, 86, 0, 6, 3, 42, 38, 0,
    14, 88, 0, 6, 2, 59, 61, 0, 14, 90, 0, 6, 3, 59, 61, 0,
    14, 92, 0, 6, 2, 63, 55, 0, 14, 94, 0, 6, 3, 63, 55, 0,
    14, 96, 0, 6, 2, 67, 77, 0, 14, 98, 0, 6, 3, 67, 77, 0,
    14, 100, 0, 6, 2, 69, 74, 0, 14, 102, 0, 6, 3, 69, 74, 0,
    14, 104, 0, 6, 2, 65, 51, 0, 14, 106, 0, 6, 3, 65, 51, 0,
    14, 108, 0, 6, 1, 85, 0, 32, 1, 93, 0, 32, 3, 111, 110, 0,
    4, 112, 0, 0, 5, 113, 0, 0, 2, 110, 111, 0, 4, 115, 0, 0,
    5, 116, 0, 0, 1, 81, 0, 32, 1, 89, 0, 32, 3, 119, 118, 0,
    4, 120, 0, 0, 5, 121, 0, 0, 2, 118, 119, 0, 4, 123, 0, 0,
    5, 124, 0, 0, 2, 95, 87, 0, 14, 126, 0, 6, 3, 95, 87, 0,
    14, 128, 0, 6, 2, 99, 91, 0, 14, 130, 0, 6, 3, 99, 91, 0,
    14, 132, 0, 6, 2, 103, 117, 0, 14, 134, 0, 6, 3, 103, 117, 0,
    14, 136, 0, 6, 2, 107, 125, 0, 14, 138, 0, 6, 3, 107, 125, 0,
    14, 140, 0, 6, 2, 109, 122, 0, 14, 142, 0, 6, 3, 109, 122, 0,
    14, 144, 0, 6, 2, 105, 114, 0, 14, 146, 0, 6, 3, 105, 114, 0,
    14, 148, 0, 6, 2, 101, 83, 0, 14, 150, 0, 6, 3, 101, 83, 0,
    14, 152, 0, 6, 2, 97, 79, 0, 14, 154, 0, 6, 3, 97, 79, 0,
    14, 156, 0, 6,
];

/// Output registers of the column pass of `idct16_low8`.
#[verifier::opaque]
pub const IDCT16_LOW8_COL_OUTS: [i32; 16] = [
    127, 131, 135, 139, 143, 147, 151, 155, 157, 153, 149, 145, 141, 137, 133, 129,
];

/// Operations of the row pass of `idct16_low8`.
#[verifier::opaque]
pub const IDCT16_LOW8_ROW_OPS: [i32; 692] = [
    7, 1, 0, 4, 7, 1, 0, 60, 7, 7, 0, 100, 7, 7, 0, 28,
    7, 5, 0, 20, 7, 5, 0, 44, 7, 3, 0, 116, 7, 3, 0, 12,
    7, 2, 0, 8, 7, 2, 0, 56, 7, 6, 0, 104, 7, 6, 0, 24,
    2, 18, 19, 0, 14, 29, 0, 8, 3, 18, 19, 0, 14, 31, 0, 8,
    2, 23, 22, 0, 14, 33, 0, 8, 3, 23, 22, 0, 14, 35, 0, 8,
    2, 24, 21, 0, 14, 37, 0, 8, 3, 24, 21, 0, 14, 39, 0, 8,
    2, 17, 20, 0, 14, 41, 0, 8, 3, 17, 20, 0, 14, 43, 0, 8,
    1, 0, 0, 32, 4, 45, 0, 0, 5, 46, 0, 0, 7, 4, 0, 16,
    7, 4, 0, 48, 2, 26, 27, 0, 14, 50, 0, 8, 3, 26, 27, 0,
    14, 52, 0, 8, 2, 25, 28, 0, 14, 54, 0, 8, 3, 25, 28, 0,
    14, 56, 0, 8, 6, 32, 44, 6224, 6, 32, 44, 2096, 6, 36, 40, 10352,
    6, 36, 40, 6224, 2, 47, 48, 0, 14, 62, 0, 8, 3, 47, 48, 0,
    14, 64, 0, 8, 2, 47, 49, 0, 14, 66, 0, 8, 3, 47, 49, 0,
    14, 68, 0, 8, 1, 53, 0, 32, 1, 57, 0, 32, 3, 71, 70, 0,
    4, 72, 0, 0, 5, 73, 0, 0, 2, 71, 70, 0, 4, 75, 0, 0,
    5, 76, 0, 0, 2, 30, 34, 0, 14, 78, 0, 8, 3, 30, 34, 0,
    14, 80, 0, 8, 2, 58, 60, 0, 14, 82, 0, 8, 3, 58, 60, 0,
    14, 84, 0, 8, 2, 42, 38, 0, 14, 86, 0, 8, 3, 42, 38, 0,
    14, 88, 0, 8, 2, 59, 61, 0, 14, 90, 0, 8, 3, 59, 61, 0,
    14, 92, 0, 8, 2, 63, 55, 0, 14, 94, 0, 8, 3, 63, 55, 0,
    14, 96, 0, 8, 2, 67, 77, 0, 14, 98, 0, 8, 3, 67, 77, 0,
    14, 100, 0, 8, 2, 69, 74, 0, 14, 102, 0, 8, 3, 69, 74, 0,
    14, 104, 0, 8, 2, 65, 51, 0, 14, 106, 0, 8, 3, 65, 51, 0,
    14, 108, 0, 8, 1, 85, 0, 32, 1, 93, 0, 32, 3, 111, 110, 0,
    4, 112, 0, 0, 5, 113, 0, 0, 2, 110, 111, 0, 4, 115, 0, 0,
    5, 116, 0, 0, 1, 81, 0, 32, 1, 89, 0, 32, 3, 119, 118, 0,
    4, 120, 0, 0, 5, 121, 0, 0, 2, 118, 119, 0, 4, 123, 0, 0,
    5, 124, 0, 0, 2, 95, 87, 0, 14, 126, 0, 8, 3, 95, 87, 0,
    14, 128, 0, 8, 2, 99, 91, 0, 14, 130, 0, 8, 3, 99, 91, 0,
    14, 132, 0, 8, 2, 103, 117, 0, 14, 134, 0, 8, 3, 103, 117, 0,
    14, 136, 0, 8, 2, 107, 125, 0, 14, 138, 0, 8, 3, 107, 125, 0,
    14, 140, 0, 8, 2, 109, 122, 0, 14, 142, 0, 8, 3, 109, 122, 0,
    14, 144, 0, 8, 2, 105, 114, 0, 14, 146, 0, 8, 3, 105, 114, 0,
    14, 148, 0, 8, 2, 101, 83, 0, 14, 150, 0, 8, 3, 101, 83, 0,
    14, 152, 0, 8, 2, 97, 79, 0, 14, 154, 0, 8, 3, 97, 79, 0,
    14, 156, 0, 8, 13, 127, 0, 0, 13, 131, 0, 0, 13, 135, 0, 0,
    13, 139, 0, 0, 13, 143, 0, 0, 13, 147, 0, 0, 13, 151, 0, 0,
    13, 155, 0, 0, 13, 157, 0, 0, 13, 153, 0, 0, 13, 149, 0, 0,
    13, 145, 0, 0, 13, 141, 0, 0, 13, 137, 0, 0, 13, 133, 0, 0,
    13, 129, 0, 0, 14, 158, 0, 6, 14, 159, 0, 6, 14, 160, 0, 6,
    14, 161, 0, 6, 14, 162, 0, 6, 14, 163, 0, 6, 14, 164, 0, 6,
    14, 165, 0, 6, 14, 166, 0, 6, 14, 167, 0, 6, 14, 168, 0, 6,
    14, 169, 0, 6, 14, 170, 0, 6, 14, 171, 0, 6, 14, 172, 0, 6,
    14, 173, 0, 6,
];

/// Output registers of the row pass of `idct16_low8`.
#[verifier::opaque]
pub const IDCT16_LOW8_ROW_OUTS: [i32; 16] = [
    174, 175, 176, 177, 178, 179, 180, 181, 182, 183, 184, 185, 186, 187, 188, 189,
];

/// Operations of the column pass of `idct16`.
#[verifier::opaque]
pub const IDCT16_COL_OPS: [i32; 584] = [
    6, 1, 15, 8764, 6, 9, 7, 12828, 6, 5, 11, 10796, 6, 13, 3, 14860,
    6, 13, 3, 1588, 6, 5, 11, 5652, 6, 9, 7, 3620, 6, 1, 15, 7684,
    6, 2, 14, 9272, 6, 10, 6, 13336, 6, 10, 6, 3112, 6, 2, 14, 7176,
    2, 17, 18, 0, 14, 29, 0, 6, 3, 17, 18, 0, 14, 31, 0, 6,
    2, 20, 19, 0, 14, 33, 0, 6, 3, 20, 19, 0, 14, 35, 0, 6,
    2, 21, 22, 0, 14, 37, 0, 6, 3, 21, 22, 0, 14, 39, 0, 6,
    2, 24, 23, 0, 14, 41, 0, 6, 3, 24, 23, 0, 14, 43, 0, 6,
    1, 0, 0, 32, 1, 8, 0, 32, 2, 45, 46, 0, 4, 47, 0, 0,
    5, 48, 0, 0, 3, 45, 46, 0, 4, 50, 0, 0, 5, 51, 0, 0,
    6, 4, 12, 10288, 6, 4, 12, 6160, 2, 25, 26, 0, 14, 55, 0, 6,
    3, 25, 26, 0, 14, 57, 0, 6, 2, 28, 27, 0, 14, 59, 0, 6,
    3, 28, 27, 0, 14, 61, 0, 6, 6, 32, 44, 6224, 6, 36, 40, 10352,
    6, 36, 40, 6224, 6, 32, 44, 2096, 2, 49, 54, 0, 14, 67, 0, 6,
    3, 49, 54, 0, 14, 69, 0, 6, 2, 52, 53, 0, 14, 71, 0, 6,
    3, 52, 53, 0, 14, 73, 0, 6, 1, 58, 0, 32, 1, 62, 0, 32,
    3, 76, 75, 0, 4, 77, 0, 0, 5, 78, 0, 0, 2, 76, 75, 0,
    4, 80, 0, 0, 5, 81, 0, 0, 2, 30, 34, 0, 14, 83, 0, 6,
    3, 30, 34, 0, 14, 85, 0, 6, 2, 63, 64, 0, 14, 87, 0, 6,
    3, 63, 64, 0, 14, 89, 0, 6, 2, 42, 38, 0, 14, 91, 0, 6,
    3, 42, 38, 0, 14, 93, 0, 6, 2, 66, 65, 0, 14, 95, 0, 6,
    3, 66, 65, 0, 14, 97, 0, 6, 2, 68, 60, 0, 14, 99, 0, 6,
    3, 68, 60, 0, 14, 101, 0, 6, 2, 72, 82, 0, 14, 103, 0, 6,
    3, 72, 82, 0, 14, 105, 0, 6, 2, 74, 79, 0, 14, 107, 0, 6,
    3, 74, 79, 0, 14, 109, 0, 6, 2, 70, 56, 0, 14, 111, 0, 6,
    3, 70, 56, 0, 14, 113, 0, 6, 1, 90, 0, 32, 1, 98, 0, 32,
    3, 116, 115, 0, 4, 117, 0, 0, 5, 118, 0, 0, 2, 115, 116, 0,
    4, 120, 0, 0, 5, 121, 0, 0, 1, 86, 0, 32, 1, 94, 0, 32,
    3, 124, 123, 0, 4, 125, 0, 0, 5, 126, 0, 0, 2, 123, 124, 0,
    4, 128, 0, 0, 5, 129, 0, 0, 2, 100, 92, 0, 14, 131, 0, 6,
    3, 100, 92, 0, 14, 133, 0, 6, 2, 104, 96, 0, 14, 135, 0, 6,
    3, 104, 96, 0, 14, 137, 0, 6, 2, 108, 122, 0, 14, 139, 0, 6,
    3, 108, 122, 0, 14, 141, 0, 6, 2, 112, 130, 0, 14, 143, 0, 6,
    3, 112, 130, 0, 14, 145, 0, 6, 2, 114, 127, 0, 14, 147, 0, 6,
    3, 114, 127, 0, 14, 149, 0, 6, 2, 110, 119, 0, 14, 151, 0, 6,
    3, 110, 119, 0, 14, 153, 0, 6, 2, 106, 88, 0, 14, 155, 0, 6,
    3, 106, 88, 0, 14, 157, 0, 6, 2, 102, 84, 0, 14, 159, 0, 6,
    3, 102, 84, 0, 14, 161, 0, 6,
];

/// Output registers of the column pass of `idct16`.
#[verifier::opaque]
pub const IDCT16_COL_OUTS: [i32; 16] = [
    132, 136, 140, 144, 148, 152, 156, 160, 162, 158, 154, 150, 146, 142, 138, 134,
];

/// Operations of the row pass of `idct16`.
#[verifier::opaque]
pub const IDCT16_ROW_OPS: [i32; 712] = [
    6, 1, 15, 8764, 6, 9, 7, 12828, 6, 5, 11, 10796, 6, 13, 3, 14860,
    6, 13, 3, 1588, 6, 5, 11, 5652, 6, 9, 7, 3620, 6, 1, 15, 7684,
    6, 2, 14, 9272, 6, 10, 6, 13336, 6, 10, 6, 3112, 6, 2, 14, 7176,
    2, 17, 18, 0, 14, 29, 0, 8, 3, 17, 18, 0, 14, 31, 0, 8,
    2, 20, 19, 0, 14, 33, 0, 8, 3, 20, 19, 0, 14, 35, 0, 8,
    2, 21, 22, 0, 14, 37, 0, 8, 3, 21, 22, 0, 14, 39, 0, 8,
    2, 24, 23, 0, 14, 41, 0, 8, 3, 24, 23, 0, 14, 43, 0, 8,
    1, 0, 0, 32, 1, 8, 0, 32, 2, 45, 46, 0, 4, 47, 0, 0,
    5, 48, 0, 0, 3, 45, 46, 0, 4, 50, 0, 0, 5, 51, 0, 0,
    6, 4, 12, 10288, 6, 4, 12, 6160, 2, 25, 26, 0, 14, 55, 0, 8,
    3, 25, 26, 0, 14, 57, 0, 8, 2, 28, 27, 0, 14, 59, 0, 8,
    3, 28, 27, 0, 14, 61, 0, 8, 6, 32, 44, 6224, 6, 36, 40, 10352,
    6, 36, 40, 6224, 6, 32, 44, 2096, 2, 49, 54, 0, 14, 67, 0, 8,
    3, 49, 54, 0, 14, 69, 0, 8, 2, 52, 53, 0, 14, 71, 0, 8,
    3, 52, 53, 0, 14, 73, 0, 8, 1, 58, 0, 32, 1, 62, 0, 32,
    3, 76, 75, 0, 4, 77, 0, 0, 5, 78, 0, 0, 2, 76, 75, 0,
    4, 80, 0, 0, 5, 81, 0, 0, 2, 30, 34, 0, 14, 83, 0, 8,
    3, 30, 34, 0, 14, 85, 0, 8, 2, 63, 64, 0, 14, 87, 0, 8,
    3, 63, 64, 0, 14, 89, 0, 8, 2, 42, 38, 0, 14, 91, 0, 8,
    3, 42, 38, 0, 14, 93, 0, 8, 2, 66, 65, 0, 14, 95, 0, 8,
    3, 66, 65, 0, 14, 97, 0, 8, 2, 68, 60, 0, 14, 99, 0, 8,
    3, 68, 60, 0, 14, 101, 0, 8, 2, 72, 82, 0, 14, 103, 0, 8,
    3, 72, 82, 0, 14, 105, 0, 8, 2, 74, 79, 0, 14, 107, 0, 8,
    3, 74, 79, 0, 14, 109, 0, 8, 2, 70, 56, 0, 14, 111, 0, 8,
    3, 70, 56, 0, 14, 113, 0, 8, 1, 90, 0, 32, 1, 98, 0, 32,
    3, 116, 115, 0, 4, 117, 0, 0, 5, 118, 0, 0, 2, 115, 116, 0,
    4, 120, 0, 0, 5, 121, 0, 0, 1, 86, 0, 32, 1, 94, 0, 32,
    3, 124, 123, 0, 4, 125, 0, 0, 5, 126, 0, 0, 2, 123, 124, 0,
    4, 128, 0, 0, 5, 129, 0, 0, 2, 100, 92, 0, 14, 131, 0, 8,
    3, 100, 92, 0, 14, 133, 0, 8, 2, 104, 96, 0, 14, 135, 0, 8,
    3, 104, 96, 0, 14, 137, 0, 8, 2, 108, 122, 0, 14, 139, 0, 8,
    3, 108, 122, 0, 14, 141, 0, 8, 2, 112, 130, 0, 14, 143, 0, 8,
    3, 112, 130, 0, 14, 145, 0, 8, 2, 114, 127, 0, 14, 147, 0, 8,
    3, 114, 127, 0, 14, 149, 0, 8, 2, 110, 119, 0, 14, 151, 0, 8,
    3, 110, 119, 0, 14, 153, 0, 8, 2, 106, 88, 0, 14, 155, 0, 8,
    3, 106, 88, 0, 14, 157, 0, 8, 2, 102, 84, 0, 14, 159, 0, 8,
    3, 102, 84, 0, 14, 161, 0, 8, 13, 132, 0, 0, 13, 136, 0, 0,
    13, 140, 0, 0, 13, 144, 0, 0, 13, 148, 0, 0, 13, 152, 0, 0,
    13, 156, 0, 0, 13, 160, 0, 0, 13, 162, 0, 0, 13, 158, 0, 0,
    13, 154, 0, 0, 13, 150, 0, 0, 13, 146, 0, 0, 13, 142, 0, 0,
    13, 138, 0, 0, 13, 134, 0, 0, 14, 163, 0, 6, 14, 164, 0, 6,
    14, 165, 0, 6, 14, 166, 0, 6, 14, 167, 0, 6, 14, 168, 0, 6,
    14, 169, 0, 6, 14, 170, 0, 6, 14, 171, 0, 6, 14, 172, 0, 6,
    14, 173, 0, 6, 14, 174, 0, 6, 14, 175, 0, 6, 14, 176, 0, 6,
    14, 177, 0, 6, 14, 178, 0, 6,
];

/// Output registers of the row pass of `idct16`.
#[verifier::opaque]
pub const IDCT16_ROW_OUTS: [i32; 16] = [
    179, 180, 181, 182, 183, 184, 185, 186, 187, 188, 189, 190, 191, 192, 193, 194,
];

/// Operations of the column pass of `idct32_low1`.
#[verifier::opaque]
pub const IDCT32_LOW1_COL_OPS: [i32; 20] = [
    1, 0, 0, 32, 4, 33, 0, 0, 5, 34, 0, 0, 8, 35, 0, 6,
    9, 36, 0, 6,
];

/// Output registers of the column pass of `idct32_low1`.
#[verifier::opaque]
pub const IDCT32_LOW1_COL_OUTS: [i32; 32] = [
    37, 37, 37, 37, 37, 37, 37, 37, 37, 37, 37, 37, 37, 37, 37, 37,
    37, 37, 37, 37, 37, 37, 37, 37, 37, 37, 37, 37, 37, 37, 37, 37,
];

/// Operations of the row pass of `idct32_low1`.
#[verifier::opaque]
pub const IDCT32_LOW1_ROW_OPS: [i32; 28] = [
    1, 0, 0, 32, 4, 33, 0, 0, 5, 34, 0, 0, 10, 35, 0, 0,
    12, 36, 0, 0, 8, 37, 0, 6, 9, 38, 0, 6,
];

/// Output registers of the row pass of `idct32_low1`.
#[verifier::opaque]
pub const IDCT32_LOW1_ROW_OUTS: [i32; 32] = [
    39, 39, 39, 39, 39, 39, 39, 39, 39, 39, 39, 39, 39, 39, 39, 39,
    39, 39, 39, 39, 39, 39, 39, 39, 39, 39, 39, 39, 39, 39, 39, 39,
];

/// Operations of the column pass of `idct32_low8`.
#[verifier::opaque]
pub const IDCT32_LOW8_COL_OPS: [i32; 964] = [
    7, 1, 0, 2, 7, 1, 0, 62, 7, 7, 0, 114, 7, 7, 0, 14,
    7, 5, 0, 10, 7, 5, 0, 54, 7, 3, 0, 122, 7, 3, 0, 6,
    7, 2, 0, 4, 7, 2, 0, 60, 7, 6, 0, 116, 7, 6, 0, 12,
    7, 4, 0, 8, 7, 4, 0, 56, 6, 34, 33, 7240, 6, 34, 33, 1080,
    6, 35, 36, 9336, 6, 35, 36, 7240, 6, 38, 37, 3176, 6, 38, 37, 5144,
    6, 39, 40, 13400, 6, 39, 40, 3176, 7, 0, 0, 32, 6, 42, 41, 6224,
    6, 42, 41, 2096, 6, 43, 44, 10352, 6, 43, 44, 6224, 2, 34, 35, 0,
    14, 60, 0, 6, 3, 34, 35, 0, 14, 62, 0, 6, 2, 47, 49, 0,
    14, 64, 0, 6, 3, 47, 49, 0, 14, 66, 0, 6, 2, 39, 38, 0,
    14, 68, 0, 6, 3, 39, 38, 0, 14, 70, 0, 6, 2, 53, 51, 0,
    14, 72, 0, 6, 3, 53, 51, 0, 14, 74, 0, 6, 2, 40, 37, 0,
    14, 76, 0, 6, 3, 40, 37, 0, 14, 78, 0, 6, 2, 54, 52, 0,
    14, 80, 0, 6, 3, 54, 52, 0, 14, 82, 0, 6, 2, 33, 36, 0,
    14, 84, 0, 6, 3, 33, 36, 0, 14, 86, 0, 6, 2, 48, 50, 0,
    14, 88, 0, 6, 3, 48, 50, 0, 14, 90, 0, 6, 6, 46, 45, 4192,
    6, 46, 45, 4128, 2, 42, 43, 0, 14, 94, 0, 6, 3, 42, 43, 0,
    14, 96, 0, 6, 2, 56, 58, 0, 14, 98, 0, 6, 3, 56, 58, 0,
    14, 100, 0, 6, 2, 41, 44, 0, 14, 102, 0, 6, 3, 41, 44, 0,
    14, 104, 0, 6, 2, 57, 59, 0, 14, 106, 0, 6, 3, 57, 59, 0,
    14, 108, 0, 6, 6, 67, 91, 6224, 6, 67, 91, 2096, 6, 63, 87, 6224,
    6, 63, 87, 2096, 6, 71, 79, 10352, 6, 71, 79, 6224, 6, 75, 83, 10352,
    6, 75, 83, 6224, 2, 55, 45, 0, 14, 118, 0, 6, 3, 55, 45, 0,
    14, 120, 0, 6, 2, 55, 93, 0, 14, 122, 0, 6, 3, 55, 93, 0,
    14, 124, 0, 6, 2, 55, 92, 0, 14, 126, 0, 6, 3, 55, 92, 0,
    14, 128, 0, 6, 2, 55, 46, 0, 14, 130, 0, 6, 3, 55, 46, 0,
    14, 132, 0, 6, 6, 101, 109, 4192, 6, 101, 109, 4128, 6, 97, 105, 4192,
    6, 97, 105, 4128, 2, 61, 69, 0, 14, 138, 0, 6, 3, 61, 69, 0,
    14, 140, 0, 6, 2, 65, 73, 0, 14, 142, 0, 6, 3, 65, 73, 0,
    14, 144, 0, 6, 2, 110, 116, 0, 14, 146, 0, 6, 3, 110, 116, 0,
    14, 148, 0, 6, 2, 112, 114, 0, 14, 150, 0, 6, 3, 112, 114, 0,
    14, 152, 0, 6, 2, 85, 77, 0, 14, 154, 0, 6, 3, 85, 77, 0,
    14, 156, 0, 6, 2, 89, 81, 0, 14, 158, 0, 6, 3, 89, 81, 0,
    14, 160, 0, 6, 2, 111, 117, 0, 14, 162, 0, 6, 3, 111, 117, 0,
    14, 164, 0, 6, 2, 113, 115, 0, 14, 166, 0, 6, 3, 113, 115, 0,
    14, 168, 0, 6, 2, 119, 103, 0, 14, 170, 0, 6, 3, 119, 103, 0,
    14, 172, 0, 6, 2, 123, 107, 0, 14, 174, 0, 6, 3, 123, 107, 0,
    14, 176, 0, 6, 2, 127, 135, 0, 14, 178, 0, 6, 3, 127, 135, 0,
    14, 180, 0, 6, 2, 131, 137, 0, 14, 182, 0, 6, 3, 131, 137, 0,
    14, 184, 0, 6, 2, 133, 136, 0, 14, 186, 0, 6, 3, 133, 136, 0,
    14, 188, 0, 6, 2, 129, 134, 0, 14, 190, 0, 6, 3, 129, 134, 0,
    14, 192, 0, 6, 2, 125, 99, 0, 14, 194, 0, 6, 3, 125, 99, 0,
    14, 196, 0, 6, 2, 121, 95, 0, 14, 198, 0, 6, 3, 121, 95, 0,
    14, 200, 0, 6, 6, 153, 169, 4192, 6, 153, 169, 4128, 6, 149, 165, 4192,
    6, 149, 165, 4128, 6, 145, 161, 4192, 6, 145, 161, 4128, 6, 141, 157, 4192,
    6, 141, 157, 4128, 2, 171, 155, 0, 14, 210, 0, 6, 3, 171, 155, 0,
    14, 212, 0, 6, 2, 175, 159, 0, 14, 214, 0, 6, 3, 175, 159, 0,
    14, 216, 0, 6, 2, 179, 163, 0, 14, 218, 0, 6, 3, 179, 163, 0,
    14, 220, 0, 6, 2, 183, 167, 0, 14, 222, 0, 6, 3, 183, 167, 0,
    14, 224, 0, 6, 2, 187, 203, 0, 14, 226, 0, 6, 3, 187, 203, 0,
    14, 228, 0, 6, 2, 191, 205, 0, 14, 230, 0, 6, 3, 191, 205, 0,
    14, 232, 0, 6, 2, 195, 207, 0, 14, 234, 0, 6, 3, 195, 207, 0,
    14, 236, 0, 6, 2, 199, 209, 0, 14, 238, 0, 6, 3, 199, 209, 0,
    14, 240, 0, 6, 2, 201, 208, 0, 14, 242, 0, 6, 3, 201, 208, 0,
    14, 244, 0, 6, 2, 197, 206, 0, 14, 246, 0, 6, 3, 197, 206, 0,
    14, 248, 0, 6, 2, 193, 204, 0, 14, 250, 0, 6, 3, 193, 204, 0,
    14, 252, 0, 6, 2, 189, 202, 0, 14, 254, 0, 6, 3, 189, 202, 0,
    14, 256, 0, 6, 2, 185, 151, 0, 14, 258, 0, 6, 3, 185, 151, 0,
    14, 260, 0, 6, 2, 181, 147, 0, 14, 262, 0, 6, 3, 181, 147, 0,
    14, 264, 0, 6, 2, 177, 143, 0, 14, 266, 0, 6, 3, 177, 143, 0,
    14, 268, 0, 6, 2, 173, 139, 0, 14, 270, 0, 6, 3, 173, 139, 0,
    14, 272, 0, 6,
];

/// Output registers of the column pass of `idct32_low8`.
#[verifier::opaque]
pub const IDCT32_LOW8_COL_OUTS: [i32; 32] = [
    211, 215, 219, 223, 227, 231, 235, 239, 243, 247, 251, 255, 259, 263, 267, 271,
    273, 269, 265, 261, 257, 253, 249, 245, 241, 237, 233, 229, 225, 221, 217, 213,
];

/// Operations of the row pass of `idct32_low8`.
#[verifier::opaque]
pub const IDCT32_LOW8_ROW_OPS: [i32; 1220] = [
    7, 1, 0, 2, 7, 1, 0, 62, 7, 7, 0, 114, 7, 7, 0, 14,
    7, 5, 0, 10, 7, 5, 0, 54, 7, 3, 0, 122, 7, 3, 0, 6,
    7, 2, 0, 4, 7, 2, 0, 60, 7, 6, 0, 116, 7, 6, 0, 12,
    7, 4, 0, 8, 7, 4, 0, 56, 6, 34, 33, 7240, 6, 34, 33, 1080,
    6, 35, 36, 9336, 6, 35, 36, 7240, 6, 38, 37, 3176, 6, 38, 37, 5144,
    6, 39, 40, 13400, 6, 39, 40, 3176, 7, 0, 0, 32, 6, 42, 41, 6224,
    6, 42, 41, 2096, 6, 43, 44, 10352, 6, 43, 44, 6224, 2, 34, 35, 0,
    14, 60, 0, 8, 3, 34, 35, 0, 14, 62, 0, 8, 2, 47, 49, 0,
    14, 64, 0, 8, 3, 47, 49, 0, 14, 66, 0, 8, 2, 39, 38, 0,
    14, 68, 0, 8, 3, 39, 38, 0, 14, 70, 0, 8, 2, 53, 51, 0,
    14, 72, 0, 8, 3, 53, 51, 0, 14, 74, 0, 8, 2, 40, 37, 0,
    14, 76, 0, 8, 3, 40, 37, 0, 14, 78, 0, 8, 2, 54, 52, 0,
    14, 80, 0, 8, 3, 54, 52, 0, 14, 82, 0, 8, 2, 33, 36, 0,
    14, 84, 0, 8, 3, 33, 36, 0, 14, 86, 0, 8, 2, 48, 50, 0,
    14, 88, 0, 8, 3, 48, 50, 0, 14, 90, 0, 8, 6, 46, 45, 4192,
    6, 46, 45, 4128, 2, 42, 43, 0, 14, 94, 0, 8, 3, 42, 43, 0,
    14, 96, 0, 8, 2, 56, 58, 0, 14, 98, 0, 8, 3, 56, 58, 0,
    14, 100, 0, 8, 2, 41, 44, 0, 14, 102, 0, 8, 3, 41, 44, 0,
    14, 104, 0, 8, 2, 57, 59, 0, 14, 106, 0, 8, 3, 57, 59, 0,
    14, 108, 0, 8, 6, 67, 91, 6224, 6, 67, 91, 2096, 6, 63, 87, 6224,
    6, 63, 87, 2096, 6, 71, 79, 10352, 6, 71, 79, 6224, 6, 75, 83, 10352,
    6, 75, 83, 6224, 2, 55, 45, 0, 14, 118, 0, 8, 3, 55, 45, 0,
    14, 120, 0, 8, 2, 55, 93, 0, 14, 122, 0, 8, 3, 55, 93, 0,
    14, 124, 0, 8, 2, 55, 92, 0, 14, 126, 0, 8, 3, 55, 92, 0,
    14, 128, 0, 8, 2, 55, 46, 0, 14, 130, 0, 8, 3, 55, 46, 0,
    14, 132, 0, 8, 6, 101, 109, 4192, 6, 101, 109, 4128, 6, 97, 105, 4192,
    6, 97, 105, 4128, 2, 61, 69, 0, 14, 138, 0, 8, 3, 61, 69, 0,
    14, 140, 0, 8, 2, 65, 73, 0, 14, 142, 0, 8, 3, 65, 73, 0,
    14, 144, 0, 8, 2, 110, 116, 0, 14, 146, 0, 8, 3, 110, 116, 0,
    14, 148, 0, 8, 2, 112, 114, 0, 14, 150, 0, 8, 3, 112, 114, 0,
    14, 152, 0, 8, 2, 85, 77, 0, 14, 154, 0, 8, 3, 85, 77, 0,
    14, 156, 0, 8, 2, 89, 81, 0, 14, 158, 0, 8, 3, 89, 81, 0,
    14, 160, 0, 8, 2, 111, 117, 0, 14, 162, 0, 8, 3, 111, 117, 0,
    14, 164, 0, 8, 2, 113, 115, 0, 14, 166, 0, 8, 3, 113, 115, 0,
    14, 168, 0, 8, 2, 119, 103, 0, 14, 170, 0, 8, 3, 119, 103, 0,
    14, 172, 0, 8, 2, 123, 107, 0, 14, 174, 0, 8, 3, 123, 107, 0,
    14, 176, 0, 8, 2, 127, 135, 0, 14, 178, 0, 8, 3, 127, 135, 0,
    14, 180, 0, 8, 2, 131, 137, 0, 14, 182, 0, 8, 3, 131, 137, 0,
    14, 184, 0, 8, 2, 133, 136, 0, 14, 186, 0, 8, 3, 133, 136, 0,
    14, 188, 0, 8, 2, 129, 134, 0, 14, 190, 0, 8, 3, 129, 134, 0,
    14, 192, 0, 8, 2, 125, 99, 0, 14, 194, 0, 8, 3, 125, 99, 0,
    14, 196, 0, 8, 2, 121, 95, 0, 14, 198, 0, 8, 3, 121, 95, 0,
    14, 200, 0, 8, 6, 153, 169, 4192, 6, 153, 169, 4128, 6, 149, 165, 4192,
    6, 149, 165, 4128, 6, 145, 161, 4192, 6, 145, 161, 4128, 6, 141, 157, 4192,
    6, 141, 157, 4128, 2, 171, 155, 0, 14, 210, 0, 8, 3, 171, 155, 0,
    14, 212, 0, 8, 2, 175, 159, 0, 14, 214, 0, 8, 3, 175, 159, 0,
    14, 216, 0, 8, 2, 179, 163, 0, 14, 218, 0, 8, 3, 179, 163, 0,
    14, 220, 0, 8, 2, 183, 167, 0, 14, 222, 0, 8, 3, 183, 167, 0,
    14, 224, 0, 8, 2, 187, 203, 0, 14, 226, 0, 8, 3, 187, 203, 0,
    14, 228, 0, 8, 2, 191, 205, 0, 14, 230, 0, 8, 3, 191, 205, 0,
    14, 232, 0, 8, 2, 195, 207, 0, 14, 234, 0, 8, 3, 195, 207, 0,
    14, 236, 0, 8, 2, 199, 209, 0, 14, 238, 0, 8, 3, 199, 209, 0,
    14, 240, 0, 8, 2, 201, 208, 0, 14, 242, 0, 8, 3, 201, 208, 0,
    14, 244, 0, 8, 2, 197, 206, 0, 14, 246, 0, 8, 3, 197, 206, 0,
    14, 248, 0, 8, 2, 193, 204, 0, 14, 250, 0, 8, 3, 193, 204, 0,
    14, 252, 0, 8, 2, 189, 202, 0, 14, 254, 0, 8, 3, 189, 202, 0,
    14, 256, 0, 8, 2, 185, 151, 0, 14, 258, 0, 8, 3, 185, 151, 0,
    14, 260, 0, 8, 2, 181, 147, 0, 14, 262, 0, 8, 3, 181, 147, 0,
    14, 264, 0, 8, 2, 177, 143, 0, 14, 266, 0, 8, 3, 177, 143, 0,
    14, 268, 0, 8, 2, 173, 139, 0, 14, 270, 0, 8, 3, 173, 139, 0,
    14, 272, 0, 8, 13, 211, 0, 0, 13, 215, 0, 0, 13, 219, 0, 0,
    13, 223, 0, 0, 13, 227, 0, 0, 13, 231, 0, 0, 13, 235, 0, 0,
    13, 239, 0, 0, 13, 243, 0, 0, 13, 247, 0, 0, 13, 251, 0, 0,
    13, 255, 0, 0, 13, 259, 0, 0, 13, 263, 0, 0, 13, 267, 0, 0,
    13, 271, 0, 0, 13, 273, 0, 0, 13, 269, 0, 0, 13, 265, 0, 0,
    13, 261, 0, 0, 13, 257, 0, 0, 13, 253, 0, 0, 13, 249, 0, 0,
    13, 245, 0, 0, 13, 241, 0, 0, 13, 237, 0, 0, 13, 233, 0, 0,
    13, 229, 0, 0, 13, 225, 0, 0, 13, 221, 0, 0, 13, 217, 0, 0,
    13, 213, 0, 0, 14, 274, 0, 6, 14, 275, 0, 6, 14, 276, 0, 6,
    14, 277, 0, 6, 14, 278, 0, 6, 14, 279, 0, 6, 14, 280, 0, 6,
    14, 281, 0, 6, 14, 282, 0, 6, 14, 283, 0, 6, 14, 284, 0, 6,
    14, 285, 0, 6, 14, 286, 0, 6, 14, 287, 0, 6, 14, 288, 0, 6,
    14, 289, 0, 6, 14, 290, 0, 6, 14, 291, 0, 6, 14, 292, 0, 6,
    14, 293, 0, 6, 14, 294, 0, 6, 14, 295, 0, 6, 14, 296, 0, 6,
    14, 297, 0, 6, 14, 298, 0, 6, 14, 299, 0, 6, 14, 300, 0, 6,
    14, 301, 0, 6, 14, 302, 0, 6, 14, 303, 0, 6, 14, 304, 0, 6,
    14, 305, 0, 6,
];

/// Output registers of the row pass of `idct32_low8`.
#[verifier::opaque]
pub const IDCT32_LOW8_ROW_OUTS: [i32; 32] = [
    306, 307, 308, 309, 310, 311, 312, 313, 314, 315, 316, 317, 318, 319, 320, 321,
    322, 323, 324, 325, 326, 327, 328, 329, 330, 331, 332, 333, 334, 335, 336, 337,
];

/// Operations of the column pass of `idct32_low16`.
#[verifier::opaque]
pub const IDCT32_LOW16_COL_OPS: [i32; 1284] = [
    7, 1, 0, 2, 7, 1, 0, 62, 7, 15, 0, 98, 7, 15, 0, 30,
    7, 9, 0, 18, 7, 9, 0, 46, 7, 7, 0, 114, 7, 7, 0, 14,
    7, 5, 0, 10, 7, 5, 0, 54, 7, 11, 0, 106, 7, 11, 0, 22,
    7, 13, 0, 26, 7, 13, 0, 38, 7, 3, 0, 122, 7, 3, 0, 6,
    7, 2, 0, 4, 7, 2, 0, 60, 7, 14, 0, 100, 7, 14, 0, 28,
    7, 10, 0, 20, 7, 10, 0, 44, 7, 6, 0, 116, 7, 6, 0, 12,
    2, 34, 35, 0, 14, 57, 0, 6, 3, 34, 35, 0, 14, 59, 0, 6,
    2, 39, 38, 0, 14, 61, 0, 6, 3, 39, 38, 0, 14, 63, 0, 6,
    2, 42, 43, 0, 14, 65, 0, 6, 3, 42, 43, 0, 14, 67, 0, 6,
    2, 47, 46, 0, 14, 69, 0, 6, 3, 47, 46, 0, 14, 71, 0, 6,
    2, 48, 45, 0, 14, 73, 0, 6, 3, 48, 45, 0, 14, 75, 0, 6,
    2, 41, 44, 0, 14, 77, 0, 6, 3, 41, 44, 0, 14, 79, 0, 6,
    2, 40, 37, 0, 14, 81, 0, 6, 3, 40, 37, 0, 14, 83, 0, 6,
    2, 33, 36, 0, 14, 85, 0, 6, 3, 33, 36, 0, 14, 87, 0, 6,
    7, 4, 0, 8, 7, 4, 0, 56, 7, 12, 0, 104, 7, 12, 0, 24,
    2, 50, 51, 0, 14, 93, 0, 6, 3, 50, 51, 0, 14, 95, 0, 6,
    2, 55, 54, 0, 14, 97, 0, 6, 3, 55, 54, 0, 14, 99, 0, 6,
    2, 56, 53, 0, 14, 101, 0, 6, 3, 56, 53, 0, 14, 103, 0, 6,
    2, 49, 52, 0, 14, 105, 0, 6, 3, 49, 52, 0, 14, 107, 0, 6,
    6, 60, 88, 7240, 6, 60, 88, 1080, 6, 64, 84, 9336, 6, 64, 84, 7240,
    6, 68, 80, 3176, 6, 68, 80, 5144, 6, 72, 76, 13400, 6, 72, 76, 3176,
    7, 0, 0, 32, 7, 8, 0, 16, 7, 8, 0, 48, 2, 90, 91, 0,
    14, 120, 0, 6, 3, 90, 91, 0, 14, 122, 0, 6, 2, 89, 92, 0,
    14, 124, 0, 6, 3, 89, 92, 0, 14, 126, 0, 6, 6, 96, 108, 6224,
    6, 96, 108, 2096, 6, 100, 104, 10352, 6, 100, 104, 6224, 2, 58, 62, 0,
    14, 132, 0, 6, 3, 58, 62, 0, 14, 134, 0, 6, 2, 109, 111, 0,
    14, 136, 0, 6, 3, 109, 111, 0, 14, 138, 0, 6, 2, 70, 66, 0,
    14, 140, 0, 6, 3, 70, 66, 0, 14, 142, 0, 6, 2, 115, 113, 0,
    14, 144, 0, 6, 3, 115, 113, 0, 14, 146, 0, 6, 2, 74, 78, 0,
    14, 148, 0, 6, 3, 74, 78, 0, 14, 150, 0, 6, 2, 116, 114, 0,
    14, 152, 0, 6, 3, 116, 114, 0, 14, 154, 0, 6, 2, 86, 82, 0,
    14, 156, 0, 6, 3, 86, 82, 0, 14, 158, 0, 6, 2, 110, 112, 0,
    14, 160, 0, 6, 3, 110, 112, 0, 14, 162, 0, 6, 2, 117, 118, 0,
    14, 164, 0, 6, 3, 117, 118, 0, 14, 166, 0, 6, 2, 117, 119, 0,
    14, 168, 0, 6, 3, 117, 119, 0, 14, 170, 0, 6, 6, 123, 127, 4192,
    6, 123, 127, 4128, 2, 94, 98, 0, 14, 174, 0, 6, 3, 94, 98, 0,
    14, 176, 0, 6, 2, 128, 130, 0, 14, 178, 0, 6, 3, 128, 130, 0,
    14, 180, 0, 6, 2, 106, 102, 0, 14, 182, 0, 6, 3, 106, 102, 0,
    14, 184, 0, 6, 2, 129, 131, 0, 14, 186, 0, 6, 3, 129, 131, 0,
    14, 188, 0, 6, 6, 139, 163, 6224, 6, 139, 163, 2096, 6, 135, 159, 6224,
    6, 135, 159, 2096, 6, 143, 151, 10352, 6, 143, 151, 6224, 6, 147, 155, 10352,
    6, 147, 155, 6224, 2, 165, 125, 0, 14, 198, 0, 6, 3, 165, 125, 0,
    14, 200, 0, 6, 2, 169, 173, 0, 14, 202, 0, 6, 3, 169, 173, 0,
    14, 204, 0, 6, 2, 171, 172, 0, 14, 206, 0, 6, 3, 171, 172, 0,
    14, 208, 0, 6, 2, 167, 121, 0, 14, 210, 0, 6, 3, 167, 121, 0,
    14, 212, 0, 6, 6, 181, 189, 4192, 6, 181, 189, 4128, 6, 177, 185, 4192,
    6, 177, 185, 4128, 2, 133, 141, 0, 14, 218, 0, 6, 3, 133, 141, 0,
    14, 220, 0, 6, 2, 137, 145, 0, 14, 222, 0, 6, 3, 137, 145, 0,
    14, 224, 0, 6, 2, 190, 196, 0, 14, 226, 0, 6, 3, 190, 196, 0,
    14, 228, 0, 6, 2, 192, 194, 0, 14, 230, 0, 6, 3, 192, 194, 0,
    14, 232, 0, 6, 2, 157, 149, 0, 14, 234, 0, 6, 3, 157, 149, 0,
    14, 236, 0, 6, 2, 161, 153, 0, 14, 238, 0, 6, 3, 161, 153, 0,
    14, 240, 0, 6, 2, 191, 197, 0, 14, 242, 0, 6, 3, 191, 197, 0,
    14, 244, 0, 6, 2, 193, 195, 0, 14, 246, 0, 6, 3, 193, 195, 0,
    14, 248, 0, 6, 2, 199, 183, 0, 14, 250, 0, 6, 3, 199, 183, 0,
    14, 252, 0, 6, 2, 203, 187, 0, 14, 254, 0, 6, 3, 203, 187, 0,
    14, 256, 0, 6, 2, 207, 215, 0, 14, 258, 0, 6, 3, 207, 215, 0,
    14, 260, 0, 6, 2, 211, 217, 0, 14, 262, 0, 6, 3, 211, 217, 0,
    14, 264, 0, 6, 2, 213, 216, 0, 14, 266, 0, 6, 3, 213, 216, 0,
    14, 268, 0, 6, 2, 209, 214, 0, 14, 270, 0, 6, 3, 209, 214, 0,
    14, 272, 0, 6, 2, 205, 179, 0, 14, 274, 0, 6, 3, 205, 179, 0,
    14, 276, 0, 6, 2, 201, 175, 0, 14, 278, 0, 6, 3, 201, 175, 0,
    14, 280, 0, 6, 6, 233, 249, 4192, 6, 233, 249, 4128, 6, 229, 245, 4192,
    6, 229, 245, 4128, 6, 225, 241, 4192, 6, 225, 241, 4128, 6, 221, 237, 4192,
    6, 221, 237, 4128, 2, 251, 235, 0, 14, 290, 0, 6, 3, 251, 235, 0,
    14, 292, 0, 6, 2, 255, 239, 0, 14, 294, 0, 6, 3, 255, 239, 0,
    14, 296, 0, 6, 2, 259, 243, 0, 14, 298, 0, 6, 3, 259, 243, 0,
    14, 300, 0, 6, 2, 263, 247, 0, 14, 302, 0, 6, 3, 263, 247, 0,
    14, 304, 0, 6, 2, 267, 283, 0, 14, 306, 0, 6, 3, 267, 283, 0,
    14, 308, 0, 6, 2, 271, 285, 0, 14, 310, 0, 6, 3, 271, 285, 0,
    14, 312, 0, 6, 2, 275, 287, 0, 14, 314, 0, 6, 3, 275, 287, 0,
    14, 316, 0, 6, 2, 279, 289, 0, 14, 318, 0, 6, 3, 279, 289, 0,
    14, 320, 0, 6, 2, 281, 288, 0, 14, 322, 0, 6, 3, 281, 288, 0,
    14, 324, 0, 6, 2, 277, 286, 0, 14, 326, 0, 6, 3, 277, 286, 0,
    14, 328, 0, 6, 2, 273, 284, 0, 14, 330, 0, 6, 3, 273, 284, 0,
    14, 332, 0, 6, 2, 269, 282, 0, 14, 334, 0, 6, 3, 269, 282, 0,
    14, 336, 0, 6, 2, 265, 231, 0, 14, 338, 0, 6, 3, 265, 231, 0,
    14, 340, 0, 6, 2, 261, 227, 0, 14, 342, 0, 6, 3, 261, 227, 0,
    14, 344, 0, 6, 2, 257, 223, 0, 14, 346, 0, 6, 3, 257, 223, 0,
    14, 348, 0, 6, 2, 253, 219, 0, 14, 350, 0, 6, 3, 253, 219, 0,
    14, 352, 0, 6,
];

/// Output registers of the column pass of `idct32_low16`.
#[verifier::opaque]
pub const IDCT32_LOW16_COL_OUTS: [i32; 32] = [
    291, 295, 299, 303, 307, 311, 315, 319, 323, 327, 331, 335, 339, 343, 347, 351,
    353, 349, 345, 341, 337, 333, 329, 325, 321, 317, 313, 309, 305, 301, 297, 293,
];

/// Operations of the row pass of `idct32_low16`.
#[verifier::opaque]
pub const IDCT32_LOW16_ROW_OPS: [i32; 1540] = [
    7, 1, 0, 2, 7, 1, 0, 62, 7, 15, 0, 98, 7, 15, 0, 30,
    7, 9, 0, 18, 7, 9, 0, 46, 7, 7, 0, 114, 7, 7, 0, 14,
    7, 5, 0, 10, 7, 5, 0, 54, 7, 11, 0, 106, 7, 11, 0, 22,
    7, 13, 0, 26, 7, 13, 0, 38, 7, 3, 0, 122, 7, 3, 0, 6,
    7, 2, 0, 4, 7, 2, 0, 60, 7, 14, 0, 100, 7, 14, 0, 28,
    7, 10, 0, 20, 7, 10, 0, 44, 7, 6, 0, 116, 7, 6, 0, 12,
    2, 34, 35, 0, 14, 57, 0, 8, 3, 34, 35, 0, 14, 59, 0, 8,
    2, 39, 38, 0, 14, 61, 0, 8, 3, 39, 38, 0, 14, 63, 0, 8,
    2, 42, 43, 0, 14, 65, 0, 8, 3, 42, 43, 0, 14, 67, 0, 8,
    2, 47, 46, 0, 14, 69, 0, 8, 3, 47, 46, 0, 14, 71, 0, 8,
    2, 48, 45, 0, 14, 73, 0, 8, 3, 48, 45, 0, 14, 75, 0, 8,
    2, 41, 44, 0, 14, 77, 0, 8, 3, 41, 44, 0, 14, 79, 0, 8,
    2, 40, 37, 0, 14, 81, 0, 8, 3, 40, 37, 0, 14, 83, 0, 8,
    2, 33, 36, 0, 14, 85, 0, 8, 3, 33, 36, 0, 14, 87, 0, 8,
    7, 4, 0, 8, 7, 4, 0, 56, 7, 12, 0, 104, 7, 12, 0, 24,
    2, 50, 51, 0, 14, 93, 0, 8, 3, 50, 51, 0, 14, 95, 0, 8,
    2, 55, 54, 0, 14, 97, 0, 8, 3, 55, 54, 0, 14, 99, 0, 8,
    2, 56, 53, 0, 14, 101, 0, 8, 3, 56, 53, 0, 14, 103, 0, 8,
    2, 49, 52, 0, 14, 105, 0, 8, 3, 49, 52, 0, 14, 107, 0, 8,
    6, 60, 88, 7240, 6, 60, 88, 1080, 6, 64, 84, 9336, 6, 64, 84, 7240,
    6, 68, 80, 3176, 6, 68, 80, 5144, 6, 72, 76, 13400, 6, 72, 76, 3176,
    7, 0, 0, 32, 7, 8, 0, 16, 7, 8, 0, 48, 2, 90, 91, 0,
    14, 120, 0, 8, 3, 90, 91, 0, 14, 122, 0, 8, 2, 89, 92, 0,
    14, 124, 0, 8, 3, 89, 92, 0, 14, 126, 0, 8, 6, 96, 108, 6224,
    6, 96, 108, 2096, 6, 100, 104, 10352, 6, 100, 104, 6224, 2, 58, 62, 0,
    14, 132, 0, 8, 3, 58, 62, 0, 14, 134, 0, 8, 2, 109, 111, 0,
    14, 136, 0, 8, 3, 109, 111, 0, 14, 138, 0, 8, 2, 70, 66, 0,
    14, 140, 0, 8, 3, 70, 66, 0, 14, 142, 0, 8, 2, 115, 113, 0,
    14, 144, 0, 8, 3, 115, 113, 0, 14, 146, 0, 8, 2, 74, 78, 0,
    14, 148, 0, 8, 3, 74, 78, 0, 14, 150, 0, 8, 2, 116, 114, 0,
    14, 152, 0, 8, 3, 116, 114, 0, 14, 154, 0, 8, 2, 86, 82, 0,
    14, 156, 0, 8, 3, 86, 82, 0, 14, 158, 0, 8, 2, 110, 112, 0,
    14, 160, 0, 8, 3, 110, 112, 0, 14, 162, 0, 8, 2, 117, 118, 0,
    14, 164, 0, 8, 3, 117, 118, 0, 14, 166, 0, 8, 2, 117, 119, 0,
    14, 168, 0, 8, 3, 117, 119, 0, 14, 170, 0, 8, 6, 123, 127, 4192,
    6, 123, 127, 4128, 2, 94, 98, 0, 14, 174, 0, 8, 3, 94, 98, 0,
    14, 176, 0, 8, 2, 128, 130, 0, 14, 178, 0, 8, 3, 128, 130, 0,
    14, 180, 0, 8, 2, 106, 102, 0, 14, 182, 0, 8, 3, 106, 102, 0,
    14, 184, 0, 8, 2, 129, 131, 0, 14, 186, 0, 8, 3, 129, 131, 0,
    14, 188, 0, 8, 6, 139, 163, 6224, 6, 139, 163, 2096, 6, 135, 159, 6224,
    6, 135, 159, 2096, 6, 143, 151, 10352, 6, 143, 151, 6224, 6, 147, 155, 10352,
    6, 147, 155, 6224, 2, 165, 125, 0, 14, 198, 0, 8, 3, 165, 125, 0,
    14, 200, 0, 8, 2, 169, 173, 0, 14, 202, 0, 8, 3, 169, 173, 0,
    14, 204, 0, 8, 2, 171, 172, 0, 14, 206, 0, 8, 3, 171, 172, 0,
    14, 208, 0, 8, 2, 167, 121, 0, 14, 210, 0, 8, 3, 167, 121, 0,
    14, 212, 0, 8, 6, 181, 189, 4192, 6, 181, 189, 4128, 6, 177, 185, 4192,
    6, 177, 185, 4128, 2, 133, 141, 0, 14, 218, 0, 8, 3, 133, 141, 0,
    14, 220, 0, 8, 2, 137, 145, 0, 14, 222, 0, 8, 3, 137, 145, 0,
    14, 224, 0, 8, 2, 190, 196, 0, 14, 226, 0, 8, 3, 190, 196, 0,
    14, 228, 0, 8, 2, 192, 194, 0, 14, 230, 0, 8, 3, 192, 194, 0,
    14, 232, 0, 8, 2, 157, 149, 0, 14, 234, 0, 8, 3, 157, 149, 0,
    14, 236, 0, 8, 2, 161, 153, 0, 14, 238, 0, 8, 3, 161, 153, 0,
    14, 240, 0, 8, 2, 191, 197, 0, 14, 242, 0, 8, 3, 191, 197, 0,
    14, 244, 0, 8, 2, 193, 195, 0, 14, 246, 0, 8, 3, 193, 195, 0,
    14, 248, 0, 8, 2, 199, 183, 0, 14, 250, 0, 8, 3, 199, 183, 0,
    14, 252, 0, 8, 2, 203, 187, 0, 14, 254, 0, 8, 3, 203, 187, 0,
    14, 256, 0, 8, 2, 207, 215, 0, 14, 258, 0, 8, 3, 207, 215, 0,
    14, 260, 0, 8, 2, 211, 217, 0, 14, 262, 0, 8, 3, 211, 217, 0,
    14, 264, 0, 8, 2, 213, 216, 0, 14, 266, 0, 8, 3, 213, 216, 0,
    14, 268, 0, 8, 2, 209, 214, 0, 14, 270, 0, 8, 3, 209, 214, 0,
    14, 272, 0, 8, 2, 205, 179, 0, 14, 274, 0, 8, 3, 205, 179, 0,
    14, 276, 0, 8, 2, 201, 175, 0, 14, 278, 0, 8, 3, 201, 175, 0,
    14, 280, 0, 8, 6, 233, 249, 4192, 6, 233, 249, 4128, 6, 229, 245, 4192,
    6, 229, 245, 4128, 6, 225, 241, 4192, 6, 225, 241, 4128, 6, 221, 237, 4192,
    6, 221, 237, 4128, 2, 251, 235, 0, 14, 290, 0, 8, 3, 251, 235, 0,
    14, 292, 0, 8, 2, 255, 239, 0, 14, 294, 0, 8, 3, 255, 239, 0,
    14, 296, 0, 8, 2, 259, 243, 0, 14, 298, 0, 8, 3, 259, 243, 0,
    14, 300, 0, 8, 2, 263, 247, 0, 14, 302, 0, 8, 3, 263, 247, 0,
    14, 304, 0, 8, 2, 267, 283, 0, 14, 306, 0, 8, 3, 267, 283, 0,
    14, 308, 0, 8, 2, 271, 285, 0, 14, 310, 0, 8, 3, 271, 285, 0,
    14, 312, 0, 8, 2, 275, 287, 0, 14, 314, 0, 8, 3, 275, 287, 0,
    14, 316, 0, 8, 2, 279, 289, 0, 14, 318, 0, 8, 3, 279, 289, 0,
    14, 320, 0, 8, 2, 281, 288, 0, 14, 322, 0, 8, 3, 281, 288, 0,
    14, 324, 0, 8, 2, 277, 286, 0, 14, 326, 0, 8, 3, 277, 286, 0,
    14, 328, 0, 8, 2, 273, 284, 0, 14, 330, 0, 8, 3, 273, 284, 0,
    14, 332, 0, 8, 2, 269, 282, 0, 14, 334, 0, 8, 3, 269, 282, 0,
    14, 336, 0, 8, 2, 265, 231, 0, 14, 338, 0, 8, 3, 265, 231, 0,
    14, 340, 0, 8, 2, 261, 227, 0, 14, 342, 0, 8, 3, 261, 227, 0,
    14, 344, 0, 8, 2, 257, 223, 0, 14, 346, 0, 8, 3, 257, 223, 0,
    14, 348, 0, 8, 2, 253, 219, 0, 14, 350, 0, 8, 3, 253, 219, 0,
    14, 352, 0, 8, 13, 291, 0, 0, 13, 295, 0, 0, 13, 299, 0, 0,
    13, 303, 0, 0, 13, 307, 0, 0, 13, 311, 0, 0, 13, 315, 0, 0,
    13, 319, 0, 0, 13, 323, 0, 0, 13, 327, 0, 0, 13, 331, 0, 0,
    13, 335, 0, 0, 13, 339, 0, 0, 13, 343, 0, 0, 13, 347, 0, 0,
    13, 351, 0, 0, 13, 353, 0, 0, 13, 349, 0, 0, 13, 345, 0, 0,
    13, 341, 0, 0, 13, 337, 0, 0, 13, 333, 0, 0, 13, 329, 0, 0,
    13, 325, 0, 0, 13, 321, 0, 0, 13, 317, 0, 0, 13, 313, 0, 0,
    13, 309, 0, 0, 13, 305, 0, 0, 13, 301, 0, 0, 13, 297, 0, 0,
    13, 293, 0, 0, 14, 354, 0, 6, 14, 355, 0, 6, 14, 356, 0, 6,
    14, 357, 0, 6, 14, 358, 0, 6, 14, 359, 0, 6, 14, 360, 0, 6,
    14, 361, 0, 6, 14, 362, 0, 6, 14, 363, 0, 6, 14, 364, 0, 6,
    14, 365, 0, 6, 14, 366, 0, 6, 14, 367, 0, 6, 14, 368, 0, 6,
    14, 369, 0, 6, 14, 370, 0, 6, 14, 371, 0, 6, 14, 372, 0, 6,
    14, 373, 0, 6, 14, 374, 0, 6, 14, 375, 0, 6, 14, 376, 0, 6,
    14, 377, 0, 6, 14, 378, 0, 6, 14, 379, 0, 6, 14, 380, 0, 6,
    14, 381, 0, 6, 14, 382, 0, 6, 14, 383, 0, 6, 14, 384, 0, 6,
    14, 385, 0, 6,
];

/// Output registers of the row pass of `idct32_low16`.
#[verifier::opaque]
pub const IDCT32_LOW16_ROW_OUTS: [i32; 32] = [
    386, 387, 388, 389, 390, 391, 392, 393, 394, 395, 396, 397, 398, 399, 400, 401,
    402, 403, 404, 405, 406, 407, 408, 409, 410, 411, 412, 413, 414, 415, 416, 417,
];

/// Operations of the column pass of `idct32`.
#[verifier::opaque]
pub const IDCT32_COL_OPS: [i32; 1288] = [
    6, 1, 31, 8510, 6, 17, 15, 12574, 6, 9, 23, 10542, 6, 25, 7, 14606,
    6, 5, 27, 9526, 6, 21, 11, 13590, 6, 13, 19, 11558, 6, 29, 3, 15622,
    6, 29, 3, 826, 6, 13, 19, 4890, 6, 21, 11, 2858, 6, 5, 27, 6922,
    6, 25, 7, 1842, 6, 9, 23, 5906, 6, 17, 15, 3874, 6, 1, 31, 7938,
    6, 2, 30, 8764, 6, 18, 14, 12828, 6, 10, 22, 10796, 6, 26, 6, 14860,
    6, 26, 6, 1588, 6, 10, 22, 5652, 6, 18, 14, 3620, 6, 2, 30, 7684,
    2, 33, 34, 0, 14, 57, 0, 6, 3, 33, 34, 0, 14, 59, 0, 6,
    2, 36, 35, 0, 14, 61, 0, 6, 3, 36, 35, 0, 14, 63, 0, 6,
    2, 37, 38, 0, 14, 65, 0, 6, 3, 37, 38, 0, 14, 67, 0, 6,
    2, 40, 39, 0, 14, 69, 0, 6, 3, 40, 39, 0, 14, 71, 0, 6,
    2, 41, 42, 0, 14, 73, 0, 6, 3, 41, 42, 0, 14, 75, 0, 6,
    2, 44, 43, 0, 14, 77, 0, 6, 3, 44, 43, 0, 14, 79, 0, 6,
    2, 45, 46, 0, 14, 81, 0, 6, 3, 45, 46, 0, 14, 83, 0, 6,
    2, 48, 47, 0, 14, 85, 0, 6, 3, 48, 47, 0, 14, 87, 0, 6,
    6, 4, 28, 9272, 6, 20, 12, 13336, 6, 20, 12, 3112, 6, 4, 28, 7176,
    2, 49, 50, 0, 14, 93, 0, 6, 3, 49, 50, 0, 14, 95, 0, 6,
    2, 52, 51, 0, 14, 97, 0, 6, 3, 52, 51, 0, 14, 99, 0, 6,
    2, 53, 54, 0, 14, 101, 0, 6, 3, 53, 54, 0, 14, 103, 0, 6,
    2, 56, 55, 0, 14, 105, 0, 6, 3, 56, 55, 0, 14, 107, 0, 6,
    6, 60, 88, 7240, 6, 64, 84, 9336, 6, 68, 80, 3176, 6, 72, 76, 13400,
    6, 72, 76, 3176, 6, 68, 80, 5144, 6, 64, 84, 7240, 6, 60, 88, 1080,
    6, 0, 16, 4128, 6, 0, 16, 12320, 6, 8, 24, 10288, 6, 8, 24, 6160,
    2, 89, 90, 0, 14, 121, 0, 6, 3, 89, 90, 0, 14, 123, 0, 6,
    2, 92, 91, 0, 14, 125, 0, 6, 3, 92, 91, 0, 14, 127, 0, 6,
    6, 96, 108, 6224, 6, 100, 104, 10352, 6, 100, 104, 6224, 6, 96, 108, 2096,
    2, 58, 62, 0, 14, 133, 0, 6, 3, 58, 62, 0, 14, 135, 0, 6,
    2, 109, 110, 0, 14, 137, 0, 6, 3, 109, 110, 0, 14, 139, 0, 6,
    2, 70, 66, 0, 14, 141, 0, 6, 3, 70, 66, 0, 14, 143, 0, 6,
    2, 112, 111, 0, 14, 145, 0, 6, 3, 112, 111, 0, 14, 147, 0, 6,
    2, 74, 78, 0, 14, 149, 0, 6, 3, 74, 78, 0, 14, 151, 0, 6,
    2, 113, 114, 0, 14, 153, 0, 6, 3, 113, 114, 0, 14, 155, 0, 6,
    2, 86, 82, 0, 14, 157, 0, 6, 3, 86, 82, 0, 14, 159, 0, 6,
    2, 116, 115, 0, 14, 161, 0, 6, 3, 116, 115, 0, 14, 163, 0, 6,
    2, 117, 120, 0, 14, 165, 0, 6, 3, 117, 120, 0, 14, 167, 0, 6,
    2, 118, 119, 0, 14, 169, 0, 6, 3, 118, 119, 0, 14, 171, 0, 6,
    6, 124, 128, 4192, 6, 124, 128, 4128, 2, 94, 98, 0, 14, 175, 0, 6,
    3, 94, 98, 0, 14, 177, 0, 6, 2, 129, 130, 0, 14, 179, 0, 6,
    3, 129, 130, 0, 14, 181, 0, 6, 2, 106, 102, 0, 14, 183, 0, 6,
    3, 106, 102, 0, 14, 185, 0, 6, 2, 132, 131, 0, 14, 187, 0, 6,
    3, 132, 131, 0, 14, 189, 0, 6, 6, 140, 164, 6224, 6, 136, 160, 6224,
    6, 144, 152, 10352, 6, 148, 156, 10352, 6, 148, 156, 6224, 6, 144, 152, 6224,
    6, 136, 160, 2096, 6, 140, 164, 2096, 2, 166, 126, 0, 14, 199, 0, 6,
    3, 166, 126, 0, 14, 201, 0, 6, 2, 170, 174, 0, 14, 203, 0, 6,
    3, 170, 174, 0, 14, 205, 0, 6, 2, 172, 173, 0, 14, 207, 0, 6,
    3, 172, 173, 0, 14, 209, 0, 6, 2, 168, 122, 0, 14, 211, 0, 6,
    3, 168, 122, 0, 14, 213, 0, 6, 6, 182, 190, 4192, 6, 178, 186, 4192,
    6, 178, 186, 4128, 6, 182, 190, 4128, 2, 134, 142, 0, 14, 219, 0, 6,
    3, 134, 142, 0, 14, 221, 0, 6, 2, 138, 146, 0, 14, 223, 0, 6,
    3, 138, 146, 0, 14, 225, 0, 6, 2, 191, 194, 0, 14, 227, 0, 6,
    3, 191, 194, 0, 14, 229, 0, 6, 2, 192, 193, 0, 14, 231, 0, 6,
    3, 192, 193, 0, 14, 233, 0, 6, 2, 158, 150, 0, 14, 235, 0, 6,
    3, 158, 150, 0, 14, 237, 0, 6, 2, 162, 154, 0, 14, 239, 0, 6,
    3, 162, 154, 0, 14, 241, 0, 6, 2, 198, 195, 0, 14, 243, 0, 6,
    3, 198, 195, 0, 14, 245, 0, 6, 2, 197, 196, 0, 14, 247, 0, 6,
    3, 197, 196, 0, 14, 249, 0, 6, 2, 200, 184, 0, 14, 251, 0, 6,
    3, 200, 184, 0, 14, 253, 0, 6, 2, 204, 188, 0, 14, 255, 0, 6,
    3, 204, 188, 0, 14, 257, 0, 6, 2, 208, 218, 0, 14, 259, 0, 6,
    3, 208, 218, 0, 14, 261, 0, 6, 2, 212, 217, 0, 14, 263, 0, 6,
    3, 212, 217, 0, 14, 265, 0, 6, 2, 214, 216, 0, 14, 267, 0, 6,
    3, 214, 216, 0, 14, 269, 0, 6, 2, 210, 215, 0, 14, 271, 0, 6,
    3, 210, 215, 0, 14, 273, 0, 6, 2, 206, 180, 0, 14, 275, 0, 6,
    3, 206, 180, 0, 14, 277, 0, 6, 2, 202, 176, 0, 14, 279, 0, 6,
    3, 202, 176, 0, 14, 281, 0, 6, 6, 234, 250, 4192, 6, 230, 246, 4192,
    6, 226, 242, 4192, 6, 222, 238, 4192, 6, 222, 238, 4128, 6, 226, 242, 4128,
    6, 230, 246, 4128, 6, 234, 250, 4128, 2, 252, 236, 0, 14, 291, 0, 6,
    3, 252, 236, 0, 14, 293, 0, 6, 2, 256, 240, 0, 14, 295, 0, 6,
    3, 256, 240, 0, 14, 297, 0, 6, 2, 260, 244, 0, 14, 299, 0, 6,
    3, 260, 244, 0, 14, 301, 0, 6, 2, 264, 248, 0, 14, 303, 0, 6,
    3, 264, 248, 0, 14, 305, 0, 6, 2, 268, 290, 0, 14, 307, 0, 6,
    3, 268, 290, 0, 14, 309, 0, 6, 2, 272, 289, 0, 14, 311, 0, 6,
    3, 272, 289, 0, 14, 313, 0, 6, 2, 276, 288, 0, 14, 315, 0, 6,
    3, 276, 288, 0, 14, 317, 0, 6, 2, 280, 287, 0, 14, 319, 0, 6,
    3, 280, 287, 0, 14, 321, 0, 6, 2, 282, 286, 0, 14, 323, 0, 6,
    3, 282, 286, 0, 14, 325, 0, 6, 2, 278, 285, 0, 14, 327, 0, 6,
    3, 278, 285, 0, 14, 329, 0, 6, 2, 274, 284, 0, 14, 331, 0, 6,
    3, 274, 284, 0, 14, 333, 0, 6, 2, 270, 283, 0, 14, 335, 0, 6,
    3, 270, 283, 0, 14, 337, 0, 6, 2, 266, 232, 0, 14, 339, 0, 6,
    3, 266, 232, 0, 14, 341, 0, 6, 2, 262, 228, 0, 14, 343, 0, 6,
    3, 262, 228, 0, 14, 345, 0, 6, 2, 258, 224, 0, 14, 347, 0, 6,
    3, 258, 224, 0, 14, 349, 0, 6, 2, 254, 220, 0, 14, 351, 0, 6,
    3, 254, 220, 0, 14, 353, 0, 6,
];

/// Output registers of the column pass of `idct32`.
#[verifier::opaque]
pub const IDCT32_COL_OUTS: [i32; 32] = [
    292, 296, 300, 304, 308, 312, 316, 320, 324, 328, 332, 336, 340, 344, 348, 352,
    354, 350, 346, 342, 338, 334, 330, 326, 322, 318, 314, 310, 306, 302, 298, 294,
];

/// Operations of the row pass of `idct32`.
#[verifier::opaque]
pub const IDCT32_ROW_OPS: [i32; 1544] = [
    6, 1, 31, 8510, 6, 17, 15, 12574, 6, 9, 23, 10542, 6, 25, 7, 14606,
    6, 5, 27, 9526, 6, 21, 11, 13590, 6, 13, 19, 11558, 6, 29, 3, 15622,
    6, 29, 3, 826, 6, 13, 19, 4890, 6, 21, 11, 2858, 6, 5, 27, 6922,
    6, 25, 7, 1842, 6, 9, 23, 5906, 6, 17, 15, 3874, 6, 1, 31, 7938,
    6, 2, 30, 8764, 6, 18, 14, 12828, 6, 10, 22, 10796, 6, 26, 6, 14860,
    6, 26, 6, 1588, 6, 10, 22, 5652, 6, 18, 14, 3620, 6, 2, 30, 7684,
    2, 33, 34, 0, 14, 57, 0, 8, 3, 33, 34, 0, 14, 59, 0, 8,
    2, 36, 35, 0, 14, 61, 0, 8, 3, 36, 35, 0, 14, 63, 0, 8,
    2, 37, 38, 0, 14, 65, 0, 8, 3, 37, 38, 0, 14, 67, 0, 8,
    2, 40, 39, 0, 14, 69, 0, 8, 3, 40, 39, 0, 14, 71, 0, 8,
    2, 41, 42, 0, 14, 73, 0, 8, 3, 41, 42, 0, 14, 75, 0, 8,
    2, 44, 43, 0, 14, 77, 0, 8, 3, 44, 43, 0, 14, 79, 0, 8,
    2, 45, 46, 0, 14, 81, 0, 8, 3, 45, 46, 0, 14, 83, 0, 8,
    2, 48, 47, 0, 14, 85, 0, 8, 3, 48, 47, 0, 14, 87, 0, 8,
    6, 4, 28, 9272, 6, 20, 12, 13336, 6, 20, 12, 3112, 6, 4, 28, 7176,
    2, 49, 50, 0, 14, 93, 0, 8, 3, 49, 50, 0, 14, 95, 0, 8,
    2, 52, 51, 0, 14, 97, 0, 8, 3, 52, 51, 0, 14, 99, 0, 8,
    2, 53, 54, 0, 14, 101, 0, 8, 3, 53, 54, 0, 14, 103, 0, 8,
    2, 56, 55, 0, 14, 105, 0, 8, 3, 56, 55, 0, 14, 107, 0, 8,
    6, 60, 88, 7240, 6, 64, 84, 9336, 6, 68, 80, 3176, 6, 72, 76, 13400,
    6, 72, 76, 3176, 6, 68, 80, 5144, 6, 64, 84, 7240, 6, 60, 88, 1080,
    6, 0, 16, 4128, 6, 0, 16, 12320, 6, 8, 24, 10288, 6, 8, 24, 6160,
    2, 89, 90, 0, 14, 121, 0, 8, 3, 89, 90, 0, 14, 123, 0, 8,
    2, 92, 91, 0, 14, 125, 0, 8, 3, 92, 91, 0, 14, 127, 0, 8,
    6, 96, 108, 6224, 6, 100, 104, 10352, 6, 100, 104, 6224, 6, 96, 108, 2096,
    2, 58, 62, 0, 14, 133, 0, 8, 3, 58, 62, 0, 14, 135, 0, 8,
    2, 109, 110, 0, 14, 137, 0, 8, 3, 109, 110, 0, 14, 139, 0, 8,
    2, 70, 66, 0, 14, 141, 0, 8, 3, 70, 66, 0, 14, 143, 0, 8,
    2, 112, 111, 0, 14, 145, 0, 8, 3, 112, 111, 0, 14, 147, 0, 8,
    2, 74, 78, 0, 14, 149, 0, 8, 3, 74, 78, 0, 14, 151, 0, 8,
    2, 113, 114, 0, 14, 153, 0, 8, 3, 113, 114, 0, 14, 155, 0, 8,
    2, 86, 82, 0, 14, 157, 0, 8, 3, 86, 82, 0, 14, 159, 0, 8,
    2, 116, 115, 0, 14, 161, 0, 8, 3, 116, 115, 0, 14, 163, 0, 8,
    2, 117, 120, 0, 14, 165, 0, 8, 3, 117, 120, 0, 14, 167, 0, 8,
    2, 118, 119, 0, 14, 169, 0, 8, 3, 118, 119, 0, 14, 171, 0, 8,
    6, 124, 128, 4192, 6, 124, 128, 4128, 2, 94, 98, 0, 14, 175, 0, 8,
    3, 94, 98, 0, 14, 177, 0, 8, 2, 129, 130, 0, 14, 179, 0, 8,
    3, 129, 130, 0, 14, 181, 0, 8, 2, 106, 102, 0, 14, 183, 0, 8,
    3, 106, 102, 0, 14, 185, 0, 8, 2, 132, 131, 0, 14, 187, 0, 8,
    3, 132, 131, 0, 14, 189, 0, 8, 6, 140, 164, 6224, 6, 136, 160, 6224,
    6, 144, 152, 10352, 6, 148, 156, 10352, 6, 148, 156, 6224, 6, 144, 152, 6224,
    6, 136, 160, 2096, 6, 140, 164, 2096, 2, 166, 126, 0, 14, 199, 0, 8,
    3, 166, 126, 0, 14, 201, 0, 8, 2, 170, 174, 0, 14, 203, 0, 8,
    3, 170, 174, 0, 14, 205, 0, 8, 2, 172, 173, 0, 14, 207, 0, 8,
    3, 172, 173, 0, 14, 209, 0, 8, 2, 168, 122, 0, 14, 211, 0, 8,
    3, 168, 122, 0, 14, 213, 0, 8, 6, 182, 190, 4192, 6, 178, 186, 4192,
    6, 178, 186, 4128, 6, 182, 190, 4128, 2, 134, 142, 0, 14, 219, 0, 8,
    3, 134, 142, 0, 14, 221, 0, 8, 2, 138, 146, 0, 14, 223, 0, 8,
    3, 138, 146, 0, 14, 225, 0, 8, 2, 191, 194, 0, 14, 227, 0, 8,
    3, 191, 194, 0, 14, 229, 0, 8, 2, 192, 193, 0, 14, 231, 0, 8,
    3, 192, 193, 0, 14, 233, 0, 8, 2, 158, 150, 0, 14, 235, 0, 8,
    3, 158, 150, 0, 14, 237, 0, 8, 2, 162, 154, 0, 14, 239, 0, 8,
    3, 162, 154, 0, 14, 241, 0, 8, 2, 198, 195, 0, 14, 243, 0, 8,
    3, 198, 195, 0, 14, 245, 0, 8, 2, 197, 196, 0, 14, 247, 0, 8,
    3, 197, 196, 0, 14, 249, 0, 8, 2, 200, 184, 0, 14, 251, 0, 8,
    3, 200, 184, 0, 14, 253, 0, 8, 2, 204, 188, 0, 14, 255, 0, 8,
    3, 204, 188, 0, 14, 257, 0, 8, 2, 208, 218, 0, 14, 259, 0, 8,
    3, 208, 218, 0, 14, 261, 0, 8, 2, 212, 217, 0, 14, 263, 0, 8,
    3, 212, 217, 0, 14, 265, 0, 8, 2, 214, 216, 0, 14, 267, 0, 8,
    3, 214, 216, 0, 14, 269, 0, 8, 2, 210, 215, 0, 14, 271, 0, 8,
    3, 210, 215, 0, 14, 273, 0, 8, 2, 206, 180, 0, 14, 275, 0, 8,
    3, 206, 180, 0, 14, 277, 0, 8, 2, 202, 176, 0, 14, 279, 0, 8,
    3, 202, 176, 0, 14, 281, 0, 8, 6, 234, 250, 4192, 6, 230, 246, 4192,
    6, 226, 242, 4192, 6, 222, 238, 4192, 6, 222, 238, 4128, 6, 226, 242, 4128,
    6, 230, 246, 4128, 6, 234, 250, 4128, 2, 252, 236, 0, 14, 291, 0, 8,
    3, 252, 236, 0, 14, 293, 0, 8, 2, 256, 240, 0, 14, 295, 0, 8,
    3, 256, 240, 0, 14, 297, 0, 8, 2, 260, 244, 0, 14, 299, 0, 8,
    3, 260, 244, 0, 14, 301, 0, 8, 2, 264, 248, 0, 14, 303, 0, 8,
    3, 264, 248, 0, 14, 305, 0, 8, 2, 268, 290, 0, 14, 307, 0, 8,
    3, 268, 290, 0, 14, 309, 0, 8, 2, 272, 289, 0, 14, 311, 0, 8,
    3, 272, 289, 0, 14, 313, 0, 8, 2, 276, 288, 0, 14, 315, 0, 8,
    3, 276, 288, 0, 14, 317, 0, 8, 2, 280, 287, 0, 14, 319, 0, 8,
    3, 280, 287, 0, 14, 321, 0, 8, 2, 282, 286, 0, 14, 323, 0, 8,
    3, 282, 286, 0, 14, 325, 0, 8, 2, 278, 285, 0, 14, 327, 0, 8,
    3, 278, 285, 0, 14, 329, 0, 8, 2, 274, 284, 0, 14, 331, 0, 8,
    3, 274, 284, 0, 14, 333, 0, 8, 2, 270, 283, 0, 14, 335, 0, 8,
    3, 270, 283, 0, 14, 337, 0, 8, 2, 266, 232, 0, 14, 339, 0, 8,
    3, 266, 232, 0, 14, 341, 0, 8, 2, 262, 228, 0, 14, 343, 0, 8,
    3, 262, 228, 0, 14, 345, 0, 8, 2, 258, 224, 0, 14, 347, 0, 8,
    3, 258, 224, 0, 14, 349, 0, 8, 2, 254, 220, 0, 14, 351, 0, 8,
    3, 254, 220, 0, 14, 353, 0, 8, 13, 292, 0, 0, 13, 296, 0, 0,
    13, 300, 0, 0, 13, 304, 0, 0, 13, 308, 0, 0, 13, 312, 0, 0,
    13, 316, 0, 0, 13, 320, 0, 0, 13, 324, 0, 0, 13, 328, 0, 0,
    13, 332, 0, 0, 13, 336, 0, 0, 13, 340, 0, 0, 13, 344, 0, 0,
    13, 348, 0, 0, 13, 352, 0, 0, 13, 354, 0, 0, 13, 350, 0, 0,
    13, 346, 0, 0, 13, 342, 0, 0, 13, 338, 0, 0, 13, 334, 0, 0,
    13, 330, 0, 0, 13, 326, 0, 0, 13, 322, 0, 0, 13, 318, 0, 0,
    13, 314, 0, 0, 13, 310, 0, 0, 13, 306, 0, 0, 13, 302, 0, 0,
    13, 298, 0, 0, 13, 294, 0, 0, 14, 355, 0, 6, 14, 356, 0, 6,
    14, 357, 0, 6, 14, 358, 0, 6, 14, 359, 0, 6, 14, 360, 0, 6,
    14, 361, 0, 6, 14, 362, 0, 6, 14, 363, 0, 6, 14, 364, 0, 6,
    14, 365, 0, 6, 14, 366, 0, 6, 14, 367, 0, 6, 14, 368, 0, 6,
    14, 369, 0, 6, 14, 370, 0, 6, 14, 371, 0, 6, 14, 372, 0, 6,
    14, 373, 0, 6, 14, 374, 0, 6, 14, 375, 0, 6, 14, 376, 0, 6,
    14, 377, 0, 6, 14, 378, 0, 6, 14, 379, 0, 6, 14, 380, 0, 6,
    14, 381, 0, 6, 14, 382, 0, 6, 14, 383, 0, 6, 14, 384, 0, 6,
    14, 385, 0, 6, 14, 386, 0, 6,
];

/// Output registers of the row pass of `idct32`.
#[verifier::opaque]
pub const IDCT32_ROW_OUTS: [i32; 32] = [
    387, 388, 389, 390, 391, 392, 393, 394, 395, 396, 397, 398, 399, 400, 401, 402,
    403, 404, 405, 406, 407, 408, 409, 410, 411, 412, 413, 414, 415, 416, 417, 418,
];

/// Operations of the column pass of `idct64_low1`.
#[verifier::opaque]
pub const IDCT64_LOW1_COL_OPS: [i32; 12] = [
    7, 0, 0, 32, 8, 65, 0, 6, 9, 66, 0, 6,
];

/// Output registers of the column pass of `idct64_low1`.
#[verifier::opaque]
pub const IDCT64_LOW1_COL_OUTS: [i32; 64] = [
    67, 67, 67, 67, 67, 67, 67, 67, 67, 67, 67, 67, 67, 67, 67, 67,
    67, 67, 67, 67, 67, 67, 67, 67, 67, 67, 67, 67, 67, 67, 67, 67,
    67, 67, 67, 67, 67, 67, 67, 67, 67, 67, 67, 67, 67, 67, 67, 67,
    67, 67, 67, 67, 67, 67, 67, 67, 67, 67, 67, 67, 67, 67, 67, 67,
];

/// Operations of the row pass of `idct64_low1`.
#[verifier::opaque]
pub const IDCT64_LOW1_ROW_OPS: [i32; 20] = [
    7, 0, 0, 32, 10, 65, 0, 0, 12, 66, 0, 0, 8, 67, 0, 6,
    9, 68, 0, 6,
];

/// Output registers of the row pass of `idct64_low1`.
#[verifier::opaque]
pub const IDCT64_LOW1_ROW_OUTS: [i32; 64] = [
    69, 69, 69, 69, 69, 69, 69, 69, 69, 69, 69, 69, 69, 69, 69, 69,
    69, 69, 69, 69, 69, 69, 69, 69, 69, 69, 69, 69, 69, 69, 69, 69,
    69, 69, 69, 69, 69, 69, 69, 69, 69, 69, 69, 69, 69, 69, 69, 69,
    69, 69, 69, 69, 69, 69, 69, 69, 69, 69, 69, 69, 69, 69, 69, 69,
];

/// Operations of the column pass of `idct64_low8`.
#[verifier::opaque]
pub const IDCT64_LOW8_COL_OPS: [i32; 1928] = [
    7, 1, 0, 1, 7, 1, 0, 63, 7, 7, 0, 121, 7, 7, 0, 7,
    7, 5, 0, 5, 7, 5, 0, 59, 7, 3, 0, 125, 7, 3, 0, 3,
    7, 2, 0, 2, 7, 2, 0, 62, 7, 6, 0, 122, 7, 6, 0, 6,
    7, 4, 0, 4, 7, 4, 0, 60, 6, 66, 65, 7748, 6, 66, 65, 572,
    6, 67, 68, 3684, 6, 67, 68, 12892, 6, 70, 69, 5716, 6, 70, 69, 2604,
    6, 71, 72, 14924, 6, 71, 72, 1652, 6, 74, 73, 7240, 6, 74, 73, 1080,
    6, 75, 76, 13400, 6, 75, 76, 3176, 7, 0, 0, 32, 7, 0, 0, 32,
    6, 78, 77, 6224, 6, 78, 77, 2096, 6, 79, 80, 7240, 6, 79, 80, 1080,
    6, 66, 65, 7240, 6, 66, 65, 1080, 6, 67, 68, 9336, 6, 67, 68, 7240,
    6, 82, 81, 9336, 6, 82, 81, 7240, 6, 83, 84, 3176, 6, 83, 84, 5144,
    6, 70, 69, 3176, 6, 70, 69, 5144, 6, 71, 72, 13400, 6, 71, 72, 3176,
    6, 85, 86, 13400, 6, 85, 86, 3176, 6, 87, 88, 6224, 6, 87, 88, 2096,
    6, 74, 73, 6224, 6, 74, 73, 2096, 6, 75, 76, 10352, 6, 75, 76, 6224,
    6, 89, 90, 10352, 6, 89, 90, 6224, 2, 66, 67, 0, 14, 119, 0, 6,
    3, 66, 67, 0, 14, 121, 0, 6, 2, 71, 70, 0, 14, 123, 0, 6,
    3, 71, 70, 0, 14, 125, 0, 6, 2, 79, 82, 0, 14, 127, 0, 6,
    3, 79, 82, 0, 14, 129, 0, 6, 2, 85, 83, 0, 14, 131, 0, 6,
    3, 85, 83, 0, 14, 133, 0, 6, 2, 95, 101, 0, 14, 135, 0, 6,
    3, 95, 101, 0, 14, 137, 0, 6, 2, 109, 103, 0, 14, 139, 0, 6,
    3, 109, 103, 0, 14, 141, 0, 6, 2, 97, 99, 0, 14, 143, 0, 6,
    3, 97, 99, 0, 14, 145, 0, 6, 2, 107, 105, 0, 14, 147, 0, 6,
    3, 107, 105, 0, 14, 149, 0, 6, 2, 72, 69, 0, 14, 151, 0, 6,
    3, 72, 69, 0, 14, 153, 0, 6, 2, 65, 68, 0, 14, 155, 0, 6,
    3, 65, 68, 0, 14, 157, 0, 6, 2, 86, 84, 0, 14, 159, 0, 6,
    3, 86, 84, 0, 14, 161, 0, 6, 2, 80, 81, 0, 14, 163, 0, 6,
    3, 80, 81, 0, 14, 165, 0, 6, 2, 110, 104, 0, 14, 167, 0, 6,
    3, 110, 104, 0, 14, 169, 0, 6, 2, 96, 102, 0, 14, 171, 0, 6,
    3, 96, 102, 0, 14, 173, 0, 6, 2, 108, 106, 0, 14, 175, 0, 6,
    3, 108, 106, 0, 14, 177, 0, 6, 2, 98, 100, 0, 14, 179, 0, 6,
    3, 98, 100, 0, 14, 181, 0, 6, 6, 93, 94, 4192, 6, 93, 94, 4128,
    6, 78, 77, 4192, 6, 78, 77, 4128, 2, 74, 75, 0, 14, 187, 0, 6,
    3, 74, 75, 0, 14, 189, 0, 6, 2, 73, 76, 0, 14, 191, 0, 6,
    3, 73, 76, 0, 14, 193, 0, 6, 2, 87, 89, 0, 14, 195, 0, 6,
    3, 87, 89, 0, 14, 197, 0, 6, 2, 88, 90, 0, 14, 199, 0, 6,
    3, 88, 90, 0, 14, 201, 0, 6, 2, 111, 117, 0, 14, 203, 0, 6,
    3, 111, 117, 0, 14, 205, 0, 6, 2, 112, 118, 0, 14, 207, 0, 6,
    3, 112, 118, 0, 14, 209, 0, 6, 2, 113, 115, 0, 14, 211, 0, 6,
    3, 113, 115, 0, 14, 213, 0, 6, 2, 114, 116, 0, 14, 215, 0, 6,
    3, 114, 116, 0, 14, 217, 0, 6, 6, 146, 182, 6224, 6, 138, 174, 6224,
    6, 130, 166, 6224, 6, 122, 158, 6224, 6, 122, 158, 2096, 6, 130, 166, 2096,
    6, 138, 174, 2096, 6, 146, 182, 2096, 6, 126, 154, 10352, 6, 134, 162, 10352,
    6, 142, 170, 10352, 6, 150, 178, 10352, 6, 150, 178, 6224, 6, 142, 170, 6224,
    6, 134, 162, 6224, 6, 126, 154, 6224, 2, 91, 77, 0, 14, 235, 0, 6,
    3, 91, 77, 0, 14, 237, 0, 6, 2, 92, 94, 0, 14, 239, 0, 6,
    3, 92, 94, 0, 14, 241, 0, 6, 2, 92, 184, 0, 14, 243, 0, 6,
    3, 92, 184, 0, 14, 245, 0, 6, 2, 91, 186, 0, 14, 247, 0, 6,
    3, 91, 186, 0, 14, 249, 0, 6, 2, 91, 185, 0, 14, 251, 0, 6,
    3, 91, 185, 0, 14, 253, 0, 6, 2, 92, 183, 0, 14, 255, 0, 6,
    3, 92, 183, 0, 14, 257, 0, 6, 2, 92, 93, 0, 14, 259, 0, 6,
    3, 92, 93, 0, 14, 261, 0, 6, 2, 91, 78, 0, 14, 263, 0, 6,
    3, 91, 78, 0, 14, 265, 0, 6, 6, 214, 218, 4192, 6, 206, 210, 4192,
    6, 198, 202, 4192, 6, 190, 194, 4192, 6, 190, 194, 4128, 6, 198, 202, 4128,
    6, 206, 210, 4128, 6, 214, 218, 4128, 2, 120, 124, 0, 14, 275, 0, 6,
    3, 120, 124, 0, 14, 277, 0, 6, 2, 128, 132, 0, 14, 279, 0, 6,
    3, 128, 132, 0, 14, 281, 0, 6, 2, 136, 140, 0, 14, 283, 0, 6,
    3, 136, 140, 0, 14, 285, 0, 6, 2, 144, 148, 0, 14, 287, 0, 6,
    3, 144, 148, 0, 14, 289, 0, 6, 2, 219, 230, 0, 14, 291, 0, 6,
    3, 219, 230, 0, 14, 293, 0, 6, 2, 220, 229, 0, 14, 295, 0, 6,
    3, 220, 229, 0, 14, 297, 0, 6, 2, 221, 228, 0, 14, 299, 0, 6,
    3, 221, 228, 0, 14, 301, 0, 6, 2, 222, 227, 0, 14, 303, 0, 6,
    3, 222, 227, 0, 14, 305, 0, 6, 2, 156, 152, 0, 14, 307, 0, 6,
    3, 156, 152, 0, 14, 309, 0, 6, 2, 164, 160, 0, 14, 311, 0, 6,
    3, 164, 160, 0, 14, 313, 0, 6, 2, 172, 168, 0, 14, 315, 0, 6,
    3, 172, 168, 0, 14, 317, 0, 6, 2, 180, 176, 0, 14, 319, 0, 6,
    3, 180, 176, 0, 14, 321, 0, 6, 2, 226, 231, 0, 14, 323, 0, 6,
    3, 226, 231, 0, 14, 325, 0, 6, 2, 225, 232, 0, 14, 327, 0, 6,
    3, 225, 232, 0, 14, 329, 0, 6, 2, 224, 233, 0, 14, 331, 0, 6,
    3, 224, 233, 0, 14, 333, 0, 6, 2, 223, 234, 0, 14, 335, 0, 6,
    3, 223, 234, 0, 14, 337, 0, 6, 2, 236, 192, 0, 14, 339, 0, 6,
    3, 236, 192, 0, 14, 341, 0, 6, 2, 240, 200, 0, 14, 343, 0, 6,
    3, 240, 200, 0, 14, 345, 0, 6, 2, 244, 208, 0, 14, 347, 0, 6,
    3, 244, 208, 0, 14, 349, 0, 6, 2, 248, 216, 0, 14, 351, 0, 6,
    3, 248, 216, 0, 14, 353, 0, 6, 2, 252, 274, 0, 14, 355, 0, 6,
    3, 252, 274, 0, 14, 357, 0, 6, 2, 256, 273, 0, 14, 359, 0, 6,
    3, 256, 273, 0, 14, 361, 0, 6, 2, 260, 272, 0, 14, 363, 0, 6,
    3, 260, 272, 0, 14, 365, 0, 6, 2, 264, 271, 0, 14, 367, 0, 6,
    3, 264, 271, 0, 14, 369, 0, 6, 2, 266, 270, 0, 14, 371, 0, 6,
    3, 266, 270, 0, 14, 373, 0, 6, 2, 262, 269, 0, 14, 375, 0, 6,
    3, 262, 269, 0, 14, 377, 0, 6, 2, 258, 268, 0, 14, 379, 0, 6,
    3, 258, 268, 0, 14, 381, 0, 6, 2, 254, 267, 0, 14, 383, 0, 6,
    3, 254, 267, 0, 14, 385, 0, 6, 2, 250, 212, 0, 14, 387, 0, 6,
    3, 250, 212, 0, 14, 389, 0, 6, 2, 246, 204, 0, 14, 391, 0, 6,
    3, 246, 204, 0, 14, 393, 0, 6, 2, 242, 196, 0, 14, 395, 0, 6,
    3, 242, 196, 0, 14, 397, 0, 6, 2, 238, 188, 0, 14, 399, 0, 6,
    3, 238, 188, 0, 14, 401, 0, 6, 6, 306, 338, 4192, 6, 302, 334, 4192,
    6, 298, 330, 4192, 6, 294, 326, 4192, 6, 294, 326, 4128, 6, 298, 330, 4128,
    6, 302, 334, 4128, 6, 306, 338, 4128, 6, 290, 322, 4192, 6, 286, 318, 4192,
    6, 282, 314, 4192, 6, 278, 310, 4192, 6, 278, 310, 4128, 6, 282, 314, 4128,
    6, 286, 318, 4128, 6, 290, 322, 4128, 2, 340, 308, 0, 14, 419, 0, 6,
    3, 340, 308, 0, 14, 421, 0, 6, 2, 344, 312, 0, 14, 423, 0, 6,
    3, 344, 312, 0, 14, 425, 0, 6, 2, 348, 316, 0, 14, 427, 0, 6,
    3, 348, 316, 0, 14, 429, 0, 6, 2, 352, 320, 0, 14, 431, 0, 6,
    3, 352, 320, 0, 14, 433, 0, 6, 2, 356, 324, 0, 14, 435, 0, 6,
    3, 356, 324, 0, 14, 437, 0, 6, 2, 360, 328, 0, 14, 439, 0, 6,
    3, 360, 328, 0, 14, 441, 0, 6, 2, 364, 332, 0, 14, 443, 0, 6,
    3, 364, 332, 0, 14, 445, 0, 6, 2, 368, 336, 0, 14, 447, 0, 6,
    3, 368, 336, 0, 14, 449, 0, 6, 2, 372, 410, 0, 14, 451, 0, 6,
    3, 372, 410, 0, 14, 453, 0, 6, 2, 376, 409, 0, 14, 455, 0, 6,
    3, 376, 409, 0, 14, 457, 0, 6, 2, 380, 408, 0, 14, 459, 0, 6,
    3, 380, 408, 0, 14, 461, 0, 6, 2, 384, 407, 0, 14, 463, 0, 6,
    3, 384, 407, 0, 14, 465, 0, 6, 2, 388, 418, 0, 14, 467, 0, 6,
    3, 388, 418, 0, 14, 469, 0, 6, 2, 392, 417, 0, 14, 471, 0, 6,
    3, 392, 417, 0, 14, 473, 0, 6, 2, 396, 416, 0, 14, 475, 0, 6,
    3, 396, 416, 0, 14, 477, 0, 6, 2, 400, 415, 0, 14, 479, 0, 6,
    3, 400, 415, 0, 14, 481, 0, 6, 2, 402, 414, 0, 14, 483, 0, 6,
    3, 402, 414, 0, 14, 485, 0, 6, 2, 398, 413, 0, 14, 487, 0, 6,
    3, 398, 413, 0, 14, 489, 0, 6, 2, 394, 412, 0, 14, 491, 0, 6,
    3, 394, 412, 0, 14, 493, 0, 6, 2, 390, 411, 0, 14, 495, 0, 6,
    3, 390, 411, 0, 14, 497, 0, 6, 2, 386, 406, 0, 14, 499, 0, 6,
    3, 386, 406, 0, 14, 501, 0, 6, 2, 382, 405, 0, 14, 503, 0, 6,
    3, 382, 405, 0, 14, 505, 0, 6, 2, 378, 404, 0, 14, 507, 0, 6,
    3, 378, 404, 0, 14, 509, 0, 6, 2, 374, 403, 0, 14, 511, 0, 6,
    3, 374, 403, 0, 14, 513, 0, 6, 2, 370, 304, 0, 14, 515, 0, 6,
    3, 370, 304, 0, 14, 517, 0, 6, 2, 366, 300, 0, 14, 519, 0, 6,
    3, 366, 300, 0, 14, 521, 0, 6, 2, 362, 296, 0, 14, 523, 0, 6,
    3, 362, 296, 0, 14, 525, 0, 6, 2, 358, 292, 0, 14, 527, 0, 6,
    3, 358, 292, 0, 14, 529, 0, 6, 2, 354, 288, 0, 14, 531, 0, 6,
    3, 354, 288, 0, 14, 533, 0, 6, 2, 350, 284, 0, 14, 535, 0, 6,
    3, 350, 284, 0, 14, 537, 0, 6, 2, 346, 280, 0, 14, 539, 0, 6,
    3, 346, 280, 0, 14, 541, 0, 6, 2, 342, 276, 0, 14, 543, 0, 6,
    3, 342, 276, 0, 14, 545, 0, 6,
];

/// Output registers of the column pass of `idct64_low8`.
#[verifier::opaque]
pub const IDCT64_LOW8_COL_OUTS: [i32; 64] = [
    420, 424, 428, 432, 436, 440, 444, 448, 452, 456, 460, 464, 468, 472, 476, 480,
    484, 488, 492, 496, 500, 504, 508, 512, 516, 520, 524, 528, 532, 536, 540, 544,
    546, 542, 538, 534, 530, 526, 522, 518, 514, 510, 506, 502, 498, 494, 490, 486,
    482, 478, 474, 470, 466, 462, 458, 454, 450, 446, 442, 438, 434, 430, 426, 422,
];

/// Operations of the row pass of `idct64_low8`.
#[verifier::opaque]
pub const IDCT64_LOW8_ROW_OPS: [i32; 2440] = [
    7, 1, 0, 1, 7, 1, 0, 63, 7, 7, 0, 121, 7, 7, 0, 7,
    7, 5, 0, 5, 7, 5, 0, 59, 7, 3, 0, 125, 7, 3, 0, 3,
    7, 2, 0, 2, 7, 2, 0, 62, 7, 6, 0, 122, 7, 6, 0, 6,
    7, 4, 0, 4, 7, 4, 0, 60, 6, 66, 65, 7748, 6, 66, 65, 572,
    6, 67, 68, 3684, 6, 67, 68, 12892, 6, 70, 69, 5716, 6, 70, 69, 2604,
    6, 71, 72, 14924, 6, 71, 72, 1652, 6, 74, 73, 7240, 6, 74, 73, 1080,
    6, 75, 76, 13400, 6, 75, 76, 3176, 7, 0, 0, 32, 7, 0, 0, 32,
    6, 78, 77, 6224, 6, 78, 77, 2096, 6, 79, 80, 7240, 6, 79, 80, 1080,
    6, 66, 65, 7240, 6, 66, 65, 1080, 6, 67, 68, 9336, 6, 67, 68, 7240,
    6, 82, 81, 9336, 6, 82, 81, 7240, 6, 83, 84, 3176, 6, 83, 84, 5144,
    6, 70, 69, 3176, 6, 70, 69, 5144, 6, 71, 72, 13400, 6, 71, 72, 3176,
    6, 85, 86, 13400, 6, 85, 86, 3176, 6, 87, 88, 6224, 6, 87, 88, 2096,
    6, 74, 73, 6224, 6, 74, 73, 2096, 6, 75, 76, 10352, 6, 75, 76, 6224,
    6, 89, 90, 10352, 6, 89, 90, 6224, 2, 66, 67, 0, 14, 119, 0, 8,
    3, 66, 67, 0, 14, 121, 0, 8, 2, 71, 70, 0, 14, 123, 0, 8,
    3, 71, 70, 0, 14, 125, 0, 8, 2, 79, 82, 0, 14, 127, 0, 8,
    3, 79, 82, 0, 14, 129, 0, 8, 2, 85, 83, 0, 14, 131, 0, 8,
    3, 85, 83, 0, 14, 133, 0, 8, 2, 95, 101, 0, 14, 135, 0, 8,
    3, 95, 101, 0, 14, 137, 0, 8, 2, 109, 103, 0, 14, 139, 0, 8,
    3, 109, 103, 0, 14, 141, 0, 8, 2, 97, 99, 0, 14, 143, 0, 8,
    3, 97, 99, 0, 14, 145, 0, 8, 2, 107, 105, 0, 14, 147, 0, 8,
    3, 107, 105, 0, 14, 149, 0, 8, 2, 72, 69, 0, 14, 151, 0, 8,
    3, 72, 69, 0, 14, 153, 0, 8, 2, 65, 68, 0, 14, 155, 0, 8,
    3, 65, 68, 0, 14, 157, 0, 8, 2, 86, 84, 0, 14, 159, 0, 8,
    3, 86, 84, 0, 14, 161, 0, 8, 2, 80, 81, 0, 14, 163, 0, 8,
    3, 80, 81, 0, 14, 165, 0, 8, 2, 110, 104, 0, 14, 167, 0, 8,
    3, 110, 104, 0, 14, 169, 0, 8, 2, 96, 102, 0, 14, 171, 0, 8,
    3, 96, 102, 0, 14, 173, 0, 8, 2, 108, 106, 0, 14, 175, 0, 8,
    3, 108, 106, 0, 14, 177, 0, 8, 2, 98, 100, 0, 14, 179, 0, 8,
    3, 98, 100, 0, 14, 181, 0, 8, 6, 93, 94, 4192, 6, 93, 94, 4128,
    6, 78, 77, 4192, 6, 78, 77, 4128, 2, 74, 75, 0, 14, 187, 0, 8,
    3, 74, 75, 0, 14, 189, 0, 8, 2, 73, 76, 0, 14, 191, 0, 8,
    3, 73, 76, 0, 14, 193, 0, 8, 2, 87, 89, 0, 14, 195, 0, 8,
    3, 87, 89, 0, 14, 197, 0, 8, 2, 88, 90, 0, 14, 199, 0, 8,
    3, 88, 90, 0, 14, 201, 0, 8, 2, 111, 117, 0, 14, 203, 0, 8,
    3, 111, 117, 0, 14, 205, 0, 8, 2, 112, 118, 0, 14, 207, 0, 8,
    3, 112, 118, 0, 14, 209, 0, 8, 2, 113, 115, 0, 14, 211, 0, 8,
    3, 113, 115, 0, 14, 213, 0, 8, 2, 114, 116, 0, 14, 215, 0, 8,
    3, 114, 116, 0, 14, 217, 0, 8, 6, 146, 182, 6224, 6, 138, 174, 6224,
    6, 130, 166, 6224, 6, 122, 158, 6224, 6, 122, 158, 2096, 6, 130, 166, 2096,
    6, 138, 174, 2096, 6, 146, 182, 2096, 6, 126, 154, 10352, 6, 134, 162, 10352,
    6, 142, 170, 10352, 6, 150, 178, 10352, 6, 150, 178, 6224, 6, 142, 170, 6224,
    6, 134, 162, 6224, 6, 126, 154, 6224, 2, 91, 77, 0, 14, 235, 0, 8,
    3, 91, 77, 0, 14, 237, 0, 8, 2, 92, 94, 0, 14, 239, 0, 8,
    3, 92, 94, 0, 14, 241, 0, 8, 2, 92, 184, 0, 14, 243, 0, 8,
    3, 92, 184, 0, 14, 245, 0, 8, 2, 91, 186, 0, 14, 247, 0, 8,
    3, 91, 186, 0, 14, 249, 0, 8, 2, 91, 185, 0, 14, 251, 0, 8,
    3, 91, 185, 0, 14, 253, 0, 8, 2, 92, 183, 0, 14, 255, 0, 8,
    3, 92, 183, 0, 14, 257, 0, 8, 2, 92, 93, 0, 14, 259, 0, 8,
    3, 92, 93, 0, 14, 261, 0, 8, 2, 91, 78, 0, 14, 263, 0, 8,
    3, 91, 78, 0, 14, 265, 0, 8, 6, 214, 218, 4192, 6, 206, 210, 4192,
    6, 198, 202, 4192, 6, 190, 194, 4192, 6, 190, 194, 4128, 6, 198, 202, 4128,
    6, 206, 210, 4128, 6, 214, 218, 4128, 2, 120, 124, 0, 14, 275, 0, 8,
    3, 120, 124, 0, 14, 277, 0, 8, 2, 128, 132, 0, 14, 279, 0, 8,
    3, 128, 132, 0, 14, 281, 0, 8, 2, 136, 140, 0, 14, 283, 0, 8,
    3, 136, 140, 0, 14, 285, 0, 8, 2, 144, 148, 0, 14, 287, 0, 8,
    3, 144, 148, 0, 14, 289, 0, 8, 2, 219, 230, 0, 14, 291, 0, 8,
    3, 219, 230, 0, 14, 293, 0, 8, 2, 220, 229, 0, 14, 295, 0, 8,
    3, 220, 229, 0, 14, 297, 0, 8, 2, 221, 228, 0, 14, 299, 0, 8,
    3, 221, 228, 0, 14, 301, 0, 8, 2, 222, 227, 0, 14, 303, 0, 8,
    3, 222, 227, 0, 14, 305, 0, 8, 2, 156, 152, 0, 14, 307, 0, 8,
    3, 156, 152, 0, 14, 309, 0, 8, 2, 164, 160, 0, 14, 311, 0, 8,
    3, 164, 160, 0, 14, 313, 0, 8, 2, 172, 168, 0, 14, 315, 0, 8,
    3, 172, 168, 0, 14, 317, 0, 8, 2, 180, 176, 0, 14, 319, 0, 8,
    3, 180, 176, 0, 14, 321, 0, 8, 2, 226, 231, 0, 14, 323, 0, 8,
    3, 226, 231, 0, 14, 325, 0, 8, 2, 225, 232, 0, 14, 327, 0, 8,
    3, 225, 232, 0, 14, 329, 0, 8, 2, 224, 233, 0, 14, 331, 0, 8,
    3, 224, 233, 0, 14, 333, 0, 8, 2, 223, 234, 0, 14, 335, 0, 8,
    3, 223, 234, 0, 14, 337, 0, 8, 2, 236, 192, 0, 14, 339, 0, 8,
    3, 236, 192, 0, 14, 341, 0, 8, 2, 240, 200, 0, 14, 343, 0, 8,
    3, 240, 200, 0, 14, 345, 0, 8, 2, 244, 208, 0, 14, 347, 0, 8,
    3, 244, 208, 0, 14, 349, 0, 8, 2, 248, 216, 0, 14, 351, 0, 8,
    3, 248, 216, 0, 14, 353, 0, 8, 2, 252, 274, 0, 14, 355, 0, 8,
    3, 252, 274, 0, 14, 357, 0, 8, 2, 256, 273, 0, 14, 359, 0, 8,
    3, 256, 273, 0, 14, 361, 0, 8, 2, 260, 272, 0, 14, 363, 0, 8,
    3, 260, 272, 0, 14, 365, 0, 8, 2, 264, 271, 0, 14, 367, 0, 8,
    3, 264, 271, 0, 14, 369, 0, 8, 2, 266, 270, 0, 14, 371, 0, 8,
    3, 266, 270, 0, 14, 373, 0, 8, 2, 262, 269, 0, 14, 375, 0, 8,
    3, 262, 269, 0, 14, 377, 0, 8, 2, 258, 268, 0, 14, 379, 0, 8,
    3, 258, 268, 0, 14, 381, 0, 8, 2, 254, 267, 0, 14, 383, 0, 8,
    3, 254, 267, 0, 14, 385, 0, 8, 2, 250, 212, 0, 14, 387, 0, 8,
    3, 250, 212, 0, 14, 389, 0, 8, 2, 246, 204, 0, 14, 391, 0, 8,
    3, 246, 204, 0, 14, 393, 0, 8, 2, 242, 196, 0, 14, 395, 0, 8,
    3, 242, 196, 0, 14, 397, 0, 8, 2, 238, 188, 0, 14, 399, 0, 8,
    3, 238, 188, 0, 14, 401, 0, 8, 6, 306, 338, 4192, 6, 302, 334, 4192,
    6, 298, 330, 4192, 6, 294, 326, 4192, 6, 294, 326, 4128, 6, 298, 330, 4128,
    6, 302, 334, 4128, 6, 306, 338, 4128, 6, 290, 322, 4192, 6, 286, 318, 4192,
    6, 282, 314, 4192, 6, 278, 310, 4192, 6, 278, 310, 4128, 6, 282, 314, 4128,
    6, 286, 318, 4128, 6, 290, 322, 4128, 2, 340, 308, 0, 14, 419, 0, 8,
    3, 340, 308, 0, 14, 421, 0, 8, 2, 344, 312, 0, 14, 423, 0, 8,
    3, 344, 312, 0, 14, 425, 0, 8, 2, 348, 316, 0, 14, 427, 0, 8,
    3, 348, 316, 0, 14, 429, 0, 8, 2, 352, 320, 0, 14, 431, 0, 8,
    3, 352, 320, 0, 14, 433, 0, 8, 2, 356, 324, 0, 14, 435, 0, 8,
    3, 356, 324, 0, 14, 437, 0, 8, 2, 360, 328, 0, 14, 439, 0, 8,
    3, 360, 328, 0, 14, 441, 0, 8, 2, 364, 332, 0, 14, 443, 0, 8,
    3, 364, 332, 0, 14, 445, 0, 8, 2, 368, 336, 0, 14, 447, 0, 8,
    3, 368, 336, 0, 14, 449, 0, 8, 2, 372, 410, 0, 14, 451, 0, 8,
    3, 372, 410, 0, 14, 453, 0, 8, 2, 376, 409, 0, 14, 455, 0, 8,
    3, 376, 409, 0, 14, 457, 0, 8, 2, 380, 408, 0, 14, 459, 0, 8,
    3, 380, 408, 0, 14, 461, 0, 8, 2, 384, 407, 0, 14, 463, 0, 8,
    3, 384, 407, 0, 14, 465, 0, 8, 2, 388, 418, 0, 14, 467, 0, 8,
    3, 388, 418, 0, 14, 469, 0, 8, 2, 392, 417, 0, 14, 471, 0, 8,
    3, 392, 417, 0, 14, 473, 0, 8, 2, 396, 416, 0, 14, 475, 0, 8,
    3, 396, 416, 0, 14, 477, 0, 8, 2, 400, 415, 0, 14, 479, 0, 8,
    3, 400, 415, 0, 14, 481, 0, 8, 2, 402, 414, 0, 14, 483, 0, 8,
    3, 402, 414, 0, 14, 485, 0, 8, 2, 398, 413, 0, 14, 487, 0, 8,
    3, 398, 413, 0, 14, 489, 0, 8, 2, 394, 412, 0, 14, 491, 0, 8,
    3, 394, 412, 0, 14, 493, 0, 8, 2, 390, 411, 0, 14, 495, 0, 8,
    3, 390, 411, 0, 14, 497, 0, 8, 2, 386, 406, 0, 14, 499, 0, 8,
    3, 386, 406, 0, 14, 501, 0, 8, 2, 382, 405, 0, 14, 503, 0, 8,
    3, 382, 405, 0, 14, 505, 0, 8, 2, 378, 404, 0, 14, 507, 0, 8,
    3, 378, 404, 0, 14, 509, 0, 8, 2, 374, 403, 0, 14, 511, 0, 8,
    3, 374, 403, 0, 14, 513, 0, 8, 2, 370, 304, 0, 14, 515, 0, 8,
    3, 370, 304, 0, 14, 517, 0, 8, 2, 366, 300, 0, 14, 519, 0, 8,
    3, 366, 300, 0, 14, 521, 0, 8, 2, 362, 296, 0, 14, 523, 0, 8,
    3, 362, 296, 0, 14, 525, 0, 8, 2, 358, 292, 0, 14, 527, 0, 8,
    3, 358, 292, 0, 14, 529, 0, 8, 2, 354, 288, 0, 14, 531, 0, 8,
    3, 354, 288, 0, 14, 533, 0, 8, 2, 350, 284, 0, 14, 535, 0, 8,
    3, 350, 284, 0, 14, 537, 0, 8, 2, 346, 280, 0, 14, 539, 0, 8,
    3, 346, 280, 0, 14, 541, 0, 8, 2, 342, 276, 0, 14, 543, 0, 8,
    3, 342, 276, 0, 14, 545, 0, 8, 13, 420, 0, 0, 13, 424, 0, 0,
    13, 428, 0, 0, 13, 432, 0, 0, 13, 436, 0, 0, 13, 440, 0, 0,
    13, 444, 0, 0, 13, 448, 0, 0, 13, 452, 0, 0, 13, 456, 0, 0,
    13, 460, 0, 0, 13, 464, 0, 0, 13, 468, 0, 0, 13, 472, 0, 0,
    13, 476, 0, 0, 13, 480, 0, 0, 13, 484, 0, 0, 13, 488, 0, 0,
    13, 492, 0, 0, 13, 496, 0, 0, 13, 500, 0, 0, 13, 504, 0, 0,
    13, 508, 0, 0, 13, 512, 0, 0, 13, 516, 0, 0, 13, 520, 0, 0,
    13, 524, 0, 0, 13, 528, 0, 0, 13, 532, 0, 0, 13, 536, 0, 0,
    13, 540, 0, 0, 13, 544, 0, 0, 13, 546, 0, 0, 13, 542, 0, 0,
    13, 538, 0, 0, 13, 534, 0, 0, 13, 530, 0, 0, 13, 526, 0, 0,
    13, 522, 0, 0, 13, 518, 0, 0, 13, 514, 0, 0, 13, 510, 0, 0,
    13, 506, 0, 0, 13, 502, 0, 0, 13, 498, 0, 0, 13, 494, 0, 0,
    13, 490, 0, 0, 13, 486, 0, 0, 13, 482, 0, 0, 13, 478, 0, 0,
    13, 474, 0, 0, 13, 470, 0, 0, 13, 466, 0, 0, 13, 462, 0, 0,
    13, 458, 0, 0, 13, 454, 0, 0, 13, 450, 0, 0, 13, 446, 0, 0,
    13, 442, 0, 0, 13, 438, 0, 0, 13, 434, 0, 0, 13, 430, 0, 0,
    13, 426, 0, 0, 13, 422, 0, 0, 14, 547, 0, 6, 14, 548, 0, 6,
    14, 549, 0, 6, 14, 550, 0, 6, 14, 551, 0, 6, 14, 552, 0, 6,
    14, 553, 0, 6, 14, 554, 0, 6, 14, 555, 0, 6, 14, 556, 0, 6,
    14, 557, 0, 6, 14, 558, 0, 6, 14, 559, 0, 6, 14, 560, 0, 6,
    14, 561, 0, 6, 14, 562, 0, 6, 14, 563, 0, 6, 14, 564, 0, 6,
    14, 565, 0, 6, 14, 566, 0, 6, 14, 567, 0, 6, 14, 568, 0, 6,
    14, 569, 0, 6, 14, 570, 0, 6, 14, 571, 0, 6, 14, 572, 0, 6,
    14, 573, 0, 6, 14, 574, 0, 6, 14, 575, 0, 6, 14, 576, 0, 6,
    14, 577, 0, 6, 14, 578, 0, 6, 14, 579, 0, 6, 14, 580, 0, 6,
    14, 581, 0, 6, 14, 582, 0, 6, 14, 583, 0, 6, 14, 584, 0, 6,
    14, 585, 0, 6, 14, 586, 0, 6, 14, 587, 0, 6, 14, 588, 0, 6,
    14, 589, 0, 6, 14, 590, 0, 6, 14, 591, 0, 6, 14, 592, 0, 6,
    14, 593, 0, 6, 14, 594, 0, 6, 14, 595, 0, 6, 14, 596, 0, 6,
    14, 597, 0, 6, 14, 598, 0, 6, 14, 599, 0, 6, 14, 600, 0, 6,
    14, 601, 0, 6, 14, 602, 0, 6, 14, 603, 0, 6, 14, 604, 0, 6,
    14, 605, 0, 6, 14, 606, 0, 6, 14, 607, 0, 6, 14, 608, 0, 6,
    14, 609, 0, 6, 14, 610, 0, 6,
];

/// Output registers of the row pass of `idct64_low8`.
#[verifier::opaque]
pub const IDCT64_LOW8_ROW_OUTS: [i32; 64] = [
    611, 612, 613, 614, 615, 616, 617, 618, 619, 620, 621, 622, 623, 624, 625, 626,
    627, 628, 629, 630, 631, 632, 633, 634, 635, 636, 637, 638, 639, 640, 641, 642,
    643, 644, 645, 646, 647, 648, 649, 650, 651, 652, 653, 654, 655, 656, 657, 658,
    659, 660, 661, 662, 663, 664, 665, 666, 667, 668, 669, 670, 671, 672, 673, 674,
];

/// Operations of the column pass of `idct64_low16`.
#[verifier::opaque]
pub const IDCT64_LOW16_COL_OPS: [i32; 2568] = [
    7, 1, 0, 1, 7, 1, 0, 63, 7, 15, 0, 113, 7, 15, 0, 15,
    7, 9, 0, 9, 7, 9, 0, 55, 7, 7, 0, 121, 7, 7, 0, 7,
    7, 5, 0, 5, 7, 5, 0, 59, 7, 11, 0, 117, 7, 11, 0, 11,
    7, 3, 0, 125, 7, 3, 0, 3, 7, 13, 0, 13, 7, 13, 0, 51,
    7, 2, 0, 2, 7, 2, 0, 62, 7, 14, 0, 114, 7, 14, 0, 14,
    7, 10, 0, 10, 7, 10, 0, 54, 7, 6, 0, 122, 7, 6, 0, 6,
    7, 4, 0, 4, 7, 4, 0, 60, 7, 12, 0, 116, 7, 12, 0, 12,
    6, 66, 65, 7748, 6, 67, 68, 8828, 6, 70, 69, 3684, 6, 71, 72, 12892,
    6, 71, 72, 3684, 6, 70, 69, 4636, 6, 67, 68, 7748, 6, 66, 65, 572,
    6, 74, 73, 5716, 6, 75, 76, 10860, 6, 80, 79, 1652, 6, 77, 78, 14924,
    6, 77, 78, 1652, 6, 80, 79, 6668, 6, 75, 76, 5716, 6, 74, 73, 2604,
    7, 8, 0, 8, 7, 8, 0, 56, 6, 82, 81, 7240, 6, 83, 84, 9336,
    6, 86, 85, 3176, 6, 87, 88, 13400, 6, 87, 88, 3176, 6, 86, 85, 5144,
    6, 83, 84, 7240, 6, 82, 81, 1080, 2, 66, 67, 0, 14, 119, 0, 6,
    3, 66, 67, 0, 14, 121, 0, 6, 2, 93, 94, 0, 14, 123, 0, 6,
    3, 93, 94, 0, 14, 125, 0, 6, 2, 71, 70, 0, 14, 127, 0, 6,
    3, 71, 70, 0, 14, 129, 0, 6, 2, 96, 95, 0, 14, 131, 0, 6,
    3, 96, 95, 0, 14, 133, 0, 6, 2, 74, 75, 0, 14, 135, 0, 6,
    3, 74, 75, 0, 14, 137, 0, 6, 2, 101, 102, 0, 14, 139, 0, 6,
    3, 101, 102, 0, 14, 141, 0, 6, 2, 77, 80, 0, 14, 143, 0, 6,
    3, 77, 80, 0, 14, 145, 0, 6, 2, 104, 103, 0, 14, 147, 0, 6,
    3, 104, 103, 0, 14, 149, 0, 6, 2, 78, 79, 0, 14, 151, 0, 6,
    3, 78, 79, 0, 14, 153, 0, 6, 2, 105, 106, 0, 14, 155, 0, 6,
    3, 105, 106, 0, 14, 157, 0, 6, 2, 73, 76, 0, 14, 159, 0, 6,
    3, 73, 76, 0, 14, 161, 0, 6, 2, 108, 107, 0, 14, 163, 0, 6,
    3, 108, 107, 0, 14, 165, 0, 6, 2, 72, 69, 0, 14, 167, 0, 6,
    3, 72, 69, 0, 14, 169, 0, 6, 2, 97, 98, 0, 14, 171, 0, 6,
    3, 97, 98, 0, 14, 173, 0, 6, 2, 65, 68, 0, 14, 175, 0, 6,
    3, 65, 68, 0, 14, 177, 0, 6, 2, 100, 99, 0, 14, 179, 0, 6,
    3, 100, 99, 0, 14, 181, 0, 6, 7, 0, 0, 32, 7, 0, 0, 32,
    6, 90, 89, 6224, 6, 90, 89, 2096, 6, 91, 92, 10352, 6, 91, 92, 6224,
    2, 82, 83, 0, 14, 189, 0, 6, 3, 82, 83, 0, 14, 191, 0, 6,
    2, 111, 112, 0, 14, 193, 0, 6, 3, 111, 112, 0, 14, 195, 0, 6,
    2, 87, 86, 0, 14, 197, 0, 6, 3, 87, 86, 0, 14, 199, 0, 6,
    2, 114, 113, 0, 14, 201, 0, 6, 3, 114, 113, 0, 14, 203, 0, 6,
    2, 88, 85, 0, 14, 205, 0, 6, 3, 88, 85, 0, 14, 207, 0, 6,
    2, 115, 116, 0, 14, 209, 0, 6, 3, 115, 116, 0, 14, 211, 0, 6,
    2, 81, 84, 0, 14, 213, 0, 6, 3, 81, 84, 0, 14, 215, 0, 6,
    2, 118, 117, 0, 14, 217, 0, 6, 3, 118, 117, 0, 14, 219, 0, 6,
    6, 126, 182, 7240, 6, 122, 178, 7240, 6, 130, 170, 9336, 6, 134, 174, 9336,
    6, 134, 174, 7240, 6, 130, 170, 7240, 6, 122, 178, 1080, 6, 126, 182, 1080,
    6, 142, 166, 3176, 6, 138, 162, 3176, 6, 146, 154, 13400, 6, 150, 158, 13400,
    6, 150, 158, 3176, 6, 146, 154, 3176, 6, 138, 162, 5144, 6, 142, 166, 5144,
    6, 110, 109, 4192, 6, 110, 109, 4128, 2, 90, 91, 0, 14, 239, 0, 6,
    3, 90, 91, 0, 14, 241, 0, 6, 2, 185, 187, 0, 14, 243, 0, 6,
    3, 185, 187, 0, 14, 245, 0, 6, 2, 89, 92, 0, 14, 247, 0, 6,
    3, 89, 92, 0, 14, 249, 0, 6, 2, 186, 188, 0, 14, 251, 0, 6,
    3, 186, 188, 0, 14, 253, 0, 6, 6, 196, 220, 6224, 6, 192, 216, 6224,
    6, 200, 208, 10352, 6, 204, 212, 10352, 6, 204, 212, 6224, 6, 200, 208, 6224,
    6, 192, 216, 2096, 6, 196, 220, 2096, 2, 120, 128, 0, 14, 263, 0, 6,
    3, 120, 128, 0, 14, 265, 0, 6, 2, 144, 136, 0, 14, 267, 0, 6,
    3, 144, 136, 0, 14, 269, 0, 6, 2, 124, 132, 0, 14, 271, 0, 6,
    3, 124, 132, 0, 14, 273, 0, 6, 2, 148, 140, 0, 14, 275, 0, 6,
    3, 148, 140, 0, 14, 277, 0, 6, 2, 221, 224, 0, 14, 279, 0, 6,
    3, 221, 224, 0, 14, 281, 0, 6, 2, 232, 229, 0, 14, 283, 0, 6,
    3, 232, 229, 0, 14, 285, 0, 6, 2, 222, 223, 0, 14, 287, 0, 6,
    3, 222, 223, 0, 14, 289, 0, 6, 2, 231, 230, 0, 14, 291, 0, 6,
    3, 231, 230, 0, 14, 293, 0, 6, 2, 152, 160, 0, 14, 295, 0, 6,
    3, 152, 160, 0, 14, 297, 0, 6, 2, 176, 168, 0, 14, 299, 0, 6,
    3, 176, 168, 0, 14, 301, 0, 6, 2, 156, 164, 0, 14, 303, 0, 6,
    3, 156, 164, 0, 14, 305, 0, 6, 2, 180, 172, 0, 14, 307, 0, 6,
    3, 180, 172, 0, 14, 309, 0, 6, 2, 233, 236, 0, 14, 311, 0, 6,
    3, 233, 236, 0, 14, 313, 0, 6, 2, 228, 225, 0, 14, 315, 0, 6,
    3, 228, 225, 0, 14, 317, 0, 6, 2, 234, 235, 0, 14, 319, 0, 6,
    3, 234, 235, 0, 14, 321, 0, 6, 2, 227, 226, 0, 14, 323, 0, 6,
    3, 227, 226, 0, 14, 325, 0, 6, 2, 183, 109, 0, 14, 327, 0, 6,
    3, 183, 109, 0, 14, 329, 0, 6, 2, 184, 238, 0, 14, 331, 0, 6,
    3, 184, 238, 0, 14, 333, 0, 6, 2, 184, 237, 0, 14, 335, 0, 6,
    3, 184, 237, 0, 14, 337, 0, 6, 2, 183, 110, 0, 14, 339, 0, 6,
    3, 183, 110, 0, 14, 341, 0, 6, 6, 246, 254, 4192, 6, 246, 254, 4128,
    6, 242, 250, 4192, 6, 242, 250, 4128, 2, 190, 198, 0, 14, 347, 0, 6,
    3, 190, 198, 0, 14, 349, 0, 6, 2, 214, 206, 0, 14, 351, 0, 6,
    3, 214, 206, 0, 14, 353, 0, 6, 2, 194, 202, 0, 14, 355, 0, 6,
    3, 194, 202, 0, 14, 357, 0, 6, 2, 218, 210, 0, 14, 359, 0, 6,
    3, 218, 210, 0, 14, 361, 0, 6, 2, 255, 258, 0, 14, 363, 0, 6,
    3, 255, 258, 0, 14, 365, 0, 6, 2, 262, 259, 0, 14, 367, 0, 6,
    3, 262, 259, 0, 14, 369, 0, 6, 2, 256, 257, 0, 14, 371, 0, 6,
    3, 256, 257, 0, 14, 373, 0, 6, 2, 261, 260, 0, 14, 375, 0, 6,
    3, 261, 260, 0, 14, 377, 0, 6, 6, 290, 326, 6224, 6, 282, 318, 6224,
    6, 274, 310, 6224, 6, 266, 302, 6224, 6, 266, 302, 2096, 6, 274, 310, 2096,
    6, 282, 318, 2096, 6, 290, 326, 2096, 6, 270, 298, 10352, 6, 278, 306, 10352,
    6, 286, 314, 10352, 6, 294, 322, 10352, 6, 294, 322, 6224, 6, 286, 314, 6224,
    6, 278, 306, 6224, 6, 270, 298, 6224, 2, 328, 248, 0, 14, 395, 0, 6,
    3, 328, 248, 0, 14, 397, 0, 6, 2, 332, 252, 0, 14, 399, 0, 6,
    3, 332, 252, 0, 14, 401, 0, 6, 2, 336, 344, 0, 14, 403, 0, 6,
    3, 336, 344, 0, 14, 405, 0, 6, 2, 340, 346, 0, 14, 407, 0, 6,
    3, 340, 346, 0, 14, 409, 0, 6, 2, 342, 345, 0, 14, 411, 0, 6,
    3, 342, 345, 0, 14, 413, 0, 6, 2, 338, 343, 0, 14, 415, 0, 6,
    3, 338, 343, 0, 14, 417, 0, 6, 2, 334, 244, 0, 14, 419, 0, 6,
    3, 334, 244, 0, 14, 421, 0, 6, 2, 330, 240, 0, 14, 423, 0, 6,
    3, 330, 240, 0, 14, 425, 0, 6, 6, 374, 378, 4192, 6, 366, 370, 4192,
    6, 358, 362, 4192, 6, 350, 354, 4192, 6, 350, 354, 4128, 6, 358, 362, 4128,
    6, 366, 370, 4128, 6, 374, 378, 4128, 2, 264, 268, 0, 14, 435, 0, 6,
    3, 264, 268, 0, 14, 437, 0, 6, 2, 272, 276, 0, 14, 439, 0, 6,
    3, 272, 276, 0, 14, 441, 0, 6, 2, 280, 284, 0, 14, 443, 0, 6,
    3, 280, 284, 0, 14, 445, 0, 6, 2, 288, 292, 0, 14, 447, 0, 6,
    3, 288, 292, 0, 14, 449, 0, 6, 2, 379, 390, 0, 14, 451, 0, 6,
    3, 379, 390, 0, 14, 453, 0, 6, 2, 380, 389, 0, 14, 455, 0, 6,
    3, 380, 389, 0, 14, 457, 0, 6, 2, 381, 388, 0, 14, 459, 0, 6,
    3, 381, 388, 0, 14, 461, 0, 6, 2, 382, 387, 0, 14, 463, 0, 6,
    3, 382, 387, 0, 14, 465, 0, 6, 2, 300, 296, 0, 14, 467, 0, 6,
    3, 300, 296, 0, 14, 469, 0, 6, 2, 308, 304, 0, 14, 471, 0, 6,
    3, 308, 304, 0, 14, 473, 0, 6, 2, 316, 312, 0, 14, 475, 0, 6,
    3, 316, 312, 0, 14, 477, 0, 6, 2, 324, 320, 0, 14, 479, 0, 6,
    3, 324, 320, 0, 14, 481, 0, 6, 2, 386, 391, 0, 14, 483, 0, 6,
    3, 386, 391, 0, 14, 485, 0, 6, 2, 385, 392, 0, 14, 487, 0, 6,
    3, 385, 392, 0, 14, 489, 0, 6, 2, 384, 393, 0, 14, 491, 0, 6,
    3, 384, 393, 0, 14, 493, 0, 6, 2, 383, 394, 0, 14, 495, 0, 6,
    3, 383, 394, 0, 14, 497, 0, 6, 2, 396, 352, 0, 14, 499, 0, 6,
    3, 396, 352, 0, 14, 501, 0, 6, 2, 400, 360, 0, 14, 503, 0, 6,
    3, 400, 360, 0, 14, 505, 0, 6, 2, 404, 368, 0, 14, 507, 0, 6,
    3, 404, 368, 0, 14, 509, 0, 6, 2, 408, 376, 0, 14, 511, 0, 6,
    3, 408, 376, 0, 14, 513, 0, 6, 2, 412, 434, 0, 14, 515, 0, 6,
    3, 412, 434, 0, 14, 517, 0, 6, 2, 416, 433, 0, 14, 519, 0, 6,
    3, 416, 433, 0, 14, 521, 0, 6, 2, 420, 432, 0, 14, 523, 0, 6,
    3, 420, 432, 0, 14, 525, 0, 6, 2, 424, 431, 0, 14, 527, 0, 6,
    3, 424, 431, 0, 14, 529, 0, 6, 2, 426, 430, 0, 14, 531, 0, 6,
    3, 426, 430, 0, 14, 533, 0, 6, 2, 422, 429, 0, 14, 535, 0, 6,
    3, 422, 429, 0, 14, 537, 0, 6, 2, 418, 428, 0, 14, 539, 0, 6,
    3, 418, 428, 0, 14, 541, 0, 6, 2, 414, 427, 0, 14, 543, 0, 6,
    3, 414, 427, 0, 14, 545, 0, 6, 2, 410, 372, 0, 14, 547, 0, 6,
    3, 410, 372, 0, 14, 549, 0, 6, 2, 406, 364, 0, 14, 551, 0, 6,
    3, 406, 364, 0, 14, 553, 0, 6, 2, 402, 356, 0, 14, 555, 0, 6,
    3, 402, 356, 0, 14, 557, 0, 6, 2, 398, 348, 0, 14, 559, 0, 6,
    3, 398, 348, 0, 14, 561, 0, 6, 6, 466, 498, 4192, 6, 462, 494, 4192,
    6, 458, 490, 4192, 6, 454, 486, 4192, 6, 454, 486, 4128, 6, 458, 490, 4128,
    6, 462, 494, 4128, 6, 466, 498, 4128, 6, 450, 482, 4192, 6, 446, 478, 4192,
    6, 442, 474, 4192, 6, 438, 470, 4192, 6, 438, 470, 4128, 6, 442, 474, 4128,
    6, 446, 478, 4128, 6, 450, 482, 4128, 2, 500, 468, 0, 14, 579, 0, 6,
    3, 500, 468, 0, 14, 581, 0, 6, 2, 504, 472, 0, 14, 583, 0, 6,
    3, 504, 472, 0, 14, 585, 0, 6, 2, 508, 476, 0, 14, 587, 0, 6,
    3, 508, 476, 0, 14, 589, 0, 6, 2, 512, 480, 0, 14, 591, 0, 6,
    3, 512, 480, 0, 14, 593, 0, 6, 2, 516, 484, 0, 14, 595, 0, 6,
    3, 516, 484, 0, 14, 597, 0, 6, 2, 520, 488, 0, 14, 599, 0, 6,
    3, 520, 488, 0, 14, 601, 0, 6, 2, 524, 492, 0, 14, 603, 0, 6,
    3, 524, 492, 0, 14, 605, 0, 6, 2, 528, 496, 0, 14, 607, 0, 6,
    3, 528, 496, 0, 14, 609, 0, 6, 2, 532, 570, 0, 14, 611, 0, 6,
    3, 532, 570, 0, 14, 613, 0, 6, 2, 536, 569, 0, 14, 615, 0, 6,
    3, 536, 569, 0, 14, 617, 0, 6, 2, 540, 568, 0, 14, 619, 0, 6,
    3, 540, 568, 0, 14, 621, 0, 6, 2, 544, 567, 0, 14, 623, 0, 6,
    3, 544, 567, 0, 14, 625, 0, 6, 2, 548, 578, 0, 14, 627, 0, 6,
    3, 548, 578, 0, 14, 629, 0, 6, 2, 552, 577, 0, 14, 631, 0, 6,
    3, 552, 577, 0, 14, 633, 0, 6, 2, 556, 576, 0, 14, 635, 0, 6,
    3, 556, 576, 0, 14, 637, 0, 6, 2, 560, 575, 0, 14, 639, 0, 6,
    3, 560, 575, 0, 14, 641, 0, 6, 2, 562, 574, 0, 14, 643, 0, 6,
    3, 562, 574, 0, 14, 645, 0, 6, 2, 558, 573, 0, 14, 647, 0, 6,
    3, 558, 573, 0, 14, 649, 0, 6, 2, 554, 572, 0, 14, 651, 0, 6,
    3, 554, 572, 0, 14, 653, 0, 6, 2, 550, 571, 0, 14, 655, 0, 6,
    3, 550, 571, 0, 14, 657, 0, 6, 2, 546, 566, 0, 14, 659, 0, 6,
    3, 546, 566, 0, 14, 661, 0, 6, 2, 542, 565, 0, 14, 663, 0, 6,
    3, 542, 565, 0, 14, 665, 0, 6, 2, 538, 564, 0, 14, 667, 0, 6,
    3, 538, 564, 0, 14, 669, 0, 6, 2, 534, 563, 0, 14, 671, 0, 6,
    3, 534, 563, 0, 14, 673, 0, 6, 2, 530, 464, 0, 14, 675, 0, 6,
    3, 530, 464, 0, 14, 677, 0, 6, 2, 526, 460, 0, 14, 679, 0, 6,
    3, 526, 460, 0, 14, 681, 0, 6, 2, 522, 456, 0, 14, 683, 0, 6,
    3, 522, 456, 0, 14, 685, 0, 6, 2, 518, 452, 0, 14, 687, 0, 6,
    3, 518, 452, 0, 14, 689, 0, 6, 2, 514, 448, 0, 14, 691, 0, 6,
    3, 514, 448, 0, 14, 693, 0, 6, 2, 510, 444, 0, 14, 695, 0, 6,
    3, 510, 444, 0, 14, 697, 0, 6, 2, 506, 440, 0, 14, 699, 0, 6,
    3, 506, 440, 0, 14, 701, 0, 6, 2, 502, 436, 0, 14, 703, 0, 6,
    3, 502, 436, 0, 14, 705, 0, 6,
];

/// Output registers of the column pass of `idct64_low16`.
#[verifier::opaque]
pub const IDCT64_LOW16_COL_OUTS: [i32; 64] = [
    580, 584, 588, 592, 596, 600, 604, 608, 612, 616, 620, 624, 628, 632, 636, 640,
    644, 648, 652, 656, 660, 664, 668, 672, 676, 680, 684, 688, 692, 696, 700, 704,
    706, 702, 698, 694, 690, 686, 682, 678, 674, 670, 666, 662, 658, 654, 650, 646,
    642, 638, 634, 630, 626, 622, 618, 614, 610, 606, 602, 598, 594, 590, 586, 582,
];

/// Operations of the row pass of `idct64_low16`.
#[verifier::opaque]
pub const IDCT64_LOW16_ROW_OPS: [i32; 3080] = [
    7, 1, 0, 1, 7, 1, 0, 63, 7, 15, 0, 113, 7, 15, 0, 15,
    7, 9, 0, 9, 7, 9, 0, 55, 7, 7, 0, 121, 7, 7, 0, 7,
    7, 5, 0, 5, 7, 5, 0, 59, 7, 11, 0, 117, 7, 11, 0, 11,
    7, 3, 0, 125, 7, 3, 0, 3, 7, 13, 0, 13, 7, 13, 0, 51,
    7, 2, 0, 2, 7, 2, 0, 62, 7, 14, 0, 114, 7, 14, 0, 14,
    7, 10, 0, 10, 7, 10, 0, 54, 7, 6, 0, 122, 7, 6, 0, 6,
    7, 4, 0, 4, 7, 4, 0, 60, 7, 12, 0, 116, 7, 12, 0, 12,
    6, 66, 65, 7748, 6, 67, 68, 8828, 6, 70, 69, 3684, 6, 71, 72, 12892,
    6, 71, 72, 3684, 6, 70, 69, 4636, 6, 67, 68, 7748, 6, 66, 65, 572,
    6, 74, 73, 5716, 6, 75, 76, 10860, 6, 80, 79, 1652, 6, 77, 78, 14924,
    6, 77, 78, 1652, 6, 80, 79, 6668, 6, 75, 76, 5716, 6, 74, 73, 2604,
    7, 8, 0, 8, 7, 8, 0, 56, 6, 82, 81, 7240, 6, 83, 84, 9336,
    6, 86, 85, 3176, 6, 87, 88, 13400, 6, 87, 88, 3176, 6, 86, 85, 5144,
    6, 83, 84, 7240, 6, 82, 81, 1080, 2, 66, 67, 0, 14, 119, 0, 8,
    3, 66, 67, 0, 14, 121, 0, 8, 2, 93, 94, 0, 14, 123, 0, 8,
    3, 93, 94, 0, 14, 125, 0, 8, 2, 71, 70, 0, 14, 127, 0, 8,
    3, 71, 70, 0, 14, 129, 0, 8, 2, 96, 95, 0, 14, 131, 0, 8,
    3, 96, 95, 0, 14, 133, 0, 8, 2, 74, 75, 0, 14, 135, 0, 8,
    3, 74, 75, 0, 14, 137, 0, 8, 2, 101, 102, 0, 14, 139, 0, 8,
    3, 101, 102, 0, 14, 141, 0, 8, 2, 77, 80, 0, 14, 143, 0, 8,
    3, 77, 80, 0, 14, 145, 0, 8, 2, 104, 103, 0, 14, 147, 0, 8,
    3, 104, 103, 0, 14, 149, 0, 8, 2, 78, 79, 0, 14, 151, 0, 8,
    3, 78, 79, 0, 14, 153, 0, 8, 2, 105, 106, 0, 14, 155, 0, 8,
    3, 105, 106, 0, 14, 157, 0, 8, 2, 73, 76, 0, 14, 159, 0, 8,
    3, 73, 76, 0, 14, 161, 0, 8, 2, 108, 107, 0, 14, 163, 0, 8,
    3, 108, 107, 0, 14, 165, 0, 8, 2, 72, 69, 0, 14, 167, 0, 8,
    3, 72, 69, 0, 14, 169, 0, 8, 2, 97, 98, 0, 14, 171, 0, 8,
    3, 97, 98, 0, 14, 173, 0, 8, 2, 65, 68, 0, 14, 175, 0, 8,
    3, 65, 68, 0, 14, 177, 0, 8, 2, 100, 99, 0, 14, 179, 0, 8,
    3, 100, 99, 0, 14, 181, 0, 8, 7, 0, 0, 32, 7, 0, 0, 32,
    6, 90, 89, 6224, 6, 90, 89, 2096, 6, 91, 92, 10352, 6, 91, 92, 6224,
    2, 82, 83, 0, 14, 189, 0, 8, 3, 82, 83, 0, 14, 191, 0, 8,
    2, 111, 112, 0, 14, 193, 0, 8, 3, 111, 112, 0, 14, 195, 0, 8,
    2, 87, 86, 0, 14, 197, 0, 8, 3, 87, 86, 0, 14, 199, 0, 8,
    2, 114, 113, 0, 14, 201, 0, 8, 3, 114, 113, 0, 14, 203, 0, 8,
    2, 88, 85, 0, 14, 205, 0, 8, 3, 88, 85, 0, 14, 207, 0, 8,
    2, 115, 116, 0, 14, 209, 0, 8, 3, 115, 116, 0, 14, 211, 0, 8,
    2, 81, 84, 0, 14, 213, 0, 8, 3, 81, 84, 0, 14, 215, 0, 8,
    2, 118, 117, 0, 14, 217, 0, 8, 3, 118, 117, 0, 14, 219, 0, 8,
    6, 126, 182, 7240, 6, 122, 178, 7240, 6, 130, 170, 9336, 6, 134, 174, 9336,
    6, 134, 174, 7240, 6, 130, 170, 7240, 6, 122, 178, 1080, 6, 126, 182, 1080,
    6, 142, 166, 3176, 6, 138, 162, 3176, 6, 146, 154, 13400, 6, 150, 158, 13400,
    6, 150, 158, 3176, 6, 146, 154, 3176, 6, 138, 162, 5144, 6, 142, 166, 5144,
    6, 110, 109, 4192, 6, 110, 109, 4128, 2, 90, 91, 0, 14, 239, 0, 8,
    3, 90, 91, 0, 14, 241, 0, 8, 2, 185, 187, 0, 14, 243, 0, 8,
    3, 185, 187, 0, 14, 245, 0, 8, 2, 89, 92, 0, 14, 247, 0, 8,
    3, 89, 92, 0, 14, 249, 0, 8, 2, 186, 188, 0, 14, 251, 0, 8,
    3, 186, 188, 0, 14, 253, 0, 8, 6, 196, 220, 6224, 6, 192, 216, 6224,
    6, 200, 208, 10352, 6, 204, 212, 10352, 6, 204, 212, 6224, 6, 200, 208, 6224,
    6, 192, 216, 2096, 6, 196, 220, 2096, 2, 120, 128, 0, 14, 263, 0, 8,
    3, 120, 128, 0, 14, 265, 0, 8, 2, 144, 136, 0, 14, 267, 0, 8,
    3, 144, 136, 0, 14, 269, 0, 8, 2, 124, 132, 0, 14, 271, 0, 8,
    3, 124, 132, 0, 14, 273, 0, 8, 2, 148, 140, 0, 14, 275, 0, 8,
    3, 148, 140, 0, 14, 277, 0, 8, 2, 221, 224, 0, 14, 279, 0, 8,
    3, 221, 224, 0, 14, 281, 0, 8, 2, 232, 229, 0, 14, 283, 0, 8,
    3, 232, 229, 0, 14, 285, 0, 8, 2, 222, 223, 0, 14, 287, 0, 8,
    3, 222, 223, 0, 14, 289, 0, 8, 2, 231, 230, 0, 14, 291, 0, 8,
    3, 231, 230, 0, 14, 293, 0, 8, 2, 152, 160, 0, 14, 295, 0, 8,
    3, 152, 160, 0, 14, 297, 0, 8, 2, 176, 168, 0, 14, 299, 0, 8,
    3, 176, 168, 0, 14, 301, 0, 8, 2, 156, 164, 0, 14, 303, 0, 8,
    3, 156, 164, 0, 14, 305, 0, 8, 2, 180, 172, 0, 14, 307, 0, 8,
    3, 180, 172, 0, 14, 309, 0, 8, 2, 233, 236, 0, 14, 311, 0, 8,
    3, 233, 236, 0, 14, 313, 0, 8, 2, 228, 225, 0, 14, 315, 0, 8,
    3, 228, 225, 0, 14, 317, 0, 8, 2, 234, 235, 0, 14, 319, 0, 8,
    3, 234, 235, 0, 14, 321, 0, 8, 2, 227, 226, 0, 14, 323, 0, 8,
    3, 227, 226, 0, 14, 325, 0, 8, 2, 183, 109, 0, 14, 327, 0, 8,
    3, 183, 109, 0, 14, 329, 0, 8, 2, 184, 238, 0, 14, 331, 0, 8,
    3, 184, 238, 0, 14, 333, 0, 8, 2, 184, 237, 0, 14, 335, 0, 8,
    3, 184, 237, 0, 14, 337, 0, 8, 2, 183, 110, 0, 14, 339, 0, 8,
    3, 183, 110, 0, 14, 341, 0, 8, 6, 246, 254, 4192, 6, 246, 254, 4128,
    6, 242, 250, 4192, 6, 242, 250, 4128, 2, 190, 198, 0, 14, 347, 0, 8,
    3, 190, 198, 0, 14, 349, 0, 8, 2, 214, 206, 0, 14, 351, 0, 8,
    3, 214, 206, 0, 14, 353, 0, 8, 2, 194, 202, 0, 14, 355, 0, 8,
    3, 194, 202, 0, 14, 357, 0, 8, 2, 218, 210, 0, 14, 359, 0, 8,
    3, 218, 210, 0, 14, 361, 0, 8, 2, 255, 258, 0, 14, 363, 0, 8,
    3, 255, 258, 0, 14, 365, 0, 8, 2, 262, 259, 0, 14, 367, 0, 8,
    3, 262, 259, 0, 14, 369, 0, 8, 2, 256, 257, 0, 14, 371, 0, 8,
    3, 256, 257, 0, 14, 373, 0, 8, 2, 261, 260, 0, 14, 375, 0, 8,
    3, 261, 260, 0, 14, 377, 0, 8, 6, 290, 326, 6224, 6, 282, 318, 6224,
    6, 274, 310, 6224, 6, 266, 302, 6224, 6, 266, 302, 2096, 6, 274, 310, 2096,
    6, 282, 318, 2096, 6, 290, 326, 2096, 6, 270, 298, 10352, 6, 278, 306, 10352,
    6, 286, 314, 10352, 6, 294, 322, 10352, 6, 294, 322, 6224, 6, 286, 314, 6224,
    6, 278, 306, 6224, 6, 270, 298, 6224, 2, 328, 248, 0, 14, 395, 0, 8,
    3, 328, 248, 0, 14, 397, 0, 8, 2, 332, 252, 0, 14, 399, 0, 8,
    3, 332, 252, 0, 14, 401, 0, 8, 2, 336, 344, 0, 14, 403, 0, 8,
    3, 336, 344, 0, 14, 405, 0, 8, 2, 340, 346, 0, 14, 407, 0, 8,
    3, 340, 346, 0, 14, 409, 0, 8, 2, 342, 345, 0, 14, 411, 0, 8,
    3, 342, 345, 0, 14, 413, 0, 8, 2, 338, 343, 0, 14, 415, 0, 8,
    3, 338, 343, 0, 14, 417, 0, 8, 2, 334, 244, 0, 14, 419, 0, 8,
    3, 334, 244, 0, 14, 421, 0, 8, 2, 330, 240, 0, 14, 423, 0, 8,
    3, 330, 240, 0, 14, 425, 0, 8, 6, 374, 378, 4192, 6, 366, 370, 4192,
    6, 358, 362, 4192, 6, 350, 354, 4192, 6, 350, 354, 4128, 6, 358, 362, 4128,
    6, 366, 370, 4128, 6, 374, 378, 4128, 2, 264, 268, 0, 14, 435, 0, 8,
    3, 264, 268, 0, 14, 437, 0, 8, 2, 272, 276, 0, 14, 439, 0, 8,
    3, 272, 276, 0, 14, 441, 0, 8, 2, 280, 284, 0, 14, 443, 0, 8,
    3, 280, 284, 0, 14, 445, 0, 8, 2, 288, 292, 0, 14, 447, 0, 8,
    3, 288, 292, 0, 14, 449, 0, 8, 2, 379, 390, 0, 14, 451, 0, 8,
    3, 379, 390, 0, 14, 453, 0, 8, 2, 380, 389, 0, 14, 455, 0, 8,
    3, 380, 389, 0, 14, 457, 0, 8, 2, 381, 388, 0, 14, 459, 0, 8,
    3, 381, 388, 0, 14, 461, 0, 8, 2, 382, 387, 0, 14, 463, 0, 8,
    3, 382, 387, 0, 14, 465, 0, 8, 2, 300, 296, 0, 14, 467, 0, 8,
    3, 300, 296, 0, 14, 469, 0, 8, 2, 308, 304, 0, 14, 471, 0, 8,
    3, 308, 304, 0, 14, 473, 0, 8, 2, 316, 312, 0, 14, 475, 0, 8,
    3, 316, 312, 0, 14, 477, 0, 8, 2, 324, 320, 0, 14, 479, 0, 8,
    3, 324, 320, 0, 14, 481, 0, 8, 2, 386, 391, 0, 14, 483, 0, 8,
    3, 386, 391, 0, 14, 485, 0, 8, 2, 385, 392, 0, 14, 487, 0, 8,
    3, 385, 392, 0, 14, 489, 0, 8, 2, 384, 393, 0, 14, 491, 0, 8,
    3, 384, 393, 0, 14, 493, 0, 8, 2, 383, 394, 0, 14, 495, 0, 8,
    3, 383, 394, 0, 14, 497, 0, 8, 2, 396, 352, 0, 14, 499, 0, 8,
    3, 396, 352, 0, 14, 501, 0, 8, 2, 400, 360, 0, 14, 503, 0, 8,
    3, 400, 360, 0, 14, 505, 0, 8, 2, 404, 368, 0, 14, 507, 0, 8,
    3, 404, 368, 0, 14, 509, 0, 8, 2, 408, 376, 0, 14, 511, 0, 8,
    3, 408, 376, 0, 14, 513, 0, 8, 2, 412, 434, 0, 14, 515, 0, 8,
    3, 412, 434, 0, 14, 517, 0, 8, 2, 416, 433, 0, 14, 519, 0, 8,
    3, 416, 433, 0, 14, 521, 0, 8, 2, 420, 432, 0, 14, 523, 0, 8,
    3, 420, 432, 0, 14, 525, 0, 8, 2, 424, 431, 0, 14, 527, 0, 8,
    3, 424, 431, 0, 14, 529, 0, 8, 2, 426, 430, 0, 14, 531, 0, 8,
    3, 426, 430, 0, 14, 533, 0, 8, 2, 422, 429, 0, 14, 535, 0, 8,
    3, 422, 429, 0, 14, 537, 0, 8, 2, 418, 428, 0, 14, 539, 0, 8,
    3, 418, 428, 0, 14, 541, 0, 8, 2, 414, 427, 0, 14, 543, 0, 8,
    3, 414, 427, 0, 14, 545, 0, 8, 2, 410, 372, 0, 14, 547, 0, 8,
    3, 410, 372, 0, 14, 549, 0, 8, 2, 406, 364, 0, 14, 551, 0, 8,
    3, 406, 364, 0, 14, 553, 0, 8, 2, 402, 356, 0, 14, 555, 0, 8,
    3, 402, 356, 0, 14, 557, 0, 8, 2, 398, 348, 0, 14, 559, 0, 8,
    3, 398, 348, 0, 14, 561, 0, 8, 6, 466, 498, 4192, 6, 462, 494, 4192,
    6, 458, 490, 4192, 6, 454, 486, 4192, 6, 454, 486, 4128, 6, 458, 490, 4128,
    6, 462, 494, 4128, 6, 466, 498, 4128, 6, 450, 482, 4192, 6, 446, 478, 4192,
    6, 442, 474, 4192, 6, 438, 470, 4192, 6, 438, 470, 4128, 6, 442, 474, 4128,
    6, 446, 478, 4128, 6, 450, 482, 4128, 2, 500, 468, 0, 14, 579, 0, 8,
    3, 500, 468, 0, 14, 581, 0, 8, 2, 504, 472, 0, 14, 583, 0, 8,
    3, 504, 472, 0, 14, 585, 0, 8, 2, 508, 476, 0, 14, 587, 0, 8,
    3, 508, 476, 0, 14, 589, 0, 8, 2, 512, 480, 0, 14, 591, 0, 8,
    3, 512, 480, 0, 14, 593, 0, 8, 2, 516, 484, 0, 14, 595, 0, 8,
    3, 516, 484, 0, 14, 597, 0, 8, 2, 520, 488, 0, 14, 599, 0, 8,
    3, 520, 488, 0, 14, 601, 0, 8, 2, 524, 492, 0, 14, 603, 0, 8,
    3, 524, 492, 0, 14, 605, 0, 8, 2, 528, 496, 0, 14, 607, 0, 8,
    3, 528, 496, 0, 14, 609, 0, 8, 2, 532, 570, 0, 14, 611, 0, 8,
    3, 532, 570, 0, 14, 613, 0, 8, 2, 536, 569, 0, 14, 615, 0, 8,
    3, 536, 569, 0, 14, 617, 0, 8, 2, 540, 568, 0, 14, 619, 0, 8,
    3, 540, 568, 0, 14, 621, 0, 8, 2, 544, 567, 0, 14, 623, 0, 8,
    3, 544, 567, 0, 14, 625, 0, 8, 2, 548, 578, 0, 14, 627, 0, 8,
    3, 548, 578, 0, 14, 629, 0, 8, 2, 552, 577, 0, 14, 631, 0, 8,
    3, 552, 577, 0, 14, 633, 0, 8, 2, 556, 576, 0, 14, 635, 0, 8,
    3, 556, 576, 0, 14, 637, 0, 8, 2, 560, 575, 0, 14, 639, 0, 8,
    3, 560, 575, 0, 14, 641, 0, 8, 2, 562, 574, 0, 14, 643, 0, 8,
    3, 562, 574, 0, 14, 645, 0, 8, 2, 558, 573, 0, 14, 647, 0, 8,
    3, 558, 573, 0, 14, 649, 0, 8, 2, 554, 572, 0, 14, 651, 0, 8,
    3, 554, 572, 0, 14, 653, 0, 8, 2, 550, 571, 0, 14, 655, 0, 8,
    3, 550, 571, 0, 14, 657, 0, 8, 2, 546, 566, 0, 14, 659, 0, 8,
    3, 546, 566, 0, 14, 661, 0, 8, 2, 542, 565, 0, 14, 663, 0, 8,
    3, 542, 565, 0, 14, 665, 0, 8, 2, 538, 564, 0, 14, 667, 0, 8,
    3, 538, 564, 0, 14, 669, 0, 8, 2, 534, 563, 0, 14, 671, 0, 8,
    3, 534, 563, 0, 14, 673, 0, 8, 2, 530, 464, 0, 14, 675, 0, 8,
    3, 530, 464, 0, 14, 677, 0, 8, 2, 526, 460, 0, 14, 679, 0, 8,
    3, 526, 460, 0, 14, 681, 0, 8, 2, 522, 456, 0, 14, 683, 0, 8,
    3, 522, 456, 0, 14, 685, 0, 8, 2, 518, 452, 0, 14, 687, 0, 8,
    3, 518, 452, 0, 14, 689, 0, 8, 2, 514, 448, 0, 14, 691, 0, 8,
    3, 514, 448, 0, 14, 693, 0, 8, 2, 510, 444, 0, 14, 695, 0, 8,
    3, 510, 444, 0, 14, 697, 0, 8, 2, 506, 440, 0, 14, 699, 0, 8,
    3, 506, 440, 0, 14, 701, 0, 8, 2, 502, 436, 0, 14, 703, 0, 8,
    3, 502, 436, 0, 14, 705, 0, 8, 13, 580, 0, 0, 13, 584, 0, 0,
    13, 588, 0, 0, 13, 592, 0, 0, 13, 596, 0, 0, 13, 600, 0, 0,
    13, 604, 0, 0, 13, 608, 0, 0, 13, 612, 0, 0, 13, 616, 0, 0,
    13, 620, 0, 0, 13, 624, 0, 0, 13, 628, 0, 0, 13, 632, 0, 0,
    13, 636, 0, 0, 13, 640, 0, 0, 13, 644, 0, 0, 13, 648, 0, 0,
    13, 652, 0, 0, 13, 656, 0, 0, 13, 660, 0, 0, 13, 664, 0, 0,
    13, 668, 0, 0, 13, 672, 0, 0, 13, 676, 0, 0, 13, 680, 0, 0,
    13, 684, 0, 0, 13, 688, 0, 0, 13, 692, 0, 0, 13, 696, 0, 0,
    13, 700, 0, 0, 13, 704, 0, 0, 13, 706, 0, 0, 13, 702, 0, 0,
    13, 698, 0, 0, 13, 694, 0, 0, 13, 690, 0, 0, 13, 686, 0, 0,
    13, 682, 0, 0, 13, 678, 0, 0, 13, 674, 0, 0, 13, 670, 0, 0,
    13, 666, 0, 0, 13, 662, 0, 0, 13, 658, 0, 0, 13, 654, 0, 0,
    13, 650, 0, 0, 13, 646, 0, 0, 13, 642, 0, 0, 13, 638, 0, 0,
    13, 634, 0, 0, 13, 630, 0, 0, 13, 626, 0, 0, 13, 622, 0, 0,
    13, 618, 0, 0, 13, 614, 0, 0, 13, 610, 0, 0, 13, 606, 0, 0,
    13, 602, 0, 0, 13, 598, 0, 0, 13, 594, 0, 0, 13, 590, 0, 0,
    13, 586, 0, 0, 13, 582, 0, 0, 14, 707, 0, 6, 14, 708, 0, 6,
    14, 709, 0, 6, 14, 710, 0, 6, 14, 711, 0, 6, 14, 712, 0, 6,
    14, 713, 0, 6, 14, 714, 0, 6, 14, 715, 0, 6, 14, 716, 0, 6,
    14, 717, 0, 6, 14, 718, 0, 6, 14, 719, 0, 6, 14, 720, 0, 6,
    14, 721, 0, 6, 14, 722, 0, 6, 14, 723, 0, 6, 14, 724, 0, 6,
    14, 725, 0, 6, 14, 726, 0, 6, 14, 727, 0, 6, 14, 728, 0, 6,
    14, 729, 0, 6, 14, 730, 0, 6, 14, 731, 0, 6, 14, 732, 0, 6,
    14, 733, 0, 6, 14, 734, 0, 6, 14, 735, 0, 6, 14, 736, 0, 6,
    14, 737, 0, 6, 14, 738, 0, 6, 14, 739, 0, 6, 14, 740, 0, 6,
    14, 741, 0, 6, 14, 742, 0, 6, 14, 743, 0, 6, 14, 744, 0, 6,
    14, 745, 0, 6, 14, 746, 0, 6, 14, 747, 0, 6, 14, 748, 0, 6,
    14, 749, 0, 6, 14, 750, 0, 6, 14, 751, 0, 6, 14, 752, 0, 6,
    14, 753, 0, 6, 14, 754, 0, 6, 14, 755, 0, 6, 14, 756, 0, 6,
    14, 757, 0, 6, 14, 758, 0, 6, 14, 759, 0, 6, 14, 760, 0, 6,
    14, 761, 0, 6, 14, 762, 0, 6, 14, 763, 0, 6, 14, 764, 0, 6,
    14, 765, 0, 6, 14, 766, 0, 6, 14, 767, 0, 6, 14, 768, 0, 6,
    14, 769, 0, 6, 14, 770, 0, 6,
];

/// Output registers of the row pass of `idct64_low16`.
#[verifier::opaque]
pub const IDCT64_LOW16_ROW_OUTS: [i32; 64] = [
    771, 772, 773, 774, 775, 776, 777, 778, 779, 780, 781, 782, 783, 784, 785, 786,
    787, 788, 789, 790, 791, 792, 793, 794, 795, 796, 797, 798, 799, 800, 801, 802,
    803, 804, 805, 806, 807, 808, 809, 810, 811, 812, 813, 814, 815, 816, 817, 818,
    819, 820, 821, 822, 823, 824, 825, 826, 827, 828, 829, 830, 831, 832, 833, 834,
];

/// Operations of the column pass of `idct64`.
#[verifier::opaque]
pub const IDCT64_COL_OPS: [i32; 3208] = [
    7, 1, 0, 63, 7, 31, 0, 97, 7, 17, 0, 47, 7, 15, 0, 113,
    7, 9, 0, 55, 7, 23, 0, 105, 7, 25, 0, 39, 7, 7, 0, 121,
    7, 5, 0, 59, 7, 27, 0, 101, 7, 21, 0, 43, 7, 11, 0, 117,
    7, 13, 0, 51, 7, 19, 0, 109, 7, 29, 0, 35, 7, 3, 0, 125,
    7, 3, 0, 3, 7, 29, 0, 29, 7, 19, 0, 19, 7, 13, 0, 13,
    7, 11, 0, 11, 7, 21, 0, 21, 7, 27, 0, 27, 7, 5, 0, 5,
    7, 7, 0, 7, 7, 25, 0, 25, 7, 23, 0, 23, 7, 9, 0, 9,
    7, 15, 0, 15, 7, 17, 0, 17, 7, 31, 0, 31, 7, 1, 0, 1,
    7, 2, 0, 62, 7, 30, 0, 98, 7, 18, 0, 46, 7, 14, 0, 114,
    7, 10, 0, 54, 7, 22, 0, 106, 7, 26, 0, 38, 7, 6, 0, 122,
    7, 6, 0, 6, 7, 26, 0, 26, 7, 22, 0, 22, 7, 10, 0, 10,
    7, 14, 0, 14, 7, 18, 0, 18, 7, 30, 0, 30, 7, 2, 0, 2,
    2, 65, 66, 0, 14, 113, 0, 6, 3, 65, 66, 0, 14, 115, 0, 6,
    2, 68, 67, 0, 14, 117, 0, 6, 3, 68, 67, 0, 14, 119, 0, 6,
    2, 69, 70, 0, 14, 121, 0, 6, 3, 69, 70, 0, 14, 123, 0, 6,
    2, 72, 71, 0, 14, 125, 0, 6, 3, 72, 71, 0, 14, 127, 0, 6,
    2, 73, 74, 0, 14, 129, 0, 6, 3, 73, 74, 0, 14, 131, 0, 6,
    2, 76, 75, 0, 14, 133, 0, 6, 3, 76, 75, 0, 14, 135, 0, 6,
    2, 77, 78, 0, 14, 137, 0, 6, 3, 77, 78, 0, 14, 139, 0, 6,
    2, 80, 79, 0, 14, 141, 0, 6, 3, 80, 79, 0, 14, 143, 0, 6,
    2, 81, 82, 0, 14, 145, 0, 6, 3, 81, 82, 0, 14, 147, 0, 6,
    2, 84, 83, 0, 14, 149, 0, 6, 3, 84, 83, 0, 14, 151, 0, 6,
    2, 85, 86, 0, 14, 153, 0, 6, 3, 85, 86, 0, 14, 155, 0, 6,
    2, 88, 87, 0, 14, 157, 0, 6, 3, 88, 87, 0, 14, 159, 0, 6,
    2, 89, 90, 0, 14, 161, 0, 6, 3, 89, 90, 0, 14, 163, 0, 6,
    2, 92, 91, 0, 14, 165, 0, 6, 3, 92, 91, 0, 14, 167, 0, 6,
    2, 93, 94, 0, 14, 169, 0, 6, 3, 93, 94, 0, 14, 171, 0, 6,
    2, 96, 95, 0, 14, 173, 0, 6, 3, 96, 95, 0, 14, 175, 0, 6,
    7, 4, 0, 60, 7, 28, 0, 100, 7, 20, 0, 44, 7, 12, 0, 116,
    7, 12, 0, 12, 7, 20, 0, 20, 7, 28, 0, 28, 7, 4, 0, 4,
    2, 97, 98, 0, 14, 185, 0, 6, 3, 97, 98, 0, 14, 187, 0, 6,
    2, 100, 99, 0, 14, 189, 0, 6, 3, 100, 99, 0, 14, 191, 0, 6,
    2, 101, 102, 0, 14, 193, 0, 6, 3, 101, 102, 0, 14, 195, 0, 6,
    2, 104, 103, 0, 14, 197, 0, 6, 3, 104, 103, 0, 14, 199, 0, 6,
    2, 105, 106, 0, 14, 201, 0, 6, 3, 105, 106, 0, 14, 203, 0, 6,
    2, 108, 107, 0, 14, 205, 0, 6, 3, 108, 107, 0, 14, 207, 0, 6,
    2, 109, 110, 0, 14, 209, 0, 6, 3, 109, 110, 0, 14, 211, 0, 6,
    2, 112, 111, 0, 14, 213, 0, 6, 3, 112, 111, 0, 14, 215, 0, 6,
    6, 116, 176, 7748, 6, 120, 172, 8828, 6, 124, 168, 3684, 6, 128, 164, 12892,
    6, 132, 160, 5716, 6, 136, 156, 10860, 6, 140, 152, 1652, 6, 144, 148, 14924,
    6, 144, 148, 1652, 6, 140, 152, 6668, 6, 136, 156, 5716, 6, 132, 160, 2604,
    6, 128, 164, 3684, 6, 124, 168, 4636, 6, 120, 172, 7748, 6, 116, 176, 572,
    7, 8, 0, 56, 7, 24, 0, 104, 7, 24, 0, 24, 7, 8, 0, 8,
    2, 177, 178, 0, 14, 237, 0, 6, 3, 177, 178, 0, 14, 239, 0, 6,
    2, 180, 179, 0, 14, 241, 0, 6, 3, 180, 179, 0, 14, 243, 0, 6,
    2, 181, 182, 0, 14, 245, 0, 6, 3, 181, 182, 0, 14, 247, 0, 6,
    2, 184, 183, 0, 14, 249, 0, 6, 3, 184, 183, 0, 14, 251, 0, 6,
    6, 188, 216, 7240, 6, 192, 212, 9336, 6, 196, 208, 3176, 6, 200, 204, 13400,
    6, 200, 204, 3176, 6, 196, 208, 5144, 6, 192, 212, 7240, 6, 188, 216, 1080,
    2, 114, 118, 0, 14, 261, 0, 6, 3, 114, 118, 0, 14, 263, 0, 6,
    2, 217, 218, 0, 14, 265, 0, 6, 3, 217, 218, 0, 14, 267, 0, 6,
    2, 126, 122, 0, 14, 269, 0, 6, 3, 126, 122, 0, 14, 271, 0, 6,
    2, 220, 219, 0, 14, 273, 0, 6, 3, 220, 219, 0, 14, 275, 0, 6,
    2, 130, 134, 0, 14, 277, 0, 6, 3, 130, 134, 0, 14, 279, 0, 6,
    2, 221, 222, 0, 14, 281, 0, 6, 3, 221, 222, 0, 14, 283, 0, 6,
    2, 142, 138, 0, 14, 285, 0, 6, 3, 142, 138, 0, 14, 287, 0, 6,
    2, 224, 223, 0, 14, 289, 0, 6, 3, 224, 223, 0, 14, 291, 0, 6,
    2, 146, 150, 0, 14, 293, 0, 6, 3, 146, 150, 0, 14, 295, 0, 6,
    2, 225, 226, 0, 14, 297, 0, 6, 3, 225, 226, 0, 14, 299, 0, 6,
    2, 158, 154, 0, 14, 301, 0, 6, 3, 158, 154, 0, 14, 303, 0, 6,
    2, 228, 227, 0, 14, 305, 0, 6, 3, 228, 227, 0, 14, 307, 0, 6,
    2, 162, 166, 0, 14, 309, 0, 6, 3, 162, 166, 0, 14, 311, 0, 6,
    2, 229, 230, 0, 14, 313, 0, 6, 3, 229, 230, 0, 14, 315, 0, 6,
    2, 174, 170, 0, 14, 317, 0, 6, 3, 174, 170, 0, 14, 319, 0, 6,
    2, 232, 231, 0, 14, 321, 0, 6, 3, 232, 231, 0, 14, 323, 0, 6,
    7, 0, 0, 32, 7, 0, 0, 32, 7, 16, 0, 48, 7, 16, 0, 16,
    2, 233, 234, 0, 14, 329, 0, 6, 3, 233, 234, 0, 14, 331, 0, 6,
    2, 236, 235, 0, 14, 333, 0, 6, 3, 236, 235, 0, 14, 335, 0, 6,
    6, 240, 252, 6224, 6, 244, 248, 10352, 6, 244, 248, 6224, 6, 240, 252, 2096,
    2, 186, 190, 0, 14, 341, 0, 6, 3, 186, 190, 0, 14, 343, 0, 6,
    2, 253, 254, 0, 14, 345, 0, 6, 3, 253, 254, 0, 14, 347, 0, 6,
    2, 198, 194, 0, 14, 349, 0, 6, 3, 198, 194, 0, 14, 351, 0, 6,
    2, 256, 255, 0, 14, 353, 0, 6, 3, 256, 255, 0, 14, 355, 0, 6,
    2, 202, 206, 0, 14, 357, 0, 6, 3, 202, 206, 0, 14, 359, 0, 6,
    2, 257, 258, 0, 14, 361, 0, 6, 3, 257, 258, 0, 14, 363, 0, 6,
    2, 214, 210, 0, 14, 365, 0, 6, 3, 214, 210, 0, 14, 367, 0, 6,
    2, 260, 259, 0, 14, 369, 0, 6, 3, 260, 259, 0, 14, 371, 0, 6,
    6, 268, 324, 7240, 6, 264, 320, 7240, 6, 272, 312, 9336, 6, 276, 316, 9336,
    6, 284, 308, 3176, 6, 280, 304, 3176, 6, 288, 296, 13400, 6, 292, 300, 13400,
    6, 292, 300, 3176, 6, 288, 296, 3176, 6, 280, 304, 5144, 6, 284, 308, 5144,
    6, 276, 316, 7240, 6, 272, 312, 7240, 6, 264, 320, 1080, 6, 268, 324, 1080,
    2, 325, 328, 0, 14, 389, 0, 6, 3, 325, 328, 0, 14, 391, 0, 6,
    2, 326, 327, 0, 14, 393, 0, 6, 3, 326, 327, 0, 14, 395, 0, 6,
    6, 332, 336, 4192, 6, 332, 336, 4128, 2, 238, 242, 0, 14, 399, 0, 6,
    3, 238, 242, 0, 14, 401, 0, 6, 2, 337, 338, 0, 14, 403, 0, 6,
    3, 337, 338, 0, 14, 405, 0, 6, 2, 250, 246, 0, 14, 407, 0, 6,
    3, 250, 246, 0, 14, 409, 0, 6, 2, 340, 339, 0, 14, 411, 0, 6,
    3, 340, 339, 0, 14, 413, 0, 6, 6, 348, 372, 6224, 6, 344, 368, 6224,
    6, 352, 360, 10352, 6, 356, 364, 10352, 6, 356, 364, 6224, 6, 352, 360, 6224,
    6, 344, 368, 2096, 6, 348, 372, 2096, 2, 262, 270, 0, 14, 423, 0, 6,
    3, 262, 270, 0, 14, 425, 0, 6, 2, 286, 278, 0, 14, 427, 0, 6,
    3, 286, 278, 0, 14, 429, 0, 6, 2, 266, 274, 0, 14, 431, 0, 6,
    3, 266, 274, 0, 14, 433, 0, 6, 2, 290, 282, 0, 14, 435, 0, 6,
    3, 290, 282, 0, 14, 437, 0, 6, 2, 373, 376, 0, 14, 439, 0, 6,
    3, 373, 376, 0, 14, 441, 0, 6, 2, 380, 377, 0, 14, 443, 0, 6,
    3, 380, 377, 0, 14, 445, 0, 6, 2, 374, 375, 0, 14, 447, 0, 6,
    3, 374, 375, 0, 14, 449, 0, 6, 2, 379, 378, 0, 14, 451, 0, 6,
    3, 379, 378, 0, 14, 453, 0, 6, 2, 294, 302, 0, 14, 455, 0, 6,
    3, 294, 302, 0, 14, 457, 0, 6, 2, 318, 310, 0, 14, 459, 0, 6,
    3, 318, 310, 0, 14, 461, 0, 6, 2, 298, 306, 0, 14, 463, 0, 6,
    3, 298, 306, 0, 14, 465, 0, 6, 2, 322, 314, 0, 14, 467, 0, 6,
    3, 322, 314, 0, 14, 469, 0, 6, 2, 381, 384, 0, 14, 471, 0, 6,
    3, 381, 384, 0, 14, 473, 0, 6, 2, 388, 385, 0, 14, 475, 0, 6,
    3, 388, 385, 0, 14, 477, 0, 6, 2, 382, 383, 0, 14, 479, 0, 6,
    3, 382, 383, 0, 14, 481, 0, 6, 2, 387, 386, 0, 14, 483, 0, 6,
    3, 387, 386, 0, 14, 485, 0, 6, 2, 390, 334, 0, 14, 487, 0, 6,
    3, 390, 334, 0, 14, 489, 0, 6, 2, 394, 398, 0, 14, 491, 0, 6,
    3, 394, 398, 0, 14, 493, 0, 6, 2, 396, 397, 0, 14, 495, 0, 6,
    3, 396, 397, 0, 14, 497, 0, 6, 2, 392, 330, 0, 14, 499, 0, 6,
    3, 392, 330, 0, 14, 501, 0, 6, 6, 406, 414, 4192, 6, 402, 410, 4192,
    6, 402, 410, 4128, 6, 406, 414, 4128, 2, 342, 350, 0, 14, 507, 0, 6,
    3, 342, 350, 0, 14, 509, 0, 6, 2, 366, 358, 0, 14, 511, 0, 6,
    3, 366, 358, 0, 14, 513, 0, 6, 2, 346, 354, 0, 14, 515, 0, 6,
    3, 346, 354, 0, 14, 517, 0, 6, 2, 370, 362, 0, 14, 519, 0, 6,
    3, 370, 362, 0, 14, 521, 0, 6, 2, 415, 418, 0, 14, 523, 0, 6,
    3, 415, 418, 0, 14, 525, 0, 6, 2, 422, 419, 0, 14, 527, 0, 6,
    3, 422, 419, 0, 14, 529, 0, 6, 2, 416, 417, 0, 14, 531, 0, 6,
    3, 416, 417, 0, 14, 533, 0, 6, 2, 421, 420, 0, 14, 535, 0, 6,
    3, 421, 420, 0, 14, 537, 0, 6, 6, 450, 486, 6224, 6, 442, 478, 6224,
    6, 434, 470, 6224, 6, 426, 462, 6224, 6, 430, 458, 10352, 6, 438, 466, 10352,
    6, 446, 474, 10352, 6, 454, 482, 10352, 6, 454, 482, 6224, 6, 446, 474, 6224,
    6, 438, 466, 6224, 6, 430, 458, 6224, 6, 426, 462, 2096, 6, 434, 470, 2096,
    6, 442, 478, 2096, 6, 450, 486, 2096, 2, 488, 408, 0, 14, 555, 0, 6,
    3, 488, 408, 0, 14, 557, 0, 6, 2, 492, 412, 0, 14, 559, 0, 6,
    3, 492, 412, 0, 14, 561, 0, 6, 2, 496, 506, 0, 14, 563, 0, 6,
    3, 496, 506, 0, 14, 565, 0, 6, 2, 500, 505, 0, 14, 567, 0, 6,
    3, 500, 505, 0, 14, 569, 0, 6, 2, 502, 504, 0, 14, 571, 0, 6,
    3, 502, 504, 0, 14, 573, 0, 6, 2, 498, 503, 0, 14, 575, 0, 6,
    3, 498, 503, 0, 14, 577, 0, 6, 2, 494, 404, 0, 14, 579, 0, 6,
    3, 494, 404, 0, 14, 581, 0, 6, 2, 490, 400, 0, 14, 583, 0, 6,
    3, 490, 400, 0, 14, 585, 0, 6, 6, 534, 538, 4192, 6, 526, 530, 4192,
    6, 518, 522, 4192, 6, 510, 514, 4192, 6, 510, 514, 4128, 6, 518, 522, 4128,
    6, 526, 530, 4128, 6, 534, 538, 4128, 2, 424, 428, 0, 14, 595, 0, 6,
    3, 424, 428, 0, 14, 597, 0, 6, 2, 432, 436, 0, 14, 599, 0, 6,
    3, 432, 436, 0, 14, 601, 0, 6, 2, 440, 444, 0, 14, 603, 0, 6,
    3, 440, 444, 0, 14, 605, 0, 6, 2, 448, 452, 0, 14, 607, 0, 6,
    3, 448, 452, 0, 14, 609, 0, 6, 2, 539, 546, 0, 14, 611, 0, 6,
    3, 539, 546, 0, 14, 613, 0, 6, 2, 540, 545, 0, 14, 615, 0, 6,
    3, 540, 545, 0, 14, 617, 0, 6, 2, 541, 544, 0, 14, 619, 0, 6,
    3, 541, 544, 0, 14, 621, 0, 6, 2, 542, 543, 0, 14, 623, 0, 6,
    3, 542, 543, 0, 14, 625, 0, 6, 2, 460, 456, 0, 14, 627, 0, 6,
    3, 460, 456, 0, 14, 629, 0, 6, 2, 468, 464, 0, 14, 631, 0, 6,
    3, 468, 464, 0, 14, 633, 0, 6, 2, 476, 472, 0, 14, 635, 0, 6,
    3, 476, 472, 0, 14, 637, 0, 6, 2, 484, 480, 0, 14, 639, 0, 6,
    3, 484, 480, 0, 14, 641, 0, 6, 2, 554, 547, 0, 14, 643, 0, 6,
    3, 554, 547, 0, 14, 645, 0, 6, 2, 553, 548, 0, 14, 647, 0, 6,
    3, 553, 548, 0, 14, 649, 0, 6, 2, 552, 549, 0, 14, 651, 0, 6,
    3, 552, 549, 0, 14, 653, 0, 6, 2, 551, 550, 0, 14, 655, 0, 6,
    3, 551, 550, 0, 14, 657, 0, 6, 2, 556, 512, 0, 14, 659, 0, 6,
    3, 556, 512, 0, 14, 661, 0, 6, 2, 560, 520, 0, 14, 663, 0, 6,
    3, 560, 520, 0, 14, 665, 0, 6, 2, 564, 528, 0, 14, 667, 0, 6,
    3, 564, 528, 0, 14, 669, 0, 6, 2, 568, 536, 0, 14, 671, 0, 6,
    3, 568, 536, 0, 14, 673, 0, 6, 2, 572, 594, 0, 14, 675, 0, 6,
    3, 572, 594, 0, 14, 677, 0, 6, 2, 576, 593, 0, 14, 679, 0, 6,
    3, 576, 593, 0, 14, 681, 0, 6, 2, 580, 592, 0, 14, 683, 0, 6,
    3, 580, 592, 0, 14, 685, 0, 6, 2, 584, 591, 0, 14, 687, 0, 6,
    3, 584, 591, 0, 14, 689, 0, 6, 2, 586, 590, 0, 14, 691, 0, 6,
    3, 586, 590, 0, 14, 693, 0, 6, 2, 582, 589, 0, 14, 695, 0, 6,
    3, 582, 589, 0, 14, 697, 0, 6, 2, 578, 588, 0, 14, 699, 0, 6,
    3, 578, 588, 0, 14, 701, 0, 6, 2, 574, 587, 0, 14, 703, 0, 6,
    3, 574, 587, 0, 14, 705, 0, 6, 2, 570, 532, 0, 14, 707, 0, 6,
    3, 570, 532, 0, 14, 709, 0, 6, 2, 566, 524, 0, 14, 711, 0, 6,
    3, 566, 524, 0, 14, 713, 0, 6, 2, 562, 516, 0, 14, 715, 0, 6,
    3, 562, 516, 0, 14, 717, 0, 6, 2, 558, 508, 0, 14, 719, 0, 6,
    3, 558, 508, 0, 14, 721, 0, 6, 6, 626, 658, 4192, 6, 622, 654, 4192,
    6, 618, 650, 4192, 6, 614, 646, 4192, 6, 610, 642, 4192, 6, 606, 638, 4192,
    6, 602, 634, 4192, 6, 598, 630, 4192, 6, 598, 630, 4128, 6, 602, 634, 4128,
    6, 606, 638, 4128, 6, 610, 642, 4128, 6, 614, 646, 4128, 6, 618, 650, 4128,
    6, 622, 654, 4128, 6, 626, 658, 4128, 2, 660, 628, 0, 14, 739, 0, 6,
    3, 660, 628, 0, 14, 741, 0, 6, 2, 664, 632, 0, 14, 743, 0, 6,
    3, 664, 632, 0, 14, 745, 0, 6, 2, 668, 636, 0, 14, 747, 0, 6,
    3, 668, 636, 0, 14, 749, 0, 6, 2, 672, 640, 0, 14, 751, 0, 6,
    3, 672, 640, 0, 14, 753, 0, 6, 2, 676, 644, 0, 14, 755, 0, 6,
    3, 676, 644, 0, 14, 757, 0, 6, 2, 680, 648, 0, 14, 759, 0, 6,
    3, 680, 648, 0, 14, 761, 0, 6, 2, 684, 652, 0, 14, 763, 0, 6,
    3, 684, 652, 0, 14, 765, 0, 6, 2, 688, 656, 0, 14, 767, 0, 6,
    3, 688, 656, 0, 14, 769, 0, 6, 2, 692, 738, 0, 14, 771, 0, 6,
    3, 692, 738, 0, 14, 773, 0, 6, 2, 696, 737, 0, 14, 775, 0, 6,
    3, 696, 737, 0, 14, 777, 0, 6, 2, 700, 736, 0, 14, 779, 0, 6,
    3, 700, 736, 0, 14, 781, 0, 6, 2, 704, 735, 0, 14, 783, 0, 6,
    3, 704, 735, 0, 14, 785, 0, 6, 2, 708, 734, 0, 14, 787, 0, 6,
    3, 708, 734, 0, 14, 789, 0, 6, 2, 712, 733, 0, 14, 791, 0, 6,
    3, 712, 733, 0, 14, 793, 0, 6, 2, 716, 732, 0, 14, 795, 0, 6,
    3, 716, 732, 0, 14, 797, 0, 6, 2, 720, 731, 0, 14, 799, 0, 6,
    3, 720, 731, 0, 14, 801, 0, 6, 2, 722, 730, 0, 14, 803, 0, 6,
    3, 722, 730, 0, 14, 805, 0, 6, 2, 718, 729, 0, 14, 807, 0, 6,
    3, 718, 729, 0, 14, 809, 0, 6, 2, 714, 728, 0, 14, 811, 0, 6,
    3, 714, 728, 0, 14, 813, 0, 6, 2, 710, 727, 0, 14, 815, 0, 6,
    3, 710, 727, 0, 14, 817, 0, 6, 2, 706, 726, 0, 14, 819, 0, 6,
    3, 706, 726, 0, 14, 821, 0, 6, 2, 702, 725, 0, 14, 823, 0, 6,
    3, 702, 725, 0, 14, 825, 0, 6, 2, 698, 724, 0, 14, 827, 0, 6,
    3, 698, 724, 0, 14, 829, 0, 6, 2, 694, 723, 0, 14, 831, 0, 6,
    3, 694, 723, 0, 14, 833, 0, 6, 2, 690, 624, 0, 14, 835, 0, 6,
    3, 690, 624, 0, 14, 837, 0, 6, 2, 686, 620, 0, 14, 839, 0, 6,
    3, 686, 620, 0, 14, 841, 0, 6, 2, 682, 616, 0, 14, 843, 0, 6,
    3, 682, 616, 0, 14, 845, 0, 6, 2, 678, 612, 0, 14, 847, 0, 6,
    3, 678, 612, 0, 14, 849, 0, 6, 2, 674, 608, 0, 14, 851, 0, 6,
    3, 674, 608, 0, 14, 853, 0, 6, 2, 670, 604, 0, 14, 855, 0, 6,
    3, 670, 604, 0, 14, 857, 0, 6, 2, 666, 600, 0, 14, 859, 0, 6,
    3, 666, 600, 0, 14, 861, 0, 6, 2, 662, 596, 0, 14, 863, 0, 6,
    3, 662, 596, 0, 14, 865, 0, 6,
];

/// Output registers of the column pass of `idct64`.
#[verifier::opaque]
pub const IDCT64_COL_OUTS: [i32; 64] = [
    740, 744, 748, 752, 756, 760, 764, 768, 772, 776, 780, 784, 788, 792, 796, 800,
    804, 808, 812, 816, 820, 824, 828, 832, 836, 840, 844, 848, 852, 856, 860, 864,
    866, 862, 858, 854, 850, 846, 842, 838, 834, 830, 826, 822, 818, 814, 810, 806,
    802, 798, 794, 790, 786, 782, 778, 774, 770, 766, 762, 758, 754, 750, 746, 742,
];

/// Operations of the row pass of `idct64`.
#[verifier::opaque]
pub const IDCT64_ROW_OPS: [i32; 3720] = [
    7, 1, 0, 63, 7, 31, 0, 97, 7, 17, 0, 47, 7, 15, 0, 113,
    7, 9, 0, 55, 7, 23, 0, 105, 7, 25, 0, 39, 7, 7, 0, 121,
    7, 5, 0, 59, 7, 27, 0, 101, 7, 21, 0, 43, 7, 11, 0, 117,
    7, 13, 0, 51, 7, 19, 0, 109, 7, 29, 0, 35, 7, 3, 0, 125,
    7, 3, 0, 3, 7, 29, 0, 29, 7, 19, 0, 19, 7, 13, 0, 13,
    7, 11, 0, 11, 7, 21, 0, 21, 7, 27, 0, 27, 7, 5, 0, 5,
    7, 7, 0, 7, 7, 25, 0, 25, 7, 23, 0, 23, 7, 9, 0, 9,
    7, 15, 0, 15, 7, 17, 0, 17, 7, 31, 0, 31, 7, 1, 0, 1,
    7, 2, 0, 62, 7, 30, 0, 98, 7, 18, 0, 46, 7, 14, 0, 114,
    7, 10, 0, 54, 7, 22, 0, 106, 7, 26, 0, 38, 7, 6, 0, 122,
    7, 6, 0, 6, 7, 26, 0, 26, 7, 22, 0, 22, 7, 10, 0, 10,
    7, 14, 0, 14, 7, 18, 0, 18, 7, 30, 0, 30, 7, 2, 0, 2,
    2, 65, 66, 0, 14, 113, 0, 8, 3, 65, 66, 0, 14, 115, 0, 8,
    2, 68, 67, 0, 14, 117, 0, 8, 3, 68, 67, 0, 14, 119, 0, 8,
    2, 69, 70, 0, 14, 121, 0, 8, 3, 69, 70, 0, 14, 123, 0, 8,
    2, 72, 71, 0, 14, 125, 0, 8, 3, 72, 71, 0, 14, 127, 0, 8,
    2, 73, 74, 0, 14, 129, 0, 8, 3, 73, 74, 0, 14, 131, 0, 8,
    2, 76, 75, 0, 14, 133, 0, 8, 3, 76, 75, 0, 14, 135, 0, 8,
    2, 77, 78, 0, 14, 137, 0, 8, 3, 77, 78, 0, 14, 139, 0, 8,
    2, 80, 79, 0, 14, 141, 0, 8, 3, 80, 79, 0, 14, 143, 0, 8,
    2, 81, 82, 0, 14, 145, 0, 8, 3, 81, 82, 0, 14, 147, 0, 8,
    2, 84, 83, 0, 14, 149, 0, 8, 3, 84, 83, 0, 14, 151, 0, 8,
    2, 85, 86, 0, 14, 153, 0, 8, 3, 85, 86, 0, 14, 155, 0, 8,
    2, 88, 87, 0, 14, 157, 0, 8, 3, 88, 87, 0, 14, 159, 0, 8,
    2, 89, 90, 0, 14, 161, 0, 8, 3, 89, 90, 0, 14, 163, 0, 8,
    2, 92, 91, 0, 14, 165, 0, 8, 3, 92, 91, 0, 14, 167, 0, 8,
    2, 93, 94, 0, 14, 169, 0, 8, 3, 93, 94, 0, 14, 171, 0, 8,
    2, 96, 95, 0, 14, 173, 0, 8, 3, 96, 95, 0, 14, 175, 0, 8,
    7, 4, 0, 60, 7, 28, 0, 100, 7, 20, 0, 44, 7, 12, 0, 116,
    7, 12, 0, 12, 7, 20, 0, 20, 7, 28, 0, 28, 7, 4, 0, 4,
    2, 97, 98, 0, 14, 185, 0, 8, 3, 97, 98, 0, 14, 187, 0, 8,
    2, 100, 99, 0, 14, 189, 0, 8, 3, 100, 99, 0, 14, 191, 0, 8,
    2, 101, 102, 0, 14, 193, 0, 8, 3, 101, 102, 0, 14, 195, 0, 8,
    2, 104, 103, 0, 14, 197, 0, 8, 3, 104, 103, 0, 14, 199, 0, 8,
    2, 105, 106, 0, 14, 201, 0, 8, 3, 105, 106, 0, 14, 203, 0, 8,
    2, 108, 107, 0, 14, 205, 0, 8, 3, 108, 107, 0, 14, 207, 0, 8,
    2, 109, 110, 0, 14, 209, 0, 8, 3, 109, 110, 0, 14, 211, 0, 8,
    2, 112, 111, 0, 14, 213, 0, 8, 3, 112, 111, 0, 14, 215, 0, 8,
    6, 116, 176, 7748, 6, 120, 172, 8828, 6, 124, 168, 3684, 6, 128, 164, 12892,
    6, 132, 160, 5716, 6, 136, 156, 10860, 6, 140, 152, 1652, 6, 144, 148, 14924,
    6, 144, 148, 1652, 6, 140, 152, 6668, 6, 136, 156, 5716, 6, 132, 160, 2604,
    6, 128, 164, 3684, 6, 124, 168, 4636, 6, 120, 172, 7748, 6, 116, 176, 572,
    7, 8, 0, 56, 7, 24, 0, 104, 7, 24, 0, 24, 7, 8, 0, 8,
    2, 177, 178, 0, 14, 237, 0, 8, 3, 177, 178, 0, 14, 239, 0, 8,
    2, 180, 179, 0, 14, 241, 0, 8, 3, 180, 179, 0, 14, 243, 0, 8,
    2, 181, 182, 0, 14, 245, 0, 8, 3, 181, 182, 0, 14, 247, 0, 8,
    2, 184, 183, 0, 14, 249, 0, 8, 3, 184, 183, 0, 14, 251, 0, 8,
    6, 188, 216, 7240, 6, 192, 212, 9336, 6, 196, 208, 3176, 6, 200, 204, 13400,
    6, 200, 204, 3176, 6, 196, 208, 5144, 6, 192, 212, 7240, 6, 188, 216, 1080,
    2, 114, 118, 0, 14, 261, 0, 8, 3, 114, 118, 0, 14, 263, 0, 8,
    2, 217, 218, 0, 14, 265, 0, 8, 3, 217, 218, 0, 14, 267, 0, 8,
    2, 126, 122, 0, 14, 269, 0, 8, 3, 126, 122, 0, 14, 271, 0, 8,
    2, 220, 219, 0, 14, 273, 0, 8, 3, 220, 219, 0, 14, 275, 0, 8,
    2, 130, 134, 0, 14, 277, 0, 8, 3, 130, 134, 0, 14, 279, 0, 8,
    2, 221, 222, 0, 14, 281, 0, 8, 3, 221, 222, 0, 14, 283, 0, 8,
    2, 142, 138, 0, 14, 285, 0, 8, 3, 142, 138, 0, 14, 287, 0, 8,
    2, 224, 223, 0, 14, 289, 0, 8, 3, 224, 223, 0, 14, 291, 0, 8,
    2, 146, 150, 0, 14, 293, 0, 8, 3, 146, 150, 0, 14, 295, 0, 8,
    2, 225, 226, 0, 14, 297, 0, 8, 3, 225, 226, 0, 14, 299, 0, 8,
    2, 158, 154, 0, 14, 301, 0, 8, 3, 158, 154, 0, 14, 303, 0, 8,
    2, 228, 227, 0, 14, 305, 0, 8, 3, 228, 227, 0, 14, 307, 0, 8,
    2, 162, 166, 0, 14, 309, 0, 8, 3, 162, 166, 0, 14, 311, 0, 8,
    2, 229, 230, 0, 14, 313, 0, 8, 3, 229, 230, 0, 14, 315, 0, 8,
    2, 174, 170, 0, 14, 317, 0, 8, 3, 174, 170, 0, 14, 319, 0, 8,
    2, 232, 231, 0, 14, 321, 0, 8, 3, 232, 231, 0, 14, 323, 0, 8,
    7, 0, 0, 32, 7, 0, 0, 32, 7, 16, 0, 48, 7, 16, 0, 16,
    2, 233, 234, 0, 14, 329, 0, 8, 3, 233, 234, 0, 14, 331, 0, 8,
    2, 236, 235, 0, 14, 333, 0, 8, 3, 236, 235, 0, 14, 335, 0, 8,
    6, 240, 252, 6224, 6, 244, 248, 10352, 6, 244, 248, 6224, 6, 240, 252, 2096,
    2, 186, 190, 0, 14, 341, 0, 8, 3, 186, 190, 0, 14, 343, 0, 8,
    2, 253, 254, 0, 14, 345, 0, 8, 3, 253, 254, 0, 14, 347, 0, 8,
    2, 198, 194, 0, 14, 349, 0, 8, 3, 198, 194, 0, 14, 351, 0, 8,
    2, 256, 255, 0, 14, 353, 0, 8, 3, 256, 255, 0, 14, 355, 0, 8,
    2, 202, 206, 0, 14, 357, 0, 8, 3, 202, 206, 0, 14, 359, 0, 8,
    2, 257, 258, 0, 14, 361, 0, 8, 3, 257, 258, 0, 14, 363, 0, 8,
    2, 214, 210, 0, 14, 365, 0, 8, 3, 214, 210, 0, 14, 367, 0, 8,
    2, 260, 259, 0, 14, 369, 0, 8, 3, 260, 259, 0, 14, 371, 0, 8,
    6, 268, 324, 7240, 6, 264, 320, 7240, 6, 272, 312, 9336, 6, 276, 316, 9336,
    6, 284, 308, 3176, 6, 280, 304, 3176, 6, 288, 296, 13400, 6, 292, 300, 13400,
    6, 292, 300, 3176, 6, 288, 296, 3176, 6, 280, 304, 5144, 6, 284, 308, 5144,
    6, 276, 316, 7240, 6, 272, 312, 7240, 6, 264, 320, 1080, 6, 268, 324, 1080,
    2, 325, 328, 0, 14, 389, 0, 8, 3, 325, 328, 0, 14, 391, 0, 8,
    2, 326, 327, 0, 14, 393, 0, 8, 3, 326, 327, 0, 14, 395, 0, 8,
    6, 332, 336, 4192, 6, 332, 336, 4128, 2, 238, 242, 0, 14, 399, 0, 8,
    3, 238, 242, 0, 14, 401, 0, 8, 2, 337, 338, 0, 14, 403, 0, 8,
    3, 337, 338, 0, 14, 405, 0, 8, 2, 250, 246, 0, 14, 407, 0, 8,
    3, 250, 246, 0, 14, 409, 0, 8, 2, 340, 339, 0, 14, 411, 0, 8,
    3, 340, 339, 0, 14, 413, 0, 8, 6, 348, 372, 6224, 6, 344, 368, 6224,
    6, 352, 360, 10352, 6, 356, 364, 10352, 6, 356, 364, 6224, 6, 352, 360, 6224,
    6, 344, 368, 2096, 6, 348, 372, 2096, 2, 262, 270, 0, 14, 423, 0, 8,
    3, 262, 270, 0, 14, 425, 0, 8, 2, 286, 278, 0, 14, 427, 0, 8,
    3, 286, 278, 0, 14, 429, 0, 8, 2, 266, 274, 0, 14, 431, 0, 8,
    3, 266, 274, 0, 14, 433, 0, 8, 2, 290, 282, 0, 14, 435, 0, 8,
    3, 290, 282, 0, 14, 437, 0, 8, 2, 373, 376, 0, 14, 439, 0, 8,
    3, 373, 376, 0, 14, 441, 0, 8, 2, 380, 377, 0, 14, 443, 0, 8,
    3, 380, 377, 0, 14, 445, 0, 8, 2, 374, 375, 0, 14, 447, 0, 8,
    3, 374, 375, 0, 14, 449, 0, 8, 2, 379, 378, 0, 14, 451, 0, 8,
    3, 379, 378, 0, 14, 453, 0, 8, 2, 294, 302, 0, 14, 455, 0, 8,
    3, 294, 302, 0, 14, 457, 0, 8, 2, 318, 310, 0, 14, 459, 0, 8,
    3, 318, 310, 0, 14, 461, 0, 8, 2, 298, 306, 0, 14, 463, 0, 8,
    3, 298, 306, 0, 14, 465, 0, 8, 2, 322, 314, 0, 14, 467, 0, 8,
    3, 322, 314, 0, 14, 469, 0, 8, 2, 381, 384, 0, 14, 471, 0, 8,
    3, 381, 384, 0, 14, 473, 0, 8, 2, 388, 385, 0, 14, 475, 0, 8,
    3, 388, 385, 0, 14, 477, 0, 8, 2, 382, 383, 0, 14, 479, 0, 8,
    3, 382, 383, 0, 14, 481, 0, 8, 2, 387, 386, 0, 14, 483, 0, 8,
    3, 387, 386, 0, 14, 485, 0, 8, 2, 390, 334, 0, 14, 487, 0, 8,
    3, 390, 334, 0, 14, 489, 0, 8, 2, 394, 398, 0, 14, 491, 0, 8,
    3, 394, 398, 0, 14, 493, 0, 8, 2, 396, 397, 0, 14, 495, 0, 8,
    3, 396, 397, 0, 14, 497, 0, 8, 2, 392, 330, 0, 14, 499, 0, 8,
    3, 392, 330, 0, 14, 501, 0, 8, 6, 406, 414, 4192, 6, 402, 410, 4192,
    6, 402, 410, 4128, 6, 406, 414, 4128, 2, 342, 350, 0, 14, 507, 0, 8,
    3, 342, 350, 0, 14, 509, 0, 8, 2, 366, 358, 0, 14, 511, 0, 8,
    3, 366, 358, 0, 14, 513, 0, 8, 2, 346, 354, 0, 14, 515, 0, 8,
    3, 346, 354, 0, 14, 517, 0, 8, 2, 370, 362, 0, 14, 519, 0, 8,
    3, 370, 362, 0, 14, 521, 0, 8, 2, 415, 418, 0, 14, 523, 0, 8,
    3, 415, 418, 0, 14, 525, 0, 8, 2, 422, 419, 0, 14, 527, 0, 8,
    3, 422, 419, 0, 14, 529, 0, 8, 2, 416, 417, 0, 14, 531, 0, 8,
    3, 416, 417, 0, 14, 533, 0, 8, 2, 421, 420, 0, 14, 535, 0, 8,
    3, 421, 420, 0, 14, 537, 0, 8, 6, 450, 486, 6224, 6, 442, 478, 6224,
    6, 434, 470, 6224, 6, 426, 462, 6224, 6, 430, 458, 10352, 6, 438, 466, 10352,
    6, 446, 474, 10352, 6, 454, 482, 10352, 6, 454, 482, 6224, 6, 446, 474, 6224,
    6, 438, 466, 6224, 6, 430, 458, 6224, 6, 426, 462, 2096, 6, 434, 470, 2096,
    6, 442, 478, 2096, 6, 450, 486, 2096, 2, 488, 408, 0, 14, 555, 0, 8,
    3, 488, 408, 0, 14, 557, 0, 8, 2, 492, 412, 0, 14, 559, 0, 8,
    3, 492, 412, 0, 14, 561, 0, 8, 2, 496, 506, 0, 14, 563, 0, 8,
    3, 496, 506, 0, 14, 565, 0, 8, 2, 500, 505, 0, 14, 567, 0, 8,
    3, 500, 505, 0, 14, 569, 0, 8, 2, 502, 504, 0, 14, 571, 0, 8,
    3, 502, 504, 0, 14, 573, 0, 8, 2, 498, 503, 0, 14, 575, 0, 8,
    3, 498, 503, 0, 14, 577, 0, 8, 2, 494, 404, 0, 14, 579, 0, 8,
    3, 494, 404, 0, 14, 581, 0, 8, 2, 490, 400, 0, 14, 583, 0, 8,
    3, 490, 400, 0, 14, 585, 0, 8, 6, 534, 538, 4192, 6, 526, 530, 4192,
    6, 518, 522, 4192, 6, 510, 514, 4192, 6, 510, 514, 4128, 6, 518, 522, 4128,
    6, 526, 530, 4128, 6, 534, 538, 4128, 2, 424, 428, 0, 14, 595, 0, 8,
    3, 424, 428, 0, 14, 597, 0, 8, 2, 432, 436, 0, 14, 599, 0, 8,
    3, 432, 436, 0, 14, 601, 0, 8, 2, 440, 444, 0, 14, 603, 0, 8,
    3, 440, 444, 0, 14, 605, 0, 8, 2, 448, 452, 0, 14, 607, 0, 8,
    3, 448, 452, 0, 14, 609, 0, 8, 2, 539, 546, 0, 14, 611, 0, 8,
    3, 539, 546, 0, 14, 613, 0, 8, 2, 540, 545, 0, 14, 615, 0, 8,
    3, 540, 545, 0, 14, 617, 0, 8, 2, 541, 544, 0, 14, 619, 0, 8,
    3, 541, 544, 0, 14, 621, 0, 8, 2, 542, 543, 0, 14, 623, 0, 8,
    3, 542, 543, 0, 14, 625, 0, 8, 2, 460, 456, 0, 14, 627, 0, 8,
    3, 460, 456, 0, 14, 629, 0, 8, 2, 468, 464, 0, 14, 631, 0, 8,
    3, 468, 464, 0, 14, 633, 0, 8, 2, 476, 472, 0, 14, 635, 0, 8,
    3, 476, 472, 0, 14, 637, 0, 8, 2, 484, 480, 0, 14, 639, 0, 8,
    3, 484, 480, 0, 14, 641, 0, 8, 2, 554, 547, 0, 14, 643, 0, 8,
    3, 554, 547, 0, 14, 645, 0, 8, 2, 553, 548, 0, 14, 647, 0, 8,
    3, 553, 548, 0, 14, 649, 0, 8, 2, 552, 549, 0, 14, 651, 0, 8,
    3, 552, 549, 0, 14, 653, 0, 8, 2, 551, 550, 0, 14, 655, 0, 8,
    3, 551, 550, 0, 14, 657, 0, 8, 2, 556, 512, 0, 14, 659, 0, 8,
    3, 556, 512, 0, 14, 661, 0, 8, 2, 560, 520, 0, 14, 663, 0, 8,
    3, 560, 520, 0, 14, 665, 0, 8, 2, 564, 528, 0, 14, 667, 0, 8,
    3, 564, 528, 0, 14, 669, 0, 8, 2, 568, 536, 0, 14, 671, 0, 8,
    3, 568, 536, 0, 14, 673, 0, 8, 2, 572, 594, 0, 14, 675, 0, 8,
    3, 572, 594, 0, 14, 677, 0, 8, 2, 576, 593, 0, 14, 679, 0, 8,
    3, 576, 593, 0, 14, 681, 0, 8, 2, 580, 592, 0, 14, 683, 0, 8,
    3, 580, 592, 0, 14, 685, 0, 8, 2, 584, 591, 0, 14, 687, 0, 8,
    3, 584, 591, 0, 14, 689, 0, 8, 2, 586, 590, 0, 14, 691, 0, 8,
    3, 586, 590, 0, 14, 693, 0, 8, 2, 582, 589, 0, 14, 695, 0, 8,
    3, 582, 589, 0, 14, 697, 0, 8, 2, 578, 588, 0, 14, 699, 0, 8,
    3, 578, 588, 0, 14, 701, 0, 8, 2, 574, 587, 0, 14, 703, 0, 8,
    3, 574, 587, 0, 14, 705, 0, 8, 2, 570, 532, 0, 14, 707, 0, 8,
    3, 570, 532, 0, 14, 709, 0, 8, 2, 566, 524, 0, 14, 711, 0, 8,
    3, 566, 524, 0, 14, 713, 0, 8, 2, 562, 516, 0, 14, 715, 0, 8,
    3, 562, 516, 0, 14, 717, 0, 8, 2, 558, 508, 0, 14, 719, 0, 8,
    3, 558, 508, 0, 14, 721, 0, 8, 6, 626, 658, 4192, 6, 622, 654, 4192,
    6, 618, 650, 4192, 6, 614, 646, 4192, 6, 610, 642, 4192, 6, 606, 638, 4192,
    6, 602, 634, 4192, 6, 598, 630, 4192, 6, 598, 630, 4128, 6, 602, 634, 4128,
    6, 606, 638, 4128, 6, 610, 642, 4128, 6, 614, 646, 4128, 6, 618, 650, 4128,
    6, 622, 654, 4128, 6, 626, 658, 4128, 2, 660, 628, 0, 14, 739, 0, 8,
    3, 660, 628, 0, 14, 741, 0, 8, 2, 664, 632, 0, 14, 743, 0, 8,
    3, 664, 632, 0, 14, 745, 0, 8, 2, 668, 636, 0, 14, 747, 0, 8,
    3, 668, 636, 0, 14, 749, 0, 8, 2, 672, 640, 0, 14, 751, 0, 8,
    3, 672, 640, 0, 14, 753, 0, 8, 2, 676, 644, 0, 14, 755, 0, 8,
    3, 676, 644, 0, 14, 757, 0, 8, 2, 680, 648, 0, 14, 759, 0, 8,
    3, 680, 648, 0, 14, 761, 0, 8, 2, 684, 652, 0, 14, 763, 0, 8,
    3, 684, 652, 0, 14, 765, 0, 8, 2, 688, 656, 0, 14, 767, 0, 8,
    3, 688, 656, 0, 14, 769, 0, 8, 2, 692, 738, 0, 14, 771, 0, 8,
    3, 692, 738, 0, 14, 773, 0, 8, 2, 696, 737, 0, 14, 775, 0, 8,
    3, 696, 737, 0, 14, 777, 0, 8, 2, 700, 736, 0, 14, 779, 0, 8,
    3, 700, 736, 0, 14, 781, 0, 8, 2, 704, 735, 0, 14, 783, 0, 8,
    3, 704, 735, 0, 14, 785, 0, 8, 2, 708, 734, 0, 14, 787, 0, 8,
    3, 708, 734, 0, 14, 789, 0, 8, 2, 712, 733, 0, 14, 791, 0, 8,
    3, 712, 733, 0, 14, 793, 0, 8, 2, 716, 732, 0, 14, 795, 0, 8,
    3, 716, 732, 0, 14, 797, 0, 8, 2, 720, 731, 0, 14, 799, 0, 8,
    3, 720, 731, 0, 14, 801, 0, 8, 2, 722, 730, 0, 14, 803, 0, 8,
    3, 722, 730, 0, 14, 805, 0, 8, 2, 718, 729, 0, 14, 807, 0, 8,
    3, 718, 729, 0, 14, 809, 0, 8, 2, 714, 728, 0, 14, 811, 0, 8,
    3, 714, 728, 0, 14, 813, 0, 8, 2, 710, 727, 0, 14, 815, 0, 8,
    3, 710, 727, 0, 14, 817, 0, 8, 2, 706, 726, 0, 14, 819, 0, 8,
    3, 706, 726, 0, 14, 821, 0, 8, 2, 702, 725, 0, 14, 823, 0, 8,
    3, 702, 725, 0, 14, 825, 0, 8, 2, 698, 724, 0, 14, 827, 0, 8,
    3, 698, 724, 0, 14, 829, 0, 8, 2, 694, 723, 0, 14, 831, 0, 8,
    3, 694, 723, 0, 14, 833, 0, 8, 2, 690, 624, 0, 14, 835, 0, 8,
    3, 690, 624, 0, 14, 837, 0, 8, 2, 686, 620, 0, 14, 839, 0, 8,
    3, 686, 620, 0, 14, 841, 0, 8, 2, 682, 616, 0, 14, 843, 0, 8,
    3, 682, 616, 0, 14, 845, 0, 8, 2, 678, 612, 0, 14, 847, 0, 8,
    3, 678, 612, 0, 14, 849, 0, 8, 2, 674, 608, 0, 14, 851, 0, 8,
    3, 674, 608, 0, 14, 853, 0, 8, 2, 670, 604, 0, 14, 855, 0, 8,
    3, 670, 604, 0, 14, 857, 0, 8, 2, 666, 600, 0, 14, 859, 0, 8,
    3, 666, 600, 0, 14, 861, 0, 8, 2, 662, 596, 0, 14, 863, 0, 8,
    3, 662, 596, 0, 14, 865, 0, 8, 13, 740, 0, 0, 13, 744, 0, 0,
    13, 748, 0, 0, 13, 752, 0, 0, 13, 756, 0, 0, 13, 760, 0, 0,
    13, 764, 0, 0, 13, 768, 0, 0, 13, 772, 0, 0, 13, 776, 0, 0,
    13, 780, 0, 0, 13, 784, 0, 0, 13, 788, 0, 0, 13, 792, 0, 0,
    13, 796, 0, 0, 13, 800, 0, 0, 13, 804, 0, 0, 13, 808, 0, 0,
    13, 812, 0, 0, 13, 816, 0, 0, 13, 820, 0, 0, 13, 824, 0, 0,
    13, 828, 0, 0, 13, 832, 0, 0, 13, 836, 0, 0, 13, 840, 0, 0,
    13, 844, 0, 0, 13, 848, 0, 0, 13, 852, 0, 0, 13, 856, 0, 0,
    13, 860, 0, 0, 13, 864, 0, 0, 13, 866, 0, 0, 13, 862, 0, 0,
    13, 858, 0, 0, 13, 854, 0, 0, 13, 850, 0, 0, 13, 846, 0, 0,
    13, 842, 0, 0, 13, 838, 0, 0, 13, 834, 0, 0, 13, 830, 0, 0,
    13, 826, 0, 0, 13, 822, 0, 0, 13, 818, 0, 0, 13, 814, 0, 0,
    13, 810, 0, 0, 13, 806, 0, 0, 13, 802, 0, 0, 13, 798, 0, 0,
    13, 794, 0, 0, 13, 790, 0, 0, 13, 786, 0, 0, 13, 782, 0, 0,
    13, 778, 0, 0, 13, 774, 0, 0, 13, 770, 0, 0, 13, 766, 0, 0,
    13, 762, 0, 0, 13, 758, 0, 0, 13, 754, 0, 0, 13, 750, 0, 0,
    13, 746, 0, 0, 13, 742, 0, 0, 14, 867, 0, 6, 14, 868, 0, 6,
    14, 869, 0, 6, 14, 870, 0, 6, 14, 871, 0, 6, 14, 872, 0, 6,
    14, 873, 0, 6, 14, 874, 0, 6, 14, 875, 0, 6, 14, 876, 0, 6,
    14, 877, 0, 6, 14, 878, 0, 6, 14, 879, 0, 6, 14, 880, 0, 6,
    14, 881, 0, 6, 14, 882, 0, 6, 14, 883, 0, 6, 14, 884, 0, 6,
    14, 885, 0, 6, 14, 886, 0, 6, 14, 887, 0, 6, 14, 888, 0, 6,
    14, 889, 0, 6, 14, 890, 0, 6, 14, 891, 0, 6, 14, 892, 0, 6,
    14, 893, 0, 6, 14, 894, 0, 6, 14, 895, 0, 6, 14, 896, 0, 6,
    14, 897, 0, 6, 14, 898, 0, 6, 14, 899, 0, 6, 14, 900, 0, 6,
    14, 901, 0, 6, 14, 902, 0, 6, 14, 903, 0, 6, 14, 904, 0, 6,
    14, 905, 0, 6, 14, 906, 0, 6, 14, 907, 0, 6, 14, 908, 0, 6,
    14, 909, 0, 6, 14, 910, 0, 6, 14, 911, 0, 6, 14, 912, 0, 6,
    14, 913, 0, 6, 14, 914, 0, 6, 14, 915, 0, 6, 14, 916, 0, 6,
    14, 917, 0, 6, 14, 918, 0, 6, 14, 919, 0, 6, 14, 920, 0, 6,
    14, 921, 0, 6, 14, 922, 0, 6, 14, 923, 0, 6, 14, 924, 0, 6,
    14, 925, 0, 6, 14, 926, 0, 6, 14, 927, 0, 6, 14, 928, 0, 6,
    14, 929, 0, 6, 14, 930, 0, 6,
];

/// Output registers of the row pass of `idct64`.
#[verifier::opaque]
pub const IDCT64_ROW_OUTS: [i32; 64] = [
    931, 932, 933, 934, 935, 936, 937, 938, 939, 940, 941, 942, 943, 944, 945, 946,
    947, 948, 949, 950, 951, 952, 953, 954, 955, 956, 957, 958, 959, 960, 961, 962,
    963, 964, 965, 966, 967, 968, 969, 970, 971, 972, 973, 974, 975, 976, 977, 978,
    979, 980, 981, 982, 983, 984, 985, 986, 987, 988, 989, 990, 991, 992, 993, 994,
];

/// Operations of the column pass of `iadst8_low1`.
#[verifier::opaque]
pub const IADST8_LOW1_COL_OPS: [i32; 148] = [
    1, 0, 0, 60, 4, 9, 0, 0, 5, 10, 0, 0, 1, 0, 0, 4,
    3, 8, 12, 0, 4, 13, 0, 0, 5, 14, 0, 0, 1, 11, 0, 16,
    1, 15, 0, 48, 2, 16, 17, 0, 4, 18, 0, 0, 5, 19, 0, 0,
    1, 11, 0, 48, 1, 15, 0, 16, 3, 21, 22, 0, 4, 23, 0, 0,
    5, 24, 0, 0, 1, 11, 0, 32, 1, 15, 0, 32, 2, 26, 27, 0,
    4, 28, 0, 0, 5, 29, 0, 0, 3, 26, 27, 0, 4, 31, 0, 0,
    5, 32, 0, 0, 1, 20, 0, 32, 1, 25, 0, 32, 2, 34, 35, 0,
    4, 36, 0, 0, 5, 37, 0, 0, 3, 34, 35, 0, 4, 39, 0, 0,
    5, 40, 0, 0, 3, 8, 20, 0, 3, 8, 30, 0, 3, 8, 41, 0,
    3, 8, 15, 0,
];

/// Output registers of the column pass of `iadst8_low1`.
#[verifier::opaque]
pub const IADST8_LOW1_COL_OUTS: [i32; 8] = [
    11, 42, 38, 43, 33, 44, 25, 45,
];

/// Operations of the row pass of `iadst8_low1`.
#[verifier::opaque]
pub const IADST8_LOW1_ROW_OPS: [i32; 228] = [
    1, 0, 0, 60, 4, 9, 0, 0, 5, 10, 0, 0, 1, 0, 0, 4,
    3, 8, 12, 0, 4, 13, 0, 0, 5, 14, 0, 0, 1, 11, 0, 16,
    1, 15, 0, 48, 2, 16, 17, 0, 4, 18, 0, 0, 5, 19, 0, 0,
    1, 11, 0, 48, 1, 15, 0, 16, 3, 21, 22, 0, 4, 23, 0, 0,
    5, 24, 0, 0, 1, 11, 0, 32, 1, 15, 0, 32, 2, 26, 27, 0,
    4, 28, 0, 0, 5, 29, 0, 0, 3, 26, 27, 0, 4, 31, 0, 0,
    5, 32, 0, 0, 1, 20, 0, 32, 1, 25, 0, 32, 2, 34, 35, 0,
    4, 36, 0, 0, 5, 37, 0, 0, 3, 34, 35, 0, 4, 39, 0, 0,
    5, 40, 0, 0, 10, 11, 0, 0, 12, 42, 0, 0, 11, 20, 0, 0,
    12, 44, 0, 0, 14, 43, 0, 6, 14, 45, 0, 6, 10, 38, 0, 0,
    12, 48, 0, 0, 11, 30, 0, 0, 12, 50, 0, 0, 14, 49, 0, 6,
    14, 51, 0, 6, 10, 33, 0, 0, 12, 54, 0, 0, 11, 41, 0, 0,
    12, 56, 0, 0, 14, 55, 0, 6, 14, 57, 0, 6, 10, 25, 0, 0,
    12, 60, 0, 0, 11, 15, 0, 0, 12, 62, 0, 0, 14, 61, 0, 6,
    14, 63, 0, 6,
];

/// Output registers of the row pass of `iadst8_low1`.
#[verifier::opaque]
pub const IADST8_LOW1_ROW_OUTS: [i32; 8] = [
    46, 47, 52, 53, 58, 59, 64, 65,
];

/// Operations of the column pass of `iadst8`.
#[verifier::opaque]
pub const IADST8_COL_OPS: [i32; 448] = [
    1, 7, 0, 4, 1, 0, 0, 60, 2, 9, 10, 0, 4, 11, 0, 0,
    5, 12, 0, 0, 1, 7, 0, 60, 1, 0, 0, 4, 3, 14, 15, 0,
    4, 16, 0, 0, 5, 17, 0, 0, 1, 5, 0, 20, 1, 2, 0, 44,
    2, 19, 20, 0, 4, 21, 0, 0, 5, 22, 0, 0, 1, 5, 0, 44,
    1, 2, 0, 20, 3, 24, 25, 0, 4, 26, 0, 0, 5, 27, 0, 0,
    1, 3, 0, 36, 1, 4, 0, 28, 2, 29, 30, 0, 4, 31, 0, 0,
    5, 32, 0, 0, 1, 3, 0, 28, 1, 4, 0, 36, 3, 34, 35, 0,
    4, 36, 0, 0, 5, 37, 0, 0, 1, 1, 0, 52, 1, 6, 0, 12,
    2, 39, 40, 0, 4, 41, 0, 0, 5, 42, 0, 0, 1, 1, 0, 12,
    1, 6, 0, 52, 3, 44, 45, 0, 4, 46, 0, 0, 5, 47, 0, 0,
    2, 13, 33, 0, 14, 49, 0, 6, 3, 13, 33, 0, 14, 51, 0, 6,
    2, 18, 38, 0, 14, 53, 0, 6, 3, 18, 38, 0, 14, 55, 0, 6,
    2, 23, 43, 0, 14, 57, 0, 6, 3, 23, 43, 0, 14, 59, 0, 6,
    2, 28, 48, 0, 14, 61, 0, 6, 3, 28, 48, 0, 14, 63, 0, 6,
    1, 52, 0, 16, 1, 56, 0, 48, 2, 65, 66, 0, 4, 67, 0, 0,
    5, 68, 0, 0, 1, 52, 0, 48, 1, 56, 0, 16, 3, 70, 71, 0,
    4, 72, 0, 0, 5, 73, 0, 0, 1, 60, 0, 112, 1, 64, 0, 16,
    2, 75, 76, 0, 4, 77, 0, 0, 5, 78, 0, 0, 1, 60, 0, 16,
    1, 64, 0, 112, 3, 80, 81, 0, 4, 82, 0, 0, 5, 83, 0, 0,
    2, 50, 58, 0, 14, 85, 0, 6, 3, 50, 58, 0, 14, 87, 0, 6,
    2, 54, 62, 0, 14, 89, 0, 6, 3, 54, 62, 0, 14, 91, 0, 6,
    2, 69, 79, 0, 14, 93, 0, 6, 3, 69, 79, 0, 14, 95, 0, 6,
    2, 74, 84, 0, 14, 97, 0, 6, 3, 74, 84, 0, 14, 99, 0, 6,
    1, 88, 0, 32, 1, 92, 0, 32, 2, 101, 102, 0, 4, 103, 0, 0,
    5, 104, 0, 0, 3, 101, 102, 0, 4, 106, 0, 0, 5, 107, 0, 0,
    1, 96, 0, 32, 1, 100, 0, 32, 2, 109, 110, 0, 4, 111, 0, 0,
    5, 112, 0, 0, 3, 109, 110, 0, 4, 114, 0, 0, 5, 115, 0, 0,
    3, 8, 94, 0, 3, 8, 105, 0, 3, 8, 116, 0, 3, 8, 90, 0,
];

/// Output registers of the column pass of `iadst8`.
#[verifier::opaque]
pub const IADST8_COL_OUTS: [i32; 8] = [
    86, 117, 113, 118, 108, 119, 98, 120,
];

/// Operations of the row pass of `iadst8`.
#[verifier::opaque]
pub const IADST8_ROW_OPS: [i32; 528] = [
    1, 7, 0, 4, 1, 0, 0, 60, 2, 9, 10, 0, 4, 11, 0, 0,
    5, 12, 0, 0, 1, 7, 0, 60, 1, 0, 0, 4, 3, 14, 15, 0,
    4, 16, 0, 0, 5, 17, 0, 0, 1, 5, 0, 20, 1, 2, 0, 44,
    2, 19, 20, 0, 4, 21, 0, 0, 5, 22, 0, 0, 1, 5, 0, 44,
    1, 2, 0, 20, 3, 24, 25, 0, 4, 26, 0, 0, 5, 27, 0, 0,
    1, 3, 0, 36, 1, 4, 0, 28, 2, 29, 30, 0, 4, 31, 0, 0,
    5, 32, 0, 0, 1, 3, 0, 28, 1, 4, 0, 36, 3, 34, 35, 0,
    4, 36, 0, 0, 5, 37, 0, 0, 1, 1, 0, 52, 1, 6, 0, 12,
    2, 39, 40, 0, 4, 41, 0, 0, 5, 42, 0, 0, 1, 1, 0, 12,
    1, 6, 0, 52, 3, 44, 45, 0, 4, 46, 0, 0, 5, 47, 0, 0,
    2, 13, 33, 0, 14, 49, 0, 8, 3, 13, 33, 0, 14, 51, 0, 8,
    2, 18, 38, 0, 14, 53, 0, 8, 3, 18, 38, 0, 14, 55, 0, 8,
    2, 23, 43, 0, 14, 57, 0, 8, 3, 23, 43, 0, 14, 59, 0, 8,
    2, 28, 48, 0, 14, 61, 0, 8, 3, 28, 48, 0, 14, 63, 0, 8,
    1, 52, 0, 16, 1, 56, 0, 48, 2, 65, 66, 0, 4, 67, 0, 0,
    5, 68, 0, 0, 1, 52, 0, 48, 1, 56, 0, 16, 3, 70, 71, 0,
    4, 72, 0, 0, 5, 73, 0, 0, 1, 60, 0, 112, 1, 64, 0, 16,
    2, 75, 76, 0, 4, 77, 0, 0, 5, 78, 0, 0, 1, 60, 0, 16,
    1, 64, 0, 112, 3, 80, 81, 0, 4, 82, 0, 0, 5, 83, 0, 0,
    2, 50, 58, 0, 14, 85, 0, 8, 3, 50, 58, 0, 14, 87, 0, 8,
    2, 54, 62, 0, 14, 89, 0, 8, 3, 54, 62, 0, 14, 91, 0, 8,
    2, 69, 79, 0, 14, 93, 0, 8, 3, 69, 79, 0, 14, 95, 0, 8,
    2, 74, 84, 0, 14, 97, 0, 8, 3, 74, 84, 0, 14, 99, 0, 8,
    1, 88, 0, 32, 1, 92, 0, 32, 2, 101, 102, 0, 4, 103, 0, 0,
    5, 104, 0, 0, 3, 101, 102, 0, 4, 106, 0, 0, 5, 107, 0, 0,
    1, 96, 0, 32, 1, 100, 0, 32, 2, 109, 110, 0, 4, 111, 0, 0,
    5, 112, 0, 0, 3, 109, 110, 0, 4, 114, 0, 0, 5, 115, 0, 0,
    10, 86, 0, 0, 12, 117, 0, 0, 11, 94, 0, 0, 12, 119, 0, 0,
    14, 118, 0, 6, 14, 120, 0, 6, 10, 113, 0, 0, 12, 123, 0, 0,
    11, 105, 0, 0, 12, 125, 0, 0, 14, 124, 0, 6, 14, 126, 0, 6,
    10, 108, 0, 0, 12, 129, 0, 0, 11, 116, 0, 0, 12, 131, 0, 0,
    14, 130, 0, 6, 14, 132, 0, 6, 10, 98, 0, 0, 12, 135, 0, 0,
    11, 90, 0, 0, 12, 137, 0, 0, 14, 136, 0, 6, 14, 138, 0, 6,
];

/// Output registers of the row pass of `iadst8`.
#[verifier::opaque]
pub const IADST8_ROW_OUTS: [i32; 8] = [
    121, 122, 127, 128, 133, 134, 139, 140,
];

/// Operations of the column pass of `iadst16_low1`.
#[verifier::opaque]
pub const IADST16_LOW1_COL_OPS: [i32; 308] = [
    1, 0, 0, 62, 4, 17, 0, 0, 5, 18, 0, 0, 1, 0, 0, 2,
    3, 16, 20, 0, 4, 21, 0, 0, 5, 22, 0, 0, 1, 19, 0, 8,
    1, 23, 0, 56, 2, 24, 25, 0, 4, 26, 0, 0, 5, 27, 0, 0,
    1, 19, 0, 56, 1, 23, 0, 8, 3, 29, 30, 0, 4, 31, 0, 0,
    5, 32, 0, 0, 1, 19, 0, 16, 1, 23, 0, 48, 2, 34, 35, 0,
    4, 36, 0, 0, 5, 37, 0, 0, 1, 19, 0, 48, 1, 23, 0, 16,
    3, 39, 40, 0, 4, 41, 0, 0, 5, 42, 0, 0, 1, 28, 0, 16,
    1, 33, 0, 48, 2, 44, 45, 0, 4, 46, 0, 0, 5, 47, 0, 0,
    1, 28, 0, 48, 1, 33, 0, 16, 3, 49, 50, 0, 4, 51, 0, 0,
    5, 52, 0, 0, 1, 19, 0, 32, 1, 23, 0, 32, 2, 54, 55, 0,
    4, 56, 0, 0, 5, 57, 0, 0, 3, 54, 55, 0, 4, 59, 0, 0,
    5, 60, 0, 0, 1, 38, 0, 32, 1, 43, 0, 32, 2, 62, 63, 0,
    4, 64, 0, 0, 5, 65, 0, 0, 3, 62, 63, 0, 4, 67, 0, 0,
    5, 68, 0, 0, 1, 28, 0, 32, 1, 33, 0, 32, 2, 70, 71, 0,
    4, 72, 0, 0, 5, 73, 0, 0, 3, 70, 71, 0, 4, 75, 0, 0,
    5, 76, 0, 0, 1, 48, 0, 32, 1, 53, 0, 32, 2, 78, 79, 0,
    4, 80, 0, 0, 5, 81, 0, 0, 3, 78, 79, 0, 4, 83, 0, 0,
    5, 84, 0, 0, 3, 16, 28, 0, 3, 16, 38, 0, 3, 16, 82, 0,
    3, 16, 58, 0, 3, 16, 77, 0, 3, 16, 69, 0, 3, 16, 53, 0,
    3, 16, 23, 0,
];

/// Output registers of the column pass of `iadst16_low1`.
#[verifier::opaque]
pub const IADST16_LOW1_COL_OUTS: [i32; 16] = [
    19, 86, 48, 87, 66, 88, 74, 89, 61, 90, 85, 91, 43, 92, 33, 93,
];

/// Operations of the row pass of `iadst16_low1`.
#[verifier::opaque]
pub const IADST16_LOW1_ROW_OPS: [i32; 468] = [
    1, 0, 0, 62, 4, 17, 0, 0, 5, 18, 0, 0, 1, 0, 0, 2,
    3, 16, 20, 0, 4, 21, 0, 0, 5, 22, 0, 0, 1, 19, 0, 8,
    1, 23, 0, 56, 2, 24, 25, 0, 4, 26, 0, 0, 5, 27, 0, 0,
    1, 19, 0, 56, 1, 23, 0, 8, 3, 29, 30, 0, 4, 31, 0, 0,
    5, 32, 0, 0, 1, 19, 0, 16, 1, 23, 0, 48, 2, 34, 35, 0,
    4, 36, 0, 0, 5, 37, 0, 0, 1, 19, 0, 48, 1, 23, 0, 16,
    3, 39, 40, 0, 4, 41, 0, 0, 5, 42, 0, 0, 1, 28, 0, 16,
    1, 33, 0, 48, 2, 44, 45, 0, 4, 46, 0, 0, 5, 47, 0, 0,
    1, 28, 0, 48, 1, 33, 0, 16, 3, 49, 50, 0, 4, 51, 0, 0,
    5, 52, 0, 0, 1, 19, 0, 32, 1, 23, 0, 32, 2, 54, 55, 0,
    4, 56, 0, 0, 5, 57, 0, 0, 3, 54, 55, 0, 4, 59, 0, 0,
    5, 60, 0, 0, 1, 38, 0, 32, 1, 43, 0, 32, 2, 62, 63, 0,
    4, 64, 0, 0, 5, 65, 0, 0, 3, 62, 63, 0, 4, 67, 0, 0,
    5, 68, 0, 0, 1, 28, 0, 32, 1, 33, 0, 32, 2, 70, 71, 0,
    4, 72, 0, 0, 5, 73, 0, 0, 3, 70, 71, 0, 4, 75, 0, 0,
    5, 76, 0, 0, 1, 48, 0, 32, 1, 53, 0, 32, 2, 78, 79, 0,
    4, 80, 0, 0, 5, 81, 0, 0, 3, 78, 79, 0, 4, 83, 0, 0,
    5, 84, 0, 0, 10, 19, 0, 0, 12, 86, 0, 0, 11, 28, 0, 0,
    12, 88, 0, 0, 14, 87, 0, 6, 14, 89, 0, 6, 10, 48, 0, 0,
    12, 92, 0, 0, 11, 38, 0, 0, 12, 94, 0, 0, 14, 93, 0, 6,
    14, 95, 0, 6, 10, 66, 0, 0, 12, 98, 0, 0, 11, 82, 0, 0,
    12, 100, 0, 0, 14, 99, 0, 6, 14, 101, 0, 6, 10, 74, 0, 0,
    12, 104, 0, 0, 11, 58, 0, 0, 12, 106, 0, 0, 14, 105, 0, 6,
    14, 107, 0, 6, 10, 61, 0, 0, 12, 110, 0, 0, 11, 77, 0, 0,
    12, 112, 0, 0, 14, 111, 0, 6, 14, 113, 0, 6, 10, 85, 0, 0,
    12, 116, 0, 0, 11, 69, 0, 0, 12, 118, 0, 0, 14, 117, 0, 6,
    14, 119, 0, 6, 10, 43, 0, 0, 12, 122, 0, 0, 11, 53, 0, 0,
    12, 124, 0, 0, 14, 123, 0, 6, 14, 125, 0, 6, 10, 33, 0, 0,
    12, 128, 0, 0, 11, 23, 0, 0, 12, 130, 0, 0, 14, 129, 0, 6,
    14, 131, 0, 6,
];

/// Output registers of the row pass of `iadst16_low1`.
#[verifier::opaque]
pub const IADST16_LOW1_ROW_OUTS: [i32; 16] = [
    90, 91, 96, 97, 102, 103, 108, 109, 114, 115, 120, 121, 126, 127, 132, 133,
];

/// Operations of the column pass of `iadst16_low8`.
#[verifier::opaque]
pub const IADST16_LOW8_COL_OPS: [i32; 1072] = [
    1, 0, 0, 62, 4, 17, 0, 0, 5, 18, 0, 0, 1, 0, 0, 2,
    3, 16, 20, 0, 4, 21, 0, 0, 5, 22, 0, 0, 1, 2, 0, 54,
    4, 24, 0, 0, 5, 25, 0, 0, 1, 2, 0, 10, 3, 16, 27, 0,
    4, 28, 0, 0, 5, 29, 0, 0, 1, 4, 0, 46, 4, 31, 0, 0,
    5, 32, 0, 0, 1, 4, 0, 18, 3, 16, 34, 0, 4, 35, 0, 0,
    5, 36, 0, 0, 1, 6, 0, 38, 4, 38, 0, 0, 5, 39, 0, 0,
    1, 6, 0, 26, 3, 16, 41, 0, 4, 42, 0, 0, 5, 43, 0, 0,
    1, 7, 0, 34, 4, 45, 0, 0, 5, 46, 0, 0, 1, 7, 0, 30,
    4, 48, 0, 0, 5, 49, 0, 0, 1, 5, 0, 42, 4, 51, 0, 0,
    5, 52, 0, 0, 1, 5, 0, 22, 4, 54, 0, 0, 5, 55, 0, 0,
    1, 3, 0, 50, 4, 57, 0, 0, 5, 58, 0, 0, 1, 3, 0, 14,
    4, 60, 0, 0, 5, 61, 0, 0, 1, 1, 0, 58, 4, 63, 0, 0,
    5, 64, 0, 0, 1, 1, 0, 6, 4, 66, 0, 0, 5, 67, 0, 0,
    2, 19, 47, 0, 14, 69, 0, 6, 3, 19, 47, 0, 14, 71, 0, 6,
    2, 23, 50, 0, 14, 73, 0, 6, 3, 23, 50, 0, 14, 75, 0, 6,
    2, 26, 53, 0, 14, 77, 0, 6, 3, 26, 53, 0, 14, 79, 0, 6,
    2, 30, 56, 0, 14, 81, 0, 6, 3, 30, 56, 0, 14, 83, 0, 6,
    2, 33, 59, 0, 14, 85, 0, 6, 3, 33, 59, 0, 14, 87, 0, 6,
    2, 37, 62, 0, 14, 89, 0, 6, 3, 37, 62, 0, 14, 91, 0, 6,
    2, 40, 65, 0, 14, 93, 0, 6, 3, 40, 65, 0, 14, 95, 0, 6,
    2, 44, 68, 0, 14, 97, 0, 6, 3, 44, 68, 0, 14, 99, 0, 6,
    1, 72, 0, 56, 1, 76, 0, 56, 1, 72, 0, 8, 2, 103, 102, 0,
    4, 104, 0, 0, 5, 105, 0, 0, 1, 76, 0, 8, 3, 101, 107, 0,
    4, 108, 0, 0, 5, 109, 0, 0, 1, 84, 0, 24, 1, 80, 0, 24,
    1, 80, 0, 40, 2, 113, 111, 0, 4, 114, 0, 0, 5, 115, 0, 0,
    1, 84, 0, 40, 3, 112, 117, 0, 4, 118, 0, 0, 5, 119, 0, 0,
    1, 92, 0, 8, 1, 88, 0, 8, 1, 88, 0, 120, 2, 123, 121, 0,
    4, 124, 0, 0, 5, 125, 0, 0, 1, 92, 0, 120, 3, 122, 127, 0,
    4, 128, 0, 0, 5, 129, 0, 0, 1, 100, 0, 40, 1, 96, 0, 40,
    1, 96, 0, 88, 2, 133, 131, 0, 4, 134, 0, 0, 5, 135, 0, 0,
    1, 100, 0, 88, 3, 132, 137, 0, 4, 138, 0, 0, 5, 139, 0, 0,
    2, 70, 86, 0, 14, 141, 0, 6, 3, 70, 86, 0, 14, 143, 0, 6,
    2, 74, 90, 0, 14, 145, 0, 6, 3, 74, 90, 0, 14, 147, 0, 6,
    2, 78, 94, 0, 14, 149, 0, 6, 3, 78, 94, 0, 14, 151, 0, 6,
    2, 82, 98, 0, 14, 153, 0, 6, 3, 82, 98, 0, 14, 155, 0, 6,
    2, 106, 126, 0, 14, 157, 0, 6, 3, 106, 126, 0, 14, 159, 0, 6,
    2, 110, 130, 0, 14, 161, 0, 6, 3, 110, 130, 0, 14, 163, 0, 6,
    2, 116, 136, 0, 14, 165, 0, 6, 3, 116, 136, 0, 14, 167, 0, 6,
    2, 120, 140, 0, 14, 169, 0, 6, 3, 120, 140, 0, 14, 171, 0, 6,
    1, 148, 0, 48, 1, 144, 0, 48, 1, 144, 0, 16, 2, 175, 173, 0,
    4, 176, 0, 0, 5, 177, 0, 0, 1, 148, 0, 16, 3, 174, 179, 0,
    4, 180, 0, 0, 5, 181, 0, 0, 1, 156, 0, 16, 1, 152, 0, 16,
    1, 152, 0, 112, 2, 185, 183, 0, 4, 186, 0, 0, 5, 187, 0, 0,
    1, 156, 0, 112, 3, 184, 189, 0, 4, 190, 0, 0, 5, 191, 0, 0,
    1, 164, 0, 48, 1, 160, 0, 48, 1, 160, 0, 16, 2, 195, 193, 0,
    4, 196, 0, 0, 5, 197, 0, 0, 1, 164, 0, 16, 3, 194, 199, 0,
    4, 200, 0, 0, 5, 201, 0, 0, 1, 172, 0, 16, 1, 168, 0, 16,
    1, 168, 0, 112, 2, 205, 203, 0, 4, 206, 0, 0, 5, 207, 0, 0,
    1, 172, 0, 112, 3, 204, 209, 0, 4, 210, 0, 0, 5, 211, 0, 0,
    2, 142, 150, 0, 14, 213, 0, 6, 3, 142, 150, 0, 14, 215, 0, 6,
    2, 146, 154, 0, 14, 217, 0, 6, 3, 146, 154, 0, 14, 219, 0, 6,
    2, 178, 188, 0, 14, 221, 0, 6, 3, 178, 188, 0, 14, 223, 0, 6,
    2, 182, 192, 0, 14, 225, 0, 6, 3, 182, 192, 0, 14, 227, 0, 6,
    2, 158, 166, 0, 14, 229, 0, 6, 3, 158, 166, 0, 14, 231, 0, 6,
    2, 162, 170, 0, 14, 233, 0, 6, 3, 162, 170, 0, 14, 235, 0, 6,
    2, 198, 208, 0, 14, 237, 0, 6, 3, 198, 208, 0, 14, 239, 0, 6,
    2, 202, 212, 0, 14, 241, 0, 6, 3, 202, 212, 0, 14, 243, 0, 6,
    1, 216, 0, 32, 1, 220, 0, 32, 2, 245, 246, 0, 4, 247, 0, 0,
    5, 248, 0, 0, 3, 245, 246, 0, 4, 250, 0, 0, 5, 251, 0, 0,
    1, 224, 0, 32, 1, 228, 0, 32, 2, 253, 254, 0, 4, 255, 0, 0,
    5, 256, 0, 0, 3, 253, 254, 0, 4, 258, 0, 0, 5, 259, 0, 0,
    1, 232, 0, 32, 1, 236, 0, 32, 2, 261, 262, 0, 4, 263, 0, 0,
    5, 264, 0, 0, 3, 261, 262, 0, 4, 266, 0, 0, 5, 267, 0, 0,
    1, 240, 0, 32, 1, 244, 0, 32, 2, 269, 270, 0, 4, 271, 0, 0,
    5, 272, 0, 0, 3, 269, 270, 0, 4, 274, 0, 0, 5, 275, 0, 0,
    3, 16, 230, 0, 3, 16, 222, 0, 3, 16, 273, 0, 3, 16, 249, 0,
    3, 16, 268, 0, 3, 16, 260, 0, 3, 16, 242, 0, 3, 16, 218, 0,
];

/// Output registers of the column pass of `iadst16_low8`.
#[verifier::opaque]
pub const IADST16_LOW8_COL_OUTS: [i32; 16] = [
    214, 277, 238, 278, 257, 279, 265, 280, 252, 281, 276, 282, 226, 283, 234, 284,
];

/// Operations of the row pass of `iadst16_low8`.
#[verifier::opaque]
pub const IADST16_LOW8_ROW_OPS: [i32; 1232] = [
    1, 0, 0, 62, 4, 17, 0, 0, 5, 18, 0, 0, 1, 0, 0, 2,
    3, 16, 20, 0, 4, 21, 0, 0, 5, 22, 0, 0, 1, 2, 0, 54,
    4, 24, 0, 0, 5, 25, 0, 0, 1, 2, 0, 10, 3, 16, 27, 0,
    4, 28, 0, 0, 5, 29, 0, 0, 1, 4, 0, 46, 4, 31, 0, 0,
    5, 32, 0, 0, 1, 4, 0, 18, 3, 16, 34, 0, 4, 35, 0, 0,
    5, 36, 0, 0, 1, 6, 0, 38, 4, 38, 0, 0, 5, 39, 0, 0,
    1, 6, 0, 26, 3, 16, 41, 0, 4, 42, 0, 0, 5, 43, 0, 0,
    1, 7, 0, 34, 4, 45, 0, 0, 5, 46, 0, 0, 1, 7, 0, 30,
    4, 48, 0, 0, 5, 49, 0, 0, 1, 5, 0, 42, 4, 51, 0, 0,
    5, 52, 0, 0, 1, 5, 0, 22, 4, 54, 0, 0, 5, 55, 0, 0,
    1, 3, 0, 50, 4, 57, 0, 0, 5, 58, 0, 0, 1, 3, 0, 14,
    4, 60, 0, 0, 5, 61, 0, 0, 1, 1, 0, 58, 4, 63, 0, 0,
    5, 64, 0, 0, 1, 1, 0, 6, 4, 66, 0, 0, 5, 67, 0, 0,
    2, 19, 47, 0, 14, 69, 0, 8, 3, 19, 47, 0, 14, 71, 0, 8,
    2, 23, 50, 0, 14, 73, 0, 8, 3, 23, 50, 0, 14, 75, 0, 8,
    2, 26, 53, 0, 14, 77, 0, 8, 3, 26, 53, 0, 14, 79, 0, 8,
    2, 30, 56, 0, 14, 81, 0, 8, 3, 30, 56, 0, 14, 83, 0, 8,
    2, 33, 59, 0, 14, 85, 0, 8, 3, 33, 59, 0, 14, 87, 0, 8,
    2, 37, 62, 0, 14, 89, 0, 8, 3, 37, 62, 0, 14, 91, 0, 8,
    2, 40, 65, 0, 14, 93, 0, 8, 3, 40, 65, 0, 14, 95, 0, 8,
    2, 44, 68, 0, 14, 97, 0, 8, 3, 44, 68, 0, 14, 99, 0, 8,
    1, 72, 0, 56, 1, 76, 0, 56, 1, 72, 0, 8, 2, 103, 102, 0,
    4, 104, 0, 0, 5, 105, 0, 0, 1, 76, 0, 8, 3, 101, 107, 0,
    4, 108, 0, 0, 5, 109, 0, 0, 1, 84, 0, 24, 1, 80, 0, 24,
    1, 80, 0, 40, 2, 113, 111, 0, 4, 114, 0, 0, 5, 115, 0, 0,
    1, 84, 0, 40, 3, 112, 117, 0, 4, 118, 0, 0, 5, 119, 0, 0,
    1, 92, 0, 8, 1, 88, 0, 8, 1, 88, 0, 120, 2, 123, 121, 0,
    4, 124, 0, 0, 5, 125, 0, 0, 1, 92, 0, 120, 3, 122, 127, 0,
    4, 128, 0, 0, 5, 129, 0, 0, 1, 100, 0, 40, 1, 96, 0, 40,
    1, 96, 0, 88, 2, 133, 131, 0, 4, 134, 0, 0, 5, 135, 0, 0,
    1, 100, 0, 88, 3, 132, 137, 0, 4, 138, 0, 0, 5, 139, 0, 0,
    2, 70, 86, 0, 14, 141, 0, 8, 3, 70, 86, 0, 14, 143, 0, 8,
    2, 74, 90, 0, 14, 145, 0, 8, 3, 74, 90, 0, 14, 147, 0, 8,
    2, 78, 94, 0, 14, 149, 0, 8, 3, 78, 94, 0, 14, 151, 0, 8,
    2, 82, 98, 0, 14, 153, 0, 8, 3, 82, 98, 0, 14, 155, 0, 8,
    2, 106, 126, 0, 14, 157, 0, 8, 3, 106, 126, 0, 14, 159, 0, 8,
    2, 110, 130, 0, 14, 161, 0, 8, 3, 110, 130, 0, 14, 163, 0, 8,
    2, 116, 136, 0, 14, 165, 0, 8, 3, 116, 136, 0, 14, 167, 0, 8,
    2, 120, 140, 0, 14, 169, 0, 8, 3, 120, 140, 0, 14, 171, 0, 8,
    1, 148, 0, 48, 1, 144, 0, 48, 1, 144, 0, 16, 2, 175, 173, 0,
    4, 176, 0, 0, 5, 177, 0, 0, 1, 148, 0, 16, 3, 174, 179, 0,
    4, 180, 0, 0, 5, 181, 0, 0, 1, 156, 0, 16, 1, 152, 0, 16,
    1, 152, 0, 112, 2, 185, 183, 0, 4, 186, 0, 0, 5, 187, 0, 0,
    1, 156, 0, 112, 3, 184, 189, 0, 4, 190, 0, 0, 5, 191, 0, 0,
    1, 164, 0, 48, 1, 160, 0, 48, 1, 160, 0, 16, 2, 195, 193, 0,
    4, 196, 0, 0, 5, 197, 0, 0, 1, 164, 0, 16, 3, 194, 199, 0,
    4, 200, 0, 0, 5, 201, 0, 0, 1, 172, 0, 16, 1, 168, 0, 16,
    1, 168, 0, 112, 2, 205, 203, 0, 4, 206, 0, 0, 5, 207, 0, 0,
    1, 172, 0, 112, 3, 204, 209, 0, 4, 210, 0, 0, 5, 211, 0, 0,
    2, 142, 150, 0, 14, 213, 0, 8, 3, 142, 150, 0, 14, 215, 0, 8,
    2, 146, 154, 0, 14, 217, 0, 8, 3, 146, 154, 0, 14, 219, 0, 8,
    2, 178, 188, 0, 14, 221, 0, 8, 3, 178, 188, 0, 14, 223, 0, 8,
    2, 182, 192, 0, 14, 225, 0, 8, 3, 182, 192, 0, 14, 227, 0, 8,
    2, 158, 166, 0, 14, 229, 0, 8, 3, 158, 166, 0, 14, 231, 0, 8,
    2, 162, 170, 0, 14, 233, 0, 8, 3, 162, 170, 0, 14, 235, 0, 8,
    2, 198, 208, 0, 14, 237, 0, 8, 3, 198, 208, 0, 14, 239, 0, 8,
    2, 202, 212, 0, 14, 241, 0, 8, 3, 202, 212, 0, 14, 243, 0, 8,
    1, 216, 0, 32, 1, 220, 0, 32, 2, 245, 246, 0, 4, 247, 0, 0,
    5, 248, 0, 0, 3, 245, 246, 0, 4, 250, 0, 0, 5, 251, 0, 0,
    1, 224, 0, 32, 1, 228, 0, 32, 2, 253, 254, 0, 4, 255, 0, 0,
    5, 256, 0, 0, 3, 253, 254, 0, 4, 258, 0, 0, 5, 259, 0, 0,
    1, 232, 0, 32, 1, 236, 0, 32, 2, 261, 262, 0, 4, 263, 0, 0,
    5, 264, 0, 0, 3, 261, 262, 0, 4, 266, 0, 0, 5, 267, 0, 0,
    1, 240, 0, 32, 1, 244, 0, 32, 2, 269, 270, 0, 4, 271, 0, 0,
    5, 272, 0, 0, 3, 269, 270, 0, 4, 274, 0, 0, 5, 275, 0, 0,
    10, 214, 0, 0, 12, 277, 0, 0, 11, 230, 0, 0, 12, 279, 0, 0,
    14, 278, 0, 6, 14, 280, 0, 6, 10, 238, 0, 0, 12, 283, 0, 0,
    11, 222, 0, 0, 12, 285, 0, 0, 14, 284, 0, 6, 14, 286, 0, 6,
    10, 257, 0, 0, 12, 289, 0, 0, 11, 273, 0, 0, 12, 291, 0, 0,
    14, 290, 0, 6, 14, 292, 0, 6, 10, 265, 0, 0, 12, 295, 0, 0,
    11, 249, 0, 0, 12, 297, 0, 0, 14, 296, 0, 6, 14, 298, 0, 6,
    10, 252, 0, 0, 12, 301, 0, 0, 11, 268, 0, 0, 12, 303, 0, 0,
    14, 302, 0, 6, 14, 304, 0, 6, 10, 276, 0, 0, 12, 307, 0, 0,
    11, 260, 0, 0, 12, 309, 0, 0, 14, 308, 0, 6, 14, 310, 0, 6,
    10, 226, 0, 0, 12, 313, 0, 0, 11, 242, 0, 0, 12, 315, 0, 0,
    14, 314, 0, 6, 14, 316, 0, 6, 10, 234, 0, 0, 12, 319, 0, 0,
    11, 218, 0, 0, 12, 321, 0, 0, 14, 320, 0, 6, 14, 322, 0, 6,
];

/// Output registers of the row pass of `iadst16_low8`.
#[verifier::opaque]
pub const IADST16_LOW8_ROW_OUTS: [i32; 16] = [
    281, 282, 287, 288, 293, 294, 299, 300, 305, 306, 311, 312, 317, 318, 323, 324,
];

/// Operations of the column pass of `iadst16`.
#[verifier::opaque]
pub const IADST16_COL_OPS: [i32; 1184] = [
    1, 15, 0, 2, 1, 0, 0, 62, 2, 17, 18, 0, 4, 19, 0, 0,
    5, 20, 0, 0, 1, 15, 0, 62, 1, 0, 0, 2, 3, 22, 23, 0,
    4, 24, 0, 0, 5, 25, 0, 0, 1, 13, 0, 10, 1, 2, 0, 54,
    2, 27, 28, 0, 4, 29, 0, 0, 5, 30, 0, 0, 1, 13, 0, 54,
    1, 2, 0, 10, 3, 32, 33, 0, 4, 34, 0, 0, 5, 35, 0, 0,
    1, 11, 0, 18, 1, 4, 0, 46, 2, 37, 38, 0, 4, 39, 0, 0,
    5, 40, 0, 0, 1, 11, 0, 46, 1, 4, 0, 18, 3, 42, 43, 0,
    4, 44, 0, 0, 5, 45, 0, 0, 1, 9, 0, 26, 1, 6, 0, 38,
    2, 47, 48, 0, 4, 49, 0, 0, 5, 50, 0, 0, 1, 9, 0, 38,
    1, 6, 0, 26, 3, 52, 53, 0, 4, 54, 0, 0, 5, 55, 0, 0,
    1, 7, 0, 34, 1, 8, 0, 30, 2, 57, 58, 0, 4, 59, 0, 0,
    5, 60, 0, 0, 1, 7, 0, 30, 1, 8, 0, 34, 3, 62, 63, 0,
    4, 64, 0, 0, 5, 65, 0, 0, 1, 5, 0, 42, 1, 10, 0, 22,
    2, 67, 68, 0, 4, 69, 0, 0, 5, 70, 0, 0, 1, 5, 0, 22,
    1, 10, 0, 42, 3, 72, 73, 0, 4, 74, 0, 0, 5, 75, 0, 0,
    1, 3, 0, 50, 1, 12, 0, 14, 2, 77, 78, 0, 4, 79, 0, 0,
    5, 80, 0, 0, 1, 3, 0, 14, 1, 12, 0, 50, 3, 82, 83, 0,
    4, 84, 0, 0, 5, 85, 0, 0, 1, 1, 0, 58, 1, 14, 0, 6,
    2, 87, 88, 0, 4, 89, 0, 0, 5, 90, 0, 0, 1, 1, 0, 6,
    1, 14, 0, 58, 3, 92, 93, 0, 4, 94, 0, 0, 5, 95, 0, 0,
    2, 21, 61, 0, 14, 97, 0, 6, 3, 21, 61, 0, 14, 99, 0, 6,
    2, 26, 66, 0, 14, 101, 0, 6, 3, 26, 66, 0, 14, 103, 0, 6,
    2, 31, 71, 0, 14, 105, 0, 6, 3, 31, 71, 0, 14, 107, 0, 6,
    2, 36, 76, 0, 14, 109, 0, 6, 3, 36, 76, 0, 14, 111, 0, 6,
    2, 41, 81, 0, 14, 113, 0, 6, 3, 41, 81, 0, 14, 115, 0, 6,
    2, 46, 86, 0, 14, 117, 0, 6, 3, 46, 86, 0, 14, 119, 0, 6,
    2, 51, 91, 0, 14, 121, 0, 6, 3, 51, 91, 0, 14, 123, 0, 6,
    2, 56, 96, 0, 14, 125, 0, 6, 3, 56, 96, 0, 14, 127, 0, 6,
    1, 100, 0, 8, 1, 104, 0, 56, 2, 129, 130, 0, 4, 131, 0, 0,
    5, 132, 0, 0, 1, 100, 0, 56, 1, 104, 0, 8, 3, 134, 135, 0,
    4, 136, 0, 0, 5, 137, 0, 0, 1, 108, 0, 40, 1, 112, 0, 24,
    2, 139, 140, 0, 4, 141, 0, 0, 5, 142, 0, 0, 1, 108, 0, 24,
    1, 112, 0, 40, 3, 144, 145, 0, 4, 146, 0, 0, 5, 147, 0, 0,
    1, 116, 0, 120, 1, 120, 0, 8, 2, 149, 150, 0, 4, 151, 0, 0,
    5, 152, 0, 0, 1, 116, 0, 8, 1, 120, 0, 120, 3, 154, 155, 0,
    4, 156, 0, 0, 5, 157, 0, 0, 1, 124, 0, 88, 1, 128, 0, 40,
    2, 159, 160, 0, 4, 161, 0, 0, 5, 162, 0, 0, 1, 124, 0, 40,
    1, 128, 0, 88, 3, 164, 165, 0, 4, 166, 0, 0, 5, 167, 0, 0,
    2, 98, 114, 0, 14, 169, 0, 6, 3, 98, 114, 0, 14, 171, 0, 6,
    2, 102, 118, 0, 14, 173, 0, 6, 3, 102, 118, 0, 14, 175, 0, 6,
    2, 106, 122, 0, 14, 177, 0, 6, 3, 106, 122, 0, 14, 179, 0, 6,
    2, 110, 126, 0, 14, 181, 0, 6, 3, 110, 126, 0, 14, 183, 0, 6,
    2, 133, 153, 0, 14, 185, 0, 6, 3, 133, 153, 0, 14, 187, 0, 6,
    2, 138, 158, 0, 14, 189, 0, 6, 3, 138, 158, 0, 14, 191, 0, 6,
    2, 143, 163, 0, 14, 193, 0, 6, 3, 143, 163, 0, 14, 195, 0, 6,
    2, 148, 168, 0, 14, 197, 0, 6, 3, 148, 168, 0, 14, 199, 0, 6,
    1, 172, 0, 16, 1, 176, 0, 48, 2, 201, 202, 0, 4, 203, 0, 0,
    5, 204, 0, 0, 1, 172, 0, 48, 1, 176, 0, 16, 3, 206, 207, 0,
    4, 208, 0, 0, 5, 209, 0, 0, 1, 180, 0, 112, 1, 184, 0, 16,
    2, 211, 212, 0, 4, 213, 0, 0, 5, 214, 0, 0, 1, 180, 0, 16,
    1, 184, 0, 112, 3, 216, 217, 0, 4, 218, 0, 0, 5, 219, 0, 0,
    1, 188, 0, 16, 1, 192, 0, 48, 2, 221, 222, 0, 4, 223, 0, 0,
    5, 224, 0, 0, 1, 188, 0, 48, 1, 192, 0, 16, 3, 226, 227, 0,
    4, 228, 0, 0, 5, 229, 0, 0, 1, 196, 0, 112, 1, 200, 0, 16,
    2, 231, 232, 0, 4, 233, 0, 0, 5, 234, 0, 0, 1, 196, 0, 16,
    1, 200, 0, 112, 3, 236, 237, 0, 4, 238, 0, 0, 5, 239, 0, 0,
    2, 170, 178, 0, 14, 241, 0, 6, 3, 170, 178, 0, 14, 243, 0, 6,
    2, 174, 182, 0, 14, 245, 0, 6, 3, 174, 182, 0, 14, 247, 0, 6,
    2, 205, 215, 0, 14, 249, 0, 6, 3, 205, 215, 0, 14, 251, 0, 6,
    2, 210, 220, 0, 14, 253, 0, 6, 3, 210, 220, 0, 14, 255, 0, 6,
    2, 186, 194, 0, 14, 257, 0, 6, 3, 186, 194, 0, 14, 259, 0, 6,
    2, 190, 198, 0, 14, 261, 0, 6, 3, 190, 198, 0, 14, 263, 0, 6,
    2, 225, 235, 0, 14, 265, 0, 6, 3, 225, 235, 0, 14, 267, 0, 6,
    2, 230, 240, 0, 14, 269, 0, 6, 3, 230, 240, 0, 14, 271, 0, 6,
    1, 244, 0, 32, 1, 248, 0, 32, 2, 273, 274, 0, 4, 275, 0, 0,
    5, 276, 0, 0, 3, 273, 274, 0, 4, 278, 0, 0, 5, 279, 0, 0,
    1, 252, 0, 32, 1, 256, 0, 32, 2, 281, 282, 0, 4, 283, 0, 0,
    5, 284, 0, 0, 3, 281, 282, 0, 4, 286, 0, 0, 5, 287, 0, 0,
    1, 260, 0, 32, 1, 264, 0, 32, 2, 289, 290, 0, 4, 291, 0, 0,
    5, 292, 0, 0, 3, 289, 290, 0, 4, 294, 0, 0, 5, 295, 0, 0,
    1, 268, 0, 32, 1, 272, 0, 32, 2, 297, 298, 0, 4, 299, 0, 0,
    5, 300, 0, 0, 3, 297, 298, 0, 4, 302, 0, 0, 5, 303, 0, 0,
    3, 16, 258, 0, 3, 16, 250, 0, 3, 16, 301, 0, 3, 16, 277, 0,
    3, 16, 296, 0, 3, 16, 288, 0, 3, 16, 270, 0, 3, 16, 246, 0,
];

/// Output registers of the column pass of `iadst16`.
#[verifier::opaque]
pub const IADST16_COL_OUTS: [i32; 16] = [
    242, 305, 266, 306, 285, 307, 293, 308, 280, 309, 304, 310, 254, 311, 262, 312,
];

/// Operations of the row pass of `iadst16`.
#[verifier::opaque]
pub const IADST16_ROW_OPS: [i32; 1344] = [
    1, 15, 0, 2, 1, 0, 0, 62, 2, 17, 18, 0, 4, 19, 0, 0,
    5, 20, 0, 0, 1, 15, 0, 62, 1, 0, 0, 2, 3, 22, 23, 0,
    4, 24, 0, 0, 5, 25, 0, 0, 1, 13, 0, 10, 1, 2, 0, 54,
    2, 27, 28, 0, 4, 29, 0, 0, 5, 30, 0, 0, 1, 13, 0, 54,
    1, 2, 0, 10, 3, 32, 33, 0, 4, 34, 0, 0, 5, 35, 0, 0,
    1, 11, 0, 18, 1, 4, 0, 46, 2, 37, 38, 0, 4, 39, 0, 0,
    5, 40, 0, 0, 1, 11, 0, 46, 1, 4, 0, 18, 3, 42, 43, 0,
    4, 44, 0, 0, 5, 45, 0, 0, 1, 9, 0, 26, 1, 6, 0, 38,
    2, 47, 48, 0, 4, 49, 0, 0, 5, 50, 0, 0, 1, 9, 0, 38,
    1, 6, 0, 26, 3, 52, 53, 0, 4, 54, 0, 0, 5, 55, 0, 0,
    1, 7, 0, 34, 1, 8, 0, 30, 2, 57, 58, 0, 4, 59, 0, 0,
    5, 60, 0, 0, 1, 7, 0, 30, 1, 8, 0, 34, 3, 62, 63, 0,
    4, 64, 0, 0, 5, 65, 0, 0, 1, 5, 0, 42, 1, 10, 0, 22,
    2, 67, 68, 0, 4, 69, 0, 0, 5, 70, 0, 0, 1, 5, 0, 22,
    1, 10, 0, 42, 3, 72, 73, 0, 4, 74, 0, 0, 5, 75, 0, 0,
    1, 3, 0, 50, 1, 12, 0, 14, 2, 77, 78, 0, 4, 79, 0, 0,
    5, 80, 0, 0, 1, 3, 0, 14, 1, 12, 0, 50, 3, 82, 83, 0,
    4, 84, 0, 0, 5, 85, 0, 0, 1, 1, 0, 58, 1, 14, 0, 6,
    2, 87, 88, 0, 4, 89, 0, 0, 5, 90, 0, 0, 1, 1, 0, 6,
    1, 14, 0, 58, 3, 92, 93, 0, 4, 94, 0, 0, 5, 95, 0, 0,
    2, 21, 61, 0, 14, 97, 0, 8, 3, 21, 61, 0, 14, 99, 0, 8,
    2, 26, 66, 0, 14, 101, 0, 8, 3, 26, 66, 0, 14, 103, 0, 8,
    2, 31, 71, 0, 14, 105, 0, 8, 3, 31, 71, 0, 14, 107, 0, 8,
    2, 36, 76, 0, 14, 109, 0, 8, 3, 36, 76, 0, 14, 111, 0, 8,
    2, 41, 81, 0, 14, 113, 0, 8, 3, 41, 81, 0, 14, 115, 0, 8,
    2, 46, 86, 0, 14, 117, 0, 8, 3, 46, 86, 0, 14, 119, 0, 8,
    2, 51, 91, 0, 14, 121, 0, 8, 3, 51, 91, 0, 14, 123, 0, 8,
    2, 56, 96, 0, 14, 125, 0, 8, 3, 56, 96, 0, 14, 127, 0, 8,
    1, 100, 0, 8, 1, 104, 0, 56, 2, 129, 130, 0, 4, 131, 0, 0,
    5, 132, 0, 0, 1, 100, 0, 56, 1, 104, 0, 8, 3, 134, 135, 0,
    4, 136, 0, 0, 5, 137, 0, 0, 1, 108, 0, 40, 1, 112, 0, 24,
    2, 139, 140, 0, 4, 141, 0, 0, 5, 142, 0, 0, 1, 108, 0, 24,
    1, 112, 0, 40, 3, 144, 145, 0, 4, 146, 0, 0, 5, 147, 0, 0,
    1, 116, 0, 120, 1, 120, 0, 8, 2, 149, 150, 0, 4, 151, 0, 0,
    5, 152, 0, 0, 1, 116, 0, 8, 1, 120, 0, 120, 3, 154, 155, 0,
    4, 156, 0, 0, 5, 157, 0, 0, 1, 124, 0, 88, 1, 128, 0, 40,
    2, 159, 160, 0, 4, 161, 0, 0, 5, 162, 0, 0, 1, 124, 0, 40,
    1, 128, 0, 88, 3, 164, 165, 0, 4, 166, 0, 0, 5, 167, 0, 0,
    2, 98, 114, 0, 14, 169, 0, 8, 3, 98, 114, 0, 14, 171, 0, 8,
    2, 102, 118, 0, 14, 173, 0, 8, 3, 102, 118, 0, 14, 175, 0, 8,
    2, 106, 122, 0, 14, 177, 0, 8, 3, 106, 122, 0, 14, 179, 0, 8,
    2, 110, 126, 0, 14, 181, 0, 8, 3, 110, 126, 0, 14, 183, 0, 8,
    2, 133, 153, 0, 14, 185, 0, 8, 3, 133, 153, 0, 14, 187, 0, 8,
    2, 138, 158, 0, 14, 189, 0, 8, 3, 138, 158, 0, 14, 191, 0, 8,
    2, 143, 163, 0, 14, 193, 0, 8, 3, 143, 163, 0, 14, 195, 0, 8,
    2, 148, 168, 0, 14, 197, 0, 8, 3, 148, 168, 0, 14, 199, 0, 8,
    1, 172, 0, 16, 1, 176, 0, 48, 2, 201, 202, 0, 4, 203, 0, 0,
    5, 204, 0, 0, 1, 172, 0, 48, 1, 176, 0, 16, 3, 206, 207, 0,
    4, 208, 0, 0, 5, 209, 0, 0, 1, 180, 0, 112, 1, 184, 0, 16,
    2, 211, 212, 0, 4, 213, 0, 0, 5, 214, 0, 0, 1, 180, 0, 16,
    1, 184, 0, 112, 3, 216, 217, 0, 4, 218, 0, 0, 5, 219, 0, 0,
    1, 188, 0, 16, 1, 192, 0, 48, 2, 221, 222, 0, 4, 223, 0, 0,
    5, 224, 0, 0, 1, 188, 0, 48, 1, 192, 0, 16, 3, 226, 227, 0,
    4, 228, 0, 0, 5, 229, 0, 0, 1, 196, 0, 112, 1, 200, 0, 16,
    2, 231, 232, 0, 4, 233, 0, 0, 5, 234, 0, 0, 1, 196, 0, 16,
    1, 200, 0, 112, 3, 236, 237, 0, 4, 238, 0, 0, 5, 239, 0, 0,
    2, 170, 178, 0, 14, 241, 0, 8, 3, 170, 178, 0, 14, 243, 0, 8,
    2, 174, 182, 0, 14, 245, 0, 8, 3, 174, 182, 0, 14, 247, 0, 8,
    2, 205, 215, 0, 14, 249, 0, 8, 3, 205, 215, 0, 14, 251, 0, 8,
    2, 210, 220, 0, 14, 253, 0, 8, 3, 210, 220, 0, 14, 255, 0, 8,
    2, 186, 194, 0, 14, 257, 0, 8, 3, 186, 194, 0, 14, 259, 0, 8,
    2, 190, 198, 0, 14, 261, 0, 8, 3, 190, 198, 0, 14, 263, 0, 8,
    2, 225, 235, 0, 14, 265, 0, 8, 3, 225, 235, 0, 14, 267, 0, 8,
    2, 230, 240, 0, 14, 269, 0, 8, 3, 230, 240, 0, 14, 271, 0, 8,
    1, 244, 0, 32, 1, 248, 0, 32, 2, 273, 274, 0, 4, 275, 0, 0,
    5, 276, 0, 0, 3, 273, 274, 0, 4, 278, 0, 0, 5, 279, 0, 0,
    1, 252, 0, 32, 1, 256, 0, 32, 2, 281, 282, 0, 4, 283, 0, 0,
    5, 284, 0, 0, 3, 281, 282, 0, 4, 286, 0, 0, 5, 287, 0, 0,
    1, 260, 0, 32, 1, 264, 0, 32, 2, 289, 290, 0, 4, 291, 0, 0,
    5, 292, 0, 0, 3, 289, 290, 0, 4, 294, 0, 0, 5, 295, 0, 0,
    1, 268, 0, 32, 1, 272, 0, 32, 2, 297, 298, 0, 4, 299, 0, 0,
    5, 300, 0, 0, 3, 297, 298, 0, 4, 302, 0, 0, 5, 303, 0, 0,
    10, 242, 0, 0, 12, 305, 0, 0, 11, 258, 0, 0, 12, 307, 0, 0,
    14, 306, 0, 6, 14, 308, 0, 6, 10, 266, 0, 0, 12, 311, 0, 0,
    11, 250, 0, 0, 12, 313, 0, 0, 14, 312, 0, 6, 14, 314, 0, 6,
    10, 285, 0, 0, 12, 317, 0, 0, 11, 301, 0, 0, 12, 319, 0, 0,
    14, 318, 0, 6, 14, 320, 0, 6, 10, 293, 0, 0, 12, 323, 0, 0,
    11, 277, 0, 0, 12, 325, 0, 0, 14, 324, 0, 6, 14, 326, 0, 6,
    10, 280, 0, 0, 12, 329, 0, 0, 11, 296, 0, 0, 12, 331, 0, 0,
    14, 330, 0, 6, 14, 332, 0, 6, 10, 304, 0, 0, 12, 335, 0, 0,
    11, 288, 0, 0, 12, 337, 0, 0, 14, 336, 0, 6, 14, 338, 0, 6,
    10, 254, 0, 0, 12, 341, 0, 0, 11, 270, 0, 0, 12, 343, 0, 0,
    14, 342, 0, 6, 14, 344, 0, 6, 10, 262, 0, 0, 12, 347, 0, 0,
    11, 246, 0, 0, 12, 349, 0, 0, 14, 348, 0, 6, 14, 350, 0, 6,
];

/// Output registers of the row pass of `iadst16`.
#[verifier::opaque]
pub const IADST16_ROW_OUTS: [i32; 16] = [
    309, 310, 315, 316, 321, 322, 327, 328, 333, 334, 339, 340, 345, 346, 351, 352,
];

} // verus!
