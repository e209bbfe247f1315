//! Frame re-ordering and reference selection options that hold over a whole
//! encode.

use crate::api::config::EncoderConfig;
use vstd::arithmetic::power2::{lemma_pow2_pos, lemma_pow2_unfold, pow2};
use vstd::prelude::*;

verus! {

/// The number of reference frame slots.
pub const REF_FRAMES: u32 = 8;

/// Reference frame kinds that inter frames may predict from.
#[allow(non_camel_case_types)]
#[derive(Debug, Clone, Copy, PartialEq, Eq, Structural)]
pub enum RefType {
    /// The most recent frame.
    LAST_FRAME,
    /// The second most recent frame.
    LAST2_FRAME,
    /// The third most recent frame.
    LAST3_FRAME,
    /// A long-term frame.
    GOLDEN_FRAME,
    /// A backward (future) frame.
    BWDREF_FRAME,
    /// The second alternate reference.
    ALTREF2_FRAME,
    /// The alternate reference.
    ALTREF_FRAME,
}

/// `min(number of trailing zero bits of pos, cap)`.
pub open spec fn capped_trailing_zeros(pos: nat, cap: nat) -> nat
    decreases cap,
{
    if cap == 0 || pos % 2 == 1 {
        0
    } else {
        1 + capped_trailing_zeros(pos / 2, (cap - 1) as nat)
    }
}

/// The pyramid level of the shown frame at (1-based) position `pos` of a
/// re-ordering group: the fewer trailing zero bits, the deeper the level.
pub open spec fn spec_pos_to_lvl(pos: nat, pyramid_depth: nat) -> nat {
    (pyramid_depth - capped_trailing_zeros(pos, pyramid_depth)) as nat
}

proof fn lemma_capped_trailing_zeros_bound(pos: nat, cap: nat)
    ensures
        capped_trailing_zeros(pos, cap) <= cap,
    decreases cap,
{
    if cap > 0 && pos % 2 == 0 {
        lemma_capped_trailing_zeros_bound(pos / 2, (cap - 1) as nat);
    }
}

/// `pos` split off its lowest bit, as a remainder modulo `2 * m`.
proof fn lemma_mod_double(pos: nat, m: nat)
    requires
        m > 0,
    ensures
        pos % (2 * m) == 2 * ((pos / 2) % m) + pos % 2,
{
    vstd::arithmetic::div_mod::lemma_mod_breakdown(pos as int, 2, m as int);
}

/// The pyramid level of the shown frame at position `pos` is the depth less
/// the number of trailing zero bits of `pos`, counted up to the depth: a
/// position divisible by `2^k` and not by `2^(k + 1)` is at level
/// `depth - k`, one divisible by `2^depth` at level 0.
pub proof fn law_pos_to_lvl_by_trailing_zeros(pos: nat, pyramid_depth: nat, k: nat)
    requires
        k <= pyramid_depth,
        pos % pow2(k) == 0,
        k == pyramid_depth || pos % pow2(k + 1) != 0,
    ensures
        spec_pos_to_lvl(pos, pyramid_depth) == pyramid_depth - k,
{
    lemma_ctz_exact(pos, pyramid_depth, k);
}

proof fn lemma_ctz_exact(pos: nat, d: nat, k: nat)
    requires
        k <= d,
        pos % pow2(k) == 0,
        k == d || pos % pow2(k + 1) != 0,
    ensures
        capped_trailing_zeros(pos, d) == k,
    decreases k,
{
    lemma_pow2_pos(k);
    lemma_pow2_unfold(k + 1);
    lemma_mod_double(pos, pow2(k));
    if k == 0 {
        assert(pow2(1) == 2) by {
            lemma_pow2_unfold(1);
            vstd::arithmetic::power2::lemma2_to64();
        }
    } else {
        lemma_pow2_unfold(k);
        lemma_pow2_pos((k - 1) as nat);
        lemma_mod_double(pos, pow2((k - 1) as nat));
        assert(pos % 2 == 0);
        lemma_ctz_exact(pos / 2, (d - 1) as nat, (k - 1) as nat);
    }
}

/// Frames at odd positions sit at the deepest level, and doubling a
/// position while adding one level to the pyramid keeps its level.
pub proof fn law_pos_to_lvl_odd_and_doubling(pos: nat, pyramid_depth: nat)
    ensures
        pyramid_depth > 0 && pos % 2 == 1 ==> spec_pos_to_lvl(pos, pyramid_depth) == pyramid_depth,
        spec_pos_to_lvl(2 * pos, pyramid_depth + 1) == spec_pos_to_lvl(pos, pyramid_depth),
        spec_pos_to_lvl(pos, pyramid_depth) <= pyramid_depth,
{
    assert((2 * pos) % 2 == 0 && (2 * pos) / 2 == pos);
    lemma_capped_trailing_zeros_bound(pos, pyramid_depth);
}

/// In a re-ordering group of the pyramid of depth 2, the hidden frames are
/// at levels 0 and 1, and the shown frames at levels 2, 1, 2, 0: the last
/// one, the level-0 frame shown again, closes the group.
pub proof fn law_depth2_group_levels(c: InterConfig)
    requires
        c.wf(),
        c.reorder,
    ensures
        c.spec_guess_level(0) == 0,
        c.spec_guess_level(1) == 1,
        c.spec_guess_level(2) == 2,
        c.spec_guess_level(3) == 1,
        c.spec_guess_level(4) == 2,
        c.spec_guess_level(5) == 0,
{
    reveal_with_fuel(capped_trailing_zeros, 3);
}

/// Derives the level within the pyramid of the frame at a given coding order
/// position. With a pyramid of depth 2, the two low bits of the position
/// decide: `00 -> 0`, `01 -> 2`, `10 -> 1`, `11 -> 2`.
pub fn pos_to_lvl(pos: u64, pyramid_depth: u64) -> (r: u64)
    ensures
        r == spec_pos_to_lvl(pos as nat, pyramid_depth as nat),
        r <= pyramid_depth,
{
    let mut tz: u64 = 0;
    let mut p: u64 = pos;
    while tz < pyramid_depth && p % 2 == 0
        invariant
            tz <= pyramid_depth,
            capped_trailing_zeros(pos as nat, pyramid_depth as nat) == tz
                + capped_trailing_zeros(p as nat, (pyramid_depth - tz) as nat),
        decreases pyramid_depth - tz,
    {
        p = p / 2;
        tz = tz + 1;
    }
    proof {
        lemma_capped_trailing_zeros_bound(pos as nat, pyramid_depth as nat);
    }
    pyramid_depth - tz
}

/// Whether `x` is a power of two.
pub open spec fn is_power_of_two(x: nat) -> bool
    decreases x,
{
    if x == 0 {
        false
    } else if x == 1 {
        true
    } else if x % 2 == 1 {
        false
    } else {
        is_power_of_two(x / 2)
    }
}

/// Whether exactly one bit of `x` is set.
pub fn has_single_bit(x: u64) -> (r: bool)
    ensures
        r == is_power_of_two(x as nat),
{
    if x == 0 {
        return false;
    }
    let mut v: u64 = x;
    while v > 1 && v % 2 == 0
        invariant
            v > 0,
            is_power_of_two(x as nat) == is_power_of_two(v as nat),
        decreases v,
    {
        v = v / 2;
    }
    v == 1
}

/// The set of options that controls frame re-ordering and reference picture
/// selection. They are invariant over the whole encode.
#[derive(Debug, Clone, Copy, PartialEq, Eq, Structural)]
pub struct InterConfig {
    /// Whether frame re-ordering is enabled.
    pub reorder: bool,
    /// Whether P-frames can use multiple references.
    pub multiref: bool,
    /// The depth of the re-ordering pyramid (0 or 2).
    pub pyramid_depth: u64,
    /// Number of input frames in a group.
    pub group_input_len: u64,
    /// Number of output frames in a group, hidden and "show existing frame"
    /// frames included.
    pub group_output_len: u64,
    /// Interval between consecutive switch frames; a multiple of
    /// `group_input_len`.
    pub switch_frame_interval: u64,
}

impl InterConfig {
    /// The options are those that `new` builds: depth 2 with re-ordering,
    /// depth 0 without.
    pub open spec fn wf(&self) -> bool {
        &&& self.pyramid_depth == (if self.reorder { 2u64 } else { 0u64 })
        &&& self.group_input_len == (if self.reorder { 4u64 } else { 1u64 })
        &&& self.group_output_len == self.group_input_len + self.pyramid_depth
        &&& self.switch_frame_interval % self.group_input_len == 0
    }

    /// The options for an encoder configuration. A group always starts with
    /// `group_output_len - group_input_len` hidden frames, followed by
    /// `group_input_len` shown frames; for a pyramid depth of 2:
    ///
    /// ```text
    ///                      |TU         |TU |TU |TU
    /// idx_in_group_output:   0   1   2   3   4   5
    /// input_frameno:         4   2   1  SEF  3  SEF
    /// output_frameno:        1   2   3   4   5   6
    /// level:                 0   1   2   1   2   0
    ///                        ^^^^^   ^^^^^^^^^^^^^
    ///                        hidden      shown
    /// ```
    pub fn new(enc_config: &EncoderConfig) -> (r: InterConfig)
        requires
            enc_config.low_latency || enc_config.switch_frame_interval % 4 == 0,
        ensures
            r.wf(),
            r.reorder == !enc_config.low_latency,
            r.multiref == (!enc_config.low_latency || enc_config.speed_settings.multiref),
            r.switch_frame_interval == enc_config.switch_frame_interval,
    {
        let reorder = !enc_config.low_latency;
        let pyramid_depth: u64 = if reorder { 2 } else { 0 };
        let group_input_len: u64 = if reorder { 4 } else { 1 };
        let group_output_len = group_input_len + pyramid_depth;
        let switch_frame_interval = enc_config.switch_frame_interval;
        InterConfig {
            reorder,
            multiref: enc_config.multiref(),
            pyramid_depth,
            group_input_len,
            group_output_len,
            switch_frame_interval,
        }
    }

    /// The index of an output frame in its re-ordering group, given its output
    /// frame number counted from the keyframe that starts its GOP.
    pub fn get_idx_in_group_output(&self, output_frameno_in_gop: u64) -> (r: u64)
        requires
            self.wf(),
            output_frameno_in_gop > 0,
        ensures
            r == (output_frameno_in_gop - 1) % (self.group_output_len as int),
            r < self.group_output_len,
    {
        (output_frameno_in_gop - 1) % self.group_output_len
    }

    /// Offset of the input frame shown at `idx_in_group_output`, counted from
    /// the frame before the group.
    pub open spec fn spec_group_offset(&self, idx_in_group_output: u64) -> int {
        if idx_in_group_output < self.pyramid_depth {
            if idx_in_group_output == 0 {
                self.group_input_len as int
            } else {
                self.group_input_len as int / 2
            }
        } else {
            idx_in_group_output - self.pyramid_depth + 1
        }
    }

    /// The order hint of an output frame, relative to its keyframe.
    pub open spec fn spec_order_hint(&self, output_frameno_in_gop: u64, idx_in_group_output: u64) -> int {
        self.group_input_len * ((output_frameno_in_gop - 1) / (self.group_output_len as int))
            + self.spec_group_offset(idx_in_group_output)
    }

    /// The order hint of an output frame given its output frame number within
    /// the GOP and its index in its re-ordering group, truncated to 32 bits.
    pub fn get_order_hint(&self, output_frameno_in_gop: u64, idx_in_group_output: u64) -> (r: u32)
        requires
            self.wf(),
            output_frameno_in_gop > 0,
            output_frameno_in_gop < u64::MAX - 8,
            idx_in_group_output < self.group_output_len,
        ensures
            r == self.spec_order_hint(output_frameno_in_gop, idx_in_group_output) as u32,
    {
        let group_idx = (output_frameno_in_gop - 1) / self.group_output_len;
        let offset = if idx_in_group_output < self.pyramid_depth {
            self.group_input_len >> idx_in_group_output
        } else {
            idx_in_group_output - self.pyramid_depth + 1
        };
        proof {
            assert(self.group_input_len * group_idx <= output_frameno_in_gop) by (nonlinear_arith)
                requires
                    self.group_input_len <= self.group_output_len,
                    self.group_output_len > 0,
                    group_idx == (output_frameno_in_gop - 1) / (self.group_output_len as int),
                    output_frameno_in_gop > 0,
            ;
            if idx_in_group_output < self.pyramid_depth {
                if idx_in_group_output == 0 {
                    let g = self.group_input_len;
                    assert(g >> 0u64 == g) by (bit_vector);
                } else {
                    assert(4u64 >> 1u64 == 2) by (bit_vector);
                }
            }
        }
        #[verifier::truncate]
        ((self.group_input_len * group_idx + offset) as u32)
    }

    /// The pyramid level of an output frame, used for rate control before the
    /// frame's own information is built.
    pub open spec fn spec_guess_level(&self, idx_in_group_output: u64) -> nat {
        if !self.reorder {
            0
        } else if idx_in_group_output < self.pyramid_depth {
            idx_in_group_output as nat
        } else {
            spec_pos_to_lvl(
                (idx_in_group_output - self.pyramid_depth + 1) as nat,
                self.pyramid_depth as nat,
            )
        }
    }

    /// Guesses the pyramid level of the output frame at `idx_in_group_output`.
    pub fn guess_level(&self, idx_in_group_output: u64) -> (r: u64)
        requires
            self.wf(),
        ensures
            r == self.spec_guess_level(idx_in_group_output),
            r <= self.pyramid_depth,
    {
        if !self.reorder {
            0
        } else if idx_in_group_output < self.pyramid_depth {
            idx_in_group_output
        } else {
            pos_to_lvl(idx_in_group_output - self.pyramid_depth + 1, self.pyramid_depth)
        }
    }

    /// The reference slot a frame is stored in: frames of level 0 use slots
    /// 0 to 3 by their order hint, deeper frames slots 4 and up.
    pub fn get_slot_idx(&self, level: u64, order_hint: u32) -> (r: u32)
        requires
            self.wf(),
            level <= 4,
        ensures
            level == 0 ==> r == (order_hint as int / (self.group_input_len as int)) % 4,
            level > 0 ==> r == 3 + level,
            r < REF_FRAMES,
    {
        if level == 0 {
            let d = self.pyramid_depth;
            proof {
                assert((order_hint >> 0u64) & 3 == (order_hint / 1) % 4) by (bit_vector);
                assert((order_hint >> 2u64) & 3 == (order_hint / 4) % 4) by (bit_vector);
                assert(((order_hint >> 0u64) & 3) < 4) by (bit_vector);
                assert(((order_hint >> 2u64) & 3) < 4) by (bit_vector);
            }
            (order_hint >> d) & 3
        } else {
            3 + level as u32
        }
    }

    /// Whether the output frame at `idx_in_group_output` is shown.
    pub fn get_show_frame(&self, idx_in_group_output: u64) -> (r: bool)
        ensures
            r == (idx_in_group_output >= self.pyramid_depth),
    {
        idx_in_group_output >= self.pyramid_depth
    }

    /// Whether the output frame at `idx_in_group_output` shows a frame that
    /// was already coded as a hidden frame.
    pub open spec fn spec_show_existing_frame(&self, idx_in_group_output: u64) -> bool {
        &&& self.reorder
        &&& idx_in_group_output >= self.pyramid_depth
        &&& is_power_of_two((idx_in_group_output - self.pyramid_depth + 1) as nat)
        &&& idx_in_group_output != self.pyramid_depth
    }

    /// Whether the output frame at `idx_in_group_output` is a "show existing
    /// frame" of a previously coded hidden frame.
    pub fn get_show_existing_frame(&self, idx_in_group_output: u64) -> (r: bool)
        requires
            self.wf(),
        ensures
            r == self.spec_show_existing_frame(idx_in_group_output),
    {
        self.reorder && self.get_show_frame(idx_in_group_output) && has_single_bit(
            idx_in_group_output - self.pyramid_depth + 1,
        ) && idx_in_group_output != self.pyramid_depth
    }

    /// The largest distance between the input and output order of a frame.
    pub fn max_reordering_latency(&self) -> (r: u64)
        ensures
            r == self.group_input_len,
    {
        self.group_input_len
    }

    /// How many frames past a frame the keyframe decision needs to see.
    pub fn keyframe_lookahead_distance(&self) -> (r: u64)
        requires
            self.wf(),
        ensures
            r == self.group_input_len + 1,
    {
        self.max_reordering_latency() + 1
    }

    /// The reference frames inter frames may use: all of them with
    /// re-ordering, the four past ones with several references, else only
    /// the last frame.
    pub fn allowed_ref_frames(&self) -> (r: Vec<RefType>)
        ensures
            self.reorder ==> r@ == seq![
                RefType::LAST_FRAME,
                RefType::LAST2_FRAME,
                RefType::LAST3_FRAME,
                RefType::GOLDEN_FRAME,
                RefType::BWDREF_FRAME,
                RefType::ALTREF2_FRAME,
                RefType::ALTREF_FRAME,
            ],
            !self.reorder && self.multiref ==> r@ == seq![
                RefType::LAST_FRAME,
                RefType::LAST2_FRAME,
                RefType::LAST3_FRAME,
                RefType::GOLDEN_FRAME,
            ],
            !self.reorder && !self.multiref ==> r@ == seq![RefType::LAST_FRAME],
    {
        if self.reorder {
            vec![
                RefType::LAST_FRAME,
                RefType::LAST2_FRAME,
                RefType::LAST3_FRAME,
                RefType::GOLDEN_FRAME,
                RefType::BWDREF_FRAME,
                RefType::ALTREF2_FRAME,
                RefType::ALTREF_FRAME,
            ]
        } else if self.multiref {
            vec![
                RefType::LAST_FRAME,
                RefType::LAST2_FRAME,
                RefType::LAST3_FRAME,
                RefType::GOLDEN_FRAME,
            ]
        } else {
            vec![RefType::LAST_FRAME]
        }
    }
}

} // verus!
