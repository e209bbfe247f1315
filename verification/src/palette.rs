//! Palette mode search helpers: color counting, candidate palette sizes,
//! centroid clean-up.

use crate::frame::Plane;
use crate::pixel::Pixel;
use arrayvec::ArrayVec;
use vstd::multiset::Multiset;
use vstd::prelude::*;

verus! {

/// The largest number of colors in a palette.
pub const PALETTE_MAX_SIZE: usize = 8;

/// The smallest number of colors in a palette.
pub const PALETTE_MIN_SIZE: usize = 2;

/// The capacity of a color cache: the colors of two neighbouring palettes.
pub const COLOR_CACHE_CAPACITY: usize = 16;

/// How hard to search for a palette.
#[derive(Debug, Clone, Copy, PartialEq, Eq, Structural)]
pub enum PaletteSearchLevel {
    /// No palette search.
    Off,
    /// Perform 2 way palette search from max colors to min colors (and min
    /// colors to remaining colors) and terminate the search if current number of
    /// palette colors is not the winner.
    FastSearch,
    /// Perform coarse search to prune the palette colors. For winner colors,
    /// neighbors are also evaluated using a finer search.
    CoarseSearch,
    /// No pruning
    FullSearch,
}

#[verifier::external_type_specification]
#[verifier::external_body]
#[verifier::reject_recursive_types(T)]
pub struct ExArrayVec<T, const CAP: usize>(ArrayVec<T, CAP>);

/// The colors a color cache holds, in order.
pub uninterp spec fn color_cache_contents(cache: ArrayVec<u16, 16>) -> Seq<u16>;

/// `ArrayVec::new`: an empty vector.
#[verifier::external_body]
fn color_cache_new() -> (r: ArrayVec<u16, 16>)
    ensures
        color_cache_contents(r) == Seq::<u16>::empty(),
{
    ArrayVec::new()
}

/// `ArrayVec::len`: the number of elements, at most the capacity.
#[verifier::external_body]
fn color_cache_len(cache: &ArrayVec<u16, 16>) -> (r: usize)
    ensures
        r == color_cache_contents(*cache).len(),
        r <= COLOR_CACHE_CAPACITY,
{
    cache.len()
}

/// Indexing an `ArrayVec` (through its slice): the element at `i`.
#[verifier::external_body]
fn color_cache_get(cache: &ArrayVec<u16, 16>, i: usize) -> (r: u16)
    requires
        i < color_cache_contents(*cache).len(),
    ensures
        r == color_cache_contents(*cache)[i as int],
{
    cache[i]
}

/// `ArrayVec::push`: appends an element; the vector must not be full.
#[verifier::external_body]
fn color_cache_push(cache: &mut ArrayVec<u16, 16>, color: u16)
    requires
        color_cache_contents(*old(cache)).len() < COLOR_CACHE_CAPACITY,
    ensures
        color_cache_contents(*final(cache)) == color_cache_contents(*old(cache)).push(color),
{
    cache.push(color)
}

/// A color cache holding `colors`, at most 16 of them.
pub fn color_cache_from(colors: &[u16]) -> (r: ArrayVec<u16, 16>)
    requires
        colors@.len() <= COLOR_CACHE_CAPACITY,
    ensures
        color_cache_contents(r) == colors@,
{
    let mut cache = color_cache_new();
    let mut i: usize = 0;
    while i < colors.len()
        invariant
            i <= colors@.len() <= COLOR_CACHE_CAPACITY,
            color_cache_contents(cache) == colors@.subrange(0, i as int),
        decreases colors@.len() - i,
    {
        color_cache_push(&mut cache, colors[i]);
        proof {
            assert(colors@.subrange(0, i + 1) =~= colors@.subrange(0, i as int).push(colors@[i as int]));
        }
        i = i + 1;
    }
    proof {
        assert(colors@.subrange(0, colors@.len() as int) =~= colors@);
    }
    cache
}

/// The number of colors in a color cache.
pub fn color_cache_size(cache: &ArrayVec<u16, 16>) -> (r: usize)
    ensures
        r == color_cache_contents(*cache).len(),
{
    color_cache_len(cache)
}

// Start index and step size below are chosen to evaluate unique candidates
// in neighbor search, in case a winner candidate is found in coarse search.
// With 8 colors (end_n = 8), candidates are 2..=8: start 2, step 3, so the
// coarse search evaluates 2, 5 and 8; a winner at 5 then has 4 and 6
// evaluated, a winner at 2 has 3, at 8 has 7. With 7 colors, start 3 and
// step 3 evaluate 3 and 6, whose neighbours (2, 4 and 5, 7) are unique.

/// The first palette size of a coarse search up to `end_n` colors.
pub open spec fn spec_start_n(end_n: usize) -> usize {
    if end_n <= 2 {
        0
    } else if end_n == 5 || end_n == 8 {
        2
    } else {
        3
    }
}

/// Whether a coarse search from `start_n` to `end_n` in steps of `step`
/// evaluates the palette size `n`.
pub open spec fn coarse_search_evaluates(start_n: int, end_n: int, step: int, n: int) -> bool {
    start_n <= n <= end_n && (n - start_n) % step == 0
}

/// Whether the palette size `n` is at most one size away from one that a
/// coarse search from `start_n` to `end_n` in steps of `step` evaluates.
pub open spec fn coarse_search_reaches(start_n: int, end_n: int, step: int, n: int) -> bool {
    exists|m: int| #[trigger] coarse_search_evaluates(start_n, end_n, step, m) && m - 1 <= n <= m + 1
}

/// The coarse search over 3 to 8 colors, in steps of 3, leaves no palette
/// size from the minimum up to `end_n` more than one size away from an
/// evaluated one, so that the finer search around the winner reaches every
/// size; it starts at the minimum size only where its steps from there land
/// on `end_n`, and otherwise right above it. With 2 colors or fewer there
/// is no coarse search.
pub proof fn law_coarse_search_covers_all_sizes(end_n: usize)
    requires
        end_n <= PALETTE_MAX_SIZE,
    ensures
        end_n <= PALETTE_MIN_SIZE ==> spec_start_n(end_n) == 0,
        end_n > PALETTE_MIN_SIZE ==> {
            let s = spec_start_n(end_n) as int;
            &&& PALETTE_MIN_SIZE <= s <= PALETTE_MIN_SIZE + 1
            &&& s == PALETTE_MIN_SIZE ==> (end_n - s) % 3 == 0
            &&& forall|n: int|
                PALETTE_MIN_SIZE <= n <= end_n ==> #[trigger] coarse_search_reaches(s, end_n as int, 3, n)
        },
{
    if end_n > PALETTE_MIN_SIZE {
        let s = spec_start_n(end_n) as int;
        assert forall|n: int| PALETTE_MIN_SIZE <= n <= end_n implies #[trigger] coarse_search_reaches(
            s,
            end_n as int,
            3,
            n,
        ) by {
            let m = s + 3 * ((n - s + 1) / 3);
            assert(coarse_search_evaluates(s, end_n as int, 3, m));
        }
    }
}

/// The first palette size evaluated by a coarse search up to `end_n` colors.
pub fn get_start_n(end_n: usize) -> (r: usize)
    requires
        end_n <= PALETTE_MAX_SIZE,
    ensures
        r == spec_start_n(end_n),
{
    match end_n {
        0..=2 => 0,
        3..=4 | 6..=7 => 3,
        _ => 2,
    }
}

/// The step between palette sizes of a coarse search up to `end_n` colors.
pub fn get_step_size(end_n: usize) -> (r: usize)
    requires
        end_n <= PALETTE_MAX_SIZE,
    ensures
        r == (if end_n <= 2 { 0usize } else { 3usize }),
{
    match end_n {
        0..=2 => 0,
        _ => 3,
    }
}

/// The smallest palette size of the finer search around a coarse winner.
pub open spec fn spec_start_n_stage2(winner: usize) -> usize {
    if winner == PALETTE_MIN_SIZE {
        (PALETTE_MIN_SIZE + 1) as usize
    } else if winner - 1 >= PALETTE_MIN_SIZE {
        (winner - 1) as usize
    } else {
        PALETTE_MIN_SIZE
    }
}

/// The largest palette size of the finer search around a coarse winner.
pub open spec fn spec_end_n_stage2(winner: usize, end_n: usize) -> usize {
    if winner == end_n {
        (winner - 1) as usize
    } else if winner + 1 <= PALETTE_MAX_SIZE {
        (winner + 1) as usize
    } else {
        PALETTE_MAX_SIZE
    }
}

/// Around a winner of the coarse search over 3 to 8 colors, the finer
/// search evaluates exactly the sizes next to the winner, from the minimum
/// size up to `end_n`, and none of them was evaluated by the coarse search.
pub proof fn law_finer_search_evaluates_new_neighbours(end_n: usize, winner: usize)
    requires
        PALETTE_MIN_SIZE < end_n <= PALETTE_MAX_SIZE,
        coarse_search_evaluates(spec_start_n(end_n) as int, end_n as int, 3, winner as int),
    ensures
        ({
            let a = spec_start_n_stage2(winner) as int;
            let b = spec_end_n_stage2(winner, end_n) as int;
            &&& PALETTE_MIN_SIZE <= a <= end_n && PALETTE_MIN_SIZE <= b <= end_n
            &&& (a == winner - 1 || a == winner + 1) && (b == winner - 1 || b == winner + 1)
            &&& winner - 1 >= PALETTE_MIN_SIZE ==> (a == winner - 1 || b == winner - 1)
            &&& winner + 1 <= end_n ==> (a == winner + 1 || b == winner + 1)
            &&& !coarse_search_evaluates(spec_start_n(end_n) as int, end_n as int, 3, a)
            &&& !coarse_search_evaluates(spec_start_n(end_n) as int, end_n as int, 3, b)
        }),
{
}

/// The smallest palette size of the finer search around a coarse winner:
/// the size below the winner, but never under the minimum; right above
/// the minimum when the minimum won.
pub fn get_start_n_stage2(winner: usize) -> (r: usize)
    requires
        winner >= 1,
    ensures
        r == spec_start_n_stage2(winner),
{
    if winner == PALETTE_MIN_SIZE {
        PALETTE_MIN_SIZE + 1
    } else {
        let below = winner - 1;
        if below >= PALETTE_MIN_SIZE {
            below
        } else {
            PALETTE_MIN_SIZE
        }
    }
}

/// The largest palette size of the finer search around a coarse winner:
/// the size above the winner, at most the maximum; right below the winner
/// when the winner is the largest size searched.
pub fn get_end_n_stage2(winner: usize, end_n: usize) -> (r: usize)
    requires
        winner >= 1,
    ensures
        r == spec_end_n_stage2(winner, end_n),
{
    if winner == end_n {
        winner - 1
    } else if winner < PALETTE_MAX_SIZE {
        winner + 1
    } else {
        PALETTE_MAX_SIZE
    }
}

/// Whether palette mode may be used for a block: screen content tools must
/// be allowed and the block must be 8 to 64 samples in each direction.
pub fn allow_palette_mode(allow_screen_content_tools: bool, block_width: usize, block_height: usize) -> (r:
    bool)
    ensures
        r == (allow_screen_content_tools && 8 <= block_width <= 64 && 8 <= block_height <= 64),
{
    allow_screen_content_tools && block_width <= 64 && block_height <= 64 && block_width >= 8
        && block_height >= 8
}

/// Whether palette search runs for a block: the search level is not `Off`
/// and palette mode is allowed for it.
pub fn enable_palette_mode(
    level: PaletteSearchLevel,
    allow_screen_content_tools: bool,
    block_width: usize,
    block_height: usize,
) -> (r: bool)
    ensures
        r == (level != PaletteSearchLevel::Off && allow_screen_content_tools && 8 <= block_width
            <= 64 && 8 <= block_height <= 64),
{
    level != PaletteSearchLevel::Off && allow_palette_mode(
        allow_screen_content_tools,
        block_width,
        block_height,
    )
}

/// `s` is in ascending order.
pub open spec fn sorted_usize(s: Seq<usize>) -> bool {
    forall|i: int, j: int| 0 <= i <= j < s.len() ==> s[i] <= s[j]
}

/// `slice::sort_unstable` on the first `n` centroids: sorts them in
/// ascending order, keeping the same values, and leaves the others alone.
#[verifier::external_body]
fn sort_prefix(centroids: &mut [usize; 8], n: usize)
    requires
        n <= 8,
    ensures
        final(centroids)@.len() == 8,
        sorted_usize(final(centroids)@.subrange(0, n as int)),
        final(centroids)@.subrange(0, n as int).to_multiset() == old(centroids)@.subrange(
            0,
            n as int,
        ).to_multiset(),
        forall|k: int| n <= k < 8 ==> #[trigger] final(centroids)@[k] == old(centroids)@[k],
{
    centroids[..n].sort_unstable()
}

/// The first `n` entries of the sorted `s` with repeated values dropped;
/// for `n <= 1`, the first entry.
pub open spec fn dedup_prefix(s: Seq<usize>, n: nat) -> Seq<usize>
    decreases n,
{
    if n <= 1 {
        s.subrange(0, 1)
    } else {
        let p = dedup_prefix(s, (n - 1) as nat);
        if s[n - 1] != s[n - 2] {
            p.push(s[n - 1])
        } else {
            p
        }
    }
}

proof fn lemma_dedup_prefix(s: Seq<usize>, n: nat)
    requires
        1 <= n <= s.len(),
    ensures
        1 <= dedup_prefix(s, n).len() <= n,
        dedup_prefix(s, n).last() == s[n - 1],
    decreases n,
{
    if n > 1 {
        lemma_dedup_prefix(s, (n - 1) as nat);
    }
}

/// The values of `s` with repeats dropped, for an `s` in ascending order:
/// as a sequence, they come in strictly ascending order and hold the same
/// values as the first `n` entries.
proof fn lemma_dedup_prefix_set(s: Seq<usize>, n: nat)
    requires
        sorted_usize(s),
        1 <= n <= s.len(),
    ensures
        dedup_prefix(s, n).to_set() == s.subrange(0, n as int).to_set(),
    decreases n,
{
    broadcast use vstd::seq_lib::group_seq_properties;

    if n > 1 {
        lemma_dedup_prefix_set(s, (n - 1) as nat);
        let prev = s.subrange(0, n - 1);
        assert(s.subrange(0, n as int) =~= prev.push(s[n - 1]));
        prev.lemma_push_to_set_commute(s[n - 1]);
        let p = dedup_prefix(s, (n - 1) as nat);
        if s[n - 1] != s[n - 2] {
            p.lemma_push_to_set_commute(s[n - 1]);
        } else {
            assert(prev[n - 2] == s[n - 1]);
            assert(prev.to_set().contains(s[n - 1]));
            assert(prev.to_set().insert(s[n - 1]) =~= prev.to_set());
        }
    } else {
        assert(s.subrange(0, 1) =~= s.subrange(0, n as int));
    }
}

/// The number of distinct values among the first `n` centroids of `c`.
pub open spec fn distinct_count(c: Seq<usize>, n: int) -> nat {
    c.subrange(0, n).to_set().len()
}

/// Moves the distinct values among the first `num_centroids` centroids, in
/// ascending order, to the front and returns how many there are; the other
/// first `num_centroids` entries keep the remaining sorted values, the
/// entries after them are left alone. With no centroid it returns 1 and
/// changes nothing.
pub fn remove_duplicates(centroids: &mut [usize; 8], num_centroids: usize) -> (r: usize)
    requires
        num_centroids <= PALETTE_MAX_SIZE,
    ensures
        num_centroids == 0 ==> r == 1 && final(centroids)@ == old(centroids)@,
        1 <= r,
        num_centroids >= 1 ==> r <= num_centroids,
        num_centroids >= 1 ==> {
            &&& r == distinct_count(old(centroids)@, num_centroids as int)
            &&& strictly_ascending(final(centroids)@.subrange(0, r as int))
            &&& final(centroids)@.subrange(0, r as int).to_set() == old(
                centroids,
            )@.subrange(0, num_centroids as int).to_set()
        },
        exists|s: Seq<usize>|
            {
                &&& s.len() == num_centroids
                &&& #[trigger] sorted_usize(s)
                &&& s.to_multiset() == old(centroids)@.subrange(
                    0,
                    num_centroids as int,
                ).to_multiset()
                &&& forall|k: int| r <= k < num_centroids ==> #[trigger] final(centroids)@[k] == s[k]
            },
        final(centroids)@.len() == 8,
        forall|k: int| num_centroids <= k < 8 ==> #[trigger] final(centroids)@[k] == old(centroids)@[k],
{
    let ghost orig = centroids@;
    let n = num_centroids;
    sort_prefix(centroids, n);
    let ghost s8 = centroids@;
    let ghost t = s8.subrange(0, n as int);
    if n == 0 {
        proof {
            assert(centroids@ =~= orig);
            assert(sorted_usize(t));
        }
        return 1;
    }
    let mut num_unique: usize = 1;
    let mut i: usize = 1;
    proof {
        assert(centroids@.subrange(0, 1) =~= dedup_prefix(t, 1));
    }
    while i < n
        invariant
            t.len() == n,
            1 <= n <= 8,
            1 <= i <= n,
            centroids@.len() == 8,
            s8.len() == 8,
            t == s8.subrange(0, n as int),
            sorted_usize(t),
            num_unique == dedup_prefix(t, i as nat).len(),
            1 <= num_unique <= i,
            dedup_prefix(t, i as nat).last() == t[i - 1],
            centroids@.subrange(0, num_unique as int) == dedup_prefix(t, i as nat),
            forall|k: int| num_unique <= k < 8 ==> #[trigger] centroids@[k] == s8[k],
        decreases n - i,
    {
        proof {
            lemma_dedup_prefix(t, (i + 1) as nat);
            if (i - 1) < num_unique {
                assert(centroids@[i - 1] == centroids@.subrange(0, num_unique as int)[i - 1]);
            }
            assert(t[i as int] == s8[i as int]);
            assert(t[i - 1] == s8[i - 1]);
        }
        let ghost before = centroids@;
        if centroids[i] != centroids[i - 1] {
            centroids[num_unique] = centroids[i];
            num_unique = num_unique + 1;
            proof {
                assert(centroids@.subrange(0, num_unique as int) =~= before.subrange(
                    0,
                    num_unique - 1,
                ).push(t[i as int]));
            }
        } else {
            proof {
                assert(t[i as int] == t[i - 1]);
            }
        }
        i = i + 1;
    }
    proof {
        let d = dedup_prefix(t, n as nat);
        lemma_dedup_prefix_ascending(t, n as nat);
        lemma_dedup_prefix_set(t, n as nat);
        assert(t.subrange(0, n as int) =~= t);
        assert(d.no_duplicates()) by {
            assert forall|a: int, b: int| 0 <= a < d.len() && 0 <= b < d.len() && a != b implies d[a]
                != d[b] by {
                if a < b {
                    assert(d[a] < d[b]);
                } else {
                    assert(d[b] < d[a]);
                }
            }
        }
        d.unique_seq_to_set();
        let o = orig.subrange(0, n as int);
        assert(t.to_set() =~= o.to_set()) by {
            assert forall|x: usize| t.to_set().contains(x) <==> o.to_set().contains(x) by {
                vstd::seq_lib::to_multiset_contains(t, x);
                vstd::seq_lib::to_multiset_contains(o, x);
            }
        }
        assert forall|k: int| num_unique <= k < n implies #[trigger] centroids@[k] == t[k] by {
            assert(centroids@[k] == s8[k]);
        }
    }
    num_unique
}

/// How far centroid `c` lies from the cached color `v`.
pub open spec fn color_distance(c: int, v: u16) -> int {
    if c >= v {
        c - v
    } else {
        v - c
    }
}

/// The index of the first color among the first `n` of `cache` that lies
/// closest to `c`.
pub open spec fn closest_cached(cache: Seq<u16>, c: int, n: nat) -> nat
    decreases n,
{
    if n <= 1 {
        0
    } else {
        let p = closest_cached(cache, c, (n - 1) as nat);
        if color_distance(c, cache[n - 1]) < color_distance(c, cache[p as int]) {
            (n - 1) as nat
        } else {
            p
        }
    }
}

/// The centroid `c` moved onto the closest cached color when that color is
/// at most one away; `c` itself otherwise, or when the cache is empty.
pub open spec fn snap_to_cache(cache: Seq<u16>, c: int) -> int {
    if cache.len() == 0 {
        c
    } else {
        let j = closest_cached(cache, c, cache.len());
        if color_distance(c, cache[j as int]) <= 1 {
            cache[j as int] as int
        } else {
            c
        }
    }
}

/// Entry `k` of a centroid array is one of the `num_colors` entries that
/// lie `stride` apart from the first.
pub open spec fn is_palette_slot(k: int, num_colors: usize, stride: usize) -> bool {
    0 <= k < num_colors * stride && k % (stride as int) == 0
}

proof fn lemma_slot_step(k: int, i: int, m: int, stride: int)
    requires
        stride > 0,
        m >= 0,
        i == m * stride,
        i <= k < i + stride,
    ensures
        (k % stride == 0) <==> k == i,
{
    vstd::arithmetic::div_mod::lemma_fundamental_div_mod_converse(k, stride, m, k - i);
}

/// Moves each of the `num_colors` centroids, `stride` entries apart, onto
/// the closest color of the color cache when that color is at most one
/// away. The first closest color wins a tie.
pub fn optimize_palette_colors(
    color_cache: &ArrayVec<u16, 16>,
    centroids: &mut [usize; 8],
    num_colors: usize,
    stride: usize,
)
    requires
        stride >= 1,
        num_colors == 0 || (num_colors - 1) * stride < PALETTE_MAX_SIZE,
        forall|k: int| 0 <= k < 8 ==> #[trigger] old(centroids)@[k] <= i32::MAX,
    ensures
        forall|k: int|
            0 <= k < 8 ==> (#[trigger] final(centroids)@[k]) as int == (if is_palette_slot(
                k,
                num_colors,
                stride,
            ) {
                snap_to_cache(color_cache_contents(*color_cache), old(centroids)@[k] as int)
            } else {
                old(centroids)@[k] as int
            }),
{
    let ghost cache = color_cache_contents(*color_cache);
    let ghost orig = centroids@;
    let len = color_cache_len(color_cache);
    if len == 0 {
        return;
    }
    proof {
        if num_colors >= 2 {
            assert(stride < 8) by (nonlinear_arith)
                requires
                    num_colors >= 2,
                    (num_colors - 1) * stride < 8,
            ;
            assert(num_colors * stride == (num_colors - 1) * stride + stride) by (nonlinear_arith);
        }
    }
    let end = num_colors * stride;
    let mut i: usize = 0;
    let mut m: usize = 0;
    while m < num_colors
        invariant
            stride >= 1,
            cache == color_cache_contents(*color_cache),
            len == cache.len(),
            len >= 1,
            num_colors == 0 || (num_colors - 1) * stride < 8,
            end == num_colors * stride,
            m <= num_colors,
            i == m * stride,
            centroids@.len() == 8,
            forall|k: int| 0 <= k < 8 ==> #[trigger] orig[k] <= i32::MAX,
            forall|k: int|
                0 <= k < 8 ==> (#[trigger] centroids@[k]) as int == (if k < i && k % (
                stride as int) == 0 {
                    snap_to_cache(cache, orig[k] as int)
                } else {
                    orig[k] as int
                }),
        decreases num_colors - m,
    {
        proof {
            assert(m * stride <= (num_colors - 1) * stride) by (nonlinear_arith)
                requires
                    m < num_colors,
            ;
            assert((m + 1) * stride == m * stride + stride) by (nonlinear_arith);
            assert((m + 1) * stride <= num_colors * stride) by (nonlinear_arith)
                requires
                    m < num_colors,
            ;
            lemma_slot_step(i as int, i as int, m as int, stride as int);
        }
        let c: i32 = centroids[i] as i32;
        let first: i32 = color_cache_get(color_cache, 0) as i32;
        let mut min_diff: i32 = if c >= first {
            c - first
        } else {
            first - c
        };
        let mut idx: usize = 0;
        let mut j: usize = 1;
        while j < len
            invariant
                cache == color_cache_contents(*color_cache),
                len == cache.len(),
                1 <= j <= len,
                c as int == orig[i as int],
                idx == closest_cached(cache, c as int, j as nat),
                idx < j,
                min_diff as int == color_distance(c as int, cache[idx as int]),
            decreases len - j,
        {
            let v: i32 = color_cache_get(color_cache, j) as i32;
            let this_diff: i32 = if c >= v {
                c - v
            } else {
                v - c
            };
            if this_diff < min_diff {
                min_diff = this_diff;
                idx = j;
            }
            j = j + 1;
        }
        if min_diff <= 1 {
            centroids[i] = color_cache_get(color_cache, idx) as usize;
        }
        proof {
            assert forall|k: int| 0 <= k < 8 && i < k < i + stride implies #[trigger] (k % (
            stride as int)) != 0 by {
                lemma_slot_step(k, i as int, m as int, stride as int);
            }
        }
        i = i + stride;
        m = m + 1;
    }
    proof {
        assert forall|k: int| 0 <= k < 8 implies (k < i && k % (stride as int) == 0)
            == is_palette_slot(k, num_colors, stride) by {}
    }
}


/// The number of distinct sample values that colors are counted over.
pub const COLOR_COUNT_BINS: usize = 4096;

/// How many of the `n` samples of `data` from index `start` on have the
/// value `v`.
pub open spec fn run_count<T: Pixel>(data: Seq<T>, start: int, n: nat, v: int) -> nat
    decreases n,
{
    if n == 0 {
        0
    } else {
        run_count(data, start, (n - 1) as nat, v) + if data[start + n - 1].spec_value() == v {
            1nat
        } else {
            0nat
        }
    }
}

/// How many samples have the value `v` in the first `rows` rows of the
/// block of `width` samples whose top left sample is at column `x0`, row
/// `y0` of an image stored row after row, `stride` samples apart.
pub open spec fn block_count<T: Pixel>(
    data: Seq<T>,
    stride: int,
    x0: int,
    y0: int,
    width: nat,
    rows: nat,
    v: int,
) -> nat
    decreases rows,
{
    if rows == 0 {
        0
    } else {
        block_count(data, stride, x0, y0, width, (rows - 1) as nat, v) + run_count(
            data,
            (y0 + rows - 1) * stride + x0,
            width,
            v,
        )
    }
}

proof fn lemma_run_count_bound<T: Pixel>(data: Seq<T>, start: int, n: nat, v: int)
    ensures
        run_count(data, start, n, v) <= n,
    decreases n,
{
    if n > 0 {
        lemma_run_count_bound(data, start, (n - 1) as nat, v);
    }
}

proof fn lemma_block_count_bound<T: Pixel>(
    data: Seq<T>,
    stride: int,
    x0: int,
    y0: int,
    width: nat,
    rows: nat,
    v: int,
)
    ensures
        block_count(data, stride, x0, y0, width, rows, v) <= rows * width,
    decreases rows,
{
    if rows > 0 {
        lemma_block_count_bound(data, stride, x0, y0, width, (rows - 1) as nat, v);
        lemma_run_count_bound(data, (y0 + rows - 1) * stride + x0, width, v);
        assert(rows * width == (rows - 1) * width + width) by (nonlinear_arith);
    }
}

/// The block of `block_width` by `block_height` samples at block position
/// (`block_x`, `block_y`) lies inside the allocated area of the plane.
pub open spec fn block_in_plane<T: Pixel>(
    plane: &Plane<T>,
    block_width: usize,
    block_height: usize,
    block_x: usize,
    block_y: usize,
) -> bool {
    &&& (block_x + 1) * block_width <= plane.cfg.stride
    &&& (block_y + 1) * block_height <= plane.cfg.alloc_height
}

/// Every sample of the block is below the number of counting bins.
pub open spec fn block_samples_in_range<T: Pixel>(
    plane: &Plane<T>,
    block_width: usize,
    block_height: usize,
    block_x: usize,
    block_y: usize,
) -> bool {
    forall|y: int, x: int|
        block_y * block_height <= y < (block_y + 1) * block_height && block_x * block_width <= x < (
        block_x + 1) * block_width ==> (#[trigger] plane.data@[y * plane.cfg.stride + x]).spec_value()
            < COLOR_COUNT_BINS
}

/// A histogram of the sample values of one block of a plane: entry `v` is
/// how many samples of the block have the value `v`.
pub fn count_colors<T: Pixel>(
    plane: &Plane<T>,
    block_width: usize,
    block_height: usize,
    block_x: usize,
    block_y: usize,
) -> (counts: Vec<usize>)
    requires
        plane.wf(),
        block_in_plane(plane, block_width, block_height, block_x, block_y),
        block_samples_in_range(plane, block_width, block_height, block_x, block_y),
    ensures
        counts@.len() == COLOR_COUNT_BINS,
        forall|v: int|
            0 <= v < COLOR_COUNT_BINS ==> #[trigger] counts@[v] == block_count(
                plane.data@,
                plane.cfg.stride as int,
                (block_x * block_width) as int,
                (block_y * block_height) as int,
                block_width as nat,
                block_height as nat,
                v,
            ),
{
    let ghost data = plane.data@;
    let stride = plane.cfg.stride;
    let ghost sh = plane.cfg.alloc_height as int;
    proof {
        assert(block_y * block_height <= (block_y + 1) * block_height) by (nonlinear_arith);
        assert(block_x * block_width <= (block_x + 1) * block_width) by (nonlinear_arith);
        assert((block_y + 1) * block_height * stride <= sh * stride) by (nonlinear_arith)
            requires
                (block_y + 1) * block_height <= sh,
        ;
        assert(sh * stride == data.len()) by (nonlinear_arith)
            requires
                data.len() == stride * sh,
        ;
    }
    proof {
        assert((block_y + 1) * block_height == block_y * block_height + block_height)
            by (nonlinear_arith);
        assert((block_x + 1) * block_width == block_x * block_width + block_width)
            by (nonlinear_arith);
    }
    let y_start = block_y * block_height;
    let x_start = block_x * block_width;
    let y_end = y_start + block_height;
    let x_end = x_start + block_width;
    let ghost w = block_width as nat;
    proof {
        assert(y_end == (block_y + 1) * block_height) by (nonlinear_arith)
            requires
                y_end == block_y * block_height + block_height,
        ;
        assert(x_end == (block_x + 1) * block_width) by (nonlinear_arith)
            requires
                x_end == block_x * block_width + block_width,
        ;
    }
    let mut counts: Vec<usize> = Vec::new();
    let mut b: usize = 0;
    while b < COLOR_COUNT_BINS
        invariant
            b <= COLOR_COUNT_BINS,
            counts@.len() == b,
            forall|v: int| 0 <= v < b ==> #[trigger] counts@[v] == 0,
        decreases COLOR_COUNT_BINS - b,
    {
        counts.push(0);
        b = b + 1;
    }
    let mut y = y_start;
    while y < y_end
        invariant
            data == plane.data@,
            stride == plane.cfg.stride,
            data.len() == stride * sh,
            y_end * stride <= data.len(),
            y_end <= sh,
            y_end == (block_y + 1) * block_height,
            x_end == (block_x + 1) * block_width,
            x_end <= stride,
            y_start <= y <= y_end,
            y_end == y_start + block_height,
            x_end == x_start + block_width,
            w == block_width,
            y_start == block_y * block_height,
            x_start == block_x * block_width,
            block_samples_in_range(plane, block_width, block_height, block_x, block_y),
            counts@.len() == COLOR_COUNT_BINS,
            forall|v: int|
                0 <= v < COLOR_COUNT_BINS ==> #[trigger] counts@[v] == block_count(
                    data,
                    stride as int,
                    x_start as int,
                    y_start as int,
                    w,
                    (y - y_start) as nat,
                    v,
                ),
        decreases y_end - y,
    {
        proof {
            assert((y + 1) * stride <= y_end * stride) by (nonlinear_arith)
                requires
                    y < y_end,
            ;
            assert((y + 1) * stride == y * stride + stride) by (nonlinear_arith);
        }
        assert(y * stride + stride <= plane.data.len());
        let row = y * stride;
        let mut x = x_start;
        while x < x_end
            invariant
                data == plane.data@,
                row == y * stride,
                row + stride <= data.len(),
                row + stride <= plane.data.len(),
                stride == plane.cfg.stride,
                y_end <= sh,
                y_end == (block_y + 1) * block_height,
                x_end == (block_x + 1) * block_width,
                y_start <= y < y_end,
                x_start <= x <= x_end,
                x_end <= stride,
                x_end == x_start + block_width,
                y_end == y_start + block_height,
                w == block_width,
                y_start == block_y * block_height,
                x_start == block_x * block_width,
                block_samples_in_range(plane, block_width, block_height, block_x, block_y),
                counts@.len() == COLOR_COUNT_BINS,
                data.len() == stride * sh,
                forall|v: int|
                    0 <= v < COLOR_COUNT_BINS ==> #[trigger] counts@[v] == block_count(
                        data,
                        stride as int,
                        x_start as int,
                        y_start as int,
                        w,
                        (y - y_start) as nat,
                        v,
                    ) + run_count(data, row + x_start, (x - x_start) as nat, v),
            decreases x_end - x,
        {
            let val = plane.data[row + x].to_u32() as usize;
            proof {
                assert(plane.data@[y * plane.cfg.stride + x].spec_value() < COLOR_COUNT_BINS);
                let r = (y - y_start) as nat;
                lemma_block_count_bound(data, stride as int, x_start as int, y_start as int, w, r, val as int);
                lemma_run_count_bound(data, row + x_start, (x - x_start) as nat, val as int);
                assert(r * w + (x - x_start) < block_height * block_width) by (nonlinear_arith)
                    requires
                        r < block_height,
                        w == block_width,
                        x - x_start < block_width,
                ;
                assert(block_height * block_width <= sh * stride) by (nonlinear_arith)
                    requires
                        y_start + block_height <= sh,
                        x_start + block_width <= stride,
                ;
                assert(sh * stride == stride * sh) by (nonlinear_arith);
                assert(counts@[val as int] < plane.data.len());
            }
            let old_count = counts[val];
            counts.set(val, old_count + 1);
            x = x + 1;
        }
        proof {
            let r = (y - y_start) as nat;
            assert((y_start + (r + 1) - 1) * stride + x_start == row + x_start);
        }
        y = y + 1;
    }
    counts
}


/// The number of nonzero entries among the first `n` of `s`.
pub open spec fn count_nonzero(s: Seq<usize>, n: nat) -> nat
    decreases n,
{
    if n == 0 || n > s.len() {
        0
    } else {
        count_nonzero(s, (n - 1) as nat) + if s[n - 1] > 0 {
            1nat
        } else {
            0nat
        }
    }
}

/// The number of distinct sample values of a color histogram: its nonzero
/// entries.
pub fn count_distinct_colors(counts: &Vec<usize>) -> (r: usize)
    ensures
        r == count_nonzero(counts@, counts@.len()),
{
    let mut n: usize = 0;
    let mut i: usize = 0;
    while i < counts.len()
        invariant
            i <= counts@.len(),
            n == count_nonzero(counts@, i as nat),
            n <= i,
        decreases counts@.len() - i,
    {
        if counts[i] > 0 {
            n = n + 1;
        }
        i = i + 1;
    }
    n
}

/// The first entry of the largest positive value among the first `n` of
/// `s`, with that value; index 0 and value 0 when none is positive.
pub open spec fn first_max(s: Seq<usize>, n: nat) -> (nat, usize)
    decreases n,
{
    if n == 0 || n > s.len() {
        (0, 0)
    } else {
        let (i, m) = first_max(s, (n - 1) as nat);
        if s[n - 1] > m {
            ((n - 1) as nat, s[n - 1])
        } else {
            (i, m)
        }
    }
}

proof fn lemma_first_max_bound(s: Seq<usize>, n: nat)
    ensures
        n <= s.len() ==> first_max(s, n).0 < (if n == 0 {
            1
        } else {
            n
        }),
    decreases n,
{
    if n > 0 {
        lemma_first_max_bound(s, (n - 1) as nat);
    }
}

/// The `k` most frequent values of a histogram whose values lie below
/// `nb`, most frequent first (the smallest value first among equally
/// frequent ones), with what is left of the histogram once each is taken
/// out.
pub open spec fn spec_dominant_colors(counts: Seq<usize>, k: nat, nb: nat) -> (Seq<usize>, Seq<usize>)
    decreases k,
{
    if k == 0 {
        (seq![], counts)
    } else {
        let (tops, rest) = spec_dominant_colors(counts, (k - 1) as nat, nb);
        let top = first_max(rest, nb).0;
        (tops.push(top as usize), rest.update(top as int, 0))
    }
}

/// Picks the `min(colors, 8)` most frequent sample values of the histogram
/// `color_counts` over the values below `2^bit_depth`, most frequent first,
/// and takes each out of the histogram as it is picked. The remaining
/// entries of the result are 0.
pub fn dominant_colors(color_counts: &mut Vec<usize>, colors: usize, bit_depth: usize) -> (top:
    [usize; 8])
    requires
        old(color_counts)@.len() == COLOR_COUNT_BINS,
        bit_depth <= 12,
    ensures
        ({
            let k: nat = if colors < 8 {
                colors as nat
            } else {
                8
            };
            let (tops, rest) = spec_dominant_colors(
                old(color_counts)@,
                k,
                vstd::arithmetic::power2::pow2(bit_depth as nat),
            );
            &&& final(color_counts)@ == rest
            &&& forall|i: int| 0 <= i < k ==> #[trigger] top@[i] == tops[i]
            &&& forall|i: int| k <= i < 8 ==> #[trigger] top@[i] == 0
        }),
{
    proof {
        vstd::arithmetic::power2::lemma2_to64();
        vstd::arithmetic::power2::lemma_pow2_pos(bit_depth as nat);
        if bit_depth < 12 {
            vstd::arithmetic::power2::lemma_pow2_strictly_increases(bit_depth as nat, 12);
        }
        vstd::bits::lemma_u64_shl_is_mul(1, bit_depth as u64);
    }
    let nb64: u64 = 1u64 << (bit_depth as u64);
    let nb: usize = nb64 as usize;
    let k: usize = if colors < 8 {
        colors
    } else {
        8
    };
    let ghost orig = color_counts@;
    let mut top: [usize; 8] = [0; 8];
    let mut i: usize = 0;
    while i < k
        invariant
            k <= 8,
            i <= k,
            nb == vstd::arithmetic::power2::pow2(bit_depth as nat),
            1 <= nb <= COLOR_COUNT_BINS,
            color_counts@.len() == COLOR_COUNT_BINS,
            color_counts@ == spec_dominant_colors(orig, i as nat, nb as nat).1,
            forall|m: int| 0 <= m < i ==> #[trigger] top@[m] == spec_dominant_colors(
                orig,
                i as nat,
                nb as nat,
            ).0[m],
            forall|m: int| i <= m < 8 ==> #[trigger] top@[m] == 0,
            spec_dominant_colors(orig, i as nat, nb as nat).0.len() == i,
        decreases k - i,
    {
        let mut max_count: usize = 0;
        let mut best: usize = 0;
        let mut j: usize = 0;
        while j < nb
            invariant
                j <= nb,
                nb <= color_counts@.len(),
                (best as nat, max_count) == first_max(color_counts@, j as nat),
            decreases nb - j,
        {
            if color_counts[j] > max_count {
                max_count = color_counts[j];
                best = j;
            }
            j = j + 1;
        }
        proof {
            lemma_first_max_bound(color_counts@, nb as nat);
        }
        let ghost prev = spec_dominant_colors(orig, i as nat, nb as nat);
        top[i] = best;
        color_counts.set(best, 0);
        proof {
            let next = spec_dominant_colors(orig, (i + 1) as nat, nb as nat);
            assert(next.0 == prev.0.push(best));
            assert forall|m: int| 0 <= m < i + 1 implies #[trigger] top@[m] == next.0[m] by {}
        }
        i = i + 1;
    }
    top
}


/// `s` is in strictly ascending order.
pub open spec fn strictly_ascending(s: Seq<usize>) -> bool {
    forall|i: int, j: int| 0 <= i < j < s.len() ==> s[i] < s[j]
}

/// The values of a sorted sequence with repeats dropped come in strictly
/// ascending order.
pub proof fn lemma_dedup_prefix_ascending(s: Seq<usize>, n: nat)
    requires
        sorted_usize(s),
        1 <= n <= s.len(),
    ensures
        strictly_ascending(dedup_prefix(s, n)),
        forall|k: int| 0 <= k < dedup_prefix(s, n).len() ==> #[trigger] dedup_prefix(s, n)[k] <= s[n - 1],
    decreases n,
{
    if n > 1 {
        lemma_dedup_prefix_ascending(s, (n - 1) as nat);
        lemma_dedup_prefix(s, (n - 1) as nat);
    }
}

/// The centroids after `optimize_palette_colors` with stride 1.
pub open spec fn snapped_centroids(cache: Seq<u16>, centroids: Seq<usize>, num_colors: usize) -> Seq<
    usize,
> {
    Seq::new(
        8,
        |k: int|
            if k < num_colors {
                snap_to_cache(cache, centroids[k] as int) as usize
            } else {
                centroids[k]
            },
    )
}

/// A centroid clamped to `0..=2^bit_depth`, as a sample value.
pub open spec fn clamp_color(c: usize, bit_depth: usize) -> u16 {
    if c > vstd::arithmetic::power2::pow2(bit_depth as nat) {
        vstd::arithmetic::power2::pow2(bit_depth as nat) as u16
    } else {
        c as u16
    }
}

/// The luma palette for `num_colors` centroids: the centroids moved onto
/// close colors of the color cache, their distinct values in ascending
/// order, clamped to `0..=2^bit_depth`; `None` when fewer than two distinct
/// values are left.
pub fn palette_luma_colors(
    color_cache: &ArrayVec<u16, 16>,
    centroids: &mut [usize; 8],
    num_colors: usize,
    bit_depth: usize,
) -> (r: Option<Vec<u16>>)
    requires
        num_colors <= PALETTE_MAX_SIZE,
        bit_depth <= 15,
        forall|k: int| 0 <= k < 8 ==> #[trigger] old(centroids)@[k] <= i32::MAX,
    ensures
        ({
            let snapped = snapped_centroids(
                color_cache_contents(*color_cache),
                old(centroids)@,
                num_colors,
            );
            let values = snapped.subrange(0, num_colors as int).to_set();
            &&& (r is None <==> values.len() < PALETTE_MIN_SIZE)
            &&& r matches Some(colors) ==> exists|d: Seq<usize>|
                {
                    &&& #[trigger] strictly_ascending(d)
                    &&& d.to_set() == values
                    &&& colors@ == d.map_values(|c: usize| clamp_color(c, bit_depth))
                }
        }),
        r matches Some(colors) ==> forall|i: int, j: int|
            0 <= i < j < colors@.len() ==> colors@[i] <= colors@[j],
{
    let ghost cache = color_cache_contents(*color_cache);
    let ghost orig = centroids@;
    proof {
        assert((if num_colors == 0 {
            0
        } else {
            num_colors - 1
        }) * 1 < 8);
    }
    optimize_palette_colors(color_cache, centroids, num_colors, 1);
    let ghost snapped = snapped_centroids(cache, orig, num_colors);
    let ghost values = snapped.subrange(0, num_colors as int).to_set();
    proof {
        assert forall|k: int| 0 <= k < 8 implies #[trigger] centroids@[k] == snapped[k] by {
            assert(is_palette_slot(k, num_colors, 1) == (k < num_colors)) by {
                assert(k % 1 == 0);
                assert(num_colors * 1 == num_colors);
            }
        }
        assert(centroids@ =~= snapped);
    }
    let num_unique = remove_duplicates(centroids, num_colors);
    if num_colors == 0 {
        proof {
            assert(values =~= Set::<usize>::empty());
        }
        return None;
    }
    if num_unique < PALETTE_MIN_SIZE {
        return None;
    }
    proof {
        vstd::arithmetic::power2::lemma2_to64();
        if bit_depth < 15 {
            vstd::arithmetic::power2::lemma_pow2_strictly_increases(bit_depth as nat, 15);
        }
        vstd::bits::lemma_u64_shl_is_mul(1, bit_depth as u64);
    }
    let top64: u64 = 1u64 << (bit_depth as u64);
    let top: usize = top64 as usize;
    let ghost d = centroids@.subrange(0, num_unique as int);
    let mut colors: Vec<u16> = Vec::new();
    let mut i: usize = 0;
    while i < num_unique
        invariant
            i <= num_unique,
            num_unique <= 8,
            centroids@.len() == 8,
            d == centroids@.subrange(0, num_unique as int),
            top == vstd::arithmetic::power2::pow2(bit_depth as nat),
            top <= 32768,
            colors@ == d.take(i as int).map_values(|c: usize| clamp_color(c, bit_depth)),
        decreases num_unique - i,
    {
        let c = centroids[i];
        proof {
            assert(c == d[i as int]);
        }
        let v: u16 = if c > top {
            top as u16
        } else {
            c as u16
        };
        colors.push(v);
        i = i + 1;
        proof {
            assert(colors@ =~= d.take(i as int).map_values(|c: usize| clamp_color(c, bit_depth)));
        }
    }
    proof {
        assert(d.take(num_unique as int) =~= d);
        assert(strictly_ascending(d));
        assert forall|a: int, b: int| 0 <= a < b < colors@.len() implies colors@[a] <= colors@[b] by {
            assert(d[a] < d[b]);
        }
    }
    Some(colors)
}

} // verus!
