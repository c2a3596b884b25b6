//! The pitch-query side of the model: the sorted traversal snapshot handed
//! to the impedance fold, the default guess frequency derived from the
//! shortest open-hole path, and the inverse hole-position estimate.
//!
//! Frequencies are fixed-point millihertz; lengths are micro-centimetres.

use vstd::prelude::*;

use crate::model::DIM_LIMIT;
use crate::model::Flute;
use crate::model::Hole;
use crate::model::NEG_DIM_LIMIT;
use crate::model::clamp_dim;
use crate::model::dim_ok;

verus! {

broadcast use vstd::seq_lib::group_to_multiset_ensures;

/// Speed of sound over two, scaled so that dividing by a length in
/// micro-centimetres yields a frequency in millihertz:
/// 34500 cm/s * 1000 mHz/Hz * 1_000_000 ucm/cm / 2.
pub const HALF_WAVE_NUMERATOR: i64 = 17_250_000_000_000;

/// Guess substituted when the effective length is exactly zero and the
/// half-wave quotient is unbounded: 5 MHz, far above the admissible band.
pub const UNBOUNDED_GUESS: i64 = 5_000_000_000;

/// End-correction factor on the bore radius for the default guess, as a
/// fraction: 0.61 = 61/100.
pub const END_CORRECTION_NUM: i64 = 61;

/// Denominator of the end-correction fraction.
pub const END_CORRECTION_DEN: i64 = 100;

/// The snapshot handed to the impedance fold is ordered foot-to-embouchure:
/// positions never increase along it.
pub open spec fn sorted_foot_to_embouchure(s: Seq<Hole>) -> bool {
    forall|i: int, j: int| 0 <= i < j < s.len() ==> s[i].position >= s[j].position
}

/// Division of a signed dividend by a positive divisor, rounded toward zero.
pub open spec fn div_trunc(a: int, b: int) -> int
    recommends
        b > 0,
{
    if a >= 0 {
        a / b
    } else {
        -((-a) / b)
    }
}

/// The shortest sounding path through the first `n` holes: the bore length,
/// shortened to the position of any open hole among them that lies nearer
/// the embouchure.
pub open spec fn shortest_open_path_upto(holes: Seq<Hole>, length: i64, n: int) -> int
    recommends
        0 <= n <= holes.len(),
    decreases n,
{
    if n <= 0 {
        length as int
    } else {
        let rest = shortest_open_path_upto(holes, length, n - 1);
        if holes[n - 1].open && holes[n - 1].position < rest {
            holes[n - 1].position as int
        } else {
            rest
        }
    }
}

/// The shortest sounding path over all holes.
pub open spec fn shortest_open_path(holes: Seq<Hole>, length: i64) -> int {
    shortest_open_path_upto(holes, length, holes.len() as int)
}

/// The effective length the default guess is derived from: the shortest open
/// path plus the 0.61-radius end correction.
pub open spec fn effective_length(holes: Seq<Hole>, length: i64, bore_radius: i64) -> int {
    shortest_open_path(holes, length) + div_trunc(
        END_CORRECTION_NUM * bore_radius,
        END_CORRECTION_DEN as int,
    )
}

/// The default guess in millihertz: the half-wave resonance of the effective
/// length, or `UNBOUNDED_GUESS` where that length is zero.  A negative
/// effective length yields a negative guess, left to the solver's divergence
/// guards like any other out-of-band value.
pub open spec fn pitch_guess_spec(holes: Seq<Hole>, length: i64, bore_radius: i64) -> int {
    let effective = effective_length(holes, length, bore_radius);
    if effective == 0 {
        UNBOUNDED_GUESS as int
    } else if effective > 0 {
        div_trunc(HALF_WAVE_NUMERATOR as int, effective)
    } else {
        -div_trunc(HALF_WAVE_NUMERATOR as int, -effective)
    }
}

impl Flute {
    /// A copy of the holes ordered foot-to-embouchure (position never
    /// increasing) for the impedance traversal.  The bore itself is read,
    /// never changed: the stored hole order stays the host's insertion order.
    pub fn traversal_snapshot(&self) -> (snapshot: Vec<Hole>)
        ensures
            snapshot@.to_multiset() == self.holes@.to_multiset(),
            snapshot@.len() == self.holes@.len(),
            sorted_foot_to_embouchure(snapshot@),
    {
        let mut remaining: Vec<Hole> = clone_holes(&self.holes);
        let mut snapshot: Vec<Hole> = Vec::new();
        proof {
            assert(snapshot@.to_multiset().add(remaining@.to_multiset())
                =~= self.holes@.to_multiset()) by {
                assert(forall|a: Hole| snapshot@.to_multiset().count(a) == 0);
            }
        }
        while remaining.len() > 0
            invariant
                snapshot@.to_multiset().add(remaining@.to_multiset()) == self.holes@.to_multiset(),
                snapshot@.len() + remaining@.len() == self.holes@.len(),
                sorted_foot_to_embouchure(snapshot@),
                forall|i: int, j: int|
                    0 <= i < snapshot@.len() && 0 <= j < remaining@.len() ==> (
                    #[trigger] snapshot@[i]).position >= (#[trigger] remaining@[j]).position,
            decreases remaining@.len(),
        {
            let mut best: usize = 0;
            let mut k: usize = 1;
            while k < remaining.len()
                invariant
                    0 < remaining@.len(),
                    best < k <= remaining@.len(),
                    forall|j: int|
                        0 <= j < k ==> remaining@[best as int].position
                            >= (#[trigger] remaining@[j]).position,
                decreases remaining@.len() - k,
            {
                if remaining[k].position > remaining[best].position {
                    best = k;
                }
                k = k + 1;
            }
            let ghost pre = remaining@;
            let ghost osnap = snapshot@;
            let picked = remaining.remove(best);
            snapshot.push(picked);
            proof {
                assert(pre.contains(picked)) by {
                    assert(pre[best as int] == picked);
                }
                assert(snapshot@.to_multiset() =~= osnap.to_multiset().insert(picked)) by {
                    assert(snapshot@ == osnap.push(picked));
                }
                assert(remaining@.to_multiset() =~= pre.to_multiset().remove(picked)) by {
                    assert(remaining@ == pre.remove(best as int));
                }
                assert(snapshot@.to_multiset().add(remaining@.to_multiset()) =~= osnap.to_multiset(
                ).add(pre.to_multiset()));
            }
        }
        proof {
            assert(snapshot@.to_multiset() =~= snapshot@.to_multiset().add(
                remaining@.to_multiset(),
            )) by {
                assert(forall|a: Hole| remaining@.to_multiset().count(a) == 0);
            }
        }
        snapshot
    }

    /// The default guess frequency (millihertz), equal to `pitch_guess_spec`:
    /// a scan for the shortest open-hole path, the fixed end correction, and
    /// one half-wave division.
    pub fn pitch_guess_millihertz(&self) -> (guess: i64)
        requires
            self.wf(),
        ensures
            guess == pitch_guess_spec(self.holes@, self.length, self.bore_radius),
    {
        let mut shortest: i64 = self.length;
        let n = self.holes.len();
        for i in 0..n
            invariant
                n == self.holes@.len(),
                shortest == shortest_open_path_upto(self.holes@, self.length, i as int),
                self.wf(),
                dim_ok(shortest),
        {
            let hole = self.holes[i];
            if hole.open && hole.position < shortest {
                shortest = hole.position;
            }
        }
        let correction = div_trunc_exec(
            END_CORRECTION_NUM * self.bore_radius,
            END_CORRECTION_DEN,
        );
        let effective = shortest + correction;
        if effective == 0 {
            UNBOUNDED_GUESS
        } else if effective > 0 {
            div_trunc_exec(HALF_WAVE_NUMERATOR, effective)
        } else {
            -div_trunc_exec(HALF_WAVE_NUMERATOR, -effective)
        }
    }
}

/// One station of the impedance traversal: the bore segment crossed to
/// reach a hole (zero when the hole lies at or behind the previous
/// station), then that hole's shunt.
#[derive(Clone, Copy, PartialEq, Eq, Structural, Debug)]
pub struct TraversalStep {
    /// Length of the segment propagated before this hole's shunt is folded
    /// in, in micro-centimetres; zero means no propagation.
    pub distance: i64,
    /// The hole whose shunt is folded in at this station.
    pub hole: Hole,
}

/// The whole impedance traversal, foot to embouchure: the per-hole steps in
/// order, then the remaining segment from the last station to the
/// embouchure reference point (zero when none remains).
pub struct TraversalPlan {
    /// One step per hole, ordered foot-to-embouchure.
    pub steps: Vec<TraversalStep>,
    /// Segment from the last station to position zero.
    pub final_distance: i64,
}

/// The station the traversal stands at after `i` holes: the foot of the
/// bore, then each hole's position in turn, whether or not any propagation
/// happened.
pub open spec fn station(sorted: Seq<Hole>, length: i64, i: int) -> int {
    if i <= 0 {
        length as int
    } else {
        sorted[i - 1].position as int
    }
}

/// The segment crossed to reach hole `i`: the positive gap from the
/// previous station, or zero.
pub open spec fn step_distance(sorted: Seq<Hole>, length: i64, i: int) -> int {
    let gap = station(sorted, length, i) - sorted[i].position;
    if gap > 0 {
        gap
    } else {
        0
    }
}

impl Flute {
    /// The impedance traversal over a foot-to-embouchure snapshot of the
    /// holes: each step names the hole shunted and the exact segment length
    /// propagated before it, and the plan ends with the segment reaching
    /// the embouchure.  The stored hole order is only read.
    pub fn traversal_plan(&self) -> (plan: TraversalPlan)
        requires
            self.wf(),
        ensures
            plan.steps@.len() == self.holes@.len(),
            plan.steps@.map_values(|s: TraversalStep| s.hole).to_multiset()
                == self.holes@.to_multiset(),
            sorted_foot_to_embouchure(plan.steps@.map_values(|s: TraversalStep| s.hole)),
            forall|i: int|
                0 <= i < plan.steps@.len() ==> (#[trigger] plan.steps@[i]).distance
                    == step_distance(
                    plan.steps@.map_values(|s: TraversalStep| s.hole),
                    self.length,
                    i,
                ),
            plan.final_distance == ({
                let last = station(
                    plan.steps@.map_values(|s: TraversalStep| s.hole),
                    self.length,
                    plan.steps@.len() as int,
                );
                if last > 0 {
                    last
                } else {
                    0
                }
            }),
    {
        let sorted = self.traversal_snapshot();
        proof {
            assert forall|j: int| 0 <= j < sorted@.len() implies (#[trigger] sorted@[j]).wf() by {
                assert(sorted@.contains(sorted@[j]));
                assert(self.holes@.to_multiset().count(sorted@[j]) > 0);
                assert(self.holes@.contains(sorted@[j]));
                let k = choose|k: int|
                    0 <= k < self.holes@.len() && self.holes@[k] == sorted@[j];
                assert(self.holes@[k].wf());
            };
        }
        let mut steps: Vec<TraversalStep> = Vec::new();
        let mut current: i64 = self.length;
        let n = sorted.len();
        for i in 0..n
            invariant
                n == sorted@.len(),
                self.wf(),
                sorted@.to_multiset() == self.holes@.to_multiset(),
                sorted_foot_to_embouchure(sorted@),
                forall|j: int| 0 <= j < sorted@.len() ==> (#[trigger] sorted@[j]).wf(),
                dim_ok(self.length),
                steps@.len() == i,
                forall|j: int| 0 <= j < i ==> (#[trigger] steps@[j]).hole == sorted@[j],
                forall|j: int|
                    0 <= j < i ==> (#[trigger] steps@[j]).distance == step_distance(
                        sorted@,
                        self.length,
                        j,
                    ),
                current == station(sorted@, self.length, i as int),
                dim_ok(current),
        {
            let hole = sorted[i];
            let gap = current - hole.position;
            let distance: i64 = if gap > 0 {
                gap
            } else {
                0
            };
            steps.push(TraversalStep { distance, hole });
            current = hole.position;
        }
        let final_distance: i64 = if current > 0 {
            current
        } else {
            0
        };
        proof {
            assert(steps@.map_values(|s: TraversalStep| s.hole) =~= sorted@);
        }
        TraversalPlan { steps, final_distance }
    }
}

/// A dimension computed at full width, clamped into the representable band.
pub open spec fn clamp_dim_wide(v: int) -> i64 {
    if v > DIM_LIMIT {
        DIM_LIMIT
    } else if v < NEG_DIM_LIMIT {
        NEG_DIM_LIMIT
    } else {
        v as i64
    }
}

/// The inverse hole-position estimate: half-wave effective length for the
/// target frequency, minus the end correction
/// (bore area / hole area) * (wall thickness + 1.5 * hole radius), clamped
/// into the dimension band.  Defined exactly when the frequency and the
/// clamped radius are positive.
pub open spec fn estimate_spec(
    bore_radius: i64,
    wall_thickness: i64,
    target_freq_millihz: i64,
    hole_radius: i64,
) -> Option<i64> {
    let r = clamp_dim(hole_radius);
    if target_freq_millihz <= 0 || r <= 0 {
        None
    } else {
        let l_eff = (HALF_WAVE_NUMERATOR as int) / (target_freq_millihz as int);
        let correction = div_trunc(
            (bore_radius * bore_radius) * (2 * wall_thickness + 3 * r),
            2 * (r * r),
        );
        Some(clamp_dim_wide(l_eff - correction))
    }
}

impl Flute {
    /// Suggests where to drill a hole of the given radius so that the bore
    /// sounds near the target frequency: an approximate inverse formula, not
    /// an iterative search.  Returns `None` exactly when the frequency or the
    /// radius is not positive; the radius is clamped like any stored
    /// dimension.
    pub fn estimate_hole_position(&self, target_freq_millihz: i64, hole_radius: i64) -> (position:
        Option<i64>)
        requires
            self.wf(),
        ensures
            position == estimate_spec(
                self.bore_radius,
                self.wall_thickness,
                target_freq_millihz,
                hole_radius,
            ),
    {
        let r = crate::model::clamp_dim_exec(hole_radius);
        if target_freq_millihz <= 0 || r <= 0 {
            return None;
        }
        let l_eff: i64 = ((HALF_WAVE_NUMERATOR as u64) / (target_freq_millihz as u64)) as i64;
        proof {
            lemma_unsigned_div_bound(HALF_WAVE_NUMERATOR as u64, target_freq_millihz as u64);
        }
        let rb: i128 = self.bore_radius as i128;
        let tw: i128 = 2 * (self.wall_thickness as i128) + 3 * (r as i128);
        proof {
            assert(0 <= rb * rb <= 1_000_000_000_000_000_000_000_000i128) by (nonlinear_arith)
                requires
                    -1_000_000_000_000i128 <= rb <= 1_000_000_000_000i128,
            ;
        }
        let rb2: i128 = rb * rb;
        proof {
            assert(-5_000_000_000_000_000_000_000_000_000_000_000_000i128 <= rb2 * tw
                <= 5_000_000_000_000_000_000_000_000_000_000_000_000i128) by (nonlinear_arith)
                requires
                    0 <= rb2 <= 1_000_000_000_000_000_000_000_000i128,
                    -5_000_000_000_000i128 <= tw <= 5_000_000_000_000i128,
            ;
        }
        let num: i128 = rb2 * tw;
        let rw: i128 = r as i128;
        proof {
            assert(0 < rw * rw <= 1_000_000_000_000_000_000_000_000i128) by (nonlinear_arith)
                requires
                    0 < rw <= 1_000_000_000_000i128,
            ;
        }
        let den: i128 = 2 * (rw * rw);
        let correction: i128 = div_trunc_wide(num, den);
        let estimate: i128 = (l_eff as i128) - correction;
        if estimate > DIM_LIMIT as i128 {
            Some(DIM_LIMIT)
        } else if estimate < NEG_DIM_LIMIT as i128 {
            Some(NEG_DIM_LIMIT)
        } else {
            Some(estimate as i64)
        }
    }
}

/// Executable truncating division at full width, equal to `div_trunc`.
fn div_trunc_wide(a: i128, b: i128) -> (q: i128)
    requires
        b > 0,
        a > i128::MIN,
    ensures
        q == div_trunc(a as int, b as int),
        a >= 0 ==> 0 <= q <= a,
        a < 0 ==> a <= q <= 0,
{
    if a >= 0 {
        let qm: u128 = (a as u128) / (b as u128);
        proof {
            lemma_unsigned_div_bound_wide(a as u128, b as u128);
        }
        qm as i128
    } else {
        let mag: u128 = (-a) as u128;
        let qm: u128 = mag / (b as u128);
        proof {
            lemma_unsigned_div_bound_wide(mag, b as u128);
        }
        -(qm as i128)
    }
}

/// For an unsigned full-width division with a positive divisor, the quotient
/// is bounded by the dividend.
proof fn lemma_unsigned_div_bound_wide(a: u128, b: u128)
    requires
        b > 0,
    ensures
        0 <= a / b <= a,
{
    vstd::arithmetic::div_mod::lemma_div_pos_is_pos(a as int, b as int);
    vstd::arithmetic::div_mod::lemma_div_nonincreasing(a as int, b as int);
}

/// The first `n` holes of a sequence and of the same sequence with one more
/// hole appended give the same shortest path.
proof fn lemma_shortest_path_push_prefix(holes: Seq<Hole>, length: i64, hole: Hole, n: int)
    requires
        0 <= n <= holes.len(),
    ensures
        shortest_open_path_upto(holes.push(hole), length, n) == shortest_open_path_upto(
            holes,
            length,
            n,
        ),
    decreases n,
{
    if n > 0 {
        lemma_shortest_path_push_prefix(holes, length, hole, n - 1);
        assert(holes.push(hole)[n - 1] == holes[n - 1]);
    }
}

/// Opening one more hole nearer the embouchure than the whole current
/// sounding path never lowers the default guess: shortening the air column
/// raises the half-wave frequency.  Stated for configurations whose new
/// effective length stays positive; with a hole so far out that the
/// effective length would reach zero or below, the guess leaves the
/// admissible band altogether and no order is claimed.
pub proof fn lemma_open_hole_never_lowers_guess(
    holes: Seq<Hole>,
    length: i64,
    bore_radius: i64,
    hole: Hole,
)
    requires
        hole.open,
        hole.position < shortest_open_path(holes, length),
        hole.position + div_trunc(END_CORRECTION_NUM * bore_radius, END_CORRECTION_DEN as int) > 0,
    ensures
        pitch_guess_spec(holes.push(hole), length, bore_radius) >= pitch_guess_spec(
            holes,
            length,
            bore_radius,
        ),
{
    let pushed = holes.push(hole);
    lemma_shortest_path_push_prefix(holes, length, hole, holes.len() as int);
    assert(pushed[pushed.len() - 1] == hole);
    assert(shortest_open_path(pushed, length) == hole.position);
    let correction = div_trunc(END_CORRECTION_NUM * bore_radius, END_CORRECTION_DEN as int);
    let eff_new = hole.position + correction;
    let eff_old = shortest_open_path(holes, length) + correction;
    assert(0 < eff_new < eff_old);
    vstd::arithmetic::div_mod::lemma_div_is_ordered_by_denominator(
        HALF_WAVE_NUMERATOR as int,
        eff_new,
        eff_old,
    );
}

/// A plain element-by-element copy of the hole collection.
fn clone_holes(holes: &Vec<Hole>) -> (copy: Vec<Hole>)
    ensures
        copy@ == holes@,
{
    let mut copy: Vec<Hole> = Vec::new();
    let n = holes.len();
    for i in 0..n
        invariant
            n == holes@.len(),
            copy@ =~= holes@.subrange(0, i as int),
    {
        copy.push(holes[i]);
    }
    proof {
        assert(copy@ =~= holes@);
    }
    copy
}

/// Executable truncating division for a positive divisor, equal to
/// `div_trunc`.  The quotient's magnitude never exceeds the dividend's.
pub fn div_trunc_exec(a: i64, b: i64) -> (q: i64)
    requires
        b > 0,
        a > i64::MIN,
    ensures
        q == div_trunc(a as int, b as int),
        a >= 0 ==> 0 <= q <= a,
        a < 0 ==> a <= q <= 0,
{
    if a >= 0 {
        let qm: u64 = (a as u64) / (b as u64);
        proof {
            lemma_unsigned_div_bound(a as u64, b as u64);
        }
        qm as i64
    } else {
        let mag: u64 = (-a) as u64;
        let qm: u64 = mag / (b as u64);
        proof {
            lemma_unsigned_div_bound(mag, b as u64);
        }
        -(qm as i64)
    }
}

/// For an unsigned division with a positive divisor, the quotient is bounded
/// by the dividend.
proof fn lemma_unsigned_div_bound(a: u64, b: u64)
    requires
        b > 0,
    ensures
        0 <= a / b <= a,
{
    vstd::arithmetic::div_mod::lemma_div_pos_is_pos(a as int, b as int);
    vstd::arithmetic::div_mod::lemma_div_nonincreasing(a as int, b as int);
}

} // verus!
