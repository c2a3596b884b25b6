//! The bore data model: a tube with ordered tone holes, plus the two
//! hole-editing operations used by a host application.
//!
//! Dimensions are fixed-point micro-centimetres.  A reading taken from the
//! host may be absent (`None` stands for a value that could not be read as a
//! finite number); such readings are replaced by fixed defaults, and every
//! stored dimension is clamped into a representable band so that later
//! arithmetic cannot overflow.

use vstd::prelude::*;

verus! {

/// Largest stored magnitude of any dimension, in micro-centimetres (10 km).
pub const DIM_LIMIT: i64 = 1_000_000_000_000;

/// Lowest stored dimension: the negative of `DIM_LIMIT`.
pub const NEG_DIM_LIMIT: i64 = -1_000_000_000_000;

/// Default radius given to a hole whose radius reading was not finite: 0.1 cm.
pub const DEFAULT_RADIUS: i64 = 100_000;

/// Default distance from the embouchure centre to the cork stopper: 1.7 cm.
pub const DEFAULT_CORK_POSITION: i64 = 1_700_000;

/// Default embouchure hole radius: 0.5 cm.
pub const DEFAULT_EMBOUCHURE_HOLE_RADIUS: i64 = 500_000;

/// Default embouchure chimney (lip-plate) height: 0.5 cm.
pub const DEFAULT_EMBOUCHURE_CHIMNEY: i64 = 500_000;

/// A tone hole: distance from the embouchure, radius, and whether it is open.
/// Positions outside the bore and non-positive radii are tolerated data, not
/// errors; the model never rejects a hole for being physically nonsensical.
#[derive(Clone, Copy, PartialEq, Eq, Structural, Debug)]
pub struct Hole {
    /// Distance from the embouchure (micro-centimetres; may be negative or
    /// beyond the bore length).
    pub position: i64,
    /// Hole radius (micro-centimetres; nominally positive).
    pub radius: i64,
    /// Open holes radiate; closed holes act as a trapped-air compliance.
    pub open: bool,
}

/// The two errors the hole-editing boundary can report.
#[derive(Clone, Copy, PartialEq, Eq, Structural, Debug)]
pub enum FluteError {
    /// `set_holes` was given parallel arrays of different lengths.
    LengthMismatch,
    /// `update_hole` was given an index at or past the hole count.
    IndexOutOfBounds,
}

/// A cylindrical bore with an ordered collection of tone holes.  The stored
/// hole order is the host's insertion order and is never reordered by any
/// computation in this crate.
#[derive(Clone, Debug)]
pub struct Flute {
    /// Total physical length (micro-centimetres).
    pub length: i64,
    /// Bore radius (micro-centimetres).
    pub bore_radius: i64,
    /// Wall thickness (micro-centimetres).
    pub wall_thickness: i64,
    /// Tone holes, in host insertion order.
    pub holes: Vec<Hole>,
    /// Distance from the embouchure centre to the cork stopper.
    pub cork_position: i64,
    /// Radius of the embouchure hole.
    pub embouchure_hole_radius: i64,
    /// Chimney (lip-plate) height of the embouchure hole.
    pub embouchure_chimney: i64,
}

/// A dimension clamped into the representable band.
pub open spec fn clamp_dim(v: i64) -> i64 {
    if v > DIM_LIMIT {
        DIM_LIMIT
    } else if v < NEG_DIM_LIMIT {
        NEG_DIM_LIMIT
    } else {
        v
    }
}

/// A hole position as stored: an absent reading becomes 0 cm, then the value
/// is clamped.
pub open spec fn sanitize_position(p: Option<i64>) -> i64 {
    match p {
        Some(v) => clamp_dim(v),
        None => 0,
    }
}

/// A hole radius as stored: an absent reading becomes 0.1 cm, then the value
/// is clamped.
pub open spec fn sanitize_radius(r: Option<i64>) -> i64 {
    match r {
        Some(v) => clamp_dim(v),
        None => DEFAULT_RADIUS,
    }
}

/// The hole stored for one triple of host readings.
pub open spec fn sanitized_hole(p: Option<i64>, r: Option<i64>, o: bool) -> Hole {
    Hole { position: sanitize_position(p), radius: sanitize_radius(r), open: o }
}

/// Every dimension a computation reads from this bore lies in the clamped
/// band; established by the constructor and preserved by both mutators.
pub open spec fn dim_ok(v: i64) -> bool {
    NEG_DIM_LIMIT <= v <= DIM_LIMIT
}

impl Hole {
    /// Both dimensions of the hole are in the representable band.
    pub open spec fn wf(self) -> bool {
        dim_ok(self.position) && dim_ok(self.radius)
    }
}

impl Flute {
    /// All stored dimensions, including every hole's, are in the band.
    pub open spec fn wf(self) -> bool {
        &&& dim_ok(self.length)
        &&& dim_ok(self.bore_radius)
        &&& dim_ok(self.wall_thickness)
        &&& dim_ok(self.cork_position)
        &&& dim_ok(self.embouchure_hole_radius)
        &&& dim_ok(self.embouchure_chimney)
        &&& forall|i: int| 0 <= i < self.holes@.len() ==> (#[trigger] self.holes@[i]).wf()
    }

    /// Replaces the whole hole collection from three parallel arrays of host
    /// readings.  Fails, leaving the bore untouched, exactly when the arrays
    /// disagree in length; otherwise every triple is sanitized and stored in
    /// the order given.
    pub fn set_holes(
        &mut self,
        positions: &Vec<Option<i64>>,
        radii: &Vec<Option<i64>>,
        open: &Vec<bool>,
    ) -> (result: Result<(), FluteError>)
        ensures
            match result {
                Ok(()) => {
                    &&& positions@.len() == radii@.len() == open@.len()
                    &&& final(self).holes@.len() == positions@.len()
                    &&& forall|i: int|
                        0 <= i < positions@.len() ==> final(self).holes@[i] == sanitized_hole(
                            positions@[i],
                            radii@[i],
                            open@[i],
                        )
                    &&& *final(self) == (Flute { holes: final(self).holes, ..*old(self) })
                },
                Err(e) => {
                    &&& e == FluteError::LengthMismatch
                    &&& !(positions@.len() == radii@.len() == open@.len())
                    &&& *final(self) == *old(self)
                },
            },
            old(self).wf() ==> final(self).wf(),
    {
        if positions.len() != radii.len() || positions.len() != open.len() {
            return Err(FluteError::LengthMismatch);
        }
        let mut holes: Vec<Hole> = Vec::new();
        let n = positions.len();
        for i in 0..n
            invariant
                n == positions@.len() == radii@.len() == open@.len(),
                holes@.len() == i,
                forall|j: int|
                    0 <= j < i ==> holes@[j] == sanitized_hole(positions@[j], radii@[j], open@[j]),
                forall|j: int| 0 <= j < i ==> (#[trigger] holes@[j]).wf(),
        {
            holes.push(sanitize_hole_exec(positions[i], radii[i], open[i]));
        }
        self.holes = holes;
        Ok(())
    }

    /// Rewrites the hole at `index` from one triple of host readings.  Fails,
    /// leaving the bore untouched, exactly when `index` is at or past the
    /// hole count; otherwise only that hole changes, to the sanitized triple.
    pub fn update_hole(
        &mut self,
        index: usize,
        position: Option<i64>,
        radius: Option<i64>,
        open: bool,
    ) -> (result: Result<(), FluteError>)
        ensures
            match result {
                Ok(()) => {
                    &&& index < old(self).holes@.len()
                    &&& final(self).holes@ == old(self).holes@.update(
                        index as int,
                        sanitized_hole(position, radius, open),
                    )
                    &&& *final(self) == (Flute { holes: final(self).holes, ..*old(self) })
                },
                Err(e) => {
                    &&& e == FluteError::IndexOutOfBounds
                    &&& index >= old(self).holes@.len()
                    &&& *final(self) == *old(self)
                },
            },
            old(self).wf() ==> final(self).wf(),
    {
        if index >= self.holes.len() {
            return Err(FluteError::IndexOutOfBounds);
        }
        let updated = sanitize_hole_exec(position, radius, open);
        self.holes.set(index, updated);
        Ok(())
    }

    /// A bore with no holes and the default embouchure-joint parameters.
    pub fn new(length: i64, bore_radius: i64, wall_thickness: i64) -> (flute: Flute)
        ensures
            flute.length == clamp_dim(length),
            flute.bore_radius == clamp_dim(bore_radius),
            flute.wall_thickness == clamp_dim(wall_thickness),
            flute.holes@.len() == 0,
            flute.cork_position == DEFAULT_CORK_POSITION,
            flute.embouchure_hole_radius == DEFAULT_EMBOUCHURE_HOLE_RADIUS,
            flute.embouchure_chimney == DEFAULT_EMBOUCHURE_CHIMNEY,
            flute.wf(),
    {
        Flute {
            length: clamp_dim_exec(length),
            bore_radius: clamp_dim_exec(bore_radius),
            wall_thickness: clamp_dim_exec(wall_thickness),
            holes: Vec::new(),
            cork_position: DEFAULT_CORK_POSITION,
            embouchure_hole_radius: DEFAULT_EMBOUCHURE_HOLE_RADIUS,
            embouchure_chimney: DEFAULT_EMBOUCHURE_CHIMNEY,
        }
    }
}

/// Executable sanitization of one host triple, equal to `sanitized_hole`.
pub fn sanitize_hole_exec(position: Option<i64>, radius: Option<i64>, open: bool) -> (hole: Hole)
    ensures
        hole == sanitized_hole(position, radius, open),
        hole.wf(),
{
    let p = match position {
        Some(v) => clamp_dim_exec(v),
        None => 0,
    };
    let r = match radius {
        Some(v) => clamp_dim_exec(v),
        None => DEFAULT_RADIUS,
    };
    Hole { position: p, radius: r, open }
}

/// Executable clamp, equal to `clamp_dim`.
pub fn clamp_dim_exec(v: i64) -> (r: i64)
    ensures
        r == clamp_dim(v),
        dim_ok(r),
{
    if v > DIM_LIMIT {
        DIM_LIMIT
    } else if v < NEG_DIM_LIMIT {
        NEG_DIM_LIMIT
    } else {
        v
    }
}

} // verus!
