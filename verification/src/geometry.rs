//! Solid-mesh export of a bore design: a triangle/quad mesh grouped for a
//! boolean-modelling consumer, and its text rendering.
//!
//! Vertex coordinates are fixed-point in micrometres, ten-thousandths of a
//! centimetre (1 cm = 10_000 units), the same resolution the text output
//! prints: four decimal places of a centimetre.  The mesh itself is pure
//! topology over those integer coordinates; it reads the bore's dimensions
//! and holes and nothing else.

use vstd::prelude::*;

use crate::model::Flute;
use crate::model::Hole;

verus! {

/// The face groups a bore export uses, in the order they are created.
#[derive(Clone, Copy, PartialEq, Eq, Structural, Debug)]
pub enum GroupName {
    /// The initial, always empty, group every mesh starts with.
    DefaultGroup,
    /// Inner and outer tube walls with their end caps.
    TubeBody,
    /// One cutter cylinder per open tone hole.
    HoleCutters,
    /// The single cutter for the embouchure hole.
    MouthHoleCutter,
}

/// A named list of faces; each face lists 1-based vertex indices.
#[derive(Debug)]
pub struct Group {
    /// The group's name as written in the text output.
    pub name: GroupName,
    /// Faces, each a list of 1-based indices into the mesh's vertices.
    pub faces: Vec<Vec<usize>>,
}

/// An indexed mesh: shared vertices, and faces collected into named groups.
/// Faces added always go to the most recently created group.
#[derive(Debug)]
pub struct Mesh {
    /// Vertex coordinates (x, y, z) in micrometres (ten-thousandths of a
    /// centimetre).
    pub vertices: Vec<(i64, i64, i64)>,
    /// Face groups in creation order; never empty for a mesh built through
    /// `new`.
    pub groups: Vec<Group>,
    /// The name the next `set_group` call compares against.
    pub current_group: GroupName,
}

/// Every index of every face of the group points at an existing vertex
/// (1-based).
pub open spec fn group_wf(g: Group, vertex_count: int) -> bool {
    forall|j: int, k: int|
        0 <= j < g.faces@.len() && 0 <= k < g.faces@[j]@.len() ==> 1 <= #[trigger] g.faces@[j]@[k]
            <= vertex_count
}

impl Mesh {
    /// Every face of every group points only at existing vertices.
    pub open spec fn wf(self) -> bool {
        forall|i: int|
            0 <= i < self.groups@.len() ==> group_wf(
                #[trigger] self.groups@[i],
                self.vertices@.len() as int,
            )
    }

    /// An empty mesh holding one empty group.
    pub fn new() -> (mesh: Mesh)
        ensures
            mesh.vertices@.len() == 0,
            mesh.groups@.len() == 1,
            mesh.groups@[0].name == GroupName::DefaultGroup,
            mesh.groups@[0].faces@.len() == 0,
            mesh.current_group == GroupName::DefaultGroup,
            mesh.wf(),
    {
        let mut groups: Vec<Group> = Vec::new();
        groups.push(Group { name: GroupName::DefaultGroup, faces: Vec::new() });
        Mesh { vertices: Vec::new(), groups, current_group: GroupName::DefaultGroup }
    }

    /// Opens a new, empty face group under `name`, unless `name` is already
    /// the current group; faces added afterwards belong to it.
    pub fn set_group(&mut self, name: GroupName)
        ensures
            final(self).vertices@ == old(self).vertices@,
            final(self).current_group == name,
            old(self).current_group == name ==> final(self).groups@ == old(self).groups@,
            old(self).current_group != name ==> {
                &&& final(self).groups@.len() == old(self).groups@.len() + 1
                &&& forall|i: int|
                    0 <= i < old(self).groups@.len() ==> final(self).groups@[i] == old(
                        self,
                    ).groups@[i]
                &&& final(self).groups@.last().name == name
                &&& final(self).groups@.last().faces@.len() == 0
            },
            old(self).wf() ==> final(self).wf(),
    {
        if self.current_group != name {
            self.current_group = name;
            self.groups.push(Group { name, faces: Vec::new() });
        } else {
            self.current_group = name;
        }
    }

    /// Appends one vertex and returns its 1-based index, the value faces
    /// refer to it by.
    pub fn add_vertex(&mut self, x: i64, y: i64, z: i64) -> (index: usize)
        ensures
            final(self).vertices@ == old(self).vertices@.push((x, y, z)),
            index == final(self).vertices@.len(),
            final(self).groups@ == old(self).groups@,
            final(self).current_group == old(self).current_group,
            old(self).wf() ==> final(self).wf(),
    {
        self.vertices.push((x, y, z));
        proof {
            assert forall|i: int| 0 <= i < self.groups@.len() && old(self).wf() implies group_wf(
                #[trigger] self.groups@[i],
                self.vertices@.len() as int,
            ) by {
                assert(group_wf(old(self).groups@[i], old(self).vertices@.len() as int));
            }
        }
        self.vertices.len()
    }

    /// Appends a copy of `indices` as one face of the most recent group.  A
    /// mesh built through `new` always has a group to receive it; on a bare
    /// mesh with no groups the call changes nothing.
    pub fn add_face(&mut self, indices: &Vec<usize>)
        ensures
            final(self).vertices@ == old(self).vertices@,
            final(self).current_group == old(self).current_group,
            old(self).groups@.len() == 0 ==> final(self).groups@ == old(self).groups@,
            old(self).groups@.len() > 0 ==> {
                let gi = old(self).groups@.len() - 1;
                &&& final(self).groups@.len() == old(self).groups@.len()
                &&& forall|i: int| 0 <= i < gi ==> final(self).groups@[i] == old(self).groups@[i]
                &&& final(self).groups@[gi].name == old(self).groups@[gi].name
                &&& final(self).groups@[gi].faces@.len() == old(self).groups@[gi].faces@.len() + 1
                &&& forall|j: int|
                    0 <= j < old(self).groups@[gi].faces@.len() ==> final(self).groups@[gi].faces@[j]
                        == old(self).groups@[gi].faces@[j]
                &&& final(self).groups@[gi].faces@.last()@ == indices@
            },
            old(self).wf() && (forall|k: int|
                0 <= k < indices@.len() ==> 1 <= #[trigger] indices@[k]
                    <= old(self).vertices@.len()) ==> final(self).wf(),
    {
        let n = self.groups.len();
        if n > 0 {
            let face = clone_indices(indices);
            let group = &mut self.groups[n - 1];
            group.faces.push(face);
        }
    }
}

/// Micro-centimetres per output unit: the output prints four decimal places
/// of a centimetre.
pub const UCM_PER_OUT: i64 = 100;

/// The fixed-point value standing for 1.0 in a sampled unit circle.
pub const CIRCLE_ONE: i64 = 10_000_000;

/// Divisor taking a radius (micro-centimetres) times a circle sample to an
/// output coordinate: `CIRCLE_ONE * UCM_PER_OUT`.
pub const RADIAL_DEN: i64 = 1_000_000_000;

/// Largest radius magnitude the radial scaling accepts (micro-centimetres);
/// wide enough for any clamped dimension plus the fixed cutter overhangs.
pub const RADIAL_LIMIT: i64 = 4_000_000_000_000;

/// An axial coordinate converted from micro-centimetres to output units,
/// rounded toward zero.
pub open spec fn axial_spec(v: i64) -> int {
    crate::pitch::div_trunc(v as int, UCM_PER_OUT as int)
}

/// A radial coordinate: radius times a unit-circle sample, scaled to output
/// units, rounded toward zero.
pub open spec fn radial_spec(r: i64, c: i64) -> int {
    crate::pitch::div_trunc(r * c, RADIAL_DEN as int)
}

/// The vertex a ring of radius `r` around axis position `x_out` places at
/// sample `c` of the unit circle.
pub open spec fn ring_vertex_spec(x_out: i64, r: i64, c: (i64, i64)) -> (i64, i64, i64) {
    (x_out, radial_spec(r, c.0) as i64, radial_spec(r, c.1) as i64)
}

/// Executable axial conversion, equal to `axial_spec`.
pub fn axial(v: i64) -> (out: i64)
    requires
        v > i64::MIN,
    ensures
        out == axial_spec(v),
        v >= 0 ==> 0 <= out <= v,
        v < 0 ==> v <= out <= 0,
{
    crate::pitch::div_trunc_exec(v, UCM_PER_OUT)
}

/// Executable radial conversion, equal to `radial_spec`.
pub fn radial(r: i64, c: i64) -> (out: i64)
    requires
        -RADIAL_LIMIT <= r <= RADIAL_LIMIT,
        -CIRCLE_ONE <= c <= CIRCLE_ONE,
    ensures
        out == radial_spec(r, c),
        -40_000_000_000 <= out <= 40_000_000_000,
{
    proof {
        assert(-40_000_000_000_000_000_000i128 <= (r as i128) * (c as i128)
            <= 40_000_000_000_000_000_000i128) by (nonlinear_arith)
            requires
                -4_000_000_000_000i128 <= r as i128 <= 4_000_000_000_000i128,
                -10_000_000i128 <= c as i128 <= 10_000_000i128,
        ;
    }
    let p: i128 = (r as i128) * (c as i128);
    if p >= 0 {
        let q: u128 = (p as u128) / (RADIAL_DEN as u128);
        proof {
            lemma_radial_div_bound(p as u128);
        }
        q as i64
    } else {
        let m: u128 = (-p) as u128;
        let q: u128 = m / (RADIAL_DEN as u128);
        proof {
            lemma_radial_div_bound(m);
        }
        -(q as i64)
    }
}

/// The radial quotient fits an `i64`.
proof fn lemma_radial_div_bound(m: u128)
    requires
        m <= 40_000_000_000_000_000_000u128,
    ensures
        0 <= m / (RADIAL_DEN as u128) <= 40_000_000_000u128,
{
    vstd::arithmetic::div_mod::lemma_div_pos_is_pos(m as int, RADIAL_DEN as int);
    vstd::arithmetic::div_mod::lemma_div_is_ordered(
        m as int,
        40_000_000_000_000_000_000,
        RADIAL_DEN as int,
    );
}

/// Appends one ring of vertices: one vertex per unit-circle sample, all at
/// axis position `x_out` with radius `r`, and returns their 1-based indices
/// in order.
pub fn add_ring(mesh: &mut Mesh, x_out: i64, r: i64, circle: &Vec<(i64, i64)>) -> (indices: Vec<
    usize>)
    requires
        -RADIAL_LIMIT <= r <= RADIAL_LIMIT,
        forall|k: int|
            0 <= k < circle@.len() ==> -CIRCLE_ONE <= (#[trigger] circle@[k]).0 <= CIRCLE_ONE
                && -CIRCLE_ONE <= circle@[k].1 <= CIRCLE_ONE,
        old(mesh).vertices@.len() + circle@.len() <= usize::MAX,
    ensures
        final(mesh).vertices@.len() == old(mesh).vertices@.len() + circle@.len(),
        forall|k: int|
            0 <= k < old(mesh).vertices@.len() ==> final(mesh).vertices@[k] == old(
                mesh,
            ).vertices@[k],
        forall|k: int|
            0 <= k < circle@.len() ==> final(mesh).vertices@[old(mesh).vertices@.len() + k]
                == ring_vertex_spec(x_out, r, circle@[k]),
        indices@.len() == circle@.len(),
        forall|k: int|
            0 <= k < circle@.len() ==> #[trigger] indices@[k] == old(mesh).vertices@.len() + k + 1,
        final(mesh).groups@ == old(mesh).groups@,
        final(mesh).current_group == old(mesh).current_group,
        old(mesh).wf() ==> final(mesh).wf(),
{
    let mut indices: Vec<usize> = Vec::new();
    let n = circle.len();
    let ghost base = mesh.vertices@.len();
    for k in 0..n
        invariant
            n == circle@.len(),
            -RADIAL_LIMIT <= r <= RADIAL_LIMIT,
            forall|j: int|
                0 <= j < circle@.len() ==> -CIRCLE_ONE <= (#[trigger] circle@[j]).0 <= CIRCLE_ONE
                    && -CIRCLE_ONE <= circle@[j].1 <= CIRCLE_ONE,
            base + n <= usize::MAX,
            mesh.vertices@.len() == base + k,
            forall|j: int|
                0 <= j < base ==> #[trigger] mesh.vertices@[j] == old(mesh).vertices@[j],
            forall|j: int|
                0 <= j < k ==> #[trigger] mesh.vertices@[base + j] == ring_vertex_spec(
                    x_out,
                    r,
                    circle@[j],
                ),
            indices@.len() == k,
            forall|j: int| 0 <= j < k ==> #[trigger] indices@[j] == base + j + 1,
            mesh.groups@ == old(mesh).groups@,
            mesh.current_group == old(mesh).current_group,
            old(mesh).wf() ==> mesh.wf(),
    {
        let sample = circle[k];
        let idx = mesh.add_vertex(x_out, radial(r, sample.0), radial(r, sample.1));
        indices.push(idx);
    }
    indices
}

/// The quad face the stitching step makes between matching segments `i` of
/// two rings: winding order depends on `flip`.
pub open spec fn stitch_quad(r1: Seq<usize>, r2: Seq<usize>, flip: bool, i: int) -> Seq<usize> {
    let next = if i + 1 == r1.len() {
        0
    } else {
        i + 1
    };
    if flip {
        seq![r1[i], r1[next], r2[next], r2[i]]
    } else {
        seq![r1[i], r2[i], r2[next], r1[next]]
    }
}

/// Joins two equal-length vertex rings with one quad per segment, appending
/// the quads to the mesh's most recent group.
pub fn stitch_rings(mesh: &mut Mesh, r1: &Vec<usize>, r2: &Vec<usize>, flip: bool)
    requires
        r1@.len() == r2@.len(),
        r1@.len() > 0,
        old(mesh).groups@.len() > 0,
        forall|k: int| 0 <= k < r1@.len() ==> 1 <= #[trigger] r1@[k] <= old(mesh).vertices@.len(),
        forall|k: int| 0 <= k < r2@.len() ==> 1 <= #[trigger] r2@[k] <= old(mesh).vertices@.len(),
        old(mesh).wf(),
    ensures
        final(mesh).vertices@ == old(mesh).vertices@,
        final(mesh).current_group == old(mesh).current_group,
        final(mesh).groups@.len() == old(mesh).groups@.len(),
        forall|i: int|
            0 <= i < old(mesh).groups@.len() - 1 ==> final(mesh).groups@[i] == old(
                mesh,
            ).groups@[i],
        ({
            let gi = old(mesh).groups@.len() - 1;
            let oldfaces = old(mesh).groups@[gi].faces@;
            &&& final(mesh).groups@[gi].name == old(mesh).groups@[gi].name
            &&& final(mesh).groups@[gi].faces@.len() == oldfaces.len() + r1@.len()
            &&& forall|j: int|
                0 <= j < oldfaces.len() ==> final(mesh).groups@[gi].faces@[j] == oldfaces[j]
            &&& forall|i: int|
                0 <= i < r1@.len() ==> (#[trigger] final(mesh).groups@[gi].faces@[oldfaces.len()
                    + i])@ == stitch_quad(r1@, r2@, flip, i)
        }),
        final(mesh).wf(),
{
    let segments = r1.len();
    for i in 0..segments
        invariant
            segments == r1@.len() == r2@.len(),
            segments > 0,
            forall|k: int|
                0 <= k < r1@.len() ==> 1 <= #[trigger] r1@[k] <= old(mesh).vertices@.len(),
            forall|k: int|
                0 <= k < r2@.len() ==> 1 <= #[trigger] r2@[k] <= old(mesh).vertices@.len(),
            mesh.vertices@ == old(mesh).vertices@,
            mesh.current_group == old(mesh).current_group,
            mesh.groups@.len() == old(mesh).groups@.len() > 0,
            forall|j: int|
                0 <= j < old(mesh).groups@.len() - 1 ==> mesh.groups@[j] == old(mesh).groups@[j],
            ({
                let gi = old(mesh).groups@.len() - 1;
                let oldfaces = old(mesh).groups@[gi].faces@;
                &&& mesh.groups@[gi].name == old(mesh).groups@[gi].name
                &&& mesh.groups@[gi].faces@.len() == oldfaces.len() + i
                &&& forall|j: int|
                    0 <= j < oldfaces.len() ==> mesh.groups@[gi].faces@[j] == oldfaces[j]
                &&& forall|j: int|
                    0 <= j < i ==> (#[trigger] mesh.groups@[gi].faces@[oldfaces.len() + j])@
                        == stitch_quad(r1@, r2@, flip, j)
            }),
            mesh.wf(),
    {
        let next = if i + 1 == segments {
            0
        } else {
            i + 1
        };
        let idx1 = r1[i];
        let idx2 = r2[i];
        let idx1_next = r1[next];
        let idx2_next = r2[next];
        let face: Vec<usize> = if flip {
            vec![idx1, idx1_next, idx2_next, idx2]
        } else {
            vec![idx1, idx2, idx2_next, idx1_next]
        };
        mesh.add_face(&face);
        proof {
            assert(face@ =~= stitch_quad(r1@, r2@, flip, i as int));
        }
    }
}

/// Appends one cutter ring: a circle in the x/z plane at height `y_out`,
/// centred on `center_x_out`, and returns the 1-based indices in order.
pub fn add_cutter_ring(
    mesh: &mut Mesh,
    center_x_out: i64,
    y_out: i64,
    r: i64,
    circle: &Vec<(i64, i64)>,
) -> (indices: Vec<usize>)
    requires
        -RADIAL_LIMIT <= r <= RADIAL_LIMIT,
        -100_000_000_000 <= center_x_out <= 100_000_000_000,
        forall|k: int|
            0 <= k < circle@.len() ==> -CIRCLE_ONE <= (#[trigger] circle@[k]).0 <= CIRCLE_ONE
                && -CIRCLE_ONE <= circle@[k].1 <= CIRCLE_ONE,
        old(mesh).vertices@.len() + circle@.len() <= usize::MAX,
    ensures
        final(mesh).vertices@.len() == old(mesh).vertices@.len() + circle@.len(),
        forall|k: int|
            0 <= k < old(mesh).vertices@.len() ==> final(mesh).vertices@[k] == old(
                mesh,
            ).vertices@[k],
        forall|k: int|
            0 <= k < circle@.len() ==> final(mesh).vertices@[old(mesh).vertices@.len() + k] == ((
            center_x_out + radial_spec(r, circle@[k].0)) as i64, y_out, radial_spec(
                r,
                circle@[k].1,
            ) as i64),
        indices@.len() == circle@.len(),
        forall|k: int|
            0 <= k < circle@.len() ==> #[trigger] indices@[k] == old(mesh).vertices@.len() + k + 1,
        final(mesh).groups@ == old(mesh).groups@,
        final(mesh).current_group == old(mesh).current_group,
        old(mesh).wf() ==> final(mesh).wf(),
{
    let mut indices: Vec<usize> = Vec::new();
    let n = circle.len();
    let ghost base = mesh.vertices@.len();
    for k in 0..n
        invariant
            n == circle@.len(),
            -RADIAL_LIMIT <= r <= RADIAL_LIMIT,
            -100_000_000_000 <= center_x_out <= 100_000_000_000,
            forall|j: int|
                0 <= j < circle@.len() ==> -CIRCLE_ONE <= (#[trigger] circle@[j]).0 <= CIRCLE_ONE
                    && -CIRCLE_ONE <= circle@[j].1 <= CIRCLE_ONE,
            base + n <= usize::MAX,
            mesh.vertices@.len() == base + k,
            forall|j: int|
                0 <= j < base ==> #[trigger] mesh.vertices@[j] == old(mesh).vertices@[j],
            forall|j: int|
                0 <= j < k ==> #[trigger] mesh.vertices@[base + j] == ((center_x_out + radial_spec(
                    r,
                    circle@[j].0,
                )) as i64, y_out, radial_spec(r, circle@[j].1) as i64),
            indices@.len() == k,
            forall|j: int| 0 <= j < k ==> #[trigger] indices@[j] == base + j + 1,
            mesh.groups@ == old(mesh).groups@,
            mesh.current_group == old(mesh).current_group,
            old(mesh).wf() ==> mesh.wf(),
    {
        let sample = circle[k];
        let idx = mesh.add_vertex(center_x_out + radial(r, sample.0), y_out, radial(r, sample.1));
        indices.push(idx);
    }
    indices
}

/// How many of the first `n` holes are open.
pub open spec fn open_count_upto(holes: Seq<Hole>, n: int) -> int
    recommends
        0 <= n <= holes.len(),
    decreases n,
{
    if n <= 0 {
        0
    } else {
        open_count_upto(holes, n - 1) + if holes[n - 1].open {
            1int
        } else {
            0int
        }
    }
}

/// How many holes of the collection are open.
pub open spec fn open_count(holes: Seq<Hole>) -> int {
    open_count_upto(holes, holes.len() as int)
}

/// The open-hole count over a prefix is between zero and the prefix length.
proof fn lemma_open_count_bounds(holes: Seq<Hole>, n: int)
    requires
        0 <= n <= holes.len(),
    ensures
        0 <= open_count_upto(holes, n) <= n,
    decreases n,
{
    if n > 0 {
        lemma_open_count_bounds(holes, n - 1);
    }
}

/// The open-hole count never falls over a longer prefix.
proof fn lemma_open_count_monotone(holes: Seq<Hole>, a: int, b: int)
    requires
        0 <= a <= b <= holes.len(),
    ensures
        open_count_upto(holes, a) <= open_count_upto(holes, b),
    decreases b - a,
{
    if a < b {
        lemma_open_count_monotone(holes, a, b - 1);
    }
}

/// The two rings of the cutter for hole `h` start at this vertex index:
/// past the tube body and every earlier open hole's cutter.
pub open spec fn cutter_base(holes: Seq<Hole>, h: int) -> int {
    256 + 64 * open_count_upto(holes, h)
}

/// The embouchure cutter's rings start at this vertex index: past the tube
/// body and every open hole's cutter.
pub open spec fn mouth_base(holes: Seq<Hole>) -> int {
    256 + 64 * open_count(holes)
}

/// The 1-based indices of `n` vertices appended consecutively after the
/// first `base` vertices: what one ring-building call returns.
pub open spec fn ring_indices(base: int, n: int) -> Seq<usize> {
    Seq::new(n as nat, |k: int| (base + k + 1) as usize)
}

/// The faces of hole `h`'s cutter stand at their places in the face list:
/// 32 stitch quads joining the hole's two rings, then the bottom cap wound
/// in reverse, then the top cap.
pub open spec fn cutter_faces_at(faces: Seq<Vec<usize>>, holes: Seq<Hole>, h: int) -> bool {
    let off = 34 * open_count_upto(holes, h);
    let vbase = cutter_base(holes, h);
    &&& forall|i: int|
        0 <= i < 32 ==> (#[trigger] faces[off + i])@ == stitch_quad(
            ring_indices(vbase, 32),
            ring_indices(vbase + 32, 32),
            false,
            i,
        )
    &&& faces[off + 32]@ == ring_indices(vbase, 32).reverse()
    &&& faces[off + 33]@ == ring_indices(vbase + 32, 32)
}

/// Every open hole among the first `n` has its cutter's faces in place.
pub open spec fn cutter_faces_placed(faces: Seq<Vec<usize>>, holes: Seq<Hole>, n: int) -> bool {
    forall|h: int|
        0 <= h < n && (#[trigger] holes[h]).open ==> cutter_faces_at(faces, holes, h)
}

/// The cutter rings of every open hole among the first `n` stand at their
/// places in the vertex list: the bottom ring at `cutter_base`, the top
/// ring 32 vertices later, each ring placed around the hole's position.
pub open spec fn cutters_placed(
    vertices: Seq<(i64, i64, i64)>,
    holes: Seq<Hole>,
    cutter_circle: Seq<(i64, i64)>,
    y_start: i64,
    y_end: i64,
    n: int,
) -> bool {
    forall|h: int, k: int|
        0 <= h < n && holes[h].open && 0 <= k < 32 ==> {
            let base = cutter_base(holes, h);
            let center = axial_spec((#[trigger] holes[h]).position);
            &&& vertices[base + k] == ((center + radial_spec(
                holes[h].radius,
                (#[trigger] cutter_circle[k]).0,
            )) as i64, y_start, radial_spec(holes[h].radius, cutter_circle[k].1) as i64)
            &&& vertices[base + 32 + k] == ((center + radial_spec(
                holes[h].radius,
                cutter_circle[k].0,
            )) as i64, y_end, radial_spec(holes[h].radius, cutter_circle[k].1) as i64)
        }
}

/// The indices of a ring in reverse order, winding a cap the other way.
fn reversed_indices(indices: &Vec<usize>) -> (rev: Vec<usize>)
    ensures
        rev@.len() == indices@.len(),
        forall|k: int|
            0 <= k < indices@.len() ==> #[trigger] rev@[k] == indices@[indices@.len() - 1 - k],
{
    let mut rev: Vec<usize> = Vec::new();
    let n = indices.len();
    for i in 0..n
        invariant
            n == indices@.len(),
            rev@.len() == i,
            forall|k: int| 0 <= k < i ==> #[trigger] rev@[k] == indices@[n - 1 - k],
    {
        rev.push(indices[n - 1 - i]);
    }
    rev
}

/// Axis reach of the fixed left tube extension: 5 cm in micro-centimetres.
pub const LEFT_EXTENSION: i64 = 5_000_000;

/// Radial overhang of a cutter past the wall on each side: 0.5 cm.
pub const CUTTER_OVERHANG: i64 = 500_000;

/// Radius of the embouchure cutter cylinder: 0.4 cm.
pub const MOUTH_CUTTER_RADIUS: i64 = 400_000;

/// Builds the solid-mesh export of a bore design from sampled unit circles:
/// the tube body (inner and outer walls stitched, rim caps at both ends),
/// one capped cutter cylinder through the wall per open tone hole, and one
/// embouchure cutter at the acoustic origin.  The two circle tables carry
/// the fixed segment counts of the export format: 64 samples for the tube
/// body, 32 for the cutters.
pub fn generate_flute_mesh(
    flute: &Flute,
    body_circle: &Vec<(i64, i64)>,
    cutter_circle: &Vec<(i64, i64)>,
) -> (mesh: Mesh)
    requires
        flute.wf(),
        flute.holes@.len() <= 10_000_000,
        body_circle@.len() == 64,
        cutter_circle@.len() == 32,
        forall|k: int|
            0 <= k < body_circle@.len() ==> -CIRCLE_ONE <= (#[trigger] body_circle@[k]).0
                <= CIRCLE_ONE && -CIRCLE_ONE <= body_circle@[k].1 <= CIRCLE_ONE,
        forall|k: int|
            0 <= k < cutter_circle@.len() ==> -CIRCLE_ONE <= (#[trigger] cutter_circle@[k]).0
                <= CIRCLE_ONE && -CIRCLE_ONE <= cutter_circle@[k].1 <= CIRCLE_ONE,
    ensures
        mesh.wf(),
        mesh.groups@.len() == 4,
        mesh.groups@[0].name == GroupName::DefaultGroup,
        mesh.groups@[1].name == GroupName::TubeBody,
        mesh.groups@[2].name == GroupName::HoleCutters,
        mesh.groups@[3].name == GroupName::MouthHoleCutter,
        mesh.groups@[0].faces@.len() == 0,
        mesh.groups@[1].faces@.len() == 256,
        mesh.groups@[2].faces@.len() == 34 * open_count(flute.holes@),
        mesh.groups@[3].faces@.len() == 34,
        mesh.vertices@.len() == 256 + 64 * open_count(flute.holes@) + 64,
        forall|k: int|
            0 <= k < 64 ==> #[trigger] mesh.vertices@[k] == ring_vertex_spec(
                axial_spec((-LEFT_EXTENSION) as i64) as i64,
                flute.bore_radius,
                body_circle@[k],
            ),
        forall|k: int|
            0 <= k < 64 ==> #[trigger] mesh.vertices@[64 + k] == ring_vertex_spec(
                axial_spec((-LEFT_EXTENSION) as i64) as i64,
                (flute.bore_radius + flute.wall_thickness) as i64,
                body_circle@[k],
            ),
        forall|k: int|
            0 <= k < 64 ==> #[trigger] mesh.vertices@[128 + k] == ring_vertex_spec(
                axial_spec(flute.length) as i64,
                flute.bore_radius,
                body_circle@[k],
            ),
        forall|k: int|
            0 <= k < 64 ==> #[trigger] mesh.vertices@[192 + k] == ring_vertex_spec(
                axial_spec(flute.length) as i64,
                (flute.bore_radius + flute.wall_thickness) as i64,
                body_circle@[k],
            ),
        forall|k: int|
            0 <= k < 32 ==> mesh.vertices@[mesh.vertices@.len() - 64 + k] == ((radial_spec(
                MOUTH_CUTTER_RADIUS,
                (#[trigger] cutter_circle@[k]).0,
            )) as i64, axial_spec((flute.bore_radius - CUTTER_OVERHANG) as i64) as i64,
            radial_spec(MOUTH_CUTTER_RADIUS, cutter_circle@[k].1) as i64),
        forall|k: int|
            0 <= k < 32 ==> mesh.vertices@[mesh.vertices@.len() - 32 + k] == ((radial_spec(
                MOUTH_CUTTER_RADIUS,
                (#[trigger] cutter_circle@[k]).0,
            )) as i64, axial_spec((flute.bore_radius + flute.wall_thickness
                + CUTTER_OVERHANG) as i64) as i64, radial_spec(
                MOUTH_CUTTER_RADIUS,
                cutter_circle@[k].1,
            ) as i64),
        cutters_placed(
            mesh.vertices@,
            flute.holes@,
            cutter_circle@,
            axial_spec((flute.bore_radius - CUTTER_OVERHANG) as i64) as i64,
            axial_spec((flute.bore_radius + flute.wall_thickness + CUTTER_OVERHANG) as i64) as i64,
            flute.holes@.len() as int,
        ),
        forall|i: int|
            0 <= i < 64 ==> (#[trigger] mesh.groups@[1].faces@[i])@ == stitch_quad(
                ring_indices(64, 64),
                ring_indices(192, 64),
                true,
                i,
            ),
        forall|i: int|
            0 <= i < 64 ==> (#[trigger] mesh.groups@[1].faces@[64 + i])@ == stitch_quad(
                ring_indices(0, 64),
                ring_indices(128, 64),
                false,
                i,
            ),
        forall|i: int|
            0 <= i < 64 ==> (#[trigger] mesh.groups@[1].faces@[128 + i])@ == stitch_quad(
                ring_indices(64, 64),
                ring_indices(0, 64),
                false,
                i,
            ),
        forall|i: int|
            0 <= i < 64 ==> (#[trigger] mesh.groups@[1].faces@[192 + i])@ == stitch_quad(
                ring_indices(192, 64),
                ring_indices(128, 64),
                true,
                i,
            ),
        cutter_faces_placed(mesh.groups@[2].faces@, flute.holes@, flute.holes@.len() as int),
        forall|i: int|
            0 <= i < 32 ==> (#[trigger] mesh.groups@[3].faces@[i])@ == stitch_quad(
                ring_indices(mouth_base(flute.holes@), 32),
                ring_indices(mouth_base(flute.holes@) + 32, 32),
                false,
                i,
            ),
        mesh.groups@[3].faces@[32]@ == ring_indices(mouth_base(flute.holes@), 32).reverse(),
        mesh.groups@[3].faces@[33]@ == ring_indices(mouth_base(flute.holes@) + 32, 32),
        mesh.current_group == GroupName::MouthHoleCutter,
{
    let mut mesh = Mesh::new();

    // Tube body: two wall rings at each end, stitched into the outer
    // surface, the inner surface, and the two rim caps.
    mesh.set_group(GroupName::TubeBody);
    let r_inner = flute.bore_radius;
    let r_outer = flute.bore_radius + flute.wall_thickness;
    let x_left = axial(-LEFT_EXTENSION);
    let x_right = axial(flute.length);

    let ring_l_in = add_ring(&mut mesh, x_left, r_inner, body_circle);
    let ring_l_out = add_ring(&mut mesh, x_left, r_outer, body_circle);
    let ring_r_in = add_ring(&mut mesh, x_right, r_inner, body_circle);
    let ring_r_out = add_ring(&mut mesh, x_right, r_outer, body_circle);

    proof {
        assert(ring_l_in@ =~= ring_indices(0, 64));
        assert(ring_l_out@ =~= ring_indices(64, 64));
        assert(ring_r_in@ =~= ring_indices(128, 64));
        assert(ring_r_out@ =~= ring_indices(192, 64));
    }
    stitch_rings(&mut mesh, &ring_l_out, &ring_r_out, true);
    let ghost tube_a = mesh.groups@[1].faces@;
    proof {
        assert forall|i: int| 0 <= i < 64 implies (#[trigger] tube_a[i])@ == stitch_quad(
            ring_indices(64, 64),
            ring_indices(192, 64),
            true,
            i,
        ) by {
            assert(tube_a[i] == mesh.groups@[1].faces@[0 + i]);
        }
    }
    stitch_rings(&mut mesh, &ring_l_in, &ring_r_in, false);
    let ghost tube_b = mesh.groups@[1].faces@;
    proof {
        assert forall|i: int| 0 <= i < 64 implies (#[trigger] tube_b[i])@ == stitch_quad(
            ring_indices(64, 64),
            ring_indices(192, 64),
            true,
            i,
        ) by {
            assert(tube_b[i] == tube_a[i]);
        }
        assert forall|i: int| 0 <= i < 64 implies (#[trigger] tube_b[64 + i])@ == stitch_quad(
            ring_indices(0, 64),
            ring_indices(128, 64),
            false,
            i,
        ) by {
            assert(tube_b[64 + i] == mesh.groups@[1].faces@[tube_a.len() + i]);
        }
    }
    stitch_rings(&mut mesh, &ring_l_out, &ring_l_in, false);
    let ghost tube_c = mesh.groups@[1].faces@;
    proof {
        assert forall|i: int| 0 <= i < 64 implies (#[trigger] tube_c[i])@ == stitch_quad(
            ring_indices(64, 64),
            ring_indices(192, 64),
            true,
            i,
        ) by {
            assert(tube_c[i] == tube_b[i]);
        }
        assert forall|i: int| 0 <= i < 64 implies (#[trigger] tube_c[64 + i])@ == stitch_quad(
            ring_indices(0, 64),
            ring_indices(128, 64),
            false,
            i,
        ) by {
            assert(tube_c[64 + i] == tube_b[64 + i]);
        }
        assert forall|i: int| 0 <= i < 64 implies (#[trigger] tube_c[128 + i])@ == stitch_quad(
            ring_indices(64, 64),
            ring_indices(0, 64),
            false,
            i,
        ) by {
            assert(tube_c[128 + i] == mesh.groups@[1].faces@[tube_b.len() + i]);
        }
    }
    stitch_rings(&mut mesh, &ring_r_out, &ring_r_in, true);
    let ghost tube_group = mesh.groups@[1];
    proof {
        assert forall|i: int| 0 <= i < 64 implies (#[trigger] tube_group.faces@[i])@
            == stitch_quad(ring_indices(64, 64), ring_indices(192, 64), true, i) by {
            assert(tube_group.faces@[i] == tube_c[i]);
        }
        assert forall|i: int| 0 <= i < 64 implies (#[trigger] tube_group.faces@[64 + i])@
            == stitch_quad(ring_indices(0, 64), ring_indices(128, 64), false, i) by {
            assert(tube_group.faces@[64 + i] == tube_c[64 + i]);
        }
        assert forall|i: int| 0 <= i < 64 implies (#[trigger] tube_group.faces@[128 + i])@
            == stitch_quad(ring_indices(64, 64), ring_indices(0, 64), false, i) by {
            assert(tube_group.faces@[128 + i] == tube_c[128 + i]);
        }
        assert forall|i: int| 0 <= i < 64 implies (#[trigger] tube_group.faces@[192 + i])@
            == stitch_quad(ring_indices(192, 64), ring_indices(128, 64), true, i) by {
            assert(tube_group.faces@[192 + i] == mesh.groups@[1].faces@[tube_c.len() + i]);
        }
    }

    // One cutter cylinder per open hole, passing fully through the wall,
    // closed by a cap at each end so it cuts as a solid.
    mesh.set_group(GroupName::HoleCutters);
    let ghost body_verts = mesh.vertices@;
    let y_start = axial(r_inner - CUTTER_OVERHANG);
    let y_end = axial(r_outer + CUTTER_OVERHANG);
    let n = flute.holes.len();
    for i in 0..n
        invariant
            n == flute.holes@.len() <= 10_000_000,
            flute.wf(),
            forall|k: int|
                0 <= k < cutter_circle@.len() ==> -CIRCLE_ONE <= (#[trigger] cutter_circle@[k]).0
                    <= CIRCLE_ONE && -CIRCLE_ONE <= cutter_circle@[k].1 <= CIRCLE_ONE,
            cutter_circle@.len() == 32,
            y_start == axial_spec((flute.bore_radius - CUTTER_OVERHANG) as i64),
            y_end == axial_spec((flute.bore_radius + flute.wall_thickness
                + CUTTER_OVERHANG) as i64),
            mesh.wf(),
            mesh.groups@.len() == 3,
            mesh.groups@[0].name == GroupName::DefaultGroup,
            mesh.groups@[1].name == GroupName::TubeBody,
            mesh.groups@[2].name == GroupName::HoleCutters,
            mesh.groups@[0].faces@.len() == 0,
            mesh.groups@[1].faces@.len() == 256,
            mesh.groups@[2].faces@.len() == 34 * open_count_upto(flute.holes@, i as int),
            mesh.vertices@.len() == 256 + 64 * open_count_upto(flute.holes@, i as int),
            mesh.current_group == GroupName::HoleCutters,
            body_verts.len() == 256,
            forall|k: int| 0 <= k < 256 ==> #[trigger] mesh.vertices@[k] == body_verts[k],
            cutters_placed(mesh.vertices@, flute.holes@, cutter_circle@, y_start, y_end, i as int),
            mesh.groups@[1] == tube_group,
            cutter_faces_placed(mesh.groups@[2].faces@, flute.holes@, i as int),
    {
        let hole = flute.holes[i];
        proof {
            lemma_open_count_bounds(flute.holes@, i as int);
        }
        if hole.open {
            let center_x = axial(hole.position);
            let ghost faces_pre = mesh.groups@[2].faces@;
            let ring_bot = add_cutter_ring(&mut mesh, center_x, y_start, hole.radius,
                cutter_circle);
            let ring_top = add_cutter_ring(&mut mesh, center_x, y_end, hole.radius, cutter_circle);
            stitch_rings(&mut mesh, &ring_bot, &ring_top, false);
            let bot_cap = reversed_indices(&ring_bot);
            mesh.add_face(&bot_cap);
            mesh.add_face(&ring_top);
            proof {
                let holes = flute.holes@;
                let vbase = cutter_base(holes, i as int);
                let off = 34 * open_count_upto(holes, i as int);
                let faces_now = mesh.groups@[2].faces@;
                assert(ring_bot@ =~= ring_indices(vbase, 32));
                assert(ring_top@ =~= ring_indices(vbase + 32, 32));
                assert(bot_cap@ =~= ring_indices(vbase, 32).reverse());
                assert(faces_now.len() == off + 34);
                assert forall|j: int| 0 <= j < off implies #[trigger] faces_now[j]
                    == faces_pre[j] by {}
                assert(cutter_faces_at(faces_now, holes, i as int));
                assert forall|h: int|
                    0 <= h < i + 1 && (#[trigger] holes[h]).open implies cutter_faces_at(
                    faces_now,
                    holes,
                    h,
                ) by {
                    if h < i as int {
                        lemma_open_count_monotone(holes, h + 1, i as int);
                        lemma_open_count_bounds(holes, h);
                        assert(cutter_faces_at(faces_pre, holes, h));
                        let offh = 34 * open_count_upto(holes, h);
                        assert(offh + 34 <= off);
                        assert forall|j: int|
                            0 <= j < 32 implies (#[trigger] faces_now[offh + j])@ == stitch_quad(
                            ring_indices(cutter_base(holes, h), 32),
                            ring_indices(cutter_base(holes, h) + 32, 32),
                            false,
                            j,
                        ) by {
                            assert(faces_now[offh + j] == faces_pre[offh + j]);
                        }
                        assert(faces_now[offh + 32] == faces_pre[offh + 32]);
                        assert(faces_now[offh + 33] == faces_pre[offh + 33]);
                    }
                };
                assert(cutter_faces_placed(faces_now, holes, i + 1));
                assert forall|h: int, k: int|
                    0 <= h < i + 1 && (#[trigger] flute.holes@[h]).open && 0 <= k < 32 && (
                    #[trigger] cutter_circle@[k]) == cutter_circle@[k] implies {
                    let base = cutter_base(flute.holes@, h);
                    let center = axial_spec((flute.holes@[h]).position);
                    &&& mesh.vertices@[base + k] == ((center + radial_spec(
                        flute.holes@[h].radius,
                        cutter_circle@[k].0,
                    )) as i64, y_start, radial_spec(flute.holes@[h].radius, cutter_circle@[k].1)
                        as i64)
                    &&& mesh.vertices@[base + 32 + k] == ((center + radial_spec(
                        flute.holes@[h].radius,
                        cutter_circle@[k].0,
                    )) as i64, y_end, radial_spec(flute.holes@[h].radius, cutter_circle@[k].1)
                        as i64)
                } by {
                    if h < i as int {
                        lemma_open_count_monotone(flute.holes@, h + 1, i as int);
                        lemma_open_count_bounds(flute.holes@, h);
                    }
                };
                assert(cutters_placed(
                    mesh.vertices@,
                    flute.holes@,
                    cutter_circle@,
                    y_start,
                    y_end,
                    i + 1,
                ));
            }
        } else {
            proof {
                assert(cutters_placed(
                    mesh.vertices@,
                    flute.holes@,
                    cutter_circle@,
                    y_start,
                    y_end,
                    i + 1,
                ));
                assert(cutter_faces_placed(mesh.groups@[2].faces@, flute.holes@, i + 1));
            }
        }
    }

    // The embouchure cutter: one capped cylinder at the acoustic origin.
    proof {
        lemma_open_count_bounds(flute.holes@, flute.holes@.len() as int);
    }
    mesh.set_group(GroupName::MouthHoleCutter);
    let ghost mb = mouth_base(flute.holes@);
    proof {
        assert(mesh.vertices@.len() == mb);
    }
    let ring_bot = add_cutter_ring(&mut mesh, 0, y_start, MOUTH_CUTTER_RADIUS, cutter_circle);
    let ring_top = add_cutter_ring(&mut mesh, 0, y_end, MOUTH_CUTTER_RADIUS, cutter_circle);
    proof {
        assert(ring_bot@ =~= ring_indices(mb, 32));
        assert(ring_top@ =~= ring_indices(mb + 32, 32));
    }
    stitch_rings(&mut mesh, &ring_bot, &ring_top, false);
    let ghost mouth_a = mesh.groups@[3].faces@;
    proof {
        assert forall|i: int| 0 <= i < 32 implies (#[trigger] mouth_a[i])@ == stitch_quad(
            ring_indices(mb, 32),
            ring_indices(mb + 32, 32),
            false,
            i,
        ) by {
            assert(mouth_a[i] == mesh.groups@[3].faces@[0 + i]);
        }
    }
    let bot_cap = reversed_indices(&ring_bot);
    mesh.add_face(&bot_cap);
    let ghost mouth_b = mesh.groups@[3].faces@;
    mesh.add_face(&ring_top);

    proof {
        assert(bot_cap@ =~= ring_indices(mb, 32).reverse());
        assert forall|i: int| 0 <= i < 32 implies (#[trigger] mesh.groups@[3].faces@[i])@
            == stitch_quad(ring_indices(mb, 32), ring_indices(mb + 32, 32), false, i) by {
            assert(mesh.groups@[3].faces@[i] == mouth_b[i]);
            assert(mouth_b[i] == mouth_a[i]);
        }
        assert(mesh.groups@[3].faces@[32] == mouth_b[32]);
        assert(mouth_b[32]@ == bot_cap@);
        assert(mesh.groups@[3].faces@[32]@ == ring_indices(mb, 32).reverse());
        assert(mesh.groups@[3].faces@[33]@ == ring_top@);
        assert(mesh.groups@[3].faces@[33]@ == ring_indices(mb + 32, 32));
        assert(cutter_faces_placed(
            mesh.groups@[2].faces@,
            flute.holes@,
            flute.holes@.len() as int,
        ));
        assert forall|i: int| 0 <= i < 64 implies {
            &&& (#[trigger] mesh.groups@[1].faces@[i])@ == stitch_quad(
                ring_indices(64, 64),
                ring_indices(192, 64),
                true,
                i,
            )
            &&& mesh.groups@[1].faces@[64 + i]@ == stitch_quad(
                ring_indices(0, 64),
                ring_indices(128, 64),
                false,
                i,
            )
            &&& mesh.groups@[1].faces@[128 + i]@ == stitch_quad(
                ring_indices(64, 64),
                ring_indices(0, 64),
                false,
                i,
            )
            &&& mesh.groups@[1].faces@[192 + i]@ == stitch_quad(
                ring_indices(192, 64),
                ring_indices(128, 64),
                true,
                i,
            )
        } by {
            assert(mesh.groups@[1] == tube_group);
            assert(mesh.groups@[1].faces@[i] == tube_group.faces@[i]);
            assert(mesh.groups@[1].faces@[64 + i] == tube_group.faces@[64 + i]);
            assert(mesh.groups@[1].faces@[128 + i] == tube_group.faces@[128 + i]);
            assert(mesh.groups@[1].faces@[192 + i] == tube_group.faces@[192 + i]);
        }
        assert forall|h: int, k: int|
            0 <= h < flute.holes@.len() && (#[trigger] flute.holes@[h]).open && 0 <= k < 32 && (
            #[trigger] cutter_circle@[k]) == cutter_circle@[k] implies {
            let base = cutter_base(flute.holes@, h);
            let center = axial_spec((flute.holes@[h]).position);
            &&& mesh.vertices@[base + k] == ((center + radial_spec(
                flute.holes@[h].radius,
                cutter_circle@[k].0,
            )) as i64, y_start, radial_spec(flute.holes@[h].radius, cutter_circle@[k].1) as i64)
            &&& mesh.vertices@[base + 32 + k] == ((center + radial_spec(
                flute.holes@[h].radius,
                cutter_circle@[k].0,
            )) as i64, y_end, radial_spec(flute.holes@[h].radius, cutter_circle@[k].1) as i64)
        } by {
            lemma_open_count_monotone(flute.holes@, h + 1, flute.holes@.len() as int);
            lemma_open_count_bounds(flute.holes@, h);
        };
        assert(cutters_placed(
            mesh.vertices@,
            flute.holes@,
            cutter_circle@,
            y_start,
            y_end,
            flute.holes@.len() as int,
        ));
    }

    mesh
}

/// The decimal digit character for one digit value.
pub open spec fn spec_digit(d: int) -> char {
    if d == 0 {
        '0'
    } else if d == 1 {
        '1'
    } else if d == 2 {
        '2'
    } else if d == 3 {
        '3'
    } else if d == 4 {
        '4'
    } else if d == 5 {
        '5'
    } else if d == 6 {
        '6'
    } else if d == 7 {
        '7'
    } else if d == 8 {
        '8'
    } else {
        '9'
    }
}

/// The decimal digits of a non-negative number, most significant first.
pub open spec fn dec_str(n: int) -> Seq<char>
    recommends
        n >= 0,
    decreases n,
{
    if n < 10 {
        seq![spec_digit(n)]
    } else {
        dec_str(n / 10).push(spec_digit(n % 10))
    }
}

/// A fraction of a whole unit as exactly four digits, zero padded.
pub open spec fn four_digits(n: int) -> Seq<char>
    recommends
        0 <= n < 10000,
{
    seq![
        spec_digit(n / 1000),
        spec_digit((n / 100) % 10),
        spec_digit((n / 10) % 10),
        spec_digit(n % 10),
    ]
}

/// A fixed-point output coordinate printed as a signed decimal with four
/// places: sign, whole units, point, zero-padded fraction.
pub open spec fn fixed4_str(v: int) -> Seq<char> {
    let m = if v < 0 {
        -v
    } else {
        v
    };
    let sign: Seq<char> = if v < 0 {
        seq!['-']
    } else {
        Seq::empty()
    };
    sign + dec_str(m / 10000) + seq!['.'] + four_digits(m % 10000)
}

/// One vertex record: `v`, the three coordinates, and a newline.
pub open spec fn vertex_line(v: (i64, i64, i64)) -> Seq<char> {
    "v "@ + fixed4_str(v.0 as int) + " "@ + fixed4_str(v.1 as int) + " "@ + fixed4_str(v.2 as int)
        + "\n"@
}

/// All vertex records in order.
pub open spec fn vertex_lines(vs: Seq<(i64, i64, i64)>) -> Seq<char>
    decreases vs.len(),
{
    if vs.len() == 0 {
        Seq::empty()
    } else {
        vertex_lines(vs.drop_last()) + vertex_line(vs.last())
    }
}

/// A group's name as written in the text output.
pub open spec fn group_name_str(name: GroupName) -> Seq<char> {
    match name {
        GroupName::DefaultGroup => "default"@,
        GroupName::TubeBody => "TubeBody"@,
        GroupName::HoleCutters => "HoleCutters"@,
        GroupName::MouthHoleCutter => "MouthHoleCutter"@,
    }
}

/// The 1-based indices of one face, each preceded by a space.
pub open spec fn face_indices_str(f: Seq<usize>) -> Seq<char>
    decreases f.len(),
{
    if f.len() == 0 {
        Seq::empty()
    } else {
        face_indices_str(f.drop_last()) + " "@ + dec_str(f.last() as int)
    }
}

/// One face record: `f`, the indices, and a newline.
pub open spec fn face_line(f: Seq<usize>) -> Seq<char> {
    "f"@ + face_indices_str(f) + "\n"@
}

/// All face records of a group in order.
pub open spec fn face_lines(fs: Seq<Vec<usize>>) -> Seq<char>
    decreases fs.len(),
{
    if fs.len() == 0 {
        Seq::empty()
    } else {
        face_lines(fs.drop_last()) + face_line(fs.last()@)
    }
}

/// A group's section: its `g` line and its face records; a group with no
/// faces is skipped entirely.
pub open spec fn group_section(g: Group) -> Seq<char> {
    if g.faces@.len() == 0 {
        Seq::empty()
    } else {
        "g "@ + group_name_str(g.name) + "\n"@ + face_lines(g.faces@)
    }
}

/// All group sections in order.
pub open spec fn group_sections(gs: Seq<Group>) -> Seq<char>
    decreases gs.len(),
{
    if gs.len() == 0 {
        Seq::empty()
    } else {
        group_sections(gs.drop_last()) + group_section(gs.last())
    }
}

/// The complete text export: header comment, object name, vertex records,
/// then each non-empty group's section.
pub open spec fn obj_str(m: Mesh) -> Seq<char> {
    "# Flyte Architect Export\n"@ + "o FluteProject\n"@ + vertex_lines(m.vertices@)
        + group_sections(m.groups@)
}

/// Appends one decimal digit character, equal to `spec_digit`.
fn append_digit(out: &mut String, d: u64)
    requires
        d < 10,
    ensures
        final(out)@ == old(out)@ + seq![spec_digit(d as int)],
{
    proof {
        reveal_strlit("0");
        reveal_strlit("1");
        reveal_strlit("2");
        reveal_strlit("3");
        reveal_strlit("4");
        reveal_strlit("5");
        reveal_strlit("6");
        reveal_strlit("7");
        reveal_strlit("8");
        reveal_strlit("9");
    }
    if d == 0 {
        out.append("0");
    } else if d == 1 {
        out.append("1");
    } else if d == 2 {
        out.append("2");
    } else if d == 3 {
        out.append("3");
    } else if d == 4 {
        out.append("4");
    } else if d == 5 {
        out.append("5");
    } else if d == 6 {
        out.append("6");
    } else if d == 7 {
        out.append("7");
    } else if d == 8 {
        out.append("8");
    } else {
        out.append("9");
    }
    proof {
        assert(final(out)@ =~= old(out)@ + seq![spec_digit(d as int)]);
    }
}

/// Appends the decimal digits of a number, equal to `dec_str`.
fn append_dec(out: &mut String, n: u64)
    ensures
        final(out)@ == old(out)@ + dec_str(n as int),
    decreases n,
{
    if n < 10 {
        append_digit(out, n);
    } else {
        proof {
            vstd::arithmetic::div_mod::lemma_div_is_strictly_smaller(n as int, 10);
        }
        append_dec(out, n / 10);
        append_digit(out, n % 10);
        proof {
            assert(final(out)@ =~= old(out)@ + dec_str(n as int));
        }
    }
}

/// Appends one coordinate with four decimal places, equal to `fixed4_str`.
fn append_fixed4(out: &mut String, v: i64)
    ensures
        final(out)@ == old(out)@ + fixed4_str(v as int),
{
    proof {
        reveal_strlit("-");
        reveal_strlit(".");
        assert("-"@ =~= seq!['-']);
        assert("."@ =~= seq!['.']);
    }
    let m: u64 = if v < 0 {
        out.append("-");
        (-(v as i128)) as u64
    } else {
        v as u64
    };
    let whole: u64 = m / 10000;
    let frac: u64 = m % 10000;
    append_dec(out, whole);
    out.append(".");
    proof {
        assert(frac / 1000 < 10) by (nonlinear_arith)
            requires
                0 <= frac < 10000,
        ;
    }
    append_digit(out, frac / 1000);
    append_digit(out, (frac / 100) % 10);
    append_digit(out, (frac / 10) % 10);
    append_digit(out, frac % 10);
    proof {
        assert(final(out)@ =~= old(out)@ + fixed4_str(v as int));
    }
}

/// Appends a group's name, equal to `group_name_str`.
fn append_group_name(out: &mut String, name: GroupName)
    ensures
        final(out)@ == old(out)@ + group_name_str(name),
{
    match name {
        GroupName::DefaultGroup => out.append("default"),
        GroupName::TubeBody => out.append("TubeBody"),
        GroupName::HoleCutters => out.append("HoleCutters"),
        GroupName::MouthHoleCutter => out.append("MouthHoleCutter"),
    }
}

impl Mesh {
    /// Renders the mesh in the text format the export consumer reads: a
    /// header comment, the object name, one `v` record per vertex with four
    /// decimal places, then each non-empty group as a `g` line followed by
    /// its 1-indexed `f` records.  The output equals `obj_str` exactly.
    #[verifier::rlimit(100)]
    pub fn to_obj_string(&self) -> (out: String)
        ensures
            out@ == obj_str(*self),
    {
        let mut out = String::new();
        out.append("# Flyte Architect Export\n");
        out.append("o FluteProject\n");
        let ghost head = "# Flyte Architect Export\n"@ + "o FluteProject\n"@;

        let n = self.vertices.len();
        for i in 0..n
            invariant
                n == self.vertices@.len(),
                out@ == head + vertex_lines(self.vertices@.subrange(0, i as int)),
        {
            let v = self.vertices[i];
            out.append("v ");
            append_fixed4(&mut out, v.0);
            out.append(" ");
            append_fixed4(&mut out, v.1);
            out.append(" ");
            append_fixed4(&mut out, v.2);
            out.append("\n");
            proof {
                let pre = self.vertices@.subrange(0, i as int);
                let post = self.vertices@.subrange(0, i + 1);
                assert(post.drop_last() =~= pre);
                assert(post.last() == self.vertices@[i as int]);
                assert(out@ =~= head + vertex_lines(post));
            }
        }
        proof {
            assert(self.vertices@.subrange(0, n as int) =~= self.vertices@);
        }
        let ghost mid = head + vertex_lines(self.vertices@);

        let gn = self.groups.len();
        for gi in 0..gn
            invariant
                gn == self.groups@.len(),
                out@ == mid + group_sections(self.groups@.subrange(0, gi as int)),
        {
            let ghost pre = self.groups@.subrange(0, gi as int);
            let ghost sect_base = out@;
            let group = &self.groups[gi];
            let fcount = group.faces.len();
            if fcount > 0 {
                out.append("g ");
                append_group_name(&mut out, group.name);
                out.append("\n");
                let ghost face_base = out@;
                for fi in 0..fcount
                    invariant
                        fcount == group.faces@.len(),
                        out@ == face_base + face_lines(group.faces@.subrange(0, fi as int)),
                {
                    let ghost fpre = group.faces@.subrange(0, fi as int);
                    out.append("f");
                    let ghost idx_base = out@;
                    let face = &group.faces[fi];
                    let icount = face.len();
                    for k in 0..icount
                        invariant
                            icount == face@.len(),
                            out@ == idx_base + face_indices_str(face@.subrange(0, k as int)),
                    {
                        out.append(" ");
                        append_dec(&mut out, face[k] as u64);
                        proof {
                            let ipre = face@.subrange(0, k as int);
                            let ipost = face@.subrange(0, k + 1);
                            assert(ipost.drop_last() =~= ipre);
                            assert(ipost.last() == face@[k as int]);
                            assert(" "@ + dec_str(face@[k as int] as int) =~= " "@ + dec_str(
                                (face@[k as int] as u64) as int,
                            ));
                            assert(out@ =~= idx_base + face_indices_str(ipost));
                        }
                    }
                    out.append("\n");
                    proof {
                        assert(face@.subrange(0, icount as int) =~= face@);
                        let fpost = group.faces@.subrange(0, fi + 1);
                        assert(fpost.drop_last() =~= fpre);
                        assert(fpost.last() == group.faces@[fi as int]);
                        assert(out@ =~= face_base + face_lines(fpost));
                    }
                }
                proof {
                    assert(group.faces@.subrange(0, fcount as int) =~= group.faces@);
                }
            }
            proof {
                let post = self.groups@.subrange(0, gi + 1);
                assert(post.drop_last() =~= pre);
                assert(post.last() == self.groups@[gi as int]);
                if fcount > 0 {
                    assert(out@ =~= mid + group_sections(post));
                } else {
                    assert(group_section(self.groups@[gi as int]) =~= Seq::<char>::empty());
                    assert(out@ =~= mid + group_sections(post));
                }
            }
        }
        proof {
            assert(self.groups@.subrange(0, gn as int) =~= self.groups@);
            assert(out@ =~= obj_str(*self));
        }
        out
    }
}

/// A plain element-by-element copy of a face's index list.
fn clone_indices(indices: &Vec<usize>) -> (copy: Vec<usize>)
    ensures
        copy@ == indices@,
{
    let mut copy: Vec<usize> = Vec::new();
    let n = indices.len();
    for i in 0..n
        invariant
            n == indices@.len(),
            copy@ =~= indices@.subrange(0, i as int),
    {
        copy.push(indices[i]);
    }
    proof {
        assert(copy@ =~= indices@);
    }
    copy
}

} // verus!
