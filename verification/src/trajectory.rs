//! The trajectory engine: five stateful generators that lazily produce an
//! infinite, periodic sequence of relative pointer displacements whose
//! partial sums trace a closed shape.  Each generator stores only the
//! minimal rolling state (a sign, a step index, or a cursor into a small
//! vertex table) needed to compute the next displacement.

use vstd::arithmetic::div_mod::{
    lemma_add_mod_noop_right, lemma_mod_division_less_than_divisor, lemma_mod_self_0,
    lemma_small_mod,
};
use vstd::prelude::*;

use crate::shape::{
    lemma_poly_closed, lemma_poly_delta_mod, lemma_poly_periodic, lemma_poly_pos, mag_sq,
    poly_delta, poly_pos,
};
use crate::tables::{
    cos_half, cos_half_val, sin_double_quarter, sin_double_quarter_val, sin_half, sin_half_val,
    star_x, star_x_val, star_y, star_y_val,
};
use crate::{HALF_PIXEL, MAX_SIZE, PIXEL};

verus! {

/// A relative 2-D pointer displacement, in micro-pixels.
#[derive(Clone, Copy, Debug, PartialEq, Eq, Structural)]
pub struct Point {
    pub x: i64,
    pub y: i64,
}

/// A micro-pixel coordinate rounded to whole device pixels, truncating
/// toward zero.
pub open spec fn pixels_of(c: int) -> int {
    if c >= 0 {
        c / 1000000
    } else {
        -((-c) / 1000000)
    }
}

impl Point {
    pub fn new(x: i64, y: i64) -> (p: Point)
        ensures
            p.x == x,
            p.y == y,
    {
        Point { x, y }
    }

    /// The displacement in whole device pixels, truncating toward zero.
    /// The engine's math is continuous (in micro-pixels); rounding to
    /// integral device units happens only at this boundary.
    pub fn to_pixels(&self) -> (r: (i64, i64))
        ensures
            r.0 == pixels_of(self.x as int),
            r.1 == pixels_of(self.y as int),
    {
        (div_pixel(self.x), div_pixel(self.y))
    }
}

/// Truncating division of a micro-pixel coordinate by the pixel unit.
fn div_pixel(c: i64) -> (r: i64)
    ensures
        r == pixels_of(c as int),
{
    if c >= 0 {
        ((c as u64) / 1000000) as i64
    } else {
        let m: u64 = ((-(c + 1)) as u64) + 1;
        proof {
            assert(m == -(c as int));
        }
        -((m / 1000000) as i64)
    }
}

/// A pattern size is a positive number of whole pixels, bounded so that all
/// fixed-point products fit comfortably in 64 bits.
pub open spec fn valid_size(size: int) -> bool {
    0 < size <= MAX_SIZE as int
}

/// Every micro-pixel coordinate a generator produces stays within this bound.
pub open spec fn coord_bounded(c: int) -> bool {
    -500000000000 <= c <= 500000000000
}

/// Multiply a pattern size by a fixed-point table entry.
fn scale(size: i64, c: i64) -> (r: i64)
    requires
        0 < size <= MAX_SIZE,
        -HALF_PIXEL <= c <= HALF_PIXEL,
    ensures
        r == size * c,
        coord_bounded(r as int),
        0 < c ==> c <= r,
        c < 0 ==> r <= c,
        c == 0 ==> r == 0,
{
    proof {
        assert((-500000000000 <= size * c <= 500000000000) && (0 < c ==> c <= size * c) && (c < 0
            ==> size * c <= c) && (c == 0 ==> size * c == 0)) by (nonlinear_arith)
            requires
                0 < size <= 1000000,
                -500000 <= c <= 500000,
        ;
    }
    size * c
}

/// A displacement generator.  Its abstract state is a nonempty closed
/// polygon, fixed at construction, together with a current step index;
/// every call to `next` returns the delta from the current polygon point to
/// the next one and advances the index cyclically.  Producing displacements
/// never fails and has no effect beyond advancing the index.
pub trait Trajectory: Send {
    /// Well-formed generator state.
    spec fn wf(&self) -> bool;

    /// The closed polygon this generator traces, in micro-pixels.
    spec fn points(&self) -> Seq<(int, int)>;

    /// The current step index.
    spec fn index(&self) -> int;

    /// A well-formed generator has a nonempty polygon, an in-range index,
    /// and bounded coordinates.
    proof fn wf_facts(&self)
        requires
            self.wf(),
        ensures
            0 < self.points().len(),
            0 <= self.index() < self.points().len() as int,
            forall|j: int|
                0 <= j < self.points().len() ==> coord_bounded(#[trigger] self.points()[j].0)
                    && coord_bounded(self.points()[j].1),
    ;

    /// Produce the next displacement and advance the phase state one step.
    fn next(&mut self) -> (p: Point)
        requires
            old(self).wf(),
        ensures
            final(self).wf(),
            final(self).points() == old(self).points(),
            final(self).index() == (old(self).index() + 1) % (old(self).points().len() as int),
            (p.x as int, p.y as int) == poly_delta(old(self).points(), old(self).index()),
    ;
}

/// The polygon of the back-and-forth line of a given size: from the origin
/// to a point half the size away on the x-axis and back.
pub open spec fn linear_points(size: int) -> Seq<(int, int)> {
    seq![(0int, 0int), (size * HALF_PIXEL as int, 0int)]
}

/// The 36 points of a circle whose diameter is the given size, sampled at
/// ten-degree steps starting at the rightmost point.
pub open spec fn circle_points(size: int) -> Seq<(int, int)> {
    Seq::new(36, |k: int| (size * cos_half(k), size * sin_half(k)))
}

/// The 10 vertices of a five-pointed star of a given size, alternating
/// between the outer radius (half the size) and an inner radius of four
/// tenths of that, starting straight up.
pub open spec fn star_points(size: int) -> Seq<(int, int)> {
    Seq::new(10, |k: int| (size * star_x(k), size * star_y(k)))
}

/// The 4 corners of an axis-aligned square of a given side length, starting
/// at the upper-right corner and proceeding counter-clockwise in screen
/// coordinates.
pub open spec fn square_points(size: int) -> Seq<(int, int)> {
    let h = size * HALF_PIXEL as int;
    seq![(h, h), (-h, h), (-h, -h), (h, -h)]
}

/// The 36 samples of a figure-eight of a given width: a Lissajous curve
/// `(a * sin(t), a * sin(2 t) / 2)` with amplitude `a` of half the size,
/// sampled at ten-degree steps of `t`.
pub open spec fn infinity_points(size: int) -> Seq<(int, int)> {
    Seq::new(36, |k: int| (size * sin_half(k), size * sin_double_quarter(k)))
}

/// Back-and-forth oscillation on a single axis.  The stored value is the
/// displacement to emit next; it flips sign on every call.
pub struct LinearTrajectory {
    current_x: i64,
}

impl LinearTrajectory {
    pub fn new(size: i64) -> (t: LinearTrajectory)
        requires
            0 < size <= MAX_SIZE,
        ensures
            t.wf(),
            t.index() == 0,
            t.points() == linear_points(size as int),
    {
        LinearTrajectory { current_x: scale(size, HALF_PIXEL) }
    }
}

impl Trajectory for LinearTrajectory {
    closed spec fn wf(&self) -> bool {
        self.current_x != 0 && coord_bounded(self.current_x as int)
    }

    closed spec fn points(&self) -> Seq<(int, int)> {
        let amp = if self.current_x > 0 {
            self.current_x as int
        } else {
            -(self.current_x as int)
        };
        seq![(0int, 0int), (amp, 0int)]
    }

    closed spec fn index(&self) -> int {
        if self.current_x > 0 {
            0
        } else {
            1
        }
    }

    proof fn wf_facts(&self) {
    }

    fn next(&mut self) -> (p: Point) {
        let ghost pre = *self;
        let x: i64 = self.current_x;
        self.current_x = -x;
        proof {
            assert(pre.points()[0] == (0int, 0int));
            assert(pre.points()[1].0 == (if x > 0 {
                x as int
            } else {
                -(x as int)
            }));
        }
        Point::new(x, 0)
    }
}

/// Circular motion: each call returns the chord between two consecutive
/// ten-degree samples of the circle, computed afresh from the step index.
pub struct CircleTrajectory {
    size: i64,
    steps: usize,
    current_step: usize,
}

impl CircleTrajectory {
    pub fn new(size: i64) -> (t: CircleTrajectory)
        requires
            0 < size <= MAX_SIZE,
        ensures
            t.wf(),
            t.index() == 0,
            t.points() == circle_points(size as int),
    {
        CircleTrajectory { size, steps: 36, current_step: 0 }
    }
}

impl Trajectory for CircleTrajectory {
    closed spec fn wf(&self) -> bool {
        valid_size(self.size as int) && self.steps == 36 && self.current_step < 36
    }

    closed spec fn points(&self) -> Seq<(int, int)> {
        circle_points(self.size as int)
    }

    closed spec fn index(&self) -> int {
        self.current_step as int
    }

    proof fn wf_facts(&self) {
        assert forall|j: int| 0 <= j < 36 implies coord_bounded(
            #[trigger] circle_points(self.size as int)[j].0,
        ) && coord_bounded(circle_points(self.size as int)[j].1) by {
            assert(coord_bounded(self.size as int * cos_half(j)) && coord_bounded(
                self.size as int * sin_half(j),
            )) by (nonlinear_arith)
                requires
                    0 < self.size as int <= 1000000,
                    -500000 <= cos_half(j) <= 500000,
                    -500000 <= sin_half(j) <= 500000,
            ;
        }
    }

    fn next(&mut self) -> (p: Point) {
        let k: usize = self.current_step;
        let k1: usize = (k + 1) % self.steps;
        let x0: i64 = scale(self.size, cos_half_val(k));
        let y0: i64 = scale(self.size, sin_half_val(k));
        let x1: i64 = scale(self.size, cos_half_val(k1));
        let y1: i64 = scale(self.size, sin_half_val(k1));
        self.current_step = k1;
        proof {
            lemma_small_mod(k as nat, 36);
        }
        Point::new(x1 - x0, y1 - y0)
    }
}

/// The view of a stored vertex table as a sequence of coordinate pairs.
pub open spec fn table_view(table: Seq<Point>) -> Seq<(int, int)> {
    table.map_values(|p: Point| (p.x as int, p.y as int))
}

/// Whether every vertex of a stored table has bounded coordinates.
pub open spec fn table_bounded(table: Seq<Point>) -> bool {
    forall|j: int|
        0 <= j < table.len() ==> coord_bounded(#[trigger] table[j].x as int) && coord_bounded(
            table[j].y as int,
        )
}

/// A five-pointed star.  The ten vertices are precomputed at construction;
/// each call returns the edge from the current vertex to the next one.
pub struct StarTrajectory {
    points: Vec<Point>,
    current_index: usize,
}

impl StarTrajectory {
    pub fn new(size: i64) -> (t: StarTrajectory)
        requires
            0 < size <= MAX_SIZE,
        ensures
            t.wf(),
            t.index() == 0,
            t.points() == star_points(size as int),
    {
        let mut points: Vec<Point> = Vec::new();
        let mut i: usize = 0;
        while i < 10
            invariant
                0 < size <= MAX_SIZE,
                i <= 10,
                points@.len() == i,
                forall|j: int|
                    0 <= j < i ==> #[trigger] points@[j].x == size * star_x(j) && points@[j].y
                        == size * star_y(j) && coord_bounded(points@[j].x as int) && coord_bounded(
                        points@[j].y as int,
                    ),
            decreases 10 - i,
        {
            let x: i64 = scale(size, star_x_val(i));
            let y: i64 = scale(size, star_y_val(i));
            points.push(Point::new(x, y));
            i = i + 1;
        }
        let t = StarTrajectory { points, current_index: 0 };
        proof {
            assert(t.points() =~= star_points(size as int));
        }
        t
    }
}

impl Trajectory for StarTrajectory {
    closed spec fn wf(&self) -> bool {
        self.points@.len() == 10 && self.current_index < 10 && table_bounded(self.points@)
    }

    closed spec fn points(&self) -> Seq<(int, int)> {
        table_view(self.points@)
    }

    closed spec fn index(&self) -> int {
        self.current_index as int
    }

    proof fn wf_facts(&self) {
    }

    fn next(&mut self) -> (p: Point) {
        let i: usize = self.current_index;
        let j: usize = (i + 1) % self.points.len();
        let c: Point = self.points[i];
        let n: Point = self.points[j];
        self.current_index = j;
        proof {
            lemma_small_mod(i as nat, 10);
        }
        Point::new(n.x - c.x, n.y - c.y)
    }
}

/// An axis-aligned square.  The four corners are precomputed at
/// construction; each call returns the edge from the current corner to the
/// next one.
pub struct SquareTrajectory {
    vertices: Vec<Point>,
    current_vertex: usize,
}

impl SquareTrajectory {
    pub fn new(size: i64) -> (t: SquareTrajectory)
        requires
            0 < size <= MAX_SIZE,
        ensures
            t.wf(),
            t.index() == 0,
            t.points() == square_points(size as int),
    {
        let h: i64 = scale(size, HALF_PIXEL);
        let mut vertices: Vec<Point> = Vec::new();
        vertices.push(Point::new(h, h));
        vertices.push(Point::new(-h, h));
        vertices.push(Point::new(-h, -h));
        vertices.push(Point::new(h, -h));
        let t = SquareTrajectory { vertices, current_vertex: 0 };
        proof {
            assert(t.points() =~= square_points(size as int));
        }
        t
    }
}

impl Trajectory for SquareTrajectory {
    closed spec fn wf(&self) -> bool {
        self.vertices@.len() == 4 && self.current_vertex < 4 && table_bounded(self.vertices@)
    }

    closed spec fn points(&self) -> Seq<(int, int)> {
        table_view(self.vertices@)
    }

    closed spec fn index(&self) -> int {
        self.current_vertex as int
    }

    proof fn wf_facts(&self) {
    }

    fn next(&mut self) -> (p: Point) {
        let i: usize = self.current_vertex;
        let j: usize = (i + 1) % self.vertices.len();
        let c: Point = self.vertices[i];
        let n: Point = self.vertices[j];
        self.current_vertex = j;
        proof {
            lemma_small_mod(i as nat, 4);
        }
        Point::new(n.x - c.x, n.y - c.y)
    }
}

/// A figure-eight.  Each call returns the difference between two
/// consecutive samples of the Lissajous curve, computed afresh from the
/// step index.
pub struct InfinityTrajectory {
    size: i64,
    steps: usize,
    current_step: usize,
}

impl InfinityTrajectory {
    pub fn new(size: i64) -> (t: InfinityTrajectory)
        requires
            0 < size <= MAX_SIZE,
        ensures
            t.wf(),
            t.index() == 0,
            t.points() == infinity_points(size as int),
    {
        InfinityTrajectory { size, steps: 36, current_step: 0 }
    }
}

impl Trajectory for InfinityTrajectory {
    closed spec fn wf(&self) -> bool {
        valid_size(self.size as int) && self.steps == 36 && self.current_step < 36
    }

    closed spec fn points(&self) -> Seq<(int, int)> {
        infinity_points(self.size as int)
    }

    closed spec fn index(&self) -> int {
        self.current_step as int
    }

    proof fn wf_facts(&self) {
        assert forall|j: int| 0 <= j < 36 implies coord_bounded(
            #[trigger] infinity_points(self.size as int)[j].0,
        ) && coord_bounded(infinity_points(self.size as int)[j].1) by {
            assert(coord_bounded(self.size as int * sin_half(j)) && coord_bounded(
                self.size as int * sin_double_quarter(j),
            )) by (nonlinear_arith)
                requires
                    0 < self.size as int <= 1000000,
                    -500000 <= sin_half(j) <= 500000,
                    -250000 <= sin_double_quarter(j) <= 250000,
            ;
        }
    }

    fn next(&mut self) -> (p: Point) {
        let k: usize = self.current_step;
        let k1: usize = (k + 1) % self.steps;
        let x0: i64 = scale(self.size, sin_half_val(k));
        let y0: i64 = scale(self.size, sin_double_quarter_val(k));
        let x1: i64 = scale(self.size, sin_half_val(k1));
        let y1: i64 = scale(self.size, sin_double_quarter_val(k1));
        self.current_step = k1;
        proof {
            lemma_small_mod(k as nat, 36);
        }
        Point::new(x1 - x0, y1 - y0)
    }
}

/// The pattern selector: which of the five shapes a run traces.
#[derive(Clone, Copy, Debug, PartialEq, Eq, Structural)]
pub enum TrajectoryType {
    Linear,
    Circle,
    Star,
    Square,
    Infinity,
}

/// The polygon that a generator of the given pattern and size traces.
pub open spec fn type_points(trajectory_type: TrajectoryType, size: int) -> Seq<(int, int)> {
    match trajectory_type {
        TrajectoryType::Linear => linear_points(size),
        TrajectoryType::Circle => circle_points(size),
        TrajectoryType::Star => star_points(size),
        TrajectoryType::Square => square_points(size),
        TrajectoryType::Infinity => infinity_points(size),
    }
}

/// A generator of any of the five patterns, selected at construction.
pub enum AnyTrajectory {
    Linear(LinearTrajectory),
    Circle(CircleTrajectory),
    Star(StarTrajectory),
    Square(SquareTrajectory),
    Infinity(InfinityTrajectory),
}

impl Trajectory for AnyTrajectory {
    closed spec fn wf(&self) -> bool {
        match self {
            AnyTrajectory::Linear(t) => t.wf(),
            AnyTrajectory::Circle(t) => t.wf(),
            AnyTrajectory::Star(t) => t.wf(),
            AnyTrajectory::Square(t) => t.wf(),
            AnyTrajectory::Infinity(t) => t.wf(),
        }
    }

    closed spec fn points(&self) -> Seq<(int, int)> {
        match self {
            AnyTrajectory::Linear(t) => t.points(),
            AnyTrajectory::Circle(t) => t.points(),
            AnyTrajectory::Star(t) => t.points(),
            AnyTrajectory::Square(t) => t.points(),
            AnyTrajectory::Infinity(t) => t.points(),
        }
    }

    closed spec fn index(&self) -> int {
        match self {
            AnyTrajectory::Linear(t) => t.index(),
            AnyTrajectory::Circle(t) => t.index(),
            AnyTrajectory::Star(t) => t.index(),
            AnyTrajectory::Square(t) => t.index(),
            AnyTrajectory::Infinity(t) => t.index(),
        }
    }

    proof fn wf_facts(&self) {
        match self {
            AnyTrajectory::Linear(t) => t.wf_facts(),
            AnyTrajectory::Circle(t) => t.wf_facts(),
            AnyTrajectory::Star(t) => t.wf_facts(),
            AnyTrajectory::Square(t) => t.wf_facts(),
            AnyTrajectory::Infinity(t) => t.wf_facts(),
        }
    }

    fn next(&mut self) -> (p: Point) {
        match self {
            AnyTrajectory::Linear(t) => t.next(),
            AnyTrajectory::Circle(t) => t.next(),
            AnyTrajectory::Star(t) => t.next(),
            AnyTrajectory::Square(t) => t.next(),
            AnyTrajectory::Infinity(t) => t.next(),
        }
    }
}

/// Build the generator for a pattern selector and size.  The generator
/// starts at phase zero and will trace the selected shape's polygon.
pub fn create_trajectory(trajectory_type: TrajectoryType, size: i64) -> (t: AnyTrajectory)
    requires
        0 < size <= MAX_SIZE,
    ensures
        t.wf(),
        t.index() == 0,
        t.points() == type_points(trajectory_type, size as int),
{
    match trajectory_type {
        TrajectoryType::Linear => AnyTrajectory::Linear(LinearTrajectory::new(size)),
        TrajectoryType::Circle => AnyTrajectory::Circle(CircleTrajectory::new(size)),
        TrajectoryType::Star => AnyTrajectory::Star(StarTrajectory::new(size)),
        TrajectoryType::Square => AnyTrajectory::Square(SquareTrajectory::new(size)),
        TrajectoryType::Infinity => AnyTrajectory::Infinity(InfinityTrajectory::new(size)),
    }
}

/// The line alternates between a displacement of half the size rightwards
/// and its exact negation, repeating with period two: the values are
/// re-derived on every call, so no error ever accumulates.
pub proof fn lemma_linear_alternates(size: int, k: int)
    requires
        valid_size(size),
        0 <= k,
    ensures
        poly_delta(linear_points(size), k) == (if k % 2 == 0 {
            (size * HALF_PIXEL as int, 0int)
        } else {
            (-(size * HALF_PIXEL as int), 0int)
        }),
{
    let pts = linear_points(size);
    assert(pts[0] == (0int, 0int));
    assert(pts[1] == (size * HALF_PIXEL as int, 0int));
    lemma_mod_division_less_than_divisor(k, 2);
    lemma_add_mod_noop_right(1, k, 2);
    if k % 2 == 0 {
        assert((0int + 1) % 2 == 1);
    } else {
        assert((1int + 1) % 2 == 0);
    }
}

/// The circle's displacement sequence repeats exactly with period 36.
pub proof fn lemma_circle_periodic(size: int, k: int)
    requires
        0 <= k,
    ensures
        poly_delta(circle_points(size), k + 36) == poly_delta(circle_points(size), k),
{
    assert(circle_points(size).len() == 36);
    lemma_poly_periodic(circle_points(size), k);
}

/// The circle closes: one period of displacements sums to zero.
pub proof fn lemma_circle_closed(size: int)
    ensures
        poly_pos(circle_points(size), 36) == (0int, 0int),
{
    assert(circle_points(size).len() == 36);
    lemma_poly_closed(circle_points(size));
}

/// The squared chord length of circle step `k`, per squared pixel of size.
spec fn circle_chord_sq(k: int) -> int {
    let k1 = if k == 35 {
        0int
    } else {
        k + 1
    };
    (cos_half(k1) - cos_half(k)) * (cos_half(k1) - cos_half(k)) + (sin_half(k1) - sin_half(k)) * (
    sin_half(k1) - sin_half(k))
}

/// All 36 chords of the sampled circle have nearly the same length: their
/// squared lengths lie in a band whose ends differ by a fraction of a
/// percent.
proof fn lemma_circle_chord_sq_bounds(k: int)
    requires
        0 <= k < 36,
    ensures
        7596020768 <= circle_chord_sq(k) <= 7596203317,
{
    if k == 0 {
        assert(circle_chord_sq(0) == 7596106192) by (nonlinear_arith);
    } else if k == 1 {
        assert(circle_chord_sq(1) == 7596145960) by (nonlinear_arith);
    } else if k == 2 {
        assert(circle_chord_sq(2) == 7596089989) by (nonlinear_arith);
    } else if k == 3 {
        assert(circle_chord_sq(3) == 7596203317) by (nonlinear_arith);
    } else if k == 4 {
        assert(circle_chord_sq(4) == 7596020768) by (nonlinear_arith);
    } else if k == 5 {
        assert(circle_chord_sq(5) == 7596203317) by (nonlinear_arith);
    } else if k == 6 {
        assert(circle_chord_sq(6) == 7596089989) by (nonlinear_arith);
    } else if k == 7 {
        assert(circle_chord_sq(7) == 7596145960) by (nonlinear_arith);
    } else if k == 8 {
        assert(circle_chord_sq(8) == 7596106192) by (nonlinear_arith);
    } else if k == 9 {
        assert(circle_chord_sq(9) == 7596106192) by (nonlinear_arith);
    } else if k == 10 {
        assert(circle_chord_sq(10) == 7596145960) by (nonlinear_arith);
    } else if k == 11 {
        assert(circle_chord_sq(11) == 7596089989) by (nonlinear_arith);
    } else if k == 12 {
        assert(circle_chord_sq(12) == 7596203317) by (nonlinear_arith);
    } else if k == 13 {
        assert(circle_chord_sq(13) == 7596020768) by (nonlinear_arith);
    } else if k == 14 {
        assert(circle_chord_sq(14) == 7596203317) by (nonlinear_arith);
    } else if k == 15 {
        assert(circle_chord_sq(15) == 7596089989) by (nonlinear_arith);
    } else if k == 16 {
        assert(circle_chord_sq(16) == 7596145960) by (nonlinear_arith);
    } else if k == 17 {
        assert(circle_chord_sq(17) == 7596106192) by (nonlinear_arith);
    } else if k == 18 {
        assert(circle_chord_sq(18) == 7596106192) by (nonlinear_arith);
    } else if k == 19 {
        assert(circle_chord_sq(19) == 7596145960) by (nonlinear_arith);
    } else if k == 20 {
        assert(circle_chord_sq(20) == 7596089989) by (nonlinear_arith);
    } else if k == 21 {
        assert(circle_chord_sq(21) == 7596203317) by (nonlinear_arith);
    } else if k == 22 {
        assert(circle_chord_sq(22) == 7596020768) by (nonlinear_arith);
    } else if k == 23 {
        assert(circle_chord_sq(23) == 7596203317) by (nonlinear_arith);
    } else if k == 24 {
        assert(circle_chord_sq(24) == 7596089989) by (nonlinear_arith);
    } else if k == 25 {
        assert(circle_chord_sq(25) == 7596145960) by (nonlinear_arith);
    } else if k == 26 {
        assert(circle_chord_sq(26) == 7596106192) by (nonlinear_arith);
    } else if k == 27 {
        assert(circle_chord_sq(27) == 7596106192) by (nonlinear_arith);
    } else if k == 28 {
        assert(circle_chord_sq(28) == 7596145960) by (nonlinear_arith);
    } else if k == 29 {
        assert(circle_chord_sq(29) == 7596089989) by (nonlinear_arith);
    } else if k == 30 {
        assert(circle_chord_sq(30) == 7596203317) by (nonlinear_arith);
    } else if k == 31 {
        assert(circle_chord_sq(31) == 7596020768) by (nonlinear_arith);
    } else if k == 32 {
        assert(circle_chord_sq(32) == 7596203317) by (nonlinear_arith);
    } else if k == 33 {
        assert(circle_chord_sq(33) == 7596089989) by (nonlinear_arith);
    } else if k == 34 {
        assert(circle_chord_sq(34) == 7596145960) by (nonlinear_arith);
    } else if k == 35 {
        assert(circle_chord_sq(35) == 7596106192) by (nonlinear_arith);
    }
}

/// The squared magnitude of every circle displacement is the squared size
/// times the squared chord constant of its step.
proof fn lemma_circle_chord_scaled(size: int, j: int)
    requires
        valid_size(size),
        0 <= j,
    ensures
        mag_sq(poly_delta(circle_points(size), j)) == size * size * circle_chord_sq(j % 36),
{
    let pts = circle_points(size);
    assert(pts.len() == 36);
    lemma_poly_delta_mod(pts, j);
    let jj = j % 36;
    lemma_mod_division_less_than_divisor(j, 36);
    let jj1 = if jj == 35 {
        0int
    } else {
        jj + 1
    };
    if jj == 35 {
        lemma_mod_self_0(36);
    } else {
        lemma_small_mod((jj + 1) as nat, 36);
    }
    assert((jj + 1) % 36 == jj1);
    lemma_small_mod(jj as nat, 36);
    let c0 = cos_half(jj);
    let s0 = sin_half(jj);
    let c1 = cos_half(jj1);
    let s1 = sin_half(jj1);
    assert(poly_delta(pts, jj) == (size * c1 - size * c0, size * s1 - size * s0));
    assert((size * c1 - size * c0) * (size * c1 - size * c0) + (size * s1 - size * s0) * (size * s1
        - size * s0) == size * size * ((c1 - c0) * (c1 - c0) + (s1 - s0) * (s1 - s0)))
        by (nonlinear_arith);
}

/// Circle uniformity: any two displacements of the circle pattern have
/// magnitudes within ten percent of one another (stated on squared
/// magnitudes: a ratio of 1.1 squared is 1.21), for every size.
pub proof fn lemma_circle_chords_uniform(size: int, j: int, k: int)
    requires
        valid_size(size),
        0 <= j,
        0 <= k,
    ensures
        100 * mag_sq(poly_delta(circle_points(size), j)) < 121 * mag_sq(
            poly_delta(circle_points(size), k),
        ),
{
    lemma_circle_chord_scaled(size, j);
    lemma_circle_chord_scaled(size, k);
    lemma_mod_division_less_than_divisor(j, 36);
    lemma_mod_division_less_than_divisor(k, 36);
    lemma_circle_chord_sq_bounds(j % 36);
    lemma_circle_chord_sq_bounds(k % 36);
    let x = circle_chord_sq(j % 36);
    let y = circle_chord_sq(k % 36);
    assert(100 * (size * size * x) < 121 * (size * size * y)) by (nonlinear_arith)
        requires
            1 <= size,
            7596020768 <= x <= 7596203317,
            7596020768 <= y <= 7596203317,
    ;
}

/// The star's displacement sequence repeats exactly with period 10.
pub proof fn lemma_star_periodic(size: int, k: int)
    requires
        0 <= k,
    ensures
        poly_delta(star_points(size), k + 10) == poly_delta(star_points(size), k),
{
    assert(star_points(size).len() == 10);
    lemma_poly_periodic(star_points(size), k);
}

/// The star closes: its 10 displacements sum to exactly zero, so the
/// accumulated position returns to its starting value each period.
pub proof fn lemma_star_closed(size: int)
    ensures
        poly_pos(star_points(size), 10) == (0int, 0int),
{
    assert(star_points(size).len() == 10);
    lemma_poly_closed(star_points(size));
}

/// The squared radius of star vertex `k`, per squared pixel of size.
spec fn star_radius_sq(k: int) -> int {
    star_x(k) * star_x(k) + star_y(k) * star_y(k)
}

/// Star vertices alternate between the outer and the inner radius.
proof fn lemma_star_radius_sq_bounds(k: int)
    requires
        0 <= k < 10,
    ensures
        k % 2 == 0 ==> 249999600848 <= star_radius_sq(k) <= 250000000000,
        k % 2 == 1 ==> 39999835330 <= star_radius_sq(k) <= 40000000000,
{
}

/// The star's outer vertices lie at more than twice the radial distance of
/// its inner vertices (stated on squared distances from the shape's
/// center), for every size.
pub proof fn lemma_star_radii_alternate(size: int, i: int, j: int)
    requires
        valid_size(size),
        0 <= i < 10,
        i % 2 == 0,
        0 <= j < 10,
        j % 2 == 1,
    ensures
        mag_sq(star_points(size)[i]) > 4 * mag_sq(star_points(size)[j]),
{
    lemma_star_radius_sq_bounds(i);
    lemma_star_radius_sq_bounds(j);
    let xi = star_x(i);
    let yi = star_y(i);
    let xj = star_x(j);
    let yj = star_y(j);
    assert(star_points(size)[i] == (size * xi, size * yi));
    assert(star_points(size)[j] == (size * xj, size * yj));
    assert((size * xi) * (size * xi) + (size * yi) * (size * yi) == size * size * (xi * xi + yi
        * yi)) by (nonlinear_arith);
    assert((size * xj) * (size * xj) + (size * yj) * (size * yj) == size * size * (xj * xj + yj
        * yj)) by (nonlinear_arith);
    let ci = xi * xi + yi * yi;
    let cj = xj * xj + yj * yj;
    assert(size * size * ci > 4 * (size * size * cj)) by (nonlinear_arith)
        requires
            1 <= size,
            249999600848 <= ci,
            0 <= cj <= 40000000000,
    ;
}

/// The square's four displacements are exactly the four axis-aligned edges
/// of length `size`, in a fixed cyclic order, repeating without drift.
pub proof fn lemma_square_deltas(size: int, k: int)
    requires
        valid_size(size),
        0 <= k,
    ensures
        poly_delta(square_points(size), k) == (if k % 4 == 0 {
            (-(size * PIXEL as int), 0int)
        } else if k % 4 == 1 {
            (0int, -(size * PIXEL as int))
        } else if k % 4 == 2 {
            (size * PIXEL as int, 0int)
        } else {
            (0int, size * PIXEL as int)
        }),
{
    let pts = square_points(size);
    let h = size * HALF_PIXEL as int;
    assert(pts[0] == (h, h));
    assert(pts[1] == (-h, h));
    assert(pts[2] == (-h, -h));
    assert(pts[3] == (h, -h));
    lemma_mod_division_less_than_divisor(k, 4);
    lemma_add_mod_noop_right(1, k, 4);
    let r = k % 4;
    if r == 3 {
        assert((3int + 1) % 4 == 0);
    } else {
        lemma_small_mod((r + 1) as nat, 4);
    }
}

/// The figure-eight's displacement sequence repeats exactly with period 36.
pub proof fn lemma_infinity_periodic(size: int, k: int)
    requires
        0 <= k,
    ensures
        poly_delta(infinity_points(size), k + 36) == poly_delta(infinity_points(size), k),
{
    assert(infinity_points(size).len() == 36);
    lemma_poly_periodic(infinity_points(size), k);
}

/// Over one period the figure-eight's accumulated x-position swings out to
/// exactly half the size on each side, and returns to exactly zero at the
/// half and at the end of the period, so it crosses the center at least
/// twice per cycle.
pub proof fn lemma_infinity_x_oscillates(size: int)
    requires
        valid_size(size),
    ensures
        poly_pos(infinity_points(size), 9).0 == size * HALF_PIXEL as int,
        poly_pos(infinity_points(size), 18).0 == 0,
        poly_pos(infinity_points(size), 27).0 == -(size * HALF_PIXEL as int),
        poly_pos(infinity_points(size), 36) == (0int, 0int),
{
    let pts = infinity_points(size);
    assert(pts.len() == 36);
    lemma_poly_pos(pts, 9);
    lemma_poly_pos(pts, 18);
    lemma_poly_pos(pts, 27);
    lemma_poly_closed(pts);
    lemma_small_mod(9, 36);
    lemma_small_mod(18, 36);
    lemma_small_mod(27, 36);
    assert(sin_half(0) == 0 && sin_half(9) == 500000 && sin_half(18) == 0 && sin_half(27)
        == -500000);
}




} // verus!
