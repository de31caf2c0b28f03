//! The anchor bolts: where they stand, and the hole and the cross mark that
//! are drawn at each of them.

use crate::input::{AnchorBoltModel, SteelColumnDrawing};
use crate::number::{
    combine_fits, halved, lemma_combine_well_formed, thousandths, Ratio, Rational, SCALE,
};
use crate::output_util::{
    all_well_formed, circle_model, cross_model, write_circle, write_cross, DrawingError,
    EntityModel, PointModel, Sheet,
};
use vstd::prelude::*;

verus! {

/// The number of equal steps that `n` bolts divide a span into. A single
/// bolt makes no step; it counts as one, so that nothing is divided by zero.
pub open spec fn steps(n: nat) -> int {
    if n <= 1 {
        1
    } else {
        n - 1
    }
}

/// The step between neighbours when `n` bolts are spread over the span of
/// `j` thousandths: `j / (n - 1)`, and zero for a single bolt.
pub open spec fn pitch(n: nat, j: int) -> Rational {
    if n <= 1 {
        Rational::whole(0)
    } else {
        thousandths(j).shared(n - 1)
    }
}

/// Where bolt `i` of `n` stands along a span of `j` thousandths centred on
/// the origin, over the common denominator of the start `-j / 2` and the
/// steps.
pub open spec fn grid_offset(i: int, n: nat, j: int) -> Rational {
    Rational { num: (2 * i - steps(n)) * j, den: 2000 * steps(n) }
}

/// Coordinate `k` of the grid. The first `2 * nx` coordinates run along the
/// y axis in pairs, at `x = -jx / 2` and at `x = jx / 2`; the `2 * ny` that
/// follow run along the x axis in pairs, at `y = -jy / 2` and at
/// `y = jy / 2`.
pub open spec fn bolt_at(b: AnchorBoltModel, k: int) -> PointModel {
    if k < 2 * b.nx {
        PointModel {
            x: halved(
                if k % 2 == 0 {
                    -b.jx
                } else {
                    b.jx
                },
            ),
            y: grid_offset(k / 2, b.nx, b.jy),
        }
    } else {
        let m = k - 2 * b.nx;
        PointModel {
            x: grid_offset(m / 2, b.ny, b.jx),
            y: halved(
                if m % 2 == 0 {
                    -b.jy
                } else {
                    b.jy
                },
            ),
        }
    }
}

/// All the coordinates of the grid, in the order they are drawn. The corner
/// bolts occur twice, once for each axis.
pub open spec fn bolt_grid(b: AnchorBoltModel) -> Seq<PointModel> {
    Seq::new(2 * b.nx + 2 * b.ny, |k: int| bolt_at(b, k))
}

/// The radius of the hole drawn for a bolt of diameter `d` thousandths:
/// `(d + 5) / 2`.
pub open spec fn hole_radius(d: int) -> Rational {
    thousandths(d).plus(Rational::whole(5)).shared(2)
}

/// The half-length of the cross drawn at a bolt: the hole radius plus one.
pub open spec fn mark_reach(d: int) -> Rational {
    hole_radius(d).plus(Rational::whole(1))
}

/// What is drawn at one bolt: the hole on the plate layer, and the cross
/// mark on the bolt layer.
pub open spec fn bolt_mark(
    c: PointModel,
    d: int,
    plate_layer: Seq<char>,
    bolt_layer: Seq<char>,
) -> Seq<EntityModel> {
    seq![circle_model(c.x, c.y, hole_radius(d), plate_layer)] + cross_model(
        c.x,
        c.y,
        mark_reach(d),
        bolt_layer,
    )
}

/// What is drawn at a list of bolts: the mark of each, three primitives a
/// bolt, in the order of the list.
#[verifier::opaque]
pub open spec fn bolt_marks(
    coords: Seq<PointModel>,
    d: int,
    plate_layer: Seq<char>,
    bolt_layer: Seq<char>,
) -> Seq<EntityModel> {
    Seq::new(
        3 * coords.len(),
        |k: int| bolt_mark(coords[k / 3], d, plate_layer, bolt_layer)[k % 3],
    )
}

/// The points that a list of coordinate pairs holds.
pub open spec fn points_of(coords: Seq<(Ratio, Ratio)>) -> Seq<PointModel> {
    coords.map_values(|c: (Ratio, Ratio)| PointModel { x: c.0@, y: c.1@ })
}

/// The numbers in `b` are those of machine counts and lengths.
pub open spec fn in_machine_range(b: AnchorBoltModel) -> bool {
    &&& b.nx <= u32::MAX
    &&& b.ny <= u32::MAX
    &&& i32::MIN <= b.jx <= i32::MAX
    &&& i32::MIN <= b.jy <= i32::MAX
    &&& i32::MIN <= b.d <= i32::MAX
}

/// A bound that every numerator and denominator of the grid keeps.
pub open spec fn within_grid_bound(r: Rational) -> bool {
    -0x1_0000_0000_0000_0000 <= r.num <= 0x1_0000_0000_0000_0000 && 0 < r.den
        <= 0x1000_0000_0000
}

/// The product of a count below 2^33 and a length below 2^31 stays below
/// 2^64.
proof fn lemma_product_bound(a: int, j: int)
    requires
        -0x2_0000_0000 <= a <= 0x2_0000_0000,
        -0x8000_0000 <= j <= 0x8000_0000,
    ensures
        -0x1_0000_0000_0000_0000 <= a * j <= 0x1_0000_0000_0000_0000,
{
    assert(-0x1_0000_0000_0000_0000 <= a * j <= 0x1_0000_0000_0000_0000) by (nonlinear_arith)
        requires
            -0x2_0000_0000 <= a <= 0x2_0000_0000,
            -0x8000_0000 <= j <= 0x8000_0000,
    ;
}

/// Every coordinate of the grid has a positive denominator, and its
/// numerators and denominators stay far inside the machine integers.
pub proof fn lemma_bolt_at_bounded(b: AnchorBoltModel, k: int)
    requires
        in_machine_range(b),
        0 <= k < 2 * b.nx + 2 * b.ny,
    ensures
        within_grid_bound(bolt_at(b, k).x),
        within_grid_bound(bolt_at(b, k).y),
{
    if k < 2 * b.nx {
        lemma_product_bound(2 * (k / 2) - steps(b.nx), b.jy);
    } else {
        let m = k - 2 * b.nx;
        lemma_product_bound(2 * (m / 2) - steps(b.ny), b.jx);
    }
}

/// Each bolt stands at the start `-j / 2` plus its index times the pitch.
pub proof fn lemma_grid_offset_is_start_plus_steps(i: int, n: nat, j: int)
    requires
        0 <= i < n,
    ensures
        grid_offset(i, n, j).same(halved(-j).plus(pitch(n, j).scaled(i))),
{
    let s = steps(n);
    let a = grid_offset(i, n, j);
    let b = halved(-j).plus(pitch(n, j).scaled(i));
    if n <= 1 {
        assert(i == 0);
        assert(a.num == -j) by (nonlinear_arith)
            requires
                a.num == (2 * i - s) * j,
                i == 0,
                s == 1,
        ;
        assert(b.num == -j && b.den == 2000) by (nonlinear_arith)
            requires
                b.num == (-j) * 1 + (i * 0) * (1000 * 2),
                b.den == (1000 * 2) * 1,
        ;
    } else {
        assert(a.num * b.den == b.num * a.den) by (nonlinear_arith)
            requires
                a.num == (2 * i - s) * j,
                a.den == 2000 * s,
                b.num == (-j) * (1000 * s) + (i * j) * (1000 * 2),
                b.den == (1000 * 2) * (1000 * s),
        ;
    }
}

/// Whether `p` and `q` are the same place, however their coordinates are
/// written.
pub open spec fn same_point(p: PointModel, q: PointModel) -> bool {
    p.x.same(q.x) && p.y.same(q.y)
}

/// The first and the last bolt along a span stand at its two ends,
/// `-j / 2` and `j / 2`.
pub proof fn lemma_grid_ends(n: nat, j: int)
    requires
        n >= 2,
    ensures
        grid_offset(0, n, j).same(halved(-j)),
        grid_offset(n - 1, n, j).same(halved(j)),
{
    let s = steps(n);
    let first = grid_offset(0, n, j);
    let last = grid_offset(n - 1, n, j);
    assert(first.num * 2000 == (-j) * first.den) by (nonlinear_arith)
        requires
            first.num == (2 * 0 - s) * j,
            first.den == 2000 * s,
    ;
    assert(last.num * 2000 == j * last.den) by (nonlinear_arith)
        requires
            last.num == (2 * (n - 1) - s) * j,
            last.den == 2000 * s,
            s == n - 1,
    ;
}

/// With two or more bolts along each axis, each of the four corners of the
/// grid is in the list twice: once in the run along the y axis, once in
/// the run along the x axis.
pub proof fn lemma_corners_occur_twice(b: AnchorBoltModel)
    requires
        b.nx >= 2,
        b.ny >= 2,
    ensures
        ({
            let grid = bolt_grid(b);
            let first_x: int = 2 * (b.nx as int);
            let last_y: int = first_x - 2;
            let last_x: int = first_x + 2 * (b.ny - 1);
            &&& same_point(grid[0], grid[first_x])
            &&& same_point(grid[1], grid[last_x])
            &&& same_point(grid[last_y], grid[first_x + 1])
            &&& same_point(grid[last_y + 1], grid[last_x + 1])
        }),
{
    lemma_grid_ends(b.nx, b.jy);
    lemma_grid_ends(b.ny, b.jx);
    assert((2 * (b.nx - 1)) / 2 == b.nx - 1 && (2 * (b.nx - 1) + 1) / 2 == b.nx - 1);
    assert((2 * (b.ny - 1)) / 2 == b.ny - 1 && (2 * (b.ny - 1) + 1) / 2 == b.ny - 1);
}

/// A single bolt along an axis stands at the start of its span, `-j / 2`:
/// the pitch has collapsed to zero. It stands on the centre line exactly
/// when the span `j` is zero.
pub proof fn lemma_single_bolt(n: nat, j: int)
    requires
        n == 1,
    ensures
        grid_offset(0, n, j) == halved(-j),
        pitch(n, j) == Rational::whole(0),
        grid_offset(0, n, j).num == 0 <==> j == 0,
{
    assert((2 * 0 - 1) * j == -j) by (nonlinear_arith);
}

/// With one bolt along the y axis and a span `jy` of zero, every coordinate
/// of that axis has `y == 0`.
pub proof fn lemma_single_row_on_axis(b: AnchorBoltModel)
    requires
        b.nx == 1,
        b.jy == 0,
    ensures
        forall|k: int| 0 <= k < 2 * b.nx ==> (#[trigger] bolt_grid(b)[k]).y.num == 0,
{
    assert forall|k: int| 0 <= k < 2 * b.nx implies (#[trigger] bolt_grid(b)[k]).y.num == 0 by {
        assert(k / 2 == 0);
        lemma_single_bolt(b.nx, b.jy);
    }
}

/// With one bolt along the x axis and a span `jx` of zero, every coordinate
/// of that axis has `x == 0`.
pub proof fn lemma_single_column_on_axis(b: AnchorBoltModel)
    requires
        b.ny == 1,
        b.jx == 0,
    ensures
        forall|k: int|
            2 * b.nx <= k < 2 * b.nx + 2 * b.ny ==> (#[trigger] bolt_grid(b)[k]).x.num == 0,
{
    assert forall|k: int| 2 * b.nx <= k < 2 * b.nx + 2 * b.ny implies (#[trigger] bolt_grid(
        b,
    )[k]).x.num == 0 by {
        assert((k - 2 * b.nx) / 2 == 0);
        lemma_single_bolt(b.ny, b.jx);
    }
}

/// Where bolt `i` of `n` stands along a span of `j` thousandths.
fn offset(i: u32, n: u32, j: i32) -> (r: Ratio)
    requires
        i < n,
    ensures
        r@ == grid_offset(i as int, n as nat, j as int),
{
    let s: i128 = if n == 1 {
        1
    } else {
        (n - 1) as i128
    };
    let a: i128 = 2 * (i as i128) - s;
    proof {
        lemma_product_bound(a as int, j as int);
    }
    Ratio { num: a * (j as i128), den: 2000 * s }
}

/// The coordinates of the anchor bolts: `2 * nx + 2 * ny` of them, in the
/// order of `bolt_grid`.
pub fn get_bolt_coords(input: &SteelColumnDrawing) -> (coords: Vec<(Ratio, Ratio)>)
    ensures
        points_of(coords@) == bolt_grid(input@.anchor_bolt),
        coords.len() == 2 * input.anchor_bolt.nx + 2 * input.anchor_bolt.ny,
        input.anchor_bolt.nx == 1 ==> forall|k: int|
            0 <= k < 2 ==> (#[trigger] coords[k]).1@ == halved(-input@.anchor_bolt.jy),
        input.anchor_bolt.ny == 1 ==> forall|k: int|
            2 * input.anchor_bolt.nx <= k < coords.len() ==> (#[trigger] coords[k]).0@ == halved(
                -input@.anchor_bolt.jx,
            ),
        input.anchor_bolt.nx == 1 && input@.anchor_bolt.jy == 0 ==> forall|k: int|
            0 <= k < 2 ==> (#[trigger] coords[k]).1.num == 0,
        input.anchor_bolt.ny == 1 && input@.anchor_bolt.jx == 0 ==> forall|k: int|
            2 * input.anchor_bolt.nx <= k < coords.len() ==> (#[trigger] coords[k]).0.num == 0,
{
    let mut coords: Vec<(Ratio, Ratio)> = Vec::new();

    let nx: u32 = input.anchor_bolt.nx;
    let ny: u32 = input.anchor_bolt.ny;
    let jx: i32 = input.anchor_bolt.jx.thousandths;
    let jy: i32 = input.anchor_bolt.jy.thousandths;
    let ghost b = input@.anchor_bolt;

    for i in 0..nx
        invariant
            b == input@.anchor_bolt,
            nx == b.nx,
            jx == b.jx,
            jy == b.jy,
            coords.len() == 2 * i,
            points_of(coords@) =~= Seq::new((2 * i) as nat, |k: int| bolt_at(b, k)),
    {
        let ghost before = points_of(coords@);
        let y = offset(i, nx, jy);
        coords.push((Ratio::half(-(jx as i128)), y));
        coords.push((Ratio::half(jx as i128), y));
        proof {
            let after = points_of(coords@);
            assert forall|k: int| 0 <= k < 2 * i + 2 implies after[k] == bolt_at(b, k) by {
                if k < 2 * i {
                    assert(after[k] == before[k]);
                } else {
                    assert(k / 2 == i);
                }
            }
        }
    }

    for i in 0..ny
        invariant
            b == input@.anchor_bolt,
            nx == b.nx,
            ny == b.ny,
            jx == b.jx,
            jy == b.jy,
            coords.len() == 2 * nx + 2 * i,
            points_of(coords@) =~= Seq::new((2 * nx + 2 * i) as nat, |k: int| bolt_at(b, k)),
    {
        let ghost before = points_of(coords@);
        let x = offset(i, ny, jx);
        coords.push((x, Ratio::half(-(jy as i128))));
        coords.push((x, Ratio::half(jy as i128)));
        proof {
            let after = points_of(coords@);
            assert forall|k: int| 0 <= k < 2 * nx + 2 * i + 2 implies after[k] == bolt_at(b, k) by {
                if k < 2 * nx + 2 * i {
                    assert(after[k] == before[k]);
                } else {
                    assert((k - 2 * nx) / 2 == i);
                }
            }
        }
    }

    proof {
        assert forall|k: int| 0 <= k < coords.len() implies PointModel {
            x: (#[trigger] coords[k]).0@,
            y: coords[k].1@,
        } == bolt_at(b, k) by {
            assert(points_of(coords@)[k] == bolt_at(b, k));
        }
        if nx == 1 {
            lemma_single_bolt(b.nx, b.jy);
            assert forall|k: int| 0 <= k < 2 implies (#[trigger] coords[k]).1@ == halved(
                -b.jy,
            ) by {
                assert(k / 2 == 0);
            }
        }
        if ny == 1 {
            lemma_single_bolt(b.ny, b.jx);
            assert forall|k: int| 2 * nx <= k < coords.len() implies (#[trigger] coords[k]).0@
                == halved(-b.jx) by {
                assert((k - 2 * nx) / 2 == 0);
            }
        }
    }
    coords
}

/// The hole radius and the reach of the cross over the common denominator
/// of all halves: `(d + 5) / 2` and `(d + 7) / 2`.
pub proof fn lemma_hole_and_reach(d: int)
    ensures
        hole_radius(d) == halved(d + 5000),
        mark_reach(d) == halved(d + 7000),
{
    let sum = thousandths(d).plus(Rational::whole(5));
    assert(sum.num == d + 5000) by (nonlinear_arith)
        requires
            sum.num == d * 1 + 5 * 1000,
    ;
    assert(sum.den == 1000);
    let hole = hole_radius(d);
    assert(hole.num == d + 5000 && hole.den == 2000);
    let reach = mark_reach(d);
    assert(reach.num == d + 7000) by (nonlinear_arith)
        requires
            reach.num == hole.num * 1 + 1 * hole.den,
            hole.num == d + 5000,
            hole.den == 2000,
    ;
    assert(reach.den == 2000);
}

/// Where the mark of bolt `k` stands among the marks of all the bolts: the
/// hole at `3 * k`, the two strokes of the cross right after it.
pub proof fn lemma_bolt_marks_at(
    coords: Seq<PointModel>,
    k: int,
    d: int,
    plate_layer: Seq<char>,
    bolt_layer: Seq<char>,
)
    requires
        0 <= k < coords.len(),
    ensures
        bolt_marks(coords, d, plate_layer, bolt_layer)[3 * k] == circle_model(
            coords[k].x,
            coords[k].y,
            hole_radius(d),
            plate_layer,
        ),
        bolt_marks(coords, d, plate_layer, bolt_layer).subrange(3 * k + 1, 3 * k + 3)
            == cross_model(coords[k].x, coords[k].y, mark_reach(d), bolt_layer),
{
    reveal(bolt_marks);
    let marks = bolt_marks(coords, d, plate_layer, bolt_layer);
    assert((3 * k) / 3 == k && (3 * k + 1) / 3 == k && (3 * k + 2) / 3 == k);
    assert(marks.subrange(3 * k + 1, 3 * k + 3) =~= cross_model(
        coords[k].x,
        coords[k].y,
        mark_reach(d),
        bolt_layer,
    ));
}

/// Every coordinate of the grid has positive denominators.
pub proof fn lemma_bolt_at_well_formed(b: AnchorBoltModel, k: int)
    ensures
        bolt_at(b, k).wf(),
{
}

/// Every number of the marks of the grid has a positive denominator.
pub proof fn lemma_bolt_marks_well_formed(
    b: AnchorBoltModel,
    plate_layer: Seq<char>,
    bolt_layer: Seq<char>,
)
    ensures
        all_well_formed(bolt_marks(bolt_grid(b), b.d, plate_layer, bolt_layer)),
{
    reveal(bolt_marks);
    let marks = bolt_marks(bolt_grid(b), b.d, plate_layer, bolt_layer);
    assert forall|k: int| 0 <= k < marks.len() implies (#[trigger] marks[k]).wf() by {
        let c = bolt_grid(b)[k / 3];
        lemma_bolt_at_well_formed(b, k / 3);
        lemma_hole_and_reach(b.d);
        lemma_combine_well_formed(c.x, mark_reach(b.d));
        lemma_combine_well_formed(c.y, mark_reach(b.d));
    }
}

/// The cross at a bolt of the grid can always be formed.
proof fn lemma_mark_fits(c: Rational, d: int)
    requires
        within_grid_bound(c),
        i32::MIN <= d <= i32::MAX,
    ensures
        combine_fits(c, mark_reach(d)),
{
    let reach = mark_reach(d);
    lemma_hole_and_reach(d);
    assert(-0x1000_0000_0000_0000_0000 <= reach.num * c.den <= 0x1000_0000_0000_0000_0000)
        by (nonlinear_arith)
        requires
            -0x1_0000_0000 <= reach.num <= 0x1_0000_0000,
            0 < c.den <= 0x1000_0000_0000,
    ;
    assert(c.num * reach.den == 2000 * c.num && c.den * reach.den == 2000 * c.den)
        by (nonlinear_arith)
        requires
            reach.den == 2000,
    ;
}

/// Marks one more bolt: what is drawn at the first `n + 1` bolts is what is
/// drawn at the first `n`, followed by the mark of bolt `n`.
proof fn lemma_bolt_marks_step(
    coords: Seq<PointModel>,
    n: int,
    d: int,
    plate_layer: Seq<char>,
    bolt_layer: Seq<char>,
)
    requires
        0 <= n < coords.len(),
    ensures
        bolt_marks(coords.take(n + 1), d, plate_layer, bolt_layer) == bolt_marks(
            coords.take(n),
            d,
            plate_layer,
            bolt_layer,
        ) + bolt_mark(coords[n], d, plate_layer, bolt_layer),
{
    reveal(bolt_marks);
    let more = bolt_marks(coords.take(n + 1), d, plate_layer, bolt_layer);
    let less = bolt_marks(coords.take(n), d, plate_layer, bolt_layer);
    let mark = bolt_mark(coords[n], d, plate_layer, bolt_layer);
    assert(more.len() == (less + mark).len());
    assert forall|k: int| 0 <= k < more.len() implies more[k] == (less + mark)[k] by {
        if k < 3 * n {
            assert(coords.take(n + 1)[k / 3] == coords.take(n)[k / 3]);
        } else {
            assert(k / 3 == n);
            assert(k % 3 == k - 3 * n);
        }
    }
    assert(more =~= less + mark);
}

/// Appends the marks of all the anchor bolts to the sheet: at each
/// coordinate of the grid, in order, the hole of radius `(d + 5) / 2` on
/// the plate layer, and the cross of half-length one more than that radius
/// on the bolt layer.
#[verifier::rlimit(40)]
pub fn write_anchor_bolts(sheet: &mut Sheet, input: &SteelColumnDrawing) -> (res: Result<
    (),
    DrawingError,
>)
    ensures
        res is Ok,
        final(sheet).document == old(sheet).document,
        final(sheet)@ == old(sheet)@.with_entities(
            bolt_marks(
                bolt_grid(input@.anchor_bolt),
                input@.anchor_bolt.d,
                input@.layer_name.plate,
                input@.layer_name.bolt,
            ),
        ),
        forall|k: int|
            #![trigger bolt_grid(input@.anchor_bolt)[k]]
            0 <= k < bolt_grid(input@.anchor_bolt).len() ==> {
                let at = old(sheet)@.entities.len() + 3 * k;
                let c = bolt_grid(input@.anchor_bolt)[k];
                let radius = thousandths(input@.anchor_bolt.d).plus(Rational::whole(5)).shared(2);
                &&& final(sheet)@.entities[at] == circle_model(
                    c.x,
                    c.y,
                    radius,
                    input@.layer_name.plate,
                )
                &&& final(sheet)@.entities.subrange(at + 1, at + 3) == cross_model(
                    c.x,
                    c.y,
                    radius.plus(Rational::whole(1)),
                    input@.layer_name.bolt,
                )
            },
{
    let d: i128 = input.anchor_bolt.d.thousandths as i128;
    let bolt_layer = input.layer_name.bolt.as_str();
    let plate_layer = input.layer_name.plate.as_str();
    let radius = Ratio::half(d + 5 * SCALE);
    let reach = Ratio::half(d + 5 * SCALE + 2 * SCALE);

    let coords = get_bolt_coords(input);
    let ghost b = input@.anchor_bolt;
    let ghost grid = bolt_grid(b);
    let ghost start = sheet@;
    let ghost plate = input@.layer_name.plate;
    let ghost bolt = input@.layer_name.bolt;
    proof {
        reveal(bolt_marks);
        assert(bolt_marks(grid.take(0), b.d, plate, bolt) =~= Seq::empty());
    }
    proof {
        lemma_hole_and_reach(b.d);
    }

    for i in 0..coords.len()
        invariant
            grid == bolt_grid(b),
            b == input@.anchor_bolt,
            in_machine_range(b),
            points_of(coords@) == grid,
            coords.len() == 2 * b.nx + 2 * b.ny,
            radius@ == hole_radius(b.d),
            reach@ == mark_reach(b.d),
            plate_layer@ == plate,
            bolt_layer@ == bolt,
            sheet.document == old(sheet).document,
            sheet@.entities == start.entities + bolt_marks(grid.take(i as int), b.d, plate, bolt),
    {
        let (x, y) = coords[i];
        proof {
            assert(points_of(coords@)[i as int] == grid[i as int]);
            assert(grid[i as int] == bolt_at(b, i as int));
            assert(x@ == grid[i as int].x && y@ == grid[i as int].y);
            lemma_bolt_at_bounded(b, i as int);
            lemma_mark_fits(x@, b.d);
            lemma_mark_fits(y@, b.d);
            lemma_bolt_marks_step(grid, i as int, b.d, plate, bolt);
        }
        write_circle(sheet, x, y, radius, plate_layer)?;
        write_cross(sheet, x, y, reach, bolt_layer)?;
        assert(sheet@.entities =~= start.entities + bolt_marks(
            grid.take(i as int + 1),
            b.d,
            plate,
            bolt,
        ));
    }
    proof {
        assert(grid.take(coords.len() as int) =~= grid);
        let marks = bolt_marks(grid, b.d, plate, bolt);
        assert forall|k: int| #![trigger grid[k]] 0 <= k < grid.len() implies {
            let at = start.entities.len() + 3 * k;
            &&& sheet@.entities[at] == circle_model(grid[k].x, grid[k].y, hole_radius(b.d), plate)
            &&& sheet@.entities.subrange(at + 1, at + 3) == cross_model(
                grid[k].x,
                grid[k].y,
                mark_reach(b.d),
                bolt,
            )
        } by {
            let at = start.entities.len() + 3 * k;
            lemma_bolt_marks_at(grid, k, b.d, plate, bolt);
            assert(sheet@.entities[at] == marks[3 * k]);
            assert(sheet@.entities.subrange(at + 1, at + 3) =~= marks.subrange(
                3 * k + 1,
                3 * k + 3,
            ));
        }
    }
    Ok(())
}

} // verus!
