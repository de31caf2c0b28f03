//! The outline of the H-section, centred on the origin with the depth `h`
//! along the y axis and the flange width `b` along the x axis.

use crate::input::{HSectionModel, SteelColumnDrawing};
use crate::number::{halved, thousandths, Ratio, Rational};
use crate::output_util::{
    all_well_formed, arc_model, line_model, write_arc, write_line, DrawingError, EntityModel,
    PointModel, ShapeModel, Sheet,
};
use vstd::prelude::*;

verus! {

/// The twelve straight edges of the section: the two outer flange faces,
/// the four flange tips, the four inner flange faces from the tip to where
/// the fillet starts, and the two web faces between the fillets.
pub open spec fn column_lines(s: HSectionModel, layer: Seq<char>) -> Seq<EntityModel> {
    let left = halved(-s.b);
    let right = halved(s.b);
    let top = halved(s.h);
    let bottom = halved(-s.h);
    let face_top = halved(s.h - 2 * s.tf);
    let face_bottom = halved(-s.h + 2 * s.tf);
    let root_left = halved(-s.tw - 2 * s.r);
    let root_right = halved(s.tw + 2 * s.r);
    let web_left = halved(-s.tw);
    let web_right = halved(s.tw);
    let web_top = halved(s.h - 2 * s.tf - 2 * s.r);
    let web_bottom = halved(-s.h + 2 * s.tf + 2 * s.r);
    seq![
        line_model(left, top, right, top, layer),
        line_model(left, bottom, right, bottom, layer),
        line_model(left, face_top, left, top, layer),
        line_model(right, face_top, right, top, layer),
        line_model(left, face_bottom, left, bottom, layer),
        line_model(right, face_bottom, right, bottom, layer),
        line_model(left, face_top, root_left, face_top, layer),
        line_model(right, face_top, root_right, face_top, layer),
        line_model(left, face_bottom, root_left, face_bottom, layer),
        line_model(right, face_bottom, root_right, face_bottom, layer),
        line_model(web_left, web_bottom, web_left, web_top, layer),
        line_model(web_right, web_bottom, web_right, web_top, layer),
    ]
}

/// The four fillets: quarter circles of radius `r` that join each web face
/// to the inner flange face next to it. There are none unless `r > 0`.
pub open spec fn column_fillets(s: HSectionModel, layer: Seq<char>) -> Seq<EntityModel> {
    let root_left = halved(-s.tw - 2 * s.r);
    let root_right = halved(s.tw + 2 * s.r);
    let web_top = halved(s.h - 2 * s.tf - 2 * s.r);
    let web_bottom = halved(-s.h + 2 * s.tf + 2 * s.r);
    let r = thousandths(s.r);
    if s.r > 0 {
        seq![
            arc_model(root_left, web_top, r, Rational::whole(0), Rational::whole(90), layer),
            arc_model(root_right, web_top, r, Rational::whole(90), Rational::whole(180), layer),
            arc_model(root_right, web_bottom, r, Rational::whole(180), Rational::whole(270), layer),
            arc_model(root_left, web_bottom, r, Rational::whole(270), Rational::whole(0), layer),
        ]
    } else {
        Seq::empty()
    }
}

/// The whole outline: the straight edges, followed by the fillets.
pub open spec fn column_outline(s: HSectionModel, layer: Seq<char>) -> Seq<EntityModel> {
    column_lines(s, layer) + column_fillets(s, layer)
}

/// How many of the primitives are arcs.
pub open spec fn arc_count(entities: Seq<EntityModel>) -> nat
    decreases entities.len(),
{
    if entities.len() == 0 {
        0
    } else {
        let rest = arc_count(entities.drop_last());
        if entities.last().shape is Arc {
            rest + 1
        } else {
            rest
        }
    }
}

/// The point `p` reflected in the y axis.
pub open spec fn flip_x(p: PointModel) -> PointModel {
    PointModel { x: p.x.negated(), y: p.y }
}

/// The point `p` reflected in the x axis.
pub open spec fn flip_y(p: PointModel) -> PointModel {
    PointModel { x: p.x, y: p.y.negated() }
}

/// The angle `a`, in degrees, brought into the range from 0 up to 360.
#[verifier::opaque]
pub open spec fn turn(a: Rational) -> Rational {
    Rational { num: a.num % (360 * a.den), den: a.den }
}

/// The primitive `e` reflected in the y axis, `x -> -x`. An arc keeps its
/// counter-clockwise sense, so its two angles change places.
pub open spec fn mirrored_x(e: EntityModel) -> EntityModel {
    let shape = match e.shape {
        ShapeModel::Line { start, end } => ShapeModel::Line {
            start: flip_x(start),
            end: flip_x(end),
        },
        ShapeModel::Circle { center, radius } => ShapeModel::Circle {
            center: flip_x(center),
            radius,
        },
        ShapeModel::Arc { center, radius, start_angle, end_angle } => ShapeModel::Arc {
            center: flip_x(center),
            radius,
            start_angle: turn(Rational::whole(180).minus(end_angle)),
            end_angle: turn(Rational::whole(180).minus(start_angle)),
        },
        ShapeModel::Text { location, text_height, value, horizontal, vertical } => {
            ShapeModel::Text {
                location: flip_x(location),
                text_height,
                value,
                horizontal,
                vertical,
            }
        },
    };
    EntityModel { shape, layer: e.layer }
}

/// The primitive `e` reflected in the x axis, `y -> -y`.
pub open spec fn mirrored_y(e: EntityModel) -> EntityModel {
    let shape = match e.shape {
        ShapeModel::Line { start, end } => ShapeModel::Line {
            start: flip_y(start),
            end: flip_y(end),
        },
        ShapeModel::Circle { center, radius } => ShapeModel::Circle {
            center: flip_y(center),
            radius,
        },
        ShapeModel::Arc { center, radius, start_angle, end_angle } => ShapeModel::Arc {
            center: flip_y(center),
            radius,
            start_angle: turn(end_angle.negated()),
            end_angle: turn(start_angle.negated()),
        },
        ShapeModel::Text { location, text_height, value, horizontal, vertical } => {
            ShapeModel::Text {
                location: flip_y(location),
                text_height,
                value,
                horizontal,
                vertical,
            }
        },
    };
    EntityModel { shape, layer: e.layer }
}

/// Whether `a` and `b` draw the same figure on the same layer: they are
/// equal, or they are one segment with its two ends named in either order.
pub open spec fn same_figure(a: EntityModel, b: EntityModel) -> bool {
    a == b || (a.layer == b.layer && match (a.shape, b.shape) {
        (ShapeModel::Line { start, end }, ShapeModel::Line { start: from, end: to }) => start
            == to && end == from,
        _ => false,
    })
}

/// Whether one of `entities` draws the figure `e`.
#[verifier::opaque]
pub open spec fn draws(entities: Seq<EntityModel>, e: EntityModel) -> bool {
    exists|j: int| 0 <= j < entities.len() && same_figure(#[trigger] entities[j], e)
}

/// Whether the figure is its own mirror image in both axes: the reflection
/// of every primitive, in the y axis and in the x axis, is drawn too.
pub open spec fn symmetric(entities: Seq<EntityModel>) -> bool {
    forall|k: int|
        0 <= k < entities.len() ==> draws(entities, mirrored_x(#[trigger] entities[k])) && draws(
            entities,
            mirrored_y(entities[k]),
        )
}

/// Arcs are counted piece by piece.
pub proof fn lemma_arc_count_concat(a: Seq<EntityModel>, b: Seq<EntityModel>)
    ensures
        arc_count(a + b) == arc_count(a) + arc_count(b),
    decreases b.len(),
{
    if b.len() == 0 {
        assert(a + b =~= a);
    } else {
        assert((a + b).drop_last() =~= a + b.drop_last());
        lemma_arc_count_concat(a, b.drop_last());
    }
}

/// Among primitives that are all arcs, or none of them arcs, the count is
/// the length, or zero.
pub proof fn lemma_arc_count_uniform(entities: Seq<EntityModel>)
    ensures
        (forall|k: int| 0 <= k < entities.len() ==> entities[k].shape is Arc) ==> arc_count(
            entities,
        ) == entities.len(),
        (forall|k: int| 0 <= k < entities.len() ==> !(entities[k].shape is Arc)) ==> arc_count(
            entities,
        ) == 0,
    decreases entities.len(),
{
    if entities.len() > 0 {
        lemma_arc_count_uniform(entities.drop_last());
    }
}

/// The outline of a section holds no arc when the fillet radius is zero or
/// less, and exactly four when it is positive; every arc in it has the
/// fillet radius, and everything else in it is a segment.
pub proof fn lemma_column_fillets(s: HSectionModel, layer: Seq<char>)
    ensures
        arc_count(column_outline(s, layer)) == (if s.r > 0 {
            4nat
        } else {
            0nat
        }),
        forall|k: int|
            0 <= k < column_outline(s, layer).len() ==> match (#[trigger] column_outline(
                s,
                layer,
            )[k]).shape {
                ShapeModel::Arc { radius, .. } => radius == thousandths(s.r),
                ShapeModel::Line { .. } => true,
                _ => false,
            },
{
    lemma_arc_count_concat(column_lines(s, layer), column_fillets(s, layer));
    lemma_arc_count_uniform(column_lines(s, layer));
    lemma_arc_count_uniform(column_fillets(s, layer));
}

/// The straight edges of any section are their own mirror image in both
/// axes.
pub proof fn lemma_column_lines_symmetric(s: HSectionModel, layer: Seq<char>)
    ensures
        symmetric(column_lines(s, layer)),
{
    let o = column_lines(s, layer);
    reveal(draws);
    assert forall|k: int| 0 <= k < o.len() implies draws(o, mirrored_x(#[trigger] o[k])) && draws(
        o,
        mirrored_y(o[k]),
    ) by {
        if k == 0 {
            assert(same_figure(o[0], mirrored_x(o[0])));
            assert(same_figure(o[1], mirrored_y(o[0])));
        } else if k == 1 {
            assert(same_figure(o[1], mirrored_x(o[1])));
            assert(same_figure(o[0], mirrored_y(o[1])));
        } else if k == 2 {
            assert(same_figure(o[3], mirrored_x(o[2])));
            assert(same_figure(o[4], mirrored_y(o[2])));
        } else if k == 3 {
            assert(same_figure(o[2], mirrored_x(o[3])));
            assert(same_figure(o[5], mirrored_y(o[3])));
        } else if k == 4 {
            assert(same_figure(o[5], mirrored_x(o[4])));
            assert(same_figure(o[2], mirrored_y(o[4])));
        } else if k == 5 {
            assert(same_figure(o[4], mirrored_x(o[5])));
            assert(same_figure(o[3], mirrored_y(o[5])));
        } else if k == 6 {
            assert(same_figure(o[7], mirrored_x(o[6])));
            assert(same_figure(o[8], mirrored_y(o[6])));
        } else if k == 7 {
            assert(same_figure(o[6], mirrored_x(o[7])));
            assert(same_figure(o[9], mirrored_y(o[7])));
        } else if k == 8 {
            assert(same_figure(o[9], mirrored_x(o[8])));
            assert(same_figure(o[6], mirrored_y(o[8])));
        } else if k == 9 {
            assert(same_figure(o[8], mirrored_x(o[9])));
            assert(same_figure(o[7], mirrored_y(o[9])));
        } else if k == 10 {
            assert(same_figure(o[11], mirrored_x(o[10])));
            assert(same_figure(o[10], mirrored_y(o[10])));
        } else {
            assert(same_figure(o[10], mirrored_x(o[11])));
            assert(same_figure(o[11], mirrored_y(o[11])));
        }
    }
}

/// Every number of the outline has a positive denominator.
pub proof fn lemma_column_outline_well_formed(s: HSectionModel, layer: Seq<char>)
    ensures
        all_well_formed(column_outline(s, layer)),
{
}

/// Reflecting whole angles: the supplement and the opposite of a whole
/// number of degrees, brought back into the range from 0 up to 360.
pub proof fn lemma_turn_whole(a: int)
    ensures
        turn(Rational::whole(180).minus(Rational::whole(a))) == Rational::whole((180 - a) % 360),
        turn(Rational::whole(a).negated()) == Rational::whole((-a) % 360),
{
    reveal(turn);
    let supplement = Rational::whole(180).minus(Rational::whole(a));
    assert(supplement.num == 180 - a);
    assert(supplement.den == 1);
    assert(360 * supplement.den == 360);
    let opposite = Rational::whole(a).negated();
    assert(360 * opposite.den == 360);
}

/// The fillets of any section are their own mirror image in both axes.
pub proof fn lemma_column_fillets_symmetric(s: HSectionModel, layer: Seq<char>)
    ensures
        symmetric(column_fillets(s, layer)),
{
    let o = column_fillets(s, layer);
    lemma_turn_whole(0);
    lemma_turn_whole(90);
    lemma_turn_whole(180);
    lemma_turn_whole(270);
    reveal(draws);
    assert forall|k: int| 0 <= k < o.len() implies draws(o, mirrored_x(#[trigger] o[k])) && draws(
        o,
        mirrored_y(o[k]),
    ) by {
        if k == 0 {
            assert(same_figure(o[1], mirrored_x(o[0])));
            assert(same_figure(o[3], mirrored_y(o[0])));
        } else if k == 1 {
            assert(same_figure(o[0], mirrored_x(o[1])));
            assert(same_figure(o[2], mirrored_y(o[1])));
        } else if k == 2 {
            assert(same_figure(o[3], mirrored_x(o[2])));
            assert(same_figure(o[1], mirrored_y(o[2])));
        } else {
            assert(same_figure(o[2], mirrored_x(o[3])));
            assert(same_figure(o[0], mirrored_y(o[3])));
        }
    }
}

/// Two figures that are each their own mirror image are so together.
pub proof fn lemma_symmetric_concat(a: Seq<EntityModel>, b: Seq<EntityModel>)
    requires
        symmetric(a),
        symmetric(b),
    ensures
        symmetric(a + b),
{
    let o = a + b;
    assert forall|k: int| 0 <= k < o.len() implies draws(o, mirrored_x(#[trigger] o[k])) && draws(
        o,
        mirrored_y(o[k]),
    ) by {
        if k < a.len() {
            assert(o[k] == a[k]);
            lemma_draws_concat(a, b, mirrored_x(a[k]));
            lemma_draws_concat(a, b, mirrored_y(a[k]));
        } else {
            assert(o[k] == b[k - a.len()]);
            lemma_draws_concat(a, b, mirrored_x(b[k - a.len()]));
            lemma_draws_concat(a, b, mirrored_y(b[k - a.len()]));
        }
    }
}

/// What either part draws, the whole draws.
pub proof fn lemma_draws_concat(a: Seq<EntityModel>, b: Seq<EntityModel>, e: EntityModel)
    requires
        draws(a, e) || draws(b, e),
    ensures
        draws(a + b, e),
{
    reveal(draws);
    if draws(a, e) {
        let j = choose|j: int| 0 <= j < a.len() && same_figure(#[trigger] a[j], e);
        assert((a + b)[j] == a[j]);
    } else {
        let j = choose|j: int| 0 <= j < b.len() && same_figure(#[trigger] b[j], e);
        assert((a + b)[a.len() + j] == b[j]);
    }
}

/// The outline of any section is its own mirror image in both axes.
pub proof fn lemma_column_outline_symmetric(s: HSectionModel, layer: Seq<char>)
    ensures
        symmetric(column_outline(s, layer)),
{
    lemma_column_lines_symmetric(s, layer);
    lemma_column_fillets_symmetric(s, layer);
    lemma_symmetric_concat(column_lines(s, layer), column_fillets(s, layer));
}

/// Appends the outline of the H-section to the sheet, on the column layer:
/// twelve segments and, where the fillet radius is positive, four quarter
/// arcs of that radius.
pub fn write_column(sheet: &mut Sheet, input: &SteelColumnDrawing) -> (res: Result<
    (),
    DrawingError,
>)
    ensures
        res is Ok,
        final(sheet).document == old(sheet).document,
        final(sheet)@ == old(sheet)@.with_entities(
            column_outline(input@.h_section, input@.layer_name.s_column),
        ),
        arc_count(final(sheet)@.entities) == arc_count(old(sheet)@.entities) + (if 0
            < input@.h_section.r {
            4nat
        } else {
            0nat
        }),
        forall|k: int|
            old(sheet)@.entities.len() <= k < final(sheet)@.entities.len() ==> match (
            #[trigger] final(sheet)@.entities[k]).shape {
                ShapeModel::Arc { radius, .. } => radius == thousandths(input@.h_section.r),
                ShapeModel::Line { .. } => true,
                _ => false,
            },
        symmetric(final(sheet)@.entities.skip(old(sheet)@.entities.len() as int)),
{
    let h: i128 = input.h_section.h.thousandths as i128;
    let b: i128 = input.h_section.b.thousandths as i128;
    let tw: i128 = input.h_section.tw.thousandths as i128;
    let tf: i128 = input.h_section.tf.thousandths as i128;
    let r: i128 = input.h_section.r.thousandths as i128;
    let layer = input.layer_name.s_column.as_str();

    let left = Ratio::half(-b);
    let right = Ratio::half(b);
    let top = Ratio::half(h);
    let bottom = Ratio::half(-h);
    let face_top = Ratio::half(h - 2 * tf);
    let face_bottom = Ratio::half(-h + 2 * tf);
    let root_left = Ratio::half(-tw - 2 * r);
    let root_right = Ratio::half(tw + 2 * r);
    let web_left = Ratio::half(-tw);
    let web_right = Ratio::half(tw);
    let web_top = Ratio::half(h - 2 * tf - 2 * r);
    let web_bottom = Ratio::half(-h + 2 * tf + 2 * r);

    write_line(sheet, left, top, right, top, layer)?;
    write_line(sheet, left, bottom, right, bottom, layer)?;

    write_line(sheet, left, face_top, left, top, layer)?;
    write_line(sheet, right, face_top, right, top, layer)?;
    write_line(sheet, left, face_bottom, left, bottom, layer)?;
    write_line(sheet, right, face_bottom, right, bottom, layer)?;

    write_line(sheet, left, face_top, root_left, face_top, layer)?;
    write_line(sheet, right, face_top, root_right, face_top, layer)?;
    write_line(sheet, left, face_bottom, root_left, face_bottom, layer)?;
    write_line(sheet, right, face_bottom, root_right, face_bottom, layer)?;

    write_line(sheet, web_left, web_bottom, web_left, web_top, layer)?;
    write_line(sheet, web_right, web_bottom, web_right, web_top, layer)?;

    if r > 0 {
        let radius = input.h_section.r.to_ratio();
        write_arc(sheet, root_left, web_top, radius, Ratio::whole(0), Ratio::whole(90), layer)?;
        write_arc(sheet, root_right, web_top, radius, Ratio::whole(90), Ratio::whole(180), layer)?;
        write_arc(
            sheet,
            root_right,
            web_bottom,
            radius,
            Ratio::whole(180),
            Ratio::whole(270),
            layer,
        )?;
        write_arc(sheet, root_left, web_bottom, radius, Ratio::whole(270), Ratio::whole(0), layer)?;
    }
    proof {
        let outline = column_outline(input@.h_section, input@.layer_name.s_column);
        let before = old(sheet)@.entities;
        assert(sheet@.entities =~= before + outline);
        assert(sheet@.entities.skip(before.len() as int) =~= outline);
        lemma_arc_count_concat(before, outline);
        lemma_column_fillets(input@.h_section, input@.layer_name.s_column);
        lemma_column_outline_symmetric(input@.h_section, input@.layer_name.s_column);
        assert forall|k: int| before.len() <= k < sheet@.entities.len() implies match (
        #[trigger] sheet@.entities[k]).shape {
            ShapeModel::Arc { radius, .. } => radius == thousandths(input@.h_section.r),
            ShapeModel::Line { .. } => true,
            _ => false,
        } by {
            assert(sheet@.entities[k] == outline[k - before.len()]);
        }
    }
    Ok(())
}

} // verus!
