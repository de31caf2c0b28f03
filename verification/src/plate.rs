//! The outline of the base plate: a rectangle `lx` wide and `ly` high,
//! centred on the origin.

use crate::input::{BasePlateModel, SteelColumnDrawing};
use crate::number::{halved, Ratio};
use crate::output_util::{
    all_well_formed, line_model, write_line, DrawingError, EntityModel, PointModel, ShapeModel,
    Sheet,
};
use vstd::prelude::*;

verus! {

/// The four sides of the plate: bottom, top, left, right.
pub open spec fn plate_outline(p: BasePlateModel, layer: Seq<char>) -> Seq<EntityModel> {
    let left = halved(-p.lx);
    let right = halved(p.lx);
    let bottom = halved(-p.ly);
    let top = halved(p.ly);
    seq![
        line_model(left, bottom, right, bottom, layer),
        line_model(left, top, right, top, layer),
        line_model(left, bottom, left, top, layer),
        line_model(right, bottom, right, top, layer),
    ]
}

/// The corner of the plate on the side of `sx` and `sy`, each 1 or -1:
/// `(sx * lx / 2, sy * ly / 2)`.
pub open spec fn corner(p: BasePlateModel, sx: int, sy: int) -> PointModel {
    PointModel { x: halved(sx * p.lx), y: halved(sy * p.ly) }
}

/// Whether `e` is a segment between `a` and `b`, in either direction.
pub open spec fn joins(e: EntityModel, a: PointModel, b: PointModel) -> bool {
    match e.shape {
        ShapeModel::Line { start, end } => (start == a && end == b) || (start == b && end == a),
        _ => false,
    }
}

/// Whether `sides` are four segments that go once round the plate: taken
/// in the order `i0, i1, i2, i3`, which names each of them once, they lead
/// from the corner `(-lx / 2, -ly / 2)` to `(lx / 2, -ly / 2)`, on to
/// `(lx / 2, ly / 2)`, on to `(-lx / 2, ly / 2)` and back to the start.
pub open spec fn goes_round(
    sides: Seq<EntityModel>,
    p: BasePlateModel,
    i0: int,
    i1: int,
    i2: int,
    i3: int,
) -> bool {
    &&& sides.len() == 4
    &&& 0 <= i0 < 4 && 0 <= i1 < 4 && 0 <= i2 < 4 && 0 <= i3 < 4
    &&& i0 != i1 && i0 != i2 && i0 != i3 && i1 != i2 && i1 != i3 && i2 != i3
    &&& joins(sides[i0], corner(p, -1, -1), corner(p, 1, -1))
    &&& joins(sides[i1], corner(p, 1, -1), corner(p, 1, 1))
    &&& joins(sides[i2], corner(p, 1, 1), corner(p, -1, 1))
    &&& joins(sides[i3], corner(p, -1, 1), corner(p, -1, -1))
}

/// Whether `sides` form the closed rectangle of the plate.
pub open spec fn closed_rectangle(sides: Seq<EntityModel>, p: BasePlateModel) -> bool {
    exists|i0: int, i1: int, i2: int, i3: int| #[trigger] goes_round(sides, p, i0, i1, i2, i3)
}

/// The outline of any plate is a closed rectangle: bottom, right, top and
/// left side lead round its four corners. Where `lx` and `ly` are not zero
/// the four corners are four different points, so that the round passes
/// each of them once.
pub proof fn lemma_plate_outline_closed(p: BasePlateModel, layer: Seq<char>)
    ensures
        closed_rectangle(plate_outline(p, layer), p),
        p.lx != 0 && p.ly != 0 ==> corner(p, -1, -1) != corner(p, 1, -1) && corner(p, -1, -1)
            != corner(p, 1, 1) && corner(p, -1, -1) != corner(p, -1, 1) && corner(p, 1, -1)
            != corner(p, 1, 1) && corner(p, 1, -1) != corner(p, -1, 1) && corner(p, 1, 1)
            != corner(p, -1, 1),
{
    assert(goes_round(plate_outline(p, layer), p, 0, 3, 1, 2));
}

/// Every number of the outline has a positive denominator.
pub proof fn lemma_plate_outline_well_formed(p: BasePlateModel, layer: Seq<char>)
    ensures
        all_well_formed(plate_outline(p, layer)),
{
}

/// Appends the outline of the base plate to the sheet, on the plate layer:
/// four segments that close the rectangle with the corners
/// `(±lx / 2, ±ly / 2)`.
pub fn write_base_plate(sheet: &mut Sheet, input: &SteelColumnDrawing) -> (res: Result<
    (),
    DrawingError,
>)
    ensures
        res is Ok,
        final(sheet).document == old(sheet).document,
        final(sheet)@ == old(sheet)@.with_entities(
            plate_outline(input@.base_plate, input@.layer_name.plate),
        ),
        closed_rectangle(
            final(sheet)@.entities.skip(old(sheet)@.entities.len() as int),
            input@.base_plate,
        ),
{
    let lx: i128 = input.base_plate.lx.thousandths as i128;
    let ly: i128 = input.base_plate.ly.thousandths as i128;
    let layer = input.layer_name.plate.as_str();

    let left = Ratio::half(-lx);
    let right = Ratio::half(lx);
    let bottom = Ratio::half(-ly);
    let top = Ratio::half(ly);

    write_line(sheet, left, bottom, right, bottom, layer)?;
    write_line(sheet, left, top, right, top, layer)?;
    write_line(sheet, left, bottom, left, top, layer)?;
    write_line(sheet, right, bottom, right, top, layer)?;

    proof {
        let outline = plate_outline(input@.base_plate, input@.layer_name.plate);
        assert(sheet@.entities =~= old(sheet)@.entities + outline);
        assert(sheet@.entities.skip(old(sheet)@.entities.len() as int) =~= outline);
        lemma_plate_outline_closed(input@.base_plate, input@.layer_name.plate);
    }
    Ok(())
}

} // verus!
