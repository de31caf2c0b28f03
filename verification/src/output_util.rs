//! Drawing primitives: lines, circles, arcs, cross marks and text, each
//! appended to a drawing on a named layer.

use crate::document::{document_layers, document_next_handle};
use crate::number::{combine_fits, Ratio, Rational};
use vstd::prelude::*;

verus! {

/// A point of the plane in exact coordinates.
pub struct PointModel {
    pub x: Rational,
    pub y: Rational,
}

/// Where a text stands relative to its location along one axis: it starts
/// there, it is centred there, or it ends there.
#[derive(Clone, Copy, Debug, PartialEq, Eq, Structural)]
pub enum Justification {
    Start,
    Middle,
    End,
}

/// What a primitive is, without its layer.
pub enum ShapeModel {
    Line { start: PointModel, end: PointModel },
    Circle { center: PointModel, radius: Rational },
    Arc { center: PointModel, radius: Rational, start_angle: Rational, end_angle: Rational },
    Text {
        location: PointModel,
        text_height: Rational,
        value: Seq<char>,
        horizontal: Justification,
        vertical: Justification,
    },
}

/// A primitive on its layer.
pub struct EntityModel {
    pub shape: ShapeModel,
    pub layer: Seq<char>,
}

impl PointModel {
    /// Both coordinates have a positive denominator.
    pub open spec fn wf(self) -> bool {
        self.x.wf() && self.y.wf()
    }
}

impl EntityModel {
    /// Every number of the primitive has a positive denominator.
    pub open spec fn wf(self) -> bool {
        match self.shape {
            ShapeModel::Line { start, end } => start.wf() && end.wf(),
            ShapeModel::Circle { center, radius } => center.wf() && radius.wf(),
            ShapeModel::Arc { center, radius, start_angle, end_angle } => center.wf()
                && radius.wf() && start_angle.wf() && end_angle.wf(),
            ShapeModel::Text { location, text_height, .. } => location.wf() && text_height.wf(),
        }
    }
}

/// Every number of every primitive has a positive denominator.
pub open spec fn all_well_formed(entities: Seq<EntityModel>) -> bool {
    forall|k: int| 0 <= k < entities.len() ==> (#[trigger] entities[k]).wf()
}

/// A drawing as contracts see it: the layer table, each layer with its name
/// and colour number, and the primitives in the order they were added.
pub struct SheetModel {
    pub layers: Seq<(Seq<char>, int)>,
    pub entities: Seq<EntityModel>,
}

impl SheetModel {
    /// This drawing with one more primitive at the end.
    pub open spec fn with_entity(self, entity: EntityModel) -> SheetModel {
        SheetModel { layers: self.layers, entities: self.entities.push(entity) }
    }

    /// This drawing with more primitives at the end.
    pub open spec fn with_entities(self, entities: Seq<EntityModel>) -> SheetModel {
        SheetModel { layers: self.layers, entities: self.entities + entities }
    }

    /// This drawing with more layers at the end of its table.
    pub open spec fn with_layers(self, layers: Seq<(Seq<char>, int)>) -> SheetModel {
        SheetModel { layers: self.layers + layers, entities: self.entities }
    }
}

/// The segment from `(x1, y1)` to `(x2, y2)`.
pub open spec fn line_model(
    x1: Rational,
    y1: Rational,
    x2: Rational,
    y2: Rational,
    layer: Seq<char>,
) -> EntityModel {
    EntityModel {
        shape: ShapeModel::Line {
            start: PointModel { x: x1, y: y1 },
            end: PointModel { x: x2, y: y2 },
        },
        layer,
    }
}

/// The circle of radius `r` about `(x, y)`.
pub open spec fn circle_model(
    x: Rational,
    y: Rational,
    r: Rational,
    layer: Seq<char>,
) -> EntityModel {
    EntityModel { shape: ShapeModel::Circle { center: PointModel { x, y }, radius: r }, layer }
}

/// The arc of radius `r` about `(x, y)` that runs counter-clockwise from
/// `start_angle` to `end_angle`, both in degrees from the positive x axis.
pub open spec fn arc_model(
    x: Rational,
    y: Rational,
    r: Rational,
    start_angle: Rational,
    end_angle: Rational,
    layer: Seq<char>,
) -> EntityModel {
    EntityModel {
        shape: ShapeModel::Arc { center: PointModel { x, y }, radius: r, start_angle, end_angle },
        layer,
    }
}

/// The text `value`, of the given height, centred on `(x, y)` both ways.
pub open spec fn text_model(
    x: Rational,
    y: Rational,
    text_height: Rational,
    value: Seq<char>,
    layer: Seq<char>,
) -> EntityModel {
    EntityModel {
        shape: ShapeModel::Text {
            location: PointModel { x, y },
            text_height,
            value,
            horizontal: Justification::Middle,
            vertical: Justification::Middle,
        },
        layer,
    }
}

/// The cross mark of half-length `r` centred on `(x, y)`: the horizontal
/// stroke first, the vertical stroke second.
pub open spec fn cross_model(x: Rational, y: Rational, r: Rational, layer: Seq<char>) -> Seq<
    EntityModel,
> {
    seq![
        line_model(x.minus(r), y, x.plus(r), y, layer),
        line_model(x, y.minus(r), x, y.plus(r), layer),
    ]
}

/// A point of the plane.
#[derive(Clone, Copy, Debug, PartialEq, Eq, Structural)]
pub struct Point {
    pub x: Ratio,
    pub y: Ratio,
}

impl View for Point {
    type V = PointModel;

    open spec fn view(&self) -> PointModel {
        PointModel { x: self.x@, y: self.y@ }
    }
}

/// What a primitive is. Angles are in degrees, counter-clockwise from the
/// positive x axis.
#[derive(Clone, Debug, PartialEq, Eq)]
pub enum Shape {
    Line { start: Point, end: Point },
    Circle { center: Point, radius: Ratio },
    Arc { center: Point, radius: Ratio, start_angle: Ratio, end_angle: Ratio },
    Text {
        location: Point,
        text_height: Ratio,
        value: String,
        horizontal: Justification,
        vertical: Justification,
    },
}

impl View for Shape {
    type V = ShapeModel;

    open spec fn view(&self) -> ShapeModel {
        match *self {
            Shape::Line { start, end } => ShapeModel::Line { start: start@, end: end@ },
            Shape::Circle { center, radius } => ShapeModel::Circle {
                center: center@,
                radius: radius@,
            },
            Shape::Arc { center, radius, start_angle, end_angle } => ShapeModel::Arc {
                center: center@,
                radius: radius@,
                start_angle: start_angle@,
                end_angle: end_angle@,
            },
            Shape::Text { location, text_height, value, horizontal, vertical } => ShapeModel::Text {
                location: location@,
                text_height: text_height@,
                value: value@,
                horizontal,
                vertical,
            },
        }
    }
}

/// A primitive on its layer.
#[derive(Clone, Debug, PartialEq, Eq)]
pub struct Entity {
    pub shape: Shape,
    pub layer: String,
}

impl View for Entity {
    type V = EntityModel;

    open spec fn view(&self) -> EntityModel {
        EntityModel { shape: self.shape@, layer: self.layer@ }
    }
}

/// A drawing under construction. The layer table is kept in the DXF
/// document itself. The primitives are kept beside it in exact coordinates,
/// in the order they were added, until the caller hands them to the
/// document.
pub struct Sheet {
    pub document: dxf::Drawing,
    pub entities: Vec<Entity>,
}

impl View for Sheet {
    type V = SheetModel;

    open spec fn view(&self) -> SheetModel {
        SheetModel {
            layers: document_layers(self.document),
            entities: self.entities@.map_values(|e: Entity| e@),
        }
    }
}

/// Why a drawing could not be made.
#[derive(Clone, Copy, Debug, PartialEq, Eq, Structural)]
pub enum DrawingError {
    /// The input file name has no stem to name the output after.
    NoFileStem,
    /// A coordinate cannot be held in machine integers.
    Overflow,
}

impl DrawingError {
    /// What went wrong, in words.
    pub fn message(&self) -> (text: &'static str)
        ensures
            text@ == (match *self {
                DrawingError::NoFileStem => "Cannot get file stem"@,
                DrawingError::Overflow => "A coordinate is too large"@,
            }),
    {
        match self {
            DrawingError::NoFileStem => "Cannot get file stem",
            DrawingError::Overflow => "A coordinate is too large",
        }
    }
}

impl Sheet {
    /// The handle that the document of the sheet gives out next.
    pub open spec fn next_handle(&self) -> nat {
        document_next_handle(self.document)
    }

    /// An empty drawing: no primitives, and the layer table of a fresh
    /// document, which holds the layer "0" in colour 7. Nearly all of its
    /// handles are still free.
    pub fn new() -> (sheet: Sheet)
        ensures
            sheet@.layers == seq![("0"@, 7int)],
            sheet@.entities == Seq::<EntityModel>::empty(),
            sheet.next_handle() <= 0xFFFF,
    {
        Sheet { document: crate::document::new_document(), entities: Vec::new() }
    }

    fn push(&mut self, entity: Entity)
        ensures
            final(self)@ == old(self)@.with_entity(entity@),
            final(self).document == old(self).document,
    {
        self.entities.push(entity);
        assert(self.entities@.map_values(|e: Entity| e@) =~= old(self).entities@.map_values(
            |e: Entity| e@,
        ).push(entity@));
    }
}

/// Appends the segment from `(x1, y1)` to `(x2, y2)` on `layer`.
pub fn write_line(
    sheet: &mut Sheet,
    x1: Ratio,
    y1: Ratio,
    x2: Ratio,
    y2: Ratio,
    layer: &str,
) -> (res: Result<(), DrawingError>)
    ensures
        res is Ok,
        final(sheet).document == old(sheet).document,
        final(sheet)@ == old(sheet)@.with_entity(line_model(x1@, y1@, x2@, y2@, layer@)),
{
    let line = Shape::Line { start: Point { x: x1, y: y1 }, end: Point { x: x2, y: y2 } };
    sheet.push(Entity { shape: line, layer: layer.to_owned() });
    Ok(())
}

/// Appends the cross mark of half-length `r` centred on `(x, y)`: two
/// segments on `layer`, from `(x - r, y)` to `(x + r, y)` and from
/// `(x, y - r)` to `(x, y + r)`. Fails, and leaves the drawing as it was,
/// exactly when one of the four sums leaves the machine integers.
pub fn write_cross(sheet: &mut Sheet, x: Ratio, y: Ratio, r: Ratio, layer: &str) -> (res:
    Result<(), DrawingError>)
    ensures
        res is Ok <==> combine_fits(x@, r@) && combine_fits(y@, r@),
        res is Ok ==> final(sheet).document == old(sheet).document && final(sheet)@ == old(
            sheet,
        )@.with_entities(cross_model(x@, y@, r@, layer@)),
        res is Err ==> res == Err::<(), DrawingError>(DrawingError::Overflow) && *final(sheet)
            == *old(sheet),
{
    let (right, left) = match x.checked_plus_minus(r) {
        Some(pair) => pair,
        None => { return Err(DrawingError::Overflow); },
    };
    let (top, bottom) = match y.checked_plus_minus(r) {
        Some(pair) => pair,
        None => { return Err(DrawingError::Overflow); },
    };
    write_line(sheet, left, y, right, y, layer)?;
    write_line(sheet, x, bottom, x, top, layer)?;
    assert(sheet@.entities =~= old(sheet)@.entities + cross_model(x@, y@, r@, layer@));
    Ok(())
}

/// Appends the circle of radius `r` about `(x, y)` on `layer`.
pub fn write_circle(sheet: &mut Sheet, x: Ratio, y: Ratio, r: Ratio, layer: &str) -> (res:
    Result<(), DrawingError>)
    ensures
        res is Ok,
        final(sheet).document == old(sheet).document,
        final(sheet)@ == old(sheet)@.with_entity(circle_model(x@, y@, r@, layer@)),
{
    let circle = Shape::Circle { center: Point { x, y }, radius: r };
    sheet.push(Entity { shape: circle, layer: layer.to_owned() });
    Ok(())
}

/// Appends the arc of radius `r` about `(x, y)` from `start_angle` to
/// `end_angle` on `layer`.
pub fn write_arc(
    sheet: &mut Sheet,
    x: Ratio,
    y: Ratio,
    r: Ratio,
    start_angle: Ratio,
    end_angle: Ratio,
    layer: &str,
) -> (res: Result<(), DrawingError>)
    ensures
        res is Ok,
        final(sheet).document == old(sheet).document,
        final(sheet)@ == old(sheet)@.with_entity(
            arc_model(x@, y@, r@, start_angle@, end_angle@, layer@),
        ),
{
    let arc = Shape::Arc { center: Point { x, y }, radius: r, start_angle, end_angle };
    sheet.push(Entity { shape: arc, layer: layer.to_owned() });
    Ok(())
}

/// Appends the text `value`, of height `text_height`, centred on `(x, y)`
/// both ways, on `layer`.
pub fn write_text(
    sheet: &mut Sheet,
    x: Ratio,
    y: Ratio,
    text_height: Ratio,
    value: &str,
    layer: &str,
) -> (res: Result<(), DrawingError>)
    ensures
        res is Ok,
        final(sheet).document == old(sheet).document,
        final(sheet)@ == old(sheet)@.with_entity(
            text_model(x@, y@, text_height@, value@, layer@),
        ),
{
    let text = Shape::Text {
        location: Point { x, y },
        text_height,
        value: value.to_owned(),
        horizontal: Justification::Middle,
        vertical: Justification::Middle,
    };
    sheet.push(Entity { shape: text, layer: layer.to_owned() });
    Ok(())
}

} // verus!
