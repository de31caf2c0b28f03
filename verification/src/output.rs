//! The whole drawing: the layers first, on them the column, the base plate,
//! the anchor bolts and the labels, in this order.

use crate::bolt::{bolt_grid, bolt_marks, lemma_bolt_marks_well_formed, write_anchor_bolts};
use crate::column::{column_outline, lemma_column_outline_well_formed, write_column};
use crate::document::add_layer;
use crate::input::{LayerNameModel, SteelColumnDrawing, SteelColumnModel};
use crate::label::{label_block, lemma_label_block_well_formed, write_texts};
use crate::output_util::{all_well_formed, DrawingError, Sheet, SheetModel};
use crate::plate::{lemma_plate_outline_well_formed, plate_outline, write_base_plate};
use vstd::prelude::*;

verus! {

/// The four layers with their colour numbers: column 4, bolts 2, plate 1,
/// text 3.
pub open spec fn layer_table(names: LayerNameModel) -> Seq<(Seq<char>, int)> {
    seq![(names.s_column, 4int), (names.bolt, 2int), (names.plate, 1int), (names.text, 3int)]
}

/// The drawing of a column base: the layer "0" that every document starts
/// with and the four layers of the description, and on them the outline of
/// the column, the outline of the base plate, the marks of the anchor bolts
/// and the block of labels.
pub open spec fn rendering(m: SteelColumnModel) -> SheetModel {
    SheetModel {
        layers: seq![("0"@, 7int)] + layer_table(m.layer_name),
        entities: column_outline(m.h_section, m.layer_name.s_column) + plate_outline(
            m.base_plate,
            m.layer_name.plate,
        ) + bolt_marks(
            bolt_grid(m.anchor_bolt),
            m.anchor_bolt.d,
            m.layer_name.plate,
            m.layer_name.bolt,
        ) + label_block(m),
    }
}

/// Every number in the drawing of a column base has a positive
/// denominator.
pub proof fn lemma_rendering_well_formed(m: SteelColumnModel)
    ensures
        all_well_formed(rendering(m).entities),
{
    lemma_column_outline_well_formed(m.h_section, m.layer_name.s_column);
    lemma_plate_outline_well_formed(m.base_plate, m.layer_name.plate);
    lemma_bolt_marks_well_formed(m.anchor_bolt, m.layer_name.plate, m.layer_name.bolt);
    lemma_label_block_well_formed(m);
}

/// Two drawings made from descriptions that say the same are the same:
/// layer for layer, and primitive for primitive with every coordinate.
pub proof fn lemma_same_input_same_drawing(
    a: SteelColumnDrawing,
    b: SteelColumnDrawing,
    first: Sheet,
    second: Sheet,
)
    requires
        a@ == b@,
        first@ == rendering(a@),
        second@ == rendering(b@),
    ensures
        first@.layers == second@.layers,
        first@.entities.len() == second@.entities.len(),
        first@.entities == second@.entities,
{
}

/// Appends the four layers of the description to the layer table of the
/// sheet, each with its colour number. The document gives each layer a
/// handle, and a second one where it has to add the layer's line type, so
/// eight of its handles must still be free.
pub fn set_layer(sheet: &mut Sheet, input: &SteelColumnDrawing) -> (res: Result<
    (),
    DrawingError,
>)
    requires
        old(sheet).next_handle() + 8 <= u64::MAX,
    ensures
        res is Ok,
        final(sheet)@ == old(sheet)@.with_layers(layer_table(input@.layer_name)),
        final(sheet).next_handle() <= old(sheet).next_handle() + 8,
{
    add_layer(&mut sheet.document, input.layer_name.s_column.as_str(), 4);
    add_layer(&mut sheet.document, input.layer_name.bolt.as_str(), 2);
    add_layer(&mut sheet.document, input.layer_name.plate.as_str(), 1);
    add_layer(&mut sheet.document, input.layer_name.text.as_str(), 3);
    assert(sheet@.layers =~= old(sheet)@.layers + layer_table(input@.layer_name));
    Ok(())
}

/// Makes the drawing of a column base.
pub fn write(input: SteelColumnDrawing) -> (res: Result<Sheet, DrawingError>)
    requires
        input@.has_bolts(),
    ensures
        res matches Ok(sheet) && sheet@ == rendering(input@) && all_well_formed(sheet@.entities),
{
    let mut sheet = Sheet::new();

    set_layer(&mut sheet, &input)?;

    write_column(&mut sheet, &input)?;

    write_base_plate(&mut sheet, &input)?;

    write_anchor_bolts(&mut sheet, &input)?;

    write_texts(&mut sheet, &input)?;

    proof {
        assert(sheet@.entities =~= rendering(input@).entities);
        lemma_rendering_well_formed(input@);
    }
    Ok(sheet)
}

} // verus!
