//! The DXF document and its layer table.
//!
//! The document type comes from the `dxf` crate. Nothing in this module is
//! proved: it states what the calls into that crate do to the layer table,
//! and the rest of the library reasons from those statements.

use vstd::prelude::*;

verus! {

/// The type `dxf::Drawing`, whose values are carried and never looked into.
#[verifier::external_type_specification]
#[verifier::external_body]
pub struct ExDocument(dxf::Drawing);

/// The layer table of a document, in table order: for each layer its name
/// and its raw colour number.
pub uninterp spec fn document_layers(document: dxf::Drawing) -> Seq<(Seq<char>, int)>;

/// The handle that a document gives out next. A document numbers its items
/// with handles: each new item takes this number and moves it up by one.
pub uninterp spec fn document_next_handle(document: dxf::Drawing) -> nat;

/// Calls `dxf::Drawing::new`. A fresh document has been normalised, which
/// leaves exactly one layer in its table: the layer "0" in the default
/// colour 7. Its handles start at 1, and the few items that normalising
/// adds take the first of them.
#[verifier::external_body]
pub(crate) fn new_document() -> (document: dxf::Drawing)
    ensures
        document_layers(document) == seq![("0"@, 7int)],
        document_next_handle(document) <= 0xFFFF,
{
    dxf::Drawing::new()
}

/// Calls `dxf::Drawing::add_layer` with a layer that has the given name,
/// the colour `dxf::Color::from_index(color_index)` and defaults elsewhere.
/// The layer is appended to the table; the layers already there stay as
/// they are. The call takes one handle for the layer, and one more where it
/// has to add the layer's line type to the document; it must not be made
/// on a document that has run out of handles.
#[verifier::external_body]
pub(crate) fn add_layer(document: &mut dxf::Drawing, name: &str, color_index: u8)
    requires
        document_next_handle(*old(document)) + 2 <= u64::MAX,
    ensures
        document_layers(*final(document)) == document_layers(*old(document)).push(
            (name@, color_index as int),
        ),
        document_next_handle(*final(document)) <= document_next_handle(*old(document)) + 2,
{
    document.add_layer(dxf::tables::Layer {
        name: name.to_string(),
        color: dxf::Color::from_index(color_index),
        ..Default::default()
    });
}

} // verus!
