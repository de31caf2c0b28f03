//! The description of a column base that a drawing is made from.

use crate::number::Length;
use vstd::prelude::*;

verus! {

/// An H-section: overall depth `h`, flange width `b`, web thickness `tw`,
/// flange thickness `tf` and fillet radius `r`.
#[derive(Clone, Debug, PartialEq, Eq)]
pub struct HSection {
    pub h: Length,
    pub b: Length,
    pub tw: Length,
    pub tf: Length,
    pub r: Length,
    pub material: String,
}

/// A base plate: length `lx`, width `ly` and thickness `t`.
#[derive(Clone, Debug, PartialEq, Eq)]
pub struct BasePlate {
    pub lx: Length,
    pub ly: Length,
    pub t: Length,
    pub material: String,
}

/// The anchor bolts: diameter `d`, length `l`, `nx` and `ny` bolts along the
/// two axes, and the spans `jx` and `jy` of the grid.
#[derive(Clone, Debug, PartialEq, Eq)]
pub struct AnchorBolt {
    pub d: Length,
    pub l: Length,
    pub nx: u32,
    pub ny: u32,
    pub jx: Length,
    pub jy: Length,
    pub material: String,
    pub note: String,
}

/// An anchor plate: thickness `t` and diameter `d`.
#[derive(Clone, Debug, PartialEq, Eq)]
pub struct AnchorPlate {
    pub t: Length,
    pub d: Length,
    pub material: String,
}

/// The names of the four layers: column outline, bolt marks, plate and hole
/// outlines, and text.
#[derive(Clone, Debug, PartialEq, Eq)]
pub struct LayerName {
    pub s_column: String,
    pub bolt: String,
    pub plate: String,
    pub text: String,
}

/// How the labels are set.
#[derive(Clone, Debug, PartialEq, Eq)]
pub struct Layout {
    pub text_height: Length,
}

/// Everything a drawing of one column base is made from.
#[derive(Clone, Debug, PartialEq, Eq)]
pub struct SteelColumnDrawing {
    pub column_name: String,
    pub h_section: HSection,
    pub base_plate: BasePlate,
    pub anchor_bolt: AnchorBolt,
    pub anchor_plate: AnchorPlate,
    pub layer_name: LayerName,
    pub layout: Layout,
}

/// An H-section with its lengths in thousandths of a drawing unit.
pub struct HSectionModel {
    pub h: int,
    pub b: int,
    pub tw: int,
    pub tf: int,
    pub r: int,
    pub material: Seq<char>,
}

/// A base plate with its lengths in thousandths.
pub struct BasePlateModel {
    pub lx: int,
    pub ly: int,
    pub t: int,
    pub material: Seq<char>,
}

/// The anchor bolts with their lengths in thousandths.
pub struct AnchorBoltModel {
    pub d: int,
    pub l: int,
    pub nx: nat,
    pub ny: nat,
    pub jx: int,
    pub jy: int,
    pub material: Seq<char>,
    pub note: Seq<char>,
}

/// An anchor plate with its lengths in thousandths.
pub struct AnchorPlateModel {
    pub t: int,
    pub d: int,
    pub material: Seq<char>,
}

/// The four layer names as sequences of characters.
pub struct LayerNameModel {
    pub s_column: Seq<char>,
    pub bolt: Seq<char>,
    pub plate: Seq<char>,
    pub text: Seq<char>,
}

/// A whole description with its lengths in thousandths.
pub struct SteelColumnModel {
    pub column_name: Seq<char>,
    pub h_section: HSectionModel,
    pub base_plate: BasePlateModel,
    pub anchor_bolt: AnchorBoltModel,
    pub anchor_plate: AnchorPlateModel,
    pub layer_name: LayerNameModel,
    pub text_height: int,
}

impl SteelColumnModel {
    /// There is at least one bolt along each axis.
    pub open spec fn has_bolts(self) -> bool {
        self.anchor_bolt.nx >= 1 && self.anchor_bolt.ny >= 1
    }
}

impl View for HSection {
    type V = HSectionModel;

    open spec fn view(&self) -> HSectionModel {
        HSectionModel {
            h: self.h.thousandths as int,
            b: self.b.thousandths as int,
            tw: self.tw.thousandths as int,
            tf: self.tf.thousandths as int,
            r: self.r.thousandths as int,
            material: self.material@,
        }
    }
}

impl View for BasePlate {
    type V = BasePlateModel;

    open spec fn view(&self) -> BasePlateModel {
        BasePlateModel {
            lx: self.lx.thousandths as int,
            ly: self.ly.thousandths as int,
            t: self.t.thousandths as int,
            material: self.material@,
        }
    }
}

impl View for AnchorBolt {
    type V = AnchorBoltModel;

    open spec fn view(&self) -> AnchorBoltModel {
        AnchorBoltModel {
            d: self.d.thousandths as int,
            l: self.l.thousandths as int,
            nx: self.nx as nat,
            ny: self.ny as nat,
            jx: self.jx.thousandths as int,
            jy: self.jy.thousandths as int,
            material: self.material@,
            note: self.note@,
        }
    }
}

impl View for AnchorPlate {
    type V = AnchorPlateModel;

    open spec fn view(&self) -> AnchorPlateModel {
        AnchorPlateModel {
            t: self.t.thousandths as int,
            d: self.d.thousandths as int,
            material: self.material@,
        }
    }
}

impl View for LayerName {
    type V = LayerNameModel;

    open spec fn view(&self) -> LayerNameModel {
        LayerNameModel {
            s_column: self.s_column@,
            bolt: self.bolt@,
            plate: self.plate@,
            text: self.text@,
        }
    }
}

impl View for SteelColumnDrawing {
    type V = SteelColumnModel;

    open spec fn view(&self) -> SteelColumnModel {
        SteelColumnModel {
            column_name: self.column_name@,
            h_section: self.h_section@,
            base_plate: self.base_plate@,
            anchor_bolt: self.anchor_bolt@,
            anchor_plate: self.anchor_plate@,
            layer_name: self.layer_name@,
            text_height: self.layout.text_height.thousandths as int,
        }
    }
}

impl Default for LayerName {
    /// The layer names used when a description gives none.
    fn default() -> (names: LayerName)
        ensures
            names@.s_column == "S柱"@,
            names@.bolt == "Sボルト"@,
            names@.plate == "Sプレート"@,
            names@.text == "S文字"@,
    {
        LayerName {
            s_column: "S柱".to_owned(),
            bolt: "Sボルト".to_owned(),
            plate: "Sプレート".to_owned(),
            text: "S文字".to_owned(),
        }
    }
}

} // verus!
