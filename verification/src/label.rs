//! The block of labels below the drawing, and the decimal notation that the
//! labels write lengths in.

use crate::input::{
    AnchorBolt, AnchorBoltModel, AnchorPlate, AnchorPlateModel, BasePlate, BasePlateModel,
    HSection, HSectionModel, SteelColumnDrawing, SteelColumnModel,
};
use crate::number::{thousandths, Length, Ratio, Rational};
use crate::output_util::{
    all_well_formed, text_model, write_text, DrawingError, EntityModel, Justification,
    ShapeModel, Sheet,
};
use vstd::prelude::*;

verus! {

/// The character of the decimal digit `d`.
pub open spec fn digit(d: int) -> char {
    if d == 0 {
        '0'
    } else if d == 1 {
        '1'
    } else if d == 2 {
        '2'
    } else if d == 3 {
        '3'
    } else if d == 4 {
        '4'
    } else if d == 5 {
        '5'
    } else if d == 6 {
        '6'
    } else if d == 7 {
        '7'
    } else if d == 8 {
        '8'
    } else {
        '9'
    }
}

/// The natural number `n` in decimal digits, without leading zeros.
pub open spec fn digits(n: nat) -> Seq<char>
    decreases n,
{
    if n < 10 {
        seq![digit(n as int)]
    } else {
        digits(n / 10).push(digit((n % 10) as int))
    }
}

/// The decimal places of `f` thousandths, `0 <= f < 1000`: nothing where
/// `f` is zero, else a point and the digits up to the last one that is not
/// zero.
pub open spec fn places(f: int) -> Seq<char> {
    if f == 0 {
        Seq::empty()
    } else if f % 100 == 0 {
        seq!['.', digit(f / 100)]
    } else if f % 10 == 0 {
        seq!['.', digit(f / 100), digit(f / 10 % 10)]
    } else {
        seq!['.', digit(f / 100), digit(f / 10 % 10), digit(f % 10)]
    }
}

/// The length of `v` thousandths in decimal notation: a minus sign where it
/// is negative, the whole units, and the decimal places that are needed.
pub open spec fn decimal(v: int) -> Seq<char> {
    if v < 0 {
        seq!['-'] + digits(((-v) / 1000) as nat) + places((-v) % 1000)
    } else {
        digits((v / 1000) as nat) + places(v % 1000)
    }
}

/// The number of bolts that the bolt label gives: `2 * (nx - 1) + 2 * (ny - 1)`.
pub open spec fn bolt_count(b: AnchorBoltModel) -> int {
    2 * (b.nx - 1) + 2 * (b.ny - 1)
}

/// `H-{h}x{b}x{tw}x{tf}({material})`.
#[verifier::opaque]
pub open spec fn section_label(s: HSectionModel) -> Seq<char> {
    "H-"@ + decimal(s.h) + "x"@ + decimal(s.b) + "x"@ + decimal(s.tw) + "x"@ + decimal(s.tf)
        + "("@ + s.material + ")"@
}

/// `BPL-{t}x{lx}x{ly}({material})`.
#[verifier::opaque]
pub open spec fn plate_label(p: BasePlateModel) -> Seq<char> {
    "BPL-"@ + decimal(p.t) + "x"@ + decimal(p.lx) + "x"@ + decimal(p.ly) + "("@ + p.material
        + ")"@
}

/// `{count}-M{d}(L={l},{material})`.
#[verifier::opaque]
pub open spec fn bolt_label(b: AnchorBoltModel) -> Seq<char> {
    digits(bolt_count(b) as nat) + "-M"@ + decimal(b.d) + "(L="@ + decimal(b.l) + ","@
        + b.material + ")"@
}

/// `({note})`.
#[verifier::opaque]
pub open spec fn note_label(note: Seq<char>) -> Seq<char> {
    "("@ + note + ")"@
}

/// `PL-{t}x{d}x{d}({material})`.
#[verifier::opaque]
pub open spec fn anchor_plate_label(a: AnchorPlateModel) -> Seq<char> {
    "PL-"@ + decimal(a.t) + "x"@ + decimal(a.d) + "x"@ + decimal(a.d) + "("@ + a.material
        + ")"@
}

/// The six labels, top to bottom.
pub open spec fn label_texts(m: SteelColumnModel) -> Seq<Seq<char>> {
    seq![
        m.column_name,
        section_label(m.h_section),
        plate_label(m.base_plate),
        bolt_label(m.anchor_bolt),
        note_label(m.anchor_bolt.note),
        anchor_plate_label(m.anchor_plate),
    ]
}

/// The height of line `k` of the block for a text height of `t`
/// thousandths: `-1000 - 2 * t * k`.
pub open spec fn label_y(t: int, k: int) -> Rational {
    Rational::whole(-1000).minus(thousandths(t).scaled(2 * k))
}

/// The block of labels: line `k` is the text `k`, of the given height, on
/// the text layer, centred on `x = 0` at the height of line `k`.
pub open spec fn label_block(m: SteelColumnModel) -> Seq<EntityModel> {
    Seq::new(
        6,
        |k: int|
            text_model(
                Rational::whole(0),
                label_y(m.text_height, k),
                thousandths(m.text_height),
                label_texts(m)[k],
                m.layer_name.text,
            ),
    )
}

/// The digit `d` as a string.
fn digit_str(d: u64) -> (s: &'static str)
    requires
        d < 10,
    ensures
        s@ == seq![digit(d as int)],
{
    proof {
        reveal_strlit("0");
        reveal_strlit("1");
        reveal_strlit("2");
        reveal_strlit("3");
        reveal_strlit("4");
        reveal_strlit("5");
        reveal_strlit("6");
        reveal_strlit("7");
        reveal_strlit("8");
        reveal_strlit("9");
    }
    let s = if d == 0 {
        "0"
    } else if d == 1 {
        "1"
    } else if d == 2 {
        "2"
    } else if d == 3 {
        "3"
    } else if d == 4 {
        "4"
    } else if d == 5 {
        "5"
    } else if d == 6 {
        "6"
    } else if d == 7 {
        "7"
    } else if d == 8 {
        "8"
    } else {
        "9"
    };
    assert(s@ =~= seq![digit(d as int)]);
    s
}

/// Appends `n` in decimal digits.
fn append_digits(text: &mut String, n: u64)
    ensures
        final(text)@ == old(text)@ + digits(n as nat),
    decreases n,
{
    if n >= 10 {
        append_digits(text, n / 10);
    }
    text.append(digit_str(n % 10));
    assert(text@ =~= old(text)@ + digits(n as nat));
}

/// Appends the length of `v` thousandths in decimal notation.
fn append_decimal(text: &mut String, v: i32)
    ensures
        final(text)@ == old(text)@ + decimal(v as int),
{
    let a: u64 = if v < 0 {
        proof {
            reveal_strlit("-");
        }
        text.append("-");
        (-(v as i64)) as u64
    } else {
        v as u64
    };
    append_digits(text, a / 1000);
    let f: u64 = a % 1000;
    if f != 0 {
        proof {
            reveal_strlit(".");
        }
        text.append(".");
        text.append(digit_str(f / 100));
        if f % 100 != 0 {
            text.append(digit_str(f / 10 % 10));
            if f % 10 != 0 {
                text.append(digit_str(f % 10));
            }
        }
    }
    assert(text@ =~= old(text)@ + decimal(v as int));
}

/// The height of each line over the common denominator 1000.
pub proof fn lemma_label_y(t: int, k: int)
    ensures
        label_y(t, k) == thousandths(-1000000 - 2 * k * t),
{
    let step = thousandths(t).scaled(2 * k);
    let y = label_y(t, k);
    assert(y.num == -1000000 - 2 * k * t) by (nonlinear_arith)
        requires
            y.num == (-1000) * 1000 - ((2 * k) * t) * 1,
    ;
    assert(y.den == 1000);
}

/// Every number of the block has a positive denominator.
pub proof fn lemma_label_block_well_formed(m: SteelColumnModel)
    ensures
        all_well_formed(label_block(m)),
{
    assert forall|k: int| 0 <= k < label_block(m).len() implies (#[trigger] label_block(
        m,
    )[k]).wf() by {
        lemma_label_y(m.text_height, k);
    }
}

/// The height of line `k` of the block.
fn line_height(height: i32, k: usize) -> (y: Ratio)
    requires
        k < 6,
    ensures
        y@ == label_y(height as int, k as int),
{
    proof {
        lemma_label_y(height as int, k as int);
        assert(-0x8_0000_0000 <= (2 * k) * height <= 0x8_0000_0000) by (nonlinear_arith)
            requires
                0 <= k < 6,
                -0x8000_0000 <= height <= 0x8000_0000,
        ;
        assert(2 * k * height == (2 * k) * height);
    }
    let drop: i128 = (2 * (k as i128)) * (height as i128);
    Ratio { num: -1000000 - drop, den: 1000 }
}

fn section_text(s: &HSection) -> (text: String)
    ensures
        text@ == section_label(s@),
{
    reveal(section_label);
    let mut text = String::new();
    text.append("H-");
    append_decimal(&mut text, s.h.thousandths);
    text.append("x");
    append_decimal(&mut text, s.b.thousandths);
    text.append("x");
    append_decimal(&mut text, s.tw.thousandths);
    text.append("x");
    append_decimal(&mut text, s.tf.thousandths);
    text.append("(");
    text.append(s.material.as_str());
    text.append(")");
    assert(text@ =~= section_label(s@));
    text
}

fn plate_text(p: &BasePlate) -> (text: String)
    ensures
        text@ == plate_label(p@),
{
    reveal(plate_label);
    let mut text = String::new();
    text.append("BPL-");
    append_decimal(&mut text, p.t.thousandths);
    text.append("x");
    append_decimal(&mut text, p.lx.thousandths);
    text.append("x");
    append_decimal(&mut text, p.ly.thousandths);
    text.append("(");
    text.append(p.material.as_str());
    text.append(")");
    assert(text@ =~= plate_label(p@));
    text
}

fn bolt_text(b: &AnchorBolt) -> (text: String)
    requires
        b.nx >= 1,
        b.ny >= 1,
    ensures
        text@ == bolt_label(b@),
{
    reveal(bolt_label);
    let count: u64 = 2 * (b.nx as u64 - 1) + 2 * (b.ny as u64 - 1);
    let mut text = String::new();
    append_digits(&mut text, count);
    text.append("-M");
    append_decimal(&mut text, b.d.thousandths);
    text.append("(L=");
    append_decimal(&mut text, b.l.thousandths);
    text.append(",");
    text.append(b.material.as_str());
    text.append(")");
    assert(text@ =~= bolt_label(b@));
    text
}

fn note_text(note: &str) -> (text: String)
    ensures
        text@ == note_label(note@),
{
    reveal(note_label);
    let mut text = String::new();
    text.append("(");
    text.append(note);
    text.append(")");
    assert(text@ =~= note_label(note@));
    text
}

fn anchor_plate_text(a: &AnchorPlate) -> (text: String)
    ensures
        text@ == anchor_plate_label(a@),
{
    reveal(anchor_plate_label);
    let mut text = String::new();
    text.append("PL-");
    append_decimal(&mut text, a.t.thousandths);
    text.append("x");
    append_decimal(&mut text, a.d.thousandths);
    text.append("x");
    append_decimal(&mut text, a.d.thousandths);
    text.append("(");
    text.append(a.material.as_str());
    text.append(")");
    assert(text@ =~= anchor_plate_label(a@));
    text
}

/// Appends the block of labels to the sheet, on the text layer: the column
/// name, the section, the base plate, the bolts, the note and the anchor
/// plate. Each line is centred on `x = 0`; the first stands at
/// `y = -1000`, and each further line twice the text height below the one
/// before.
#[verifier::rlimit(40)]
pub fn write_texts(sheet: &mut Sheet, input: &SteelColumnDrawing) -> (res: Result<
    (),
    DrawingError,
>)
    requires
        input@.has_bolts(),
    ensures
        res is Ok,
        final(sheet).document == old(sheet).document,
        final(sheet)@ == old(sheet)@.with_entities(label_block(input@)),
        forall|k: int|
            0 <= k < 6 ==> match (#[trigger] final(sheet)@.entities[old(sheet)@.entities.len()
                + k]).shape {
                ShapeModel::Text { location, horizontal, vertical, .. } => location.x
                    == Rational::whole(0) && location.y == Rational::whole(-1000).minus(
                    thousandths(input@.text_height).scaled(2 * k),
                ) && horizontal == Justification::Middle && vertical == Justification::Middle,
                _ => false,
            },
{
    let height: i32 = input.layout.text_height.thousandths;
    let layer = input.layer_name.text.as_str();

    let values: Vec<String> = vec![
        input.column_name.clone(),
        section_text(&input.h_section),
        plate_text(&input.base_plate),
        bolt_text(&input.anchor_bolt),
        note_text(input.anchor_bolt.note.as_str()),
        anchor_plate_text(&input.anchor_plate),
    ];
    let ghost m = input@;
    let ghost start = sheet@;
    assert(values@.map_values(|v: String| v@) =~= label_texts(m));

    for k in 0..6usize
        invariant
            m == input@,
            height == m.text_height,
            layer@ == m.layer_name.text,
            values.len() == 6,
            values@.map_values(|v: String| v@) == label_texts(m),
            sheet.document == old(sheet).document,
            sheet@.entities == start.entities + label_block(m).take(k as int),
    {
        let y = line_height(height, k);
        proof {
            assert(values@.map_values(|v: String| v@)[k as int] == values[k as int]@);
        }
        write_text(
            sheet,
            Ratio::whole(0),
            y,
            input.layout.text_height.to_ratio(),
            values[k].as_str(),
            layer,
        )?;
        assert(sheet@.entities =~= start.entities + label_block(m).take(k as int + 1));
    }
    assert(label_block(m).take(6) =~= label_block(m));
    Ok(())
}

impl Length {
    /// The length in decimal notation, as the labels write it: `300`,
    /// `13.5`, `-0.125`.
    pub fn to_text(self) -> (text: String)
        ensures
            text@ == decimal(self.thousandths as int),
    {
        let mut text = String::new();
        append_decimal(&mut text, self.thousandths);
        assert(text@ =~= decimal(self.thousandths as int));
        text
    }
}

} // verus!
