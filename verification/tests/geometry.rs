use stdr_scol::bolt::get_bolt_coords;
use stdr_scol::column::write_column;
use stdr_scol::input::{
    AnchorBolt, AnchorPlate, BasePlate, HSection, LayerName, Layout, SteelColumnDrawing,
};
use stdr_scol::number::{Length, Ratio};
use stdr_scol::output_util::{
    write_arc, write_circle, write_cross, write_line, write_text, DrawingError, Entity,
    Justification, Point, Shape, Sheet,
};
use stdr_scol::plate::write_base_plate;

fn mm(n: i32) -> Length {
    Length { thousandths: n * 1000 }
}

fn float(r: Ratio) -> f64 {
    r.num as f64 / r.den as f64
}

fn column_base(r: i32, nx: u32, ny: u32, jx: i32, jy: i32) -> SteelColumnDrawing {
    SteelColumnDrawing {
        column_name: "C2".to_string(),
        h_section: HSection {
            h: mm(300),
            b: mm(200),
            tw: mm(9),
            tf: mm(14),
            r: mm(r),
            material: "SN400B".to_string(),
        },
        base_plate: BasePlate {
            lx: mm(450),
            ly: mm(380),
            t: mm(25),
            material: "SN490C".to_string(),
        },
        anchor_bolt: AnchorBolt {
            d: mm(22),
            l: mm(500),
            nx,
            ny,
            jx: mm(jx),
            jy: mm(jy),
            material: "ABR400".to_string(),
            note: "note".to_string(),
        },
        anchor_plate: AnchorPlate { t: mm(9), d: mm(60), material: "SS400".to_string() },
        layer_name: LayerName {
            s_column: "col".to_string(),
            bolt: "bolt".to_string(),
            plate: "plate".to_string(),
            text: "text".to_string(),
        },
        layout: Layout { text_height: mm(100) },
    }
}

fn floats(coords: &[(Ratio, Ratio)]) -> Vec<(f64, f64)> {
    coords.iter().map(|c| (float(c.0), float(c.1))).collect()
}

fn segment(e: &Entity) -> ((f64, f64), (f64, f64)) {
    match &e.shape {
        Shape::Line { start, end } => {
            ((float(start.x), float(start.y)), (float(end.x), float(end.y)))
        }
        _ => panic!("not a line"),
    }
}

/// The angle `a`, in whole degrees, brought into the range from 0 up to 360.
fn turned(a: f64) -> f64 {
    a.rem_euclid(360.0)
}

/// The figure as a list of plain numbers: a segment with its ends in order,
/// an arc with its centre, radius and angles.
fn plain(e: &Entity, flip_x: bool, flip_y: bool) -> Vec<f64> {
    let sx = if flip_x { -1.0 } else { 1.0 };
    let sy = if flip_y { -1.0 } else { 1.0 };
    match &e.shape {
        Shape::Line { start, end } => {
            let mut a = (sx * float(start.x), sy * float(start.y));
            let mut b = (sx * float(end.x), sy * float(end.y));
            if b < a {
                std::mem::swap(&mut a, &mut b);
            }
            vec![0.0, a.0, a.1, b.0, b.1]
        }
        Shape::Arc { center, radius, start_angle, end_angle } => {
            let (mut s, mut e) = (float(*start_angle), float(*end_angle));
            if flip_x {
                (s, e) = (turned(180.0 - e), turned(180.0 - s));
            }
            if flip_y {
                (s, e) = (turned(-e), turned(-s));
            }
            vec![1.0, sx * float(center.x), sy * float(center.y), float(*radius), s, e]
        }
        _ => panic!("neither a line nor an arc"),
    }
}

#[test]
fn bolt_grid_of_two_by_two() {
    let coords = get_bolt_coords(&column_base(13, 2, 2, 300, 260));
    assert_eq!(coords.len(), 8);
    assert_eq!(
        floats(&coords),
        vec![
            (-150.0, -130.0),
            (150.0, -130.0),
            (-150.0, 130.0),
            (150.0, 130.0),
            (-150.0, -130.0),
            (-150.0, 130.0),
            (150.0, -130.0),
            (150.0, 130.0),
        ]
    );
}

#[test]
fn bolt_grid_of_four_by_three() {
    let coords = get_bolt_coords(&column_base(13, 4, 3, 300, 600));
    assert_eq!(coords.len(), 2 * 4 + 2 * 3);
    assert_eq!(
        floats(&coords),
        vec![
            (-150.0, -300.0),
            (150.0, -300.0),
            (-150.0, -100.0),
            (150.0, -100.0),
            (-150.0, 100.0),
            (150.0, 100.0),
            (-150.0, 300.0),
            (150.0, 300.0),
            (-150.0, -300.0),
            (-150.0, 300.0),
            (0.0, -300.0),
            (0.0, 300.0),
            (150.0, -300.0),
            (150.0, 300.0),
        ]
    );
}

#[test]
fn bolt_grid_keeps_thirds_exact() {
    let coords = get_bolt_coords(&column_base(13, 4, 1, 300, 100));
    assert_eq!(coords[2].1, Ratio { num: -100_000, den: 6000 });
    assert_eq!(coords[4].1, Ratio { num: 100_000, den: 6000 });
    assert_eq!(coords[6].1, Ratio { num: 300_000, den: 6000 });
    assert_eq!(coords[0].0, Ratio { num: -300_000, den: 2000 });
    assert_eq!(coords[1].0, Ratio { num: 300_000, den: 2000 });
}

#[test]
fn single_bolt_stands_at_the_start_of_its_span() {
    let coords = get_bolt_coords(&column_base(13, 1, 1, 300, 260));
    assert_eq!(coords.len(), 4);
    assert_eq!(
        floats(&coords),
        vec![(-150.0, -130.0), (150.0, -130.0), (-150.0, -130.0), (-150.0, 130.0)]
    );
}

#[test]
fn single_bolt_on_the_centre_line_when_the_span_is_zero() {
    let coords = get_bolt_coords(&column_base(13, 1, 3, 300, 0));
    assert_eq!(coords.len(), 2 + 6);
    assert_eq!(float(coords[0].1), 0.0);
    assert_eq!(float(coords[1].1), 0.0);

    let coords = get_bolt_coords(&column_base(13, 3, 1, 0, 260));
    assert_eq!(coords.len(), 6 + 2);
    assert_eq!(float(coords[6].0), 0.0);
    assert_eq!(float(coords[7].0), 0.0);
}

#[test]
fn bolt_count_is_twice_the_sum() {
    for (nx, ny) in [(1u32, 1u32), (1, 5), (2, 2), (7, 3), (10, 10), (0, 0), (0, 2)] {
        let coords = get_bolt_coords(&column_base(13, nx, ny, 300, 300));
        assert_eq!(coords.len() as u32, 2 * nx + 2 * ny);
    }
}

#[test]
fn column_outline_with_fillets() {
    let mut sheet = Sheet::new();
    assert_eq!(write_column(&mut sheet, &column_base(13, 2, 2, 300, 300)), Ok(()));
    let e = &sheet.entities;
    assert_eq!(e.len(), 16);
    for entity in e.iter() {
        assert_eq!(entity.layer, "col");
    }

    assert_eq!(segment(&e[0]), ((-100.0, 150.0), (100.0, 150.0)));
    assert_eq!(segment(&e[1]), ((-100.0, -150.0), (100.0, -150.0)));
    assert_eq!(segment(&e[2]), ((-100.0, 136.0), (-100.0, 150.0)));
    assert_eq!(segment(&e[3]), ((100.0, 136.0), (100.0, 150.0)));
    assert_eq!(segment(&e[4]), ((-100.0, -136.0), (-100.0, -150.0)));
    assert_eq!(segment(&e[5]), ((100.0, -136.0), (100.0, -150.0)));
    assert_eq!(segment(&e[6]), ((-100.0, 136.0), (-17.5, 136.0)));
    assert_eq!(segment(&e[7]), ((100.0, 136.0), (17.5, 136.0)));
    assert_eq!(segment(&e[8]), ((-100.0, -136.0), (-17.5, -136.0)));
    assert_eq!(segment(&e[9]), ((100.0, -136.0), (17.5, -136.0)));
    assert_eq!(segment(&e[10]), ((-4.5, -123.0), (-4.5, 123.0)));
    assert_eq!(segment(&e[11]), ((4.5, -123.0), (4.5, 123.0)));

    let expected = [
        (-17.5, 123.0, 0.0, 90.0),
        (17.5, 123.0, 90.0, 180.0),
        (17.5, -123.0, 180.0, 270.0),
        (-17.5, -123.0, 270.0, 0.0),
    ];
    for (k, (x, y, start, end)) in expected.iter().enumerate() {
        match &e[12 + k].shape {
            Shape::Arc { center, radius, start_angle, end_angle } => {
                assert_eq!((float(center.x), float(center.y)), (*x, *y));
                assert_eq!(float(*radius), 13.0);
                assert_eq!(float(*start_angle), *start);
                assert_eq!(float(*end_angle), *end);
            }
            _ => panic!("not an arc"),
        }
    }
}

#[test]
fn column_outline_without_fillets() {
    let mut sheet = Sheet::new();
    assert_eq!(write_column(&mut sheet, &column_base(0, 2, 2, 300, 300)), Ok(()));
    let e = &sheet.entities;
    assert_eq!(e.len(), 12);
    assert!(e.iter().all(|entity| matches!(entity.shape, Shape::Line { .. })));
    assert_eq!(segment(&e[6]), ((-100.0, 136.0), (-4.5, 136.0)));
    assert_eq!(segment(&e[10]), ((-4.5, -136.0), (-4.5, 136.0)));
}

#[test]
fn column_outline_is_its_own_mirror_image() {
    for r in [0, 13] {
        let mut sheet = Sheet::new();
        assert_eq!(write_column(&mut sheet, &column_base(r, 2, 2, 300, 300)), Ok(()));
        let figures: Vec<Vec<f64>> =
            sheet.entities.iter().map(|e| plain(e, false, false)).collect();
        for e in sheet.entities.iter() {
            assert!(figures.contains(&plain(e, true, false)));
            assert!(figures.contains(&plain(e, false, true)));
        }
    }
}

#[test]
fn base_plate_is_a_closed_rectangle() {
    let mut sheet = Sheet::new();
    assert_eq!(write_base_plate(&mut sheet, &column_base(13, 2, 2, 300, 300)), Ok(()));
    let e = &sheet.entities;
    assert_eq!(e.len(), 4);
    assert_eq!(segment(&e[0]), ((-225.0, -190.0), (225.0, -190.0)));
    assert_eq!(segment(&e[1]), ((-225.0, 190.0), (225.0, 190.0)));
    assert_eq!(segment(&e[2]), ((-225.0, -190.0), (-225.0, 190.0)));
    assert_eq!(segment(&e[3]), ((225.0, -190.0), (225.0, 190.0)));

    let corners = [(-225.0, -190.0), (225.0, -190.0), (225.0, 190.0), (-225.0, 190.0)];
    for corner in corners {
        let touching =
            e.iter().filter(|s| segment(s).0 == corner || segment(s).1 == corner).count();
        assert_eq!(touching, 2);
    }
    for side in e.iter() {
        assert_eq!(side.layer, "plate");
    }
}

#[test]
fn primitives_are_appended_as_given() {
    let mut sheet = Sheet::new();
    let one = Ratio { num: 1, den: 1 };
    let two = Ratio { num: 4, den: 2 };
    let three = Ratio { num: 3, den: 1 };
    let four = Ratio { num: -8, den: -2 };
    assert_eq!(write_line(&mut sheet, one, two, three, four, "a"), Ok(()));
    assert_eq!(write_circle(&mut sheet, one, two, three, "b"), Ok(()));
    assert_eq!(write_arc(&mut sheet, one, two, three, four, one, "c"), Ok(()));
    assert_eq!(write_text(&mut sheet, one, two, three, "words", "d"), Ok(()));
    assert_eq!(
        sheet.entities,
        vec![
            Entity {
                shape: Shape::Line {
                    start: Point { x: one, y: two },
                    end: Point { x: three, y: four },
                },
                layer: "a".to_string(),
            },
            Entity {
                shape: Shape::Circle { center: Point { x: one, y: two }, radius: three },
                layer: "b".to_string(),
            },
            Entity {
                shape: Shape::Arc {
                    center: Point { x: one, y: two },
                    radius: three,
                    start_angle: four,
                    end_angle: one,
                },
                layer: "c".to_string(),
            },
            Entity {
                shape: Shape::Text {
                    location: Point { x: one, y: two },
                    text_height: three,
                    value: "words".to_string(),
                    horizontal: Justification::Middle,
                    vertical: Justification::Middle,
                },
                layer: "d".to_string(),
            },
        ]
    );
}

#[test]
fn cross_is_two_strokes() {
    let mut sheet = Sheet::new();
    let x = Ratio { num: 3, den: 2 };
    let y = Ratio { num: -5, den: 1 };
    let r = Ratio { num: 29, den: 2 };
    assert_eq!(write_cross(&mut sheet, x, y, r, "bolt"), Ok(()));
    assert_eq!(sheet.entities.len(), 2);
    assert_eq!(segment(&sheet.entities[0]), ((-13.0, -5.0), (16.0, -5.0)));
    assert_eq!(segment(&sheet.entities[1]), ((1.5, -19.5), (1.5, 9.5)));
    assert_eq!(
        sheet.entities[0].shape,
        Shape::Line {
            start: Point { x: Ratio { num: -52, den: 4 }, y },
            end: Point { x: Ratio { num: 64, den: 4 }, y },
        }
    );
    assert_eq!(sheet.entities[0].layer, "bolt");
    assert_eq!(sheet.entities[1].layer, "bolt");
}

#[test]
fn cross_that_cannot_be_held_is_refused() {
    let mut sheet = Sheet::new();
    let one = Ratio { num: 1, den: 1 };
    assert_eq!(write_line(&mut sheet, one, one, one, one, "a"), Ok(()));
    let huge = Ratio { num: i128::MAX, den: 1 };
    assert_eq!(write_cross(&mut sheet, huge, one, one, "bolt"), Err(DrawingError::Overflow));
    assert_eq!(write_cross(&mut sheet, one, huge, one, "bolt"), Err(DrawingError::Overflow));
    let wide = Ratio { num: 1, den: i128::MAX };
    assert_eq!(write_cross(&mut sheet, wide, one, wide, "bolt"), Err(DrawingError::Overflow));
    assert_eq!(sheet.entities.len(), 1);
}

#[test]
fn sums_and_differences_of_ratios() {
    let a = Ratio { num: 1, den: 2 };
    let b = Ratio { num: 1, den: 3 };
    assert_eq!(
        a.checked_plus_minus(b),
        Some((Ratio { num: 5, den: 6 }, Ratio { num: 1, den: 6 }))
    );
    let c = Ratio { num: -7, den: 4 };
    assert_eq!(
        c.checked_plus_minus(Ratio::whole(2)),
        Some((Ratio { num: 1, den: 4 }, Ratio { num: -15, den: 4 }))
    );
    assert_eq!(Ratio { num: i128::MAX, den: 1 }.checked_plus_minus(Ratio::whole(1)), None);
    assert_eq!(Ratio { num: i128::MIN, den: 1 }.checked_plus_minus(Ratio::whole(1)), None);
    assert_eq!(Ratio { num: 2, den: i128::MAX }.checked_plus_minus(Ratio::whole(1)), None);
}

#[test]
fn halves_and_lengths_as_ratios() {
    assert_eq!(Ratio::half(27_000), Ratio { num: 27_000, den: 2000 });
    assert_eq!(float(Ratio::half(27_000)), 13.5);
    assert_eq!(Ratio::whole(-90), Ratio { num: -90, den: 1 });
    assert_eq!(mm(13).to_ratio(), Ratio { num: 13_000, den: 1000 });
    assert_eq!(float(Length { thousandths: -1250 }.to_ratio()), -1.25);
}

#[test]
fn error_messages() {
    assert_eq!(DrawingError::NoFileStem.message(), "Cannot get file stem");
    assert_eq!(DrawingError::Overflow.message(), "A coordinate is too large");
}
