use stdr_scol::args::Args;
use stdr_scol::input::{
    AnchorBolt, AnchorPlate, BasePlate, HSection, LayerName, Layout, SteelColumnDrawing,
};
use stdr_scol::number::{Length, Ratio};
use stdr_scol::output::set_layer;
use stdr_scol::output_util::{DrawingError, Entity, Shape, Sheet};
use stdr_scol::{output_name, remove_extension, run};

fn units(n: i32) -> Length {
    Length { thousandths: n * 1000 }
}

fn value(r: Ratio) -> f64 {
    r.num as f64 / r.den as f64
}

fn sample() -> SteelColumnDrawing {
    SteelColumnDrawing {
        column_name: "C1".to_string(),
        h_section: HSection {
            h: units(300),
            b: units(200),
            tw: units(9),
            tf: units(14),
            r: units(13),
            material: "SN400B".to_string(),
        },
        base_plate: BasePlate {
            lx: units(400),
            ly: units(400),
            t: units(20),
            material: "SN490C".to_string(),
        },
        anchor_bolt: AnchorBolt {
            d: units(22),
            l: units(500),
            nx: 2,
            ny: 2,
            jx: units(300),
            jy: units(300),
            material: "ABR400".to_string(),
            note: "double nut".to_string(),
        },
        anchor_plate: AnchorPlate { t: units(9), d: units(60), material: "SS400".to_string() },
        layer_name: LayerName {
            s_column: "column".to_string(),
            bolt: "bolt".to_string(),
            plate: "plate".to_string(),
            text: "text".to_string(),
        },
        layout: Layout { text_height: units(100) },
    }
}

fn draw(input: SteelColumnDrawing) -> Sheet {
    stdr_scol::output::write(input).unwrap()
}

fn layers_of(sheet: &Sheet) -> Vec<(String, Option<u8>)> {
    sheet.document.layers().map(|l| (l.name.clone(), l.color.index())).collect()
}

fn ends(e: &Entity) -> ((f64, f64), (f64, f64)) {
    match &e.shape {
        Shape::Line { start, end } => {
            ((value(start.x), value(start.y)), (value(end.x), value(end.y)))
        }
        _ => panic!("not a line"),
    }
}

#[test]
fn whole_drawing_of_the_sample_column() {
    let sheet = draw(sample());

    assert_eq!(
        layers_of(&sheet),
        vec![
            ("0".to_string(), Some(7)),
            ("column".to_string(), Some(4)),
            ("bolt".to_string(), Some(2)),
            ("plate".to_string(), Some(1)),
            ("text".to_string(), Some(3)),
        ]
    );

    let entities = &sheet.entities;
    assert_eq!(entities.len(), 12 + 4 + 4 + 8 * 3 + 6);

    let arcs: Vec<&Entity> =
        entities.iter().filter(|e| matches!(e.shape, Shape::Arc { .. })).collect();
    assert_eq!(arcs.len(), 4);
    for arc in &arcs {
        assert_eq!(arc.layer, "column");
        match &arc.shape {
            Shape::Arc { radius, .. } => assert_eq!(value(*radius), 13.0),
            _ => unreachable!(),
        }
    }

    let plate = &entities[16..20];
    assert_eq!(ends(&plate[0]), ((-200.0, -200.0), (200.0, -200.0)));
    assert_eq!(ends(&plate[1]), ((-200.0, 200.0), (200.0, 200.0)));
    assert_eq!(ends(&plate[2]), ((-200.0, -200.0), (-200.0, 200.0)));
    assert_eq!(ends(&plate[3]), ((200.0, -200.0), (200.0, 200.0)));
    for side in plate {
        assert_eq!(side.layer, "plate");
    }

    let circles: Vec<&Entity> =
        entities.iter().filter(|e| matches!(e.shape, Shape::Circle { .. })).collect();
    assert_eq!(circles.len(), 8);
    let mut centres = Vec::new();
    for circle in &circles {
        assert_eq!(circle.layer, "plate");
        match &circle.shape {
            Shape::Circle { center, radius } => {
                assert_eq!(value(*radius), 13.5);
                centres.push((value(center.x), value(center.y)));
            }
            _ => unreachable!(),
        }
    }
    for corner in [(-150.0, -150.0), (150.0, -150.0), (-150.0, 150.0), (150.0, 150.0)] {
        assert_eq!(centres.iter().filter(|c| **c == corner).count(), 2);
    }

    for k in 0..8 {
        let at = 20 + 3 * k;
        let (cx, cy) = centres[k];
        assert!(matches!(entities[at].shape, Shape::Circle { .. }));
        assert_eq!(ends(&entities[at + 1]), ((cx - 14.5, cy), (cx + 14.5, cy)));
        assert_eq!(ends(&entities[at + 2]), ((cx, cy - 14.5), (cx, cy + 14.5)));
        assert_eq!(entities[at + 1].layer, "bolt");
        assert_eq!(entities[at + 2].layer, "bolt");
    }
}

#[test]
fn layers_are_appended_with_their_colours() {
    let mut sheet = Sheet::new();
    assert_eq!(layers_of(&sheet), vec![("0".to_string(), Some(7))]);
    assert!(sheet.entities.is_empty());

    let mut input = sample();
    input.layer_name = LayerName::default();
    assert_eq!(set_layer(&mut sheet, &input), Ok(()));

    assert_eq!(
        layers_of(&sheet),
        vec![
            ("0".to_string(), Some(7)),
            ("S柱".to_string(), Some(4)),
            ("Sボルト".to_string(), Some(2)),
            ("Sプレート".to_string(), Some(1)),
            ("S文字".to_string(), Some(3)),
        ]
    );
    assert!(sheet.entities.is_empty());
}

#[test]
fn default_layer_names() {
    let names = LayerName::default();
    assert_eq!(names.s_column, "S柱");
    assert_eq!(names.bolt, "Sボルト");
    assert_eq!(names.plate, "Sプレート");
    assert_eq!(names.text, "S文字");
}

#[test]
fn same_input_gives_the_same_drawing() {
    let first = draw(sample());
    let second = draw(sample());
    assert_eq!(layers_of(&first), layers_of(&second));
    assert_eq!(first.entities.len(), second.entities.len());
    assert_eq!(first.entities, second.entities);
}

#[test]
fn stem_of_a_file_name() {
    assert_eq!(remove_extension("column.toml"), Ok("column"));
    assert_eq!(remove_extension("data/base/c1.toml"), Ok("c1"));
    assert_eq!(remove_extension("c1.base.toml"), Ok("c1.base"));
    assert_eq!(remove_extension("plain"), Ok("plain"));
    assert_eq!(remove_extension(".hidden"), Ok(".hidden"));
}

#[test]
fn file_name_without_a_stem() {
    assert_eq!(remove_extension(""), Err(DrawingError::NoFileStem));
    assert_eq!(remove_extension(".."), Err(DrawingError::NoFileStem));
    assert_eq!(remove_extension("/"), Err(DrawingError::NoFileStem));
    assert_eq!(remove_extension("data/.."), Err(DrawingError::NoFileStem));
}

#[test]
fn output_name_ends_in_dxf() {
    assert_eq!(output_name("c1"), "c1.dxf");
    assert_eq!(output_name(""), ".dxf");
    assert_eq!(output_name("c1.base"), "c1.base.dxf");
}

#[test]
fn run_names_the_output_after_the_input() {
    let args = Args { input_file: "data/c1.toml".to_string(), output_file: "unused".to_string() };
    let (name, sheet) = match run(&args, sample()) {
        Ok(out) => out,
        Err(e) => panic!("{:?}", e),
    };
    assert_eq!(name, "c1.dxf");
    assert_eq!(sheet.entities, draw(sample()).entities);
    assert_eq!(layers_of(&sheet).len(), 5);
}

#[test]
fn run_fails_without_a_stem() {
    let args = Args { input_file: "..".to_string(), output_file: String::new() };
    assert!(matches!(run(&args, sample()), Err(DrawingError::NoFileStem)));
}
