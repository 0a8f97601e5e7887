use skrifa::raw::tables::glyf::CurvePoint;
use tachys_font::editor::{Editor, Placement};
use tachys_font::error::FontError;
use tachys_font::font::UiFont;
use write_fonts::tables::cmap::Cmap;
use write_fonts::tables::glyf::{Bbox, Contour, GlyfLocaBuilder, SimpleGlyph};
use write_fonts::tables::head::Head;
use write_fonts::tables::hhea::Hhea;
use write_fonts::tables::hmtx::{Hmtx, LongMetric};
use write_fonts::tables::loca::LocaFormat;
use write_fonts::tables::maxp::Maxp;
use write_fonts::tables::name::{Name, NameRecord};
use write_fonts::types::{GlyphId, NameId};
use write_fonts::FontBuilder;

fn square(size: i16) -> SimpleGlyph {
    let points = vec![
        CurvePoint::on_curve(0, 0),
        CurvePoint::on_curve(0, size),
        CurvePoint::on_curve(size, size),
        CurvePoint::on_curve(size, 0),
    ];
    SimpleGlyph {
        bbox: Bbox { x_min: 0, y_min: 0, x_max: size, y_max: size },
        contours: vec![Contour::from(points)],
        instructions: Vec::new(),
        overlaps: false,
    }
}

/// A font of 1000 units per em with `a`, 300 units wide, `b`, 500 units
/// wide, and a space of 250 units.
fn proportional_font() -> Vec<u8> {
    let mut glyphs = GlyfLocaBuilder::new();
    glyphs.add_glyph(&SimpleGlyph::default()).unwrap();
    glyphs.add_glyph(&square(200)).unwrap();
    glyphs.add_glyph(&square(400)).unwrap();
    glyphs.add_glyph(&SimpleGlyph::default()).unwrap();
    let (glyf, loca, format) = glyphs.build();
    let cmap = Cmap::from_mappings(vec![
        ('a', GlyphId::new(1)),
        ('b', GlyphId::new(2)),
        (' ', GlyphId::new(3)),
    ])
    .unwrap();
    let head = Head {
        units_per_em: 1000,
        index_to_loc_format: match format {
            LocaFormat::Short => 0,
            LocaFormat::Long => 1,
        },
        ..Default::default()
    };
    let hhea = Hhea { number_of_h_metrics: 4, ..Default::default() };
    let hmtx = Hmtx::new(
        vec![
            LongMetric::new(0, 0),
            LongMetric::new(300, 0),
            LongMetric::new(500, 0),
            LongMetric::new(250, 0),
        ],
        Vec::new(),
    );
    let maxp = Maxp {
        num_glyphs: 4,
        max_points: Some(4),
        max_contours: Some(1),
        max_composite_points: Some(0),
        max_composite_contours: Some(0),
        max_zones: Some(1),
        max_twilight_points: Some(0),
        max_storage: Some(0),
        max_function_defs: Some(0),
        max_instruction_defs: Some(0),
        max_stack_elements: Some(0),
        max_size_of_instructions: Some(0),
        max_component_elements: Some(0),
        max_component_depth: Some(0),
    };
    let name = Name::new(vec![NameRecord::new(
        3,
        1,
        0x409,
        NameId::FAMILY_NAME,
        "Editor Sans".to_string().into(),
    )]);
    let mut builder = FontBuilder::new();
    builder.add_table(&head).unwrap();
    builder.add_table(&hhea).unwrap();
    builder.add_table(&hmtx).unwrap();
    builder.add_table(&maxp).unwrap();
    builder.add_table(&name).unwrap();
    builder.add_table(&cmap).unwrap();
    builder.add_table(&glyf).unwrap();
    builder.add_table(&loca).unwrap();
    builder.build()
}

fn typed(keys: &[&str]) -> Editor {
    let mut editor = Editor::new();
    for key in keys {
        editor.insert(key);
    }
    editor
}

#[test]
fn a_new_editor_is_empty() {
    let editor = Editor::new();
    assert_eq!(editor.as_str(), "");
    assert_eq!(editor.cursor_position(), 0);
}

#[test]
fn typing_appends_and_moves_the_cursor() {
    let mut editor = Editor::new();
    assert!(editor.insert("a"));
    assert_eq!(editor.as_str(), "a");
    assert_eq!(editor.cursor_position(), 1);
    assert!(editor.insert("b"));
    assert_eq!(editor.as_str(), "ab");
    assert_eq!(editor.cursor_position(), 2);
}

#[test]
fn empty_text_changes_nothing() {
    let mut editor = typed(&["a"]);
    assert!(!editor.insert(""));
    assert_eq!(editor.as_str(), "a");
    assert_eq!(editor.cursor_position(), 1);
}

#[test]
fn a_key_with_several_characters_moves_the_cursor_by_one() {
    let mut editor = typed(&["xy", "b"]);
    assert_eq!(editor.as_str(), "xby");
    assert_eq!(editor.cursor_position(), 2);
    editor.insert("c");
    assert_eq!(editor.as_str(), "xbcy");
    assert_eq!(editor.cursor_position(), 3);
}

#[test]
fn characters_beyond_ascii_count_as_one() {
    let mut editor = typed(&["\u{e9}", "a"]);
    assert_eq!(editor.as_str(), "\u{e9}a");
    assert_eq!(editor.cursor_position(), 2);
    assert_eq!(editor.len(), 2);
    assert_eq!(Editor::default().len(), 0);
}

#[test]
fn the_pen_stands_at_the_sum_of_the_advances() {
    let data = proportional_font();
    let mut font = UiFont::new(&data).unwrap();
    let editor = typed(&["a", "b", " ", "a"]);
    let placed = editor.place(&mut font, 1000).unwrap();
    assert_eq!(
        placed,
        vec![
            Placement { character: 'a', pen_x: 0, advance: 300, at_cursor: false },
            Placement { character: 'b', pen_x: 300, advance: 500, at_cursor: false },
            Placement { character: ' ', pen_x: 800, advance: 250, at_cursor: false },
            Placement { character: 'a', pen_x: 1050, advance: 300, at_cursor: true },
        ]
    );
    assert_eq!(font.render_count(), 3);
    let again = editor.place(&mut font, 1000).unwrap();
    assert_eq!(again, placed);
    assert_eq!(font.render_count(), 3);
}

#[test]
fn an_empty_line_places_nothing() {
    let data = proportional_font();
    let mut font = UiFont::new(&data).unwrap();
    assert_eq!(Editor::new().place(&mut font, 20).unwrap(), Vec::new());
    assert_eq!(font.render_count(), 0);
}

#[test]
fn a_character_without_a_glyph_ends_the_layout() {
    let data = proportional_font();
    let mut font = UiFont::new(&data).unwrap();
    let editor = typed(&["a", "z", "b"]);
    assert!(matches!(editor.place(&mut font, 100), Err(FontError::NoMap('z'))));
    assert_eq!(font.render_count(), 2);
}
