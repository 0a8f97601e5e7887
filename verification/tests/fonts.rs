use std::path::PathBuf;

use memmap2::{Mmap, MmapMut};

use tachys_font::attribute::{Attributes, Style};
use tachys_font::data::{font_count, FontDrawData};
use tachys_font::error::FontError;
use tachys_font::font::{Fonts, UiFont};
use tachys_font::glyph::{Glyph, Offset};
use tachys_font::raster::{can_allocate, glyph_frame, GlyphFrame, PixelBox};
use tachys_font::store::{map_failure, read_capacity, FontBuffer, FontStorage, DEFAULT_CAPACITY};
use skrifa::raw::tables::glyf::CurvePoint;
use write_fonts::tables::cmap::Cmap;
use write_fonts::tables::glyf::{
    Anchor, Bbox, Component, ComponentFlags, CompositeGlyph, Contour, GlyfLocaBuilder, SimpleGlyph,
    Transform,
};
use write_fonts::tables::head::Head;
use write_fonts::tables::hhea::Hhea;
use write_fonts::tables::hmtx::{Hmtx, LongMetric};
use write_fonts::tables::loca::LocaFormat;
use write_fonts::tables::maxp::Maxp;
use write_fonts::tables::name::{Name, NameRecord};
use write_fonts::tables::os2::Os2;
use write_fonts::types::{FWord, GlyphId, NameId, Tag, UfWord};
use write_fonts::FontBuilder;

const UPEM: u16 = 1000;
const ADVANCE: u16 = 625;
const REGULAR: u16 = 400;
const BOLD: u16 = 700;

fn rectangle(x_min: i16, y_min: i16, x_max: i16, y_max: i16) -> SimpleGlyph {
    let points = vec![
        CurvePoint::on_curve(x_min, y_min),
        CurvePoint::on_curve(x_min, y_max),
        CurvePoint::on_curve(x_max, y_max),
        CurvePoint::on_curve(x_max, y_min),
    ];
    SimpleGlyph {
        bbox: Bbox { x_min, y_min, x_max, y_max },
        contours: vec![Contour::from(points)],
        instructions: Vec::new(),
        overlaps: false,
    }
}

/// A monospace font with nine glyphs: `.notdef`, `H`, `i`, the space, `-`,
/// a stroke without height, `@`, which is made of itself, `j`, which
/// reaches left of the pen and below the baseline, `_`, one unit high, and
/// `f`, with edges on odd units.
fn font_with_names(names: Vec<(NameId, &str)>, weight: u16) -> Vec<u8> {
    font_with_program(names, weight, None)
}

/// The same font with a font program, which the hinter runs before it fits
/// any glyph.
fn font_with_program(names: Vec<(NameId, &str)>, weight: u16, program: Option<Vec<u8>>) -> Vec<u8> {
    let mut glyphs = GlyfLocaBuilder::new();
    glyphs.add_glyph(&SimpleGlyph::default()).unwrap();
    glyphs.add_glyph(&rectangle(100, 0, 500, 700)).unwrap();
    glyphs.add_glyph(&rectangle(250, 0, 350, 500)).unwrap();
    glyphs.add_glyph(&SimpleGlyph::default()).unwrap();
    glyphs.add_glyph(&rectangle(100, 300, 500, 300)).unwrap();
    let itself = Component::new(
        GlyphId::new(5),
        Anchor::Offset { x: 0, y: 0 },
        Transform::default(),
        ComponentFlags::default(),
    );
    glyphs
        .add_glyph(&CompositeGlyph::new(itself, Bbox { x_min: 0, y_min: 0, x_max: 500, y_max: 500 }))
        .unwrap();
    glyphs.add_glyph(&rectangle(-100, -200, 300, 500)).unwrap();
    glyphs.add_glyph(&rectangle(100, -1, 501, 0)).unwrap();
    glyphs.add_glyph(&rectangle(101, -1, 500, 301)).unwrap();
    let (glyf, loca, format) = glyphs.build();
    let cmap = Cmap::from_mappings(vec![
        ('H', GlyphId::new(1)),
        ('i', GlyphId::new(2)),
        (' ', GlyphId::new(3)),
        ('-', GlyphId::new(4)),
        ('@', GlyphId::new(5)),
        ('j', GlyphId::new(6)),
        ('_', GlyphId::new(7)),
        ('f', GlyphId::new(8)),
    ])
    .unwrap();
    let head = Head {
        units_per_em: UPEM,
        index_to_loc_format: match format {
            LocaFormat::Short => 0,
            LocaFormat::Long => 1,
        },
        ..Default::default()
    };
    let hhea = Hhea {
        ascender: FWord::new(800),
        descender: FWord::new(-200),
        advance_width_max: UfWord::new(ADVANCE),
        number_of_h_metrics: 9,
        ..Default::default()
    };
    let hmtx = Hmtx::new(
        vec![
            LongMetric::new(ADVANCE, 0),
            LongMetric::new(ADVANCE, 100),
            LongMetric::new(ADVANCE, 250),
            LongMetric::new(ADVANCE, 0),
            LongMetric::new(ADVANCE, 100),
            LongMetric::new(ADVANCE, 0),
            LongMetric::new(ADVANCE, -100),
            LongMetric::new(ADVANCE, 100),
            LongMetric::new(ADVANCE, 101),
        ],
        Vec::new(),
    );
    let maxp = Maxp {
        num_glyphs: 9,
        max_points: Some(4),
        max_contours: Some(1),
        max_composite_points: Some(0),
        max_composite_contours: Some(0),
        max_zones: Some(1),
        max_twilight_points: Some(0),
        max_storage: Some(0),
        max_function_defs: Some(0),
        max_instruction_defs: Some(0),
        max_stack_elements: Some(0),
        max_size_of_instructions: Some(0),
        max_component_elements: Some(1),
        max_component_depth: Some(1),
    };
    let os2 = Os2 { us_weight_class: weight, us_width_class: 5, ..Default::default() };
    let records = names
        .into_iter()
        .map(|(id, text)| NameRecord::new(3, 1, 0x409, id, text.to_string().into()))
        .collect();
    let name = Name::new(records);
    let mut builder = FontBuilder::new();
    builder.add_table(&head).unwrap();
    builder.add_table(&hhea).unwrap();
    builder.add_table(&hmtx).unwrap();
    builder.add_table(&maxp).unwrap();
    builder.add_table(&os2).unwrap();
    builder.add_table(&name).unwrap();
    builder.add_table(&cmap).unwrap();
    builder.add_table(&glyf).unwrap();
    builder.add_table(&loca).unwrap();
    if let Some(program) = program {
        builder.add_raw(Tag::new(b"fpgm"), program);
    }
    builder.build()
}

fn font(family: &str, weight: u16) -> Vec<u8> {
    font_with_names(vec![(NameId::FAMILY_NAME, family)], weight)
}

fn attributes(weight: u16) -> Attributes {
    Attributes::new(1.0f32.to_bits(), Style::Normal, f32::from(weight).to_bits())
}

fn glyph(character: char, size_px: u16) -> Glyph {
    Glyph { character, size_px }
}

fn size_of_bitmap(font: &mut UiFont, spec: Glyph) -> Option<(u32, u32)> {
    font.glyph(spec).unwrap().pixmap.as_ref().map(|map| (map.width(), map.height()))
}

#[test]
fn loading_the_same_buffer_twice_gives_one_handle() {
    let data = font("Arial", REGULAR);
    let copy = data.clone();
    let storage = FontStorage::new();
    let mut fonts = Fonts::new(&storage);
    let first = fonts.load(&data).unwrap();
    let second = fonts.load(&copy).unwrap();
    assert_eq!(first, second);
    assert_eq!(fonts.len(), 1);
}

#[test]
fn family_case_does_not_make_a_new_font() {
    let upper = font("ARIAL", REGULAR);
    let lower = font("arial", REGULAR);
    let storage = FontStorage::new();
    let mut fonts = Fonts::new(&storage);
    let first = fonts.load(&upper).unwrap();
    let second = fonts.load(&lower).unwrap();
    assert_eq!(first, second);
    assert_eq!(fonts.get(first).family(), "ARIAL");
}

#[test]
fn another_weight_is_another_font() {
    let regular = font("Arial", REGULAR);
    let bold = font("Arial", BOLD);
    let storage = FontStorage::new();
    let mut fonts = Fonts::new(&storage);
    let first = fonts.load(&regular).unwrap();
    let second = fonts.load(&bold).unwrap();
    assert_ne!(first, second);
    assert_eq!(fonts.len(), 2);
    assert!(fonts.contains(first));
    assert!(fonts.contains(second));
    assert_eq!(fonts.get(first).attributes(), attributes(REGULAR));
    assert_eq!(fonts.get(second).attributes(), attributes(BOLD));
}

#[test]
fn a_buffer_that_is_no_font_is_a_parse_error() {
    let garbage = vec![0u8, 1, 2, 3, 4, 5, 6, 7];
    let nothing: Vec<u8> = Vec::new();
    let storage = FontStorage::new();
    let mut fonts = Fonts::new(&storage);
    assert!(matches!(fonts.load(&garbage), Err(FontError::Parse(_))));
    assert!(matches!(fonts.load(&nothing), Err(FontError::Parse(_))));
    assert_eq!(fonts.len(), 0);
}

#[test]
fn a_font_without_a_family_is_refused() {
    let data = font_with_names(vec![(NameId::COPYRIGHT_NOTICE, "nobody")], REGULAR);
    assert!(matches!(FontDrawData::new(&data), Err(FontError::NoFamilyName)));
    let storage = FontStorage::new();
    let mut fonts = Fonts::new(&storage);
    assert!(matches!(fonts.load(&data), Err(FontError::NoFamilyName)));
    assert_eq!(fonts.len(), 0);
}

#[test]
fn the_typographic_family_stands_in_for_a_missing_family() {
    let data = font_with_names(vec![(NameId::TYPOGRAPHIC_FAMILY_NAME, "Fallback")], REGULAR);
    let parsed = FontDrawData::new(&data).unwrap();
    assert_eq!(parsed.family(), "Fallback");
}

#[test]
fn the_family_name_is_preferred_to_the_typographic_one() {
    let data = font_with_names(
        vec![(NameId::FAMILY_NAME, "Plain"), (NameId::TYPOGRAPHIC_FAMILY_NAME, "Fancy")],
        REGULAR,
    );
    assert_eq!(FontDrawData::new(&data).unwrap().family(), "Plain");
}

#[test]
fn a_glyph_is_rendered_once() {
    let data = font("Arial", REGULAR);
    let mut font = UiFont::new(&data).unwrap();
    assert_eq!(font.render_count(), 0);
    let first = font.glyph(glyph('H', 20)).unwrap().clone();
    assert_eq!(font.render_count(), 1);
    for _ in 0..5 {
        let again = font.glyph(glyph('H', 20)).unwrap();
        assert_eq!(again.advance, first.advance);
        assert_eq!(again.pos, first.pos);
        assert_eq!(
            again.pixmap.as_ref().unwrap().data(),
            first.pixmap.as_ref().unwrap().data()
        );
    }
    assert_eq!(font.render_count(), 1);
    font.glyph(glyph('H', 21)).unwrap();
    assert_eq!(font.render_count(), 2);
    font.glyph(glyph('i', 20)).unwrap();
    assert_eq!(font.render_count(), 3);
}

#[test]
fn an_unmapped_character_fails_and_is_tried_again() {
    let data = font("Arial", REGULAR);
    let mut font = UiFont::new(&data).unwrap();
    assert!(matches!(font.glyph(glyph('\u{FFFF}', 20)), Err(FontError::NoMap('\u{FFFF}'))));
    assert_eq!(font.render_count(), 1);
    assert!(matches!(font.glyph(glyph('\u{FFFF}', 20)), Err(FontError::NoMap('\u{FFFF}'))));
    assert_eq!(font.render_count(), 2);
}

#[test]
fn the_space_has_an_advance_and_no_bitmap() {
    let data = font("Arial", REGULAR);
    let mut font = UiFont::new(&data).unwrap();
    let space = font.glyph(glyph(' ', 20)).unwrap();
    assert!(space.pixmap.is_none());
    assert_eq!(space.pos, Offset { x: 0, y: 0 });
    assert_eq!(space.advance, 12);
}

#[test]
fn a_glyph_without_height_has_invalid_bounds() {
    let data = font("Arial", REGULAR);
    let mut font = UiFont::new(&data).unwrap();
    assert!(matches!(font.glyph(glyph('-', 1000)), Err(FontError::InvalidBounds)));
    assert!(matches!(font.glyph(glyph('-', 1000)), Err(FontError::InvalidBounds)));
    assert_eq!(font.render_count(), 2);
}

#[test]
fn the_bitmap_is_the_box_and_the_margin() {
    let data = font("Arial", REGULAR);
    let mut font = UiFont::new(&data).unwrap();
    let rendered = font.glyph(glyph('H', 1000)).unwrap();
    let map = rendered.pixmap.as_ref().unwrap();
    assert_eq!((map.width(), map.height()), (404, 704));
    assert_eq!(rendered.pos, Offset { x: 100, y: 300 });
    assert_eq!(rendered.advance, 625);
    let small = font.glyph(glyph('i', 1000)).unwrap();
    let map = small.pixmap.as_ref().unwrap();
    assert_eq!((map.width(), map.height()), (104, 504));
    assert_eq!(small.pos, Offset { x: 250, y: 500 });
}

#[test]
fn the_outline_is_filled_inside_the_margin() {
    let data = font("Arial", REGULAR);
    let parsed = FontDrawData::new(&data).unwrap().with_hinting(false);
    let rendered = parsed.render_glyph(glyph('H', 1000)).unwrap();
    let map = rendered.pixmap.unwrap();
    let alpha = |x: u32, y: u32| map.pixel(x, y).unwrap().alpha();
    assert_eq!(alpha(0, 0), 0);
    assert_eq!(alpha(1, 1), 0);
    assert_eq!(alpha(2, 2), 255);
    assert_eq!(alpha(200, 350), 255);
    assert_eq!(alpha(401, 701), 255);
    assert_eq!(alpha(402, 702), 0);
    assert_eq!(alpha(403, 703), 0);
}

#[test]
fn hinting_can_be_switched_off() {
    let data = font("Arial", REGULAR);
    let hinted = FontDrawData::new(&data).unwrap();
    let plain = FontDrawData::new(&data).unwrap().with_hinting(false);
    let a = hinted.render_glyph(glyph('H', 20)).unwrap();
    let b = plain.render_glyph(glyph('H', 20)).unwrap();
    assert_eq!(a.advance, b.advance);
    assert_eq!(a.pos, b.pos);
    assert_eq!(a.pixmap.unwrap().width(), b.pixmap.unwrap().width());
}

#[test]
fn search_finds_a_family_in_the_order_of_loading() {
    let regular = font("Arial", REGULAR);
    let bold = font("Arial", BOLD);
    let other = font("Courier", REGULAR);
    let storage = FontStorage::new();
    let mut fonts = Fonts::new(&storage);
    let regular_id = fonts.load(&regular).unwrap();
    let other_id = fonts.load(&other).unwrap();
    let bold_id = fonts.load(&bold).unwrap();
    assert_eq!(fonts.search("arial", None), vec![regular_id, bold_id]);
    assert_eq!(fonts.search(" Arial ", None), vec![regular_id, bold_id]);
    assert_eq!(fonts.search("\tARIAL\n", None), vec![regular_id, bold_id]);
    assert_eq!(fonts.search("Arial", Some(attributes(BOLD))), vec![bold_id]);
    assert_eq!(fonts.search("Arial", Some(attributes(REGULAR))), vec![regular_id]);
    assert_eq!(fonts.search("Courier", None), vec![other_id]);
    assert_eq!(fonts.search("Courier", Some(attributes(BOLD))), Vec::new());
    assert_eq!(fonts.search("Ari al", None), Vec::new());
    assert_eq!(fonts.search("Helvetica", None), Vec::new());
    assert_eq!(fonts.search("", None), Vec::new());
}

#[test]
fn hi_is_laid_out_by_summing_advances() {
    let data = font("Mono", REGULAR);
    let storage = FontStorage::new();
    let mut fonts = Fonts::new(&storage);
    let id = fonts.load(&data).unwrap();
    let font = fonts.get_mut(id);
    let mut pen_x: i32 = 0;
    let mut placed = Vec::new();
    for character in "Hi".chars() {
        let rendered = font.glyph(glyph(character, 20)).unwrap();
        assert!(rendered.pixmap.is_some());
        placed.push(pen_x);
        pen_x += i32::from(rendered.advance);
    }
    let h = font.glyph(glyph('H', 20)).unwrap().advance;
    let i = font.glyph(glyph('i', 20)).unwrap().advance;
    assert_eq!((h, i), (12, 12));
    assert_eq!(placed, vec![0, i32::from(h)]);
    assert_eq!(pen_x, i32::from(h) + i32::from(i));
    assert_eq!(font.render_count(), 2);
}

#[test]
fn a_frame_is_the_box_widened_by_the_margin() {
    let b = PixelBox { x_min: 2, y_max: 14, width: 10, height: 14 };
    assert_eq!(
        glyph_frame(20, b),
        Some(GlyphFrame {
            width: 14,
            height: 18,
            pos: Offset { x: 2, y: 6 },
            shift_x: 0,
            shift_y: 16,
        })
    );
    let below = PixelBox { x_min: -3, y_max: -1, width: 1, height: 1 };
    assert_eq!(
        glyph_frame(0, below),
        Some(GlyphFrame {
            width: 5,
            height: 5,
            pos: Offset { x: -3, y: 1 },
            shift_x: 5,
            shift_y: 1,
        })
    );
}

#[test]
fn a_box_out_of_range_has_no_frame() {
    assert_eq!(
        glyph_frame(20, PixelBox { x_min: 0, y_max: 10, width: u32::MAX - 3, height: 10 }),
        None
    );
    assert_eq!(
        glyph_frame(20, PixelBox { x_min: 0, y_max: 10, width: 10, height: u32::MAX }),
        None
    );
    assert_eq!(
        glyph_frame(20, PixelBox { x_min: i32::MIN, y_max: 10, width: 10, height: 10 }),
        None
    );
    assert_eq!(
        glyph_frame(20, PixelBox { x_min: 0, y_max: i32::MAX, width: 10, height: 10 }),
        None
    );
    assert_eq!(
        glyph_frame(20, PixelBox { x_min: 0, y_max: i32::MIN, width: 10, height: 10 }),
        None
    );
    assert!(glyph_frame(20, PixelBox { x_min: 0, y_max: 10, width: u32::MAX - 4, height: 10 })
        .is_some());
}

#[test]
fn a_box_under_a_pixel_has_a_frame_of_the_margin() {
    assert_eq!(
        glyph_frame(20, PixelBox { x_min: 3, y_max: 0, width: 12, height: 0 }),
        Some(GlyphFrame {
            width: 16,
            height: 4,
            pos: Offset { x: 3, y: 20 },
            shift_x: -1,
            shift_y: 2,
        })
    );
    assert_eq!(
        glyph_frame(20, PixelBox { x_min: 0, y_max: 10, width: 0, height: 0 }),
        Some(GlyphFrame {
            width: 4,
            height: 4,
            pos: Offset { x: 0, y: 10 },
            shift_x: 2,
            shift_y: 12,
        })
    );
}

#[test]
fn keys_of_different_glyphs_differ() {
    assert_eq!(glyph('A', 20).key(), 0x41 * 65536 + 20);
    assert_eq!(glyph('\u{10FFFF}', u16::MAX).key(), 0x10FFFF * 65536 + 65535);
    assert_ne!(glyph('A', 20).key(), glyph('A', 21).key());
    assert_ne!(glyph('A', 20).key(), glyph('B', 20).key());
}

#[test]
fn the_store_keeps_the_first_buffer_of_a_path() {
    let storage = FontStorage::new();
    let first = storage.load(PathBuf::from("a.ttf"), FontBuffer::Memory(vec![1, 2, 3]));
    assert!(first.first);
    assert_eq!(first.bytes, &[1, 2, 3]);
    let again = storage.load(PathBuf::from("a.ttf"), FontBuffer::Memory(vec![9, 9]));
    assert!(!again.first);
    assert_eq!(again.bytes, &[1, 2, 3]);
    assert_eq!(again.bytes.as_ptr(), first.bytes.as_ptr());
    let other = storage.load(PathBuf::from("b.ttf"), FontBuffer::Memory(vec![9, 9]));
    assert!(other.first);
    assert_eq!(other.bytes, &[9, 9]);
    assert_eq!(first.bytes, &[1, 2, 3]);
}

#[test]
fn opening_a_path_twice_gives_one_font() {
    let storage = FontStorage::new();
    let mut fonts = Fonts::new(&storage);
    let path = PathBuf::from("arial.ttf");
    let first = fonts.open(path.clone(), FontBuffer::Memory(font("Arial", REGULAR))).unwrap();
    let second = fonts.open(path, FontBuffer::Memory(font("Arial", BOLD))).unwrap();
    assert_eq!(first, second);
    assert_eq!(fonts.len(), 1);
    let third = fonts
        .open(PathBuf::from("bold.ttf"), FontBuffer::Memory(font("Arial", BOLD)))
        .unwrap();
    assert_ne!(first, third);
}

#[test]
fn only_an_unsupported_mapping_falls_back_to_reading() {
    let unsupported = std::io::Error::from(std::io::ErrorKind::Unsupported);
    assert!(map_failure(unsupported).is_ok());
    let denied = std::io::Error::from(std::io::ErrorKind::PermissionDenied);
    match map_failure(denied) {
        Err(FontError::IO(e)) => assert_eq!(e.kind(), std::io::ErrorKind::PermissionDenied),
        _ => panic!("a failure that is not about support is the load's failure"),
    }
}

#[test]
fn a_file_is_read_with_its_length_as_capacity() {
    assert_eq!(read_capacity(Some(1234)), 1234);
    assert_eq!(read_capacity(Some(0)), 0);
    assert_eq!(read_capacity(None), 65536);
    assert_eq!(DEFAULT_CAPACITY, 65536);
}

fn directory_len(font: &[u8]) -> usize {
    12 + 16 * usize::from(u16::from_be_bytes([font[4], font[5]]))
}

/// The fonts as one collection file: a header, the table directories, then
/// the tables, with every table offset moved to where the table now lies.
fn collection(fonts: &[Vec<u8>]) -> Vec<u8> {
    let mut at = 12 + 4 * fonts.len();
    let mut directories = Vec::new();
    for font in fonts {
        directories.push(at);
        at += directory_len(font);
    }
    let mut bases = Vec::new();
    for font in fonts {
        bases.push(at);
        at += font.len() - directory_len(font);
    }
    let mut out = Vec::new();
    out.extend_from_slice(b"ttcf");
    out.extend_from_slice(&[0, 1, 0, 0]);
    out.extend_from_slice(&(fonts.len() as u32).to_be_bytes());
    for directory in &directories {
        out.extend_from_slice(&(*directory as u32).to_be_bytes());
    }
    for (font, base) in fonts.iter().zip(&bases) {
        let len = directory_len(font);
        out.extend_from_slice(&font[..12]);
        for record in font[12..len].chunks(16) {
            let offset = u32::from_be_bytes([record[8], record[9], record[10], record[11]]);
            let moved = offset as usize - len + base;
            out.extend_from_slice(&record[..8]);
            out.extend_from_slice(&(moved as u32).to_be_bytes());
            out.extend_from_slice(&record[12..]);
        }
    }
    for font in fonts {
        out.extend_from_slice(&font[directory_len(font)..]);
    }
    out
}

#[test]
fn a_collection_is_read_font_by_font() {
    let file = collection(&[font("Arial", REGULAR), font("Arial", BOLD), font("Courier", REGULAR)]);
    assert!(matches!(font_count(&file), Ok(3)));
    assert_eq!(FontDrawData::from_index(&file, 0).unwrap().attributes(), attributes(REGULAR));
    assert_eq!(FontDrawData::from_index(&file, 1).unwrap().attributes(), attributes(BOLD));
    assert_eq!(FontDrawData::from_index(&file, 2).unwrap().family(), "Courier");
    assert!(matches!(FontDrawData::from_index(&file, 3), Err(FontError::Parse(_))));
    assert!(matches!(FontDrawData::new(&file), Err(FontError::Parse(_))));
    let storage = FontStorage::new();
    let mut fonts = Fonts::new(&storage);
    let regular = fonts.load_index(&file, 0).unwrap();
    let bold = fonts.load_index(&file, 1).unwrap();
    let courier = fonts.load_index(&file, 2).unwrap();
    assert_eq!(fonts.load_index(&file, 1).unwrap(), bold);
    assert_eq!(fonts.len(), 3);
    assert_eq!(fonts.search("arial", None), vec![regular, bold]);
    assert_eq!(fonts.search("courier", None), vec![courier]);
    let rendered = fonts.get_mut(bold).glyph(glyph('H', 1000)).unwrap();
    assert_eq!(rendered.advance, 625);
    assert!(rendered.pixmap.is_some());
}

#[test]
fn a_single_font_is_a_file_of_one_font() {
    let data = font("Arial", REGULAR);
    assert!(matches!(font_count(&data), Ok(1)));
    assert_eq!(FontDrawData::from_index(&data, 0).unwrap().family(), "Arial");
    assert!(matches!(FontDrawData::from_index(&data, 1), Err(FontError::Parse(_))));
    assert!(matches!(font_count(b"no font"), Err(FontError::Parse(_))));
    let storage = FontStorage::new();
    let mut fonts = Fonts::new(&storage);
    let loaded = fonts.load(&data).unwrap();
    assert_eq!(fonts.load_index(&data, 0).unwrap(), loaded);
}

#[test]
fn handles_have_labels_of_their_own() {
    let regular = font("Arial", REGULAR);
    let bold = font("Arial", BOLD);
    let storage = FontStorage::new();
    let mut fonts = Fonts::new(&storage);
    let first = fonts.load(&regular).unwrap();
    let second = fonts.load(&bold).unwrap();
    assert_eq!(first.label(), "100000001");
    assert_eq!(second.label(), "100000002");
}

fn mapped(bytes: &[u8]) -> Mmap {
    let mut map = MmapMut::map_anon(bytes.len()).unwrap();
    map.copy_from_slice(bytes);
    map.make_read_only().unwrap()
}

#[test]
fn a_mapping_gives_its_bytes() {
    let buffer = FontBuffer::Mapped(mapped(&[7, 8, 9, 10]));
    assert_eq!(buffer.as_ref(), &[7, 8, 9, 10]);
    assert_eq!(FontBuffer::Memory(vec![1, 2]).as_ref(), &[1, 2]);
    let storage = FontStorage::new();
    let kept = storage.load(PathBuf::from("mapped.bin"), FontBuffer::Mapped(mapped(&[5, 6])));
    assert!(kept.first);
    assert_eq!(kept.bytes, &[5, 6]);
    let again = storage.load(PathBuf::from("mapped.bin"), FontBuffer::Mapped(mapped(&[7])));
    assert!(!again.first);
    assert_eq!(again.bytes, &[5, 6]);
    let empty = storage.load(PathBuf::from("empty.bin"), FontBuffer::Memory(Vec::new()));
    assert!(empty.first);
    assert!(empty.bytes.is_empty());
}

#[test]
fn a_font_is_opened_from_a_mapping() {
    let data = font("Arial", BOLD);
    let storage = FontStorage::new();
    let mut fonts = Fonts::new(&storage);
    let id = fonts.open(PathBuf::from("arial-bold.ttf"), FontBuffer::Mapped(mapped(&data))).unwrap();
    assert_eq!(fonts.get(id).family(), "Arial");
    assert_eq!(fonts.get(id).attributes(), attributes(BOLD));
    assert_eq!(size_of_bitmap(fonts.get_mut(id), glyph('i', 1000)), Some((104, 504)));
}

#[test]
fn a_bitmap_needs_both_sides_and_rows_that_fit() {
    assert!(can_allocate(1, 1));
    assert!(can_allocate(14, 18));
    assert!(can_allocate(0x1FFF_FFFF, 1));
    assert!(!can_allocate(0, 18));
    assert!(!can_allocate(14, 0));
    assert!(!can_allocate(0x2000_0000, 1));
    assert!(!can_allocate(u32::MAX, u32::MAX));
}

#[test]
fn a_glyph_made_of_itself_has_no_outline() {
    let data = font("Arial", REGULAR);
    let mut font = UiFont::new(&data).unwrap();
    assert!(matches!(font.glyph(glyph('@', 20)), Err(FontError::NoMap('@'))));
    assert!(matches!(font.glyph(glyph('@', 20)), Err(FontError::NoMap('@'))));
    assert_eq!(font.render_count(), 2);
}

#[test]
fn a_font_program_that_fails_is_a_draw_error() {
    // The program calls a function that it never defined.
    let data = font_with_program(vec![(NameId::FAMILY_NAME, "Broken")], REGULAR, Some(vec![0xB0, 0x05, 0x2B]));
    let mut font = UiFont::new(&data).unwrap();
    let failure = font.glyph(glyph('H', 20)).map(|rendered| rendered.advance);
    assert!(matches!(failure, Err(FontError::Draw(_))));
    assert_eq!(font.render_count(), 1);
    let plain = FontDrawData::new(&data).unwrap().with_hinting(false);
    assert!(plain.render_glyph(glyph('H', 20)).is_ok());
}

#[test]
fn a_glyph_left_of_the_pen_has_a_negative_offset() {
    let data = font("Arial", REGULAR);
    let parsed = FontDrawData::new(&data).unwrap().with_hinting(false);
    let rendered = parsed.render_glyph(glyph('j', 1000)).unwrap();
    assert_eq!(rendered.pos, Offset { x: -100, y: 500 });
    let map = rendered.pixmap.unwrap();
    assert_eq!((map.width(), map.height()), (404, 704));
    let alpha = |x: u32, y: u32| map.pixel(x, y).unwrap().alpha();
    assert_eq!(alpha(1, 1), 0);
    assert_eq!(alpha(2, 2), 255);
    assert_eq!(alpha(401, 701), 255);
    assert_eq!(alpha(402, 702), 0);
}

#[test]
fn at_size_zero_nothing_has_an_extent() {
    let data = font("Arial", REGULAR);
    let mut font = UiFont::new(&data).unwrap();
    let space = font.glyph(glyph(' ', 0)).unwrap();
    assert!(space.pixmap.is_none());
    assert_eq!(space.advance, 0);
    let plain = FontDrawData::new(&data).unwrap().with_hinting(false);
    assert!(matches!(plain.render_glyph(glyph('H', 0)), Err(FontError::InvalidBounds)));
}

#[test]
fn a_query_is_trimmed_of_every_white_space() {
    let data = font("Arial", REGULAR);
    let storage = FontStorage::new();
    let mut fonts = Fonts::new(&storage);
    let id = fonts.load(&data).unwrap();
    assert_eq!(fonts.search("\u{a0}Arial\u{3000}", None), vec![id]);
    assert_eq!(fonts.search("\u{2003}\u{85} arial\r\n\u{2028}", None), vec![id]);
    assert_eq!(fonts.search("\u{200b}Arial", None), Vec::new());
    assert_eq!(fonts.search("Arial\u{feff}", None), Vec::new());
}

#[test]
fn only_ascii_letters_match_in_either_case() {
    let data = font("\u{c9}col", REGULAR);
    let lower = font("\u{e9}col", REGULAR);
    let storage = FontStorage::new();
    let mut fonts = Fonts::new(&storage);
    let id = fonts.load(&data).unwrap();
    assert_eq!(fonts.search("\u{c9}COL", None), vec![id]);
    assert_eq!(fonts.search("\u{e9}col", None), Vec::new());
    assert_ne!(fonts.load(&lower).unwrap(), id);
}

/// The font with one of its tables hidden under another tag.
fn without_table(mut font: Vec<u8>, tag: &[u8; 4]) -> Vec<u8> {
    let tables = directory_len(&font);
    let mut at = 12;
    while at < tables {
        if &font[at..at + 4] == tag {
            font[at] = b'~';
        }
        at += 16;
    }
    font
}

#[test]
fn a_font_without_a_table_it_needs_is_a_parse_error() {
    let whole = font("Arial", REGULAR);
    assert!(FontDrawData::new(&whole).is_ok());
    for tag in [b"name", b"hmtx", b"hhea", b"glyf", b"loca"] {
        let data = without_table(whole.clone(), tag);
        assert!(matches!(FontDrawData::new(&data), Err(FontError::Parse(_))));
        assert!(matches!(FontDrawData::from_index(&data, 0), Err(FontError::Parse(_))));
        assert!(matches!(UiFont::new(&data), Err(FontError::Parse(_))));
    }
    let other = without_table(whole.clone(), b"OS/2");
    assert_eq!(FontDrawData::new(&other).unwrap().family(), "Arial");
}

#[test]
fn a_missing_name_table_comes_before_a_missing_family() {
    let nameless = font_with_names(vec![(NameId::COPYRIGHT_NOTICE, "nobody")], REGULAR);
    assert!(matches!(FontDrawData::new(&nameless), Err(FontError::NoFamilyName)));
    let tableless = without_table(nameless, b"name");
    assert!(matches!(FontDrawData::new(&tableless), Err(FontError::Parse(_))));
}

#[test]
fn a_glyph_under_a_pixel_high_is_rendered() {
    let data = font("Arial", REGULAR);
    let mut cached = UiFont::new(&data).unwrap();
    let rendered = cached.glyph(glyph('_', 500)).unwrap();
    assert_eq!(rendered.pos, Offset { x: 50, y: 500 });
    assert_eq!(rendered.advance, 312);
    let map = rendered.pixmap.as_ref().unwrap();
    assert_eq!((map.width(), map.height()), (204, 4));
    let plain = FontDrawData::new(&data).unwrap().with_hinting(false);
    let map = plain.render_glyph(glyph('_', 500)).unwrap().pixmap.unwrap();
    let alpha = |x: u32, y: u32| map.pixel(x, y).unwrap().alpha();
    assert_eq!(alpha(100, 1), 0);
    assert!(alpha(100, 2) > 0 && alpha(100, 2) < 255);
    assert_eq!(alpha(100, 3), 0);
    assert_eq!(alpha(1, 2), 0);
}

#[test]
fn a_box_with_fractional_edges_is_cut_to_whole_pixels() {
    let data = font("Arial", REGULAR);
    let plain = FontDrawData::new(&data).unwrap().with_hinting(false);
    let rendered = plain.render_glyph(glyph('f', 500)).unwrap();
    assert_eq!(rendered.pos, Offset { x: 50, y: 350 });
    let map = rendered.pixmap.unwrap();
    assert_eq!((map.width(), map.height()), (203, 155));
    let alpha = |x: u32, y: u32| map.pixel(x, y).unwrap().alpha();
    assert_eq!(alpha(0, 0), 0);
    assert_eq!(alpha(1, 1), 0);
    assert!(alpha(2, 2) > 0 && alpha(2, 2) < 255);
    assert!(alpha(3, 1) > 0 && alpha(3, 1) < 255);
    assert_eq!(alpha(3, 2), 255);
    assert_eq!(alpha(100, 80), 255);
    assert_eq!(alpha(201, 151), 255);
    assert!(alpha(201, 152) > 0 && alpha(201, 152) < 255);
    assert_eq!(alpha(202, 151), 0);
    assert_eq!(alpha(201, 153), 0);
}

#[test]
fn a_glyph_renders_the_same_every_time() {
    let data = font("Arial", REGULAR);
    let one = FontDrawData::new(&data).unwrap();
    let other = FontDrawData::new(&data).unwrap();
    let a = one.render_glyph(glyph('H', 40)).unwrap();
    let b = one.render_glyph(glyph('H', 40)).unwrap();
    let c = other.render_glyph(glyph('H', 40)).unwrap();
    assert_eq!((a.pos, a.advance), (b.pos, b.advance));
    assert_eq!((a.pos, a.advance), (c.pos, c.advance));
    let pixels = a.pixmap.unwrap();
    assert!(pixels.data().iter().any(|&byte| byte != 0));
    assert_eq!(pixels.data(), b.pixmap.unwrap().data());
    assert_eq!(pixels.data(), c.pixmap.unwrap().data());
}

/// The font with one of its tables put under another tag.
fn with_tag(mut font: Vec<u8>, from: &[u8; 4], to: &[u8; 4]) -> Vec<u8> {
    let tables = directory_len(&font);
    let mut at = 12;
    while at < tables {
        if &font[at..at + 4] == from {
            font[at..at + 4].copy_from_slice(to);
        }
        at += 16;
    }
    font
}

#[test]
fn outlines_under_the_upper_case_tags_are_read() {
    let data = with_tag(with_tag(font("Arial", REGULAR), b"glyf", b"GLYF"), b"loca", b"LOCA");
    let parsed = FontDrawData::new(&data).unwrap();
    assert_eq!(parsed.family(), "Arial");
    let rendered = parsed.render_glyph(glyph('H', 1000)).unwrap();
    let map = rendered.pixmap.unwrap();
    assert_eq!((map.width(), map.height()), (404, 704));
    let half = with_tag(font("Arial", REGULAR), b"glyf", b"GLYF");
    assert!(matches!(FontDrawData::new(&half), Err(FontError::Parse(_))));
}
