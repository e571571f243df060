use std::cell::RefCell;
use std::sync::Arc;

use galileo::render::text::font_provider::{consider_font, replaces, FontProvider};
use galileo::render::text::{
    default_font_color, default_outline_color, FontProperties, FontStyle, FontWeight,
    HorizontalAlignment, VerticalAlignment,
};

struct FixedProvider {
    data: Arc<Vec<u8>>,
}

impl FontProvider for FixedProvider {
    fn find_best_match(
        &self,
        _font_families: &[String],
        _font_properties: &FontProperties,
    ) -> Option<(Arc<Vec<u8>>, u32)> {
        Some((self.data.clone(), 0))
    }

    fn load_fonts_folder(&self, _path: std::path::PathBuf) {}

    fn load_font_data(&self, _font_data: Arc<Vec<u8>>) {}
}

/// Answers with the font whose family comes first in the list asked, and records each list.
struct RecordingProvider {
    fonts: Vec<(String, Arc<Vec<u8>>)>,
    asked: RefCell<Vec<Vec<String>>>,
}

impl FontProvider for RecordingProvider {
    fn find_best_match(
        &self,
        font_families: &[String],
        _font_properties: &FontProperties,
    ) -> Option<(Arc<Vec<u8>>, u32)> {
        self.asked.borrow_mut().push(font_families.to_vec());
        let first = font_families.first()?;
        self.fonts
            .iter()
            .find(|(name, _)| name == first)
            .map(|(_, data)| (data.clone(), 0))
    }

    fn load_fonts_folder(&self, _path: std::path::PathBuf) {}

    fn load_font_data(&self, _font_data: Arc<Vec<u8>>) {}
}

#[test]
fn candidate_replacement() {
    assert!(replaces(None, 1));
    assert!(!replaces(None, 0));
    assert!(replaces(Some(2), 3));
    assert!(!replaces(Some(3), 3));
    assert!(!replaces(Some(4), 3));
}

#[test]
fn unparsable_fonts_are_not_selected() {
    let provider = FixedProvider {
        data: Arc::new(vec![0, 1, 2, 3]),
    };
    let families = vec!["A".to_string(), "B".to_string()];
    let properties = FontProperties {
        weight: FontWeight::normal(),
        style: FontStyle::Normal,
    };
    assert!(provider.best_match("abc", &families, properties).is_none());
}

#[test]
fn text_defaults() {
    assert_eq!(FontWeight::default(), FontWeight::normal());
    assert_eq!(FontWeight::normal().0, 500);
    assert_eq!(FontWeight::bold().0, 700);
    assert_eq!(FontWeight::thin().0, 300);
    assert_eq!(FontStyle::default(), FontStyle::Normal);
    assert_eq!(HorizontalAlignment::default(), HorizontalAlignment::Center);
    assert_eq!(VerticalAlignment::default(), VerticalAlignment::Bottom);
    assert_eq!(default_font_color().to_u8_array(), [0, 0, 0, 255]);
    assert_eq!(default_outline_color().to_u8_array(), [0, 0, 0, 0]);
}

#[test]
fn unreadable_font_keeps_the_candidate() {
    let garbage = Arc::new(vec![9, 9, 9]);
    let (next, done) = consider_font(None, Some((garbage.clone(), 0)), "ab", 2);
    assert!(next.is_none());
    assert!(!done);
    let current = Some((Arc::new(vec![1, 2]), 3, 1));
    let (next, done) = consider_font(current, Some((garbage, 0)), "ab", 2);
    let (data, index, chars) = next.unwrap();
    assert_eq!((data.as_slice(), index, chars), (&[1u8, 2][..], 3, 1));
    assert!(!done);
    let (next, done) = consider_font(None, None, "ab", 2);
    assert!(next.is_none() && !done);
}

fn push_u16(v: &mut Vec<u8>, x: u16) {
    v.extend_from_slice(&x.to_be_bytes());
}

fn push_u32(v: &mut Vec<u8>, x: u32) {
    v.extend_from_slice(&x.to_be_bytes());
}

/// A minimal TrueType font whose character map gives glyphs to `a` and `b` only.
fn tiny_font() -> Vec<u8> {
    let mut cmap = vec![];
    push_u16(&mut cmap, 0); // version
    push_u16(&mut cmap, 1); // number of encoding records
    push_u16(&mut cmap, 0); // platform: Unicode
    push_u16(&mut cmap, 3); // encoding
    push_u32(&mut cmap, 12); // offset of the subtable
    push_u16(&mut cmap, 0); // format 0
    push_u16(&mut cmap, 262); // length
    push_u16(&mut cmap, 0); // language
    let mut ids = vec![0u8; 256];
    ids[b'a' as usize] = 1;
    ids[b'b' as usize] = 1;
    cmap.extend_from_slice(&ids);

    let mut head = vec![];
    push_u32(&mut head, 0x0001_0000); // version
    push_u32(&mut head, 0); // revision
    push_u32(&mut head, 0); // checksum adjustment
    push_u32(&mut head, 0x5F0F_3CF5); // magic
    push_u16(&mut head, 0); // flags
    push_u16(&mut head, 1000); // units per em
    head.extend_from_slice(&[0; 16]); // created, modified
    head.extend_from_slice(&[0; 8]); // bounding box
    push_u16(&mut head, 0); // mac style
    push_u16(&mut head, 0); // lowest ppem
    push_u16(&mut head, 0); // direction hint
    push_u16(&mut head, 0); // index to location format
    push_u16(&mut head, 0); // glyph data format

    let mut hhea = vec![];
    push_u32(&mut hhea, 0x0001_0000);
    push_u16(&mut hhea, 800); // ascender
    push_u16(&mut hhea, (-200i16) as u16); // descender
    push_u16(&mut hhea, 0); // line gap
    hhea.extend_from_slice(&[0; 24]);
    push_u16(&mut hhea, 1); // number of metrics

    let mut maxp = vec![];
    push_u32(&mut maxp, 0x0000_5000);
    push_u16(&mut maxp, 2); // number of glyphs

    let tables: Vec<(&[u8; 4], Vec<u8>)> = vec![
        (b"cmap", cmap),
        (b"head", head),
        (b"hhea", hhea),
        (b"maxp", maxp),
    ];
    let mut font = vec![];
    push_u32(&mut font, 0x0001_0000);
    push_u16(&mut font, tables.len() as u16);
    font.extend_from_slice(&[0; 6]);
    let mut offset = 12 + 16 * tables.len() as u32;
    for (tag, data) in &tables {
        font.extend_from_slice(*tag);
        push_u32(&mut font, 0); // checksum
        push_u32(&mut font, offset);
        push_u32(&mut font, data.len() as u32);
        offset += data.len() as u32;
    }
    for (_, data) in &tables {
        font.extend_from_slice(data);
    }
    font
}

#[test]
fn font_covering_the_text_ends_the_search() {
    let font = Arc::new(tiny_font());
    let (next, done) = consider_font(None, Some((font.clone(), 0)), "ab", 2);
    let (_, index, chars) = next.unwrap();
    assert_eq!((index, chars), (0, 2));
    assert!(done);

    let (next, done) = consider_font(None, Some((font.clone(), 0)), "abc", 3);
    assert_eq!(next.unwrap().2, 2);
    assert!(!done);

    // a face index that the font does not have cannot be read
    let (next, _) = consider_font(None, Some((font, 1)), "ab", 2);
    assert!(next.is_none());
}

#[test]
fn best_match_returns_a_font_that_covers_some_text() {
    let provider = FixedProvider {
        data: Arc::new(tiny_font()),
    };
    let families = vec!["A".to_string()];
    let properties = FontProperties {
        weight: FontWeight::normal(),
        style: FontStyle::Normal,
    };
    let (data, index) = provider
        .best_match("xab", &families, properties)
        .expect("the font covers two characters");
    assert_eq!(index, 0);
    assert_eq!(data.len(), tiny_font().len());
    assert!(provider.best_match("xyz", &families, properties).is_none());
}

#[test]
fn best_match_asks_each_suffix_in_order() {
    let font = Arc::new(tiny_font());
    let provider = RecordingProvider {
        fonts: vec![("C".to_string(), font.clone())],
        asked: RefCell::new(vec![]),
    };
    let families: Vec<String> = ["A", "B", "C", "D"].iter().map(|s| s.to_string()).collect();
    let properties = FontProperties {
        weight: FontWeight::normal(),
        style: FontStyle::Normal,
    };
    // the font of family C covers all of "ab": the search stops there
    let (data, index) = provider.best_match("ab", &families, properties).unwrap();
    assert_eq!((data.len(), index), (font.len(), 0));
    assert_eq!(
        *provider.asked.borrow(),
        vec![families[0..].to_vec(), families[1..].to_vec(), families[2..].to_vec()]
    );

    // it covers only part of "abx": every suffix is asked, and the font is still chosen
    provider.asked.borrow_mut().clear();
    assert!(provider.best_match("abx", &families, properties).is_some());
    assert_eq!(provider.asked.borrow().len(), 4);
    assert_eq!(provider.asked.borrow()[3], vec!["D".to_string()]);

    // no families: nothing is asked
    provider.asked.borrow_mut().clear();
    assert!(provider.best_match("ab", &[], properties).is_none());
    assert!(provider.asked.borrow().is_empty());
}
