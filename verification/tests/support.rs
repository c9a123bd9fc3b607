//! Tests of the fixed-point building blocks and the plain helpers.

use whiskers::fixed::{cbrt_q16, root5_q16};
use whiskers::markdown::{display_as_list, display_as_table, render_table, TableDisplay};
use whiskers::models::{default_hex_format, make_clippy_unhappy, rgb_to_ints, RGB};
use whiskers::params::{deg_of_tenths, q16_of_tenths};
use whiskers::FilterColor;

#[test]
fn test_rgb_to_ints_exact() {
    // Latte red: 0xD20F39.
    let rgb = RGB::new(210, 15, 57);
    let (int24, uint32, sint32) = rgb_to_ints(&rgb, None);
    assert_eq!(int24, 13_766_457);
    assert_eq!(uint32, 4_291_956_537);
    assert_eq!(sint32, -3_010_759);
}

#[test]
fn test_rgb_to_ints_with_opacity() {
    let rgb = RGB::new(0, 0, 1);
    let (int24, uint32, sint32) = rgb_to_ints(&rgb, Some(0));
    assert_eq!(int24, 1);
    assert_eq!(uint32, 1);
    assert_eq!(sint32, 1);
    let (_, uint32, sint32) = rgb_to_ints(&rgb, Some(128));
    assert_eq!(uint32, 0x8000_0001);
    assert_eq!(sint32, -2_147_483_647);
}

#[test]
fn test_default_hex_format() {
    assert_eq!(default_hex_format(), "{{r}}{{g}}{{b}}{{z}}");
}

#[test]
fn test_make_clippy_unhappy() {
    assert_eq!(make_clippy_unhappy(), 0);
}

#[test]
fn test_display_as_list() {
    let items = vec!["latte".to_string(), "mocha".to_string()];
    assert_eq!(display_as_list(&items, "Flavors"), "### Flavors\n\n* latte\n* mocha");
    let empty: Vec<String> = Vec::new();
    assert_eq!(display_as_list(&empty, "Nothing"), "### Nothing\n\n");
}

#[test]
fn test_render_table() {
    let headings = vec!["Identifier".to_string(), "Name".to_string()];
    let rows = vec![
        vec!["latte".to_string(), "Latte".to_string()],
        vec!["mocha".to_string(), "Mocha".to_string()],
    ];
    assert_eq!(
        render_table(&headings, &rows, "Flavors"),
        "### Flavors\n\n\
         | Identifier | Name  |\n\
         | ---------- | ----- |\n\
         | latte      | Latte |\n\
         | mocha      | Mocha |"
    );
}

#[test]
fn test_render_table_short_row() {
    let headings = vec!["A".to_string(), "B".to_string()];
    let rows = vec![vec!["x".to_string()]];
    assert_eq!(render_table(&headings, &rows, "T"), "### T\n\n| A | B |\n| - | - |\n| x |   |");
}

struct Fruit {
    name: &'static str,
    count: u32,
}

impl TableDisplay for Fruit {
    fn table_headings() -> Vec<String> {
        vec!["Name".to_string(), "Count".to_string()]
    }

    fn table_row(&self) -> Vec<String> {
        vec![self.name.to_string(), self.count.to_string()]
    }
}

#[test]
fn test_display_as_table() {
    let items = vec![Fruit { name: "apple", count: 3 }, Fruit { name: "fig", count: 12 }];
    assert_eq!(
        display_as_table(&items, "Fruit"),
        "### Fruit\n\n\
         | Name  | Count |\n\
         | ----- | ----- |\n\
         | apple | 3     |\n\
         | fig   | 12    |"
    );
}

#[test]
fn test_integer_roots() {
    // 8192/65536 = 2^-3, whose cube root is 2^-1: 32768 in Q16.
    assert_eq!(cbrt_q16(8192), 32768);
    assert_eq!(cbrt_q16(65536), 65536);
    assert_eq!(cbrt_q16(0), 0);
    // 2048/65536 = 2^-5, whose fifth root is 2^-1.
    assert_eq!(root5_q16(2048), 32768);
    assert_eq!(root5_q16(65536), 65536);
    assert_eq!(root5_q16(0), 0);
}

#[test]
fn test_channel_scaling() {
    let c = FilterColor::new(210, 15, 57);
    assert_eq!((c.r(), c.g(), c.b()), (53970, 3855, 14649));
    let black = FilterColor::new(0, 0, 0);
    assert_eq!((black.r(), black.g(), black.b()), (0, 0, 0));
    let white = FilterColor::new(255, 255, 255);
    assert_eq!((white.r(), white.g(), white.b()), (65536, 65536, 65536));
}

#[test]
fn test_invert_full() {
    let mut c = FilterColor::new(0, 0, 0);
    c.invert(q16_of_tenths(1000));
    assert_eq!((c.r(), c.g(), c.b()), (65536, 65536, 65536));
}

#[test]
fn test_sepia_full_on_red() {
    let mut c = FilterColor::new(255, 0, 0);
    c.sepia(q16_of_tenths(1000));
    assert_eq!((c.r(), c.g(), c.b()), (25756, 22872, 17826));
}

#[test]
fn test_hue_rotate_quarter_turn_on_red() {
    let mut c = FilterColor::new(255, 0, 0);
    c.hue_rotate(deg_of_tenths(250));
    assert_eq!((c.r(), c.g(), c.b()), (3, 23329, 0));
}

#[test]
fn test_contrast_double_on_gray() {
    let mut c = FilterColor::new(128, 128, 128);
    c.contrast(q16_of_tenths(2000));
    assert_eq!((c.r(), c.g(), c.b()), (33024, 33024, 33024));
}

#[test]
fn test_target_oklab_of_red() {
    let lab = FilterColor::new(210, 15, 57).oklab();
    assert_eq!((lab.l, lab.a, lab.b), (36072, 13288, 4787));
}
