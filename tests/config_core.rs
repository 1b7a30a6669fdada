use lather::image::{image_len, pixel_offset, IMAGE_SIDE};
use lather::palette::{ColorTable, Rgb};
use lather::seed::{resolve_seed, InvalidSeed, SeedConfig, SeedSource, DEFAULT_SEED};
use lather::Abs;

#[test]
fn abs_of_signed_values() {
    assert_eq!(Abs::abs(-5i64), 5);
    assert_eq!(Abs::abs(7i64), 7);
    assert_eq!(Abs::abs(0i64), 0);
    assert_eq!(Abs::abs(-i64::MAX), i64::MAX);
}

#[test]
fn blackbody_colour_of_the_sun() {
    let table = ColorTable::blackbody();
    assert_eq!(table.len(), 130);
    assert_eq!(table.color_of(5778), Rgb { red: 255, green: 245, blue: 242 });
}

#[test]
fn blackbody_colour_between_entries() {
    let table = ColorTable::blackbody();
    // 5115 K lies nearer 5120 K than 5010 K.
    assert_eq!(table.color_of(5115), Rgb { red: 255, green: 237, blue: 222 });
    // 5020 K lies nearer 5010 K than 5120 K.
    assert_eq!(table.color_of(5020), Rgb { red: 255, green: 239, blue: 221 });
}

#[test]
fn blackbody_colour_beyond_the_table() {
    let table = ColorTable::blackbody();
    assert_eq!(table.nearest(0), 0);
    assert_eq!(table.color_of(0), Rgb { red: 255, green: 233, blue: 154 });
    assert_eq!(table.nearest(u16::MAX), 129);
    assert_eq!(table.color_of(60000), Rgb { red: 144, green: 166, blue: 255 });
}

#[test]
fn equally_near_temperatures_take_the_hotter() {
    let cool = Rgb { red: 255, green: 0, blue: 0 };
    let hot = Rgb { red: 0, green: 0, blue: 255 };
    let mut table = ColorTable::single(100, cool);
    table.push(200, hot);
    assert_eq!(table.color_of(150), hot);
    assert_eq!(table.color_of(149), cool);
    assert_eq!(table.color_of(200), hot);
    assert_eq!(table.nearest(100), 0);
}

#[test]
fn seed_defaults_to_a_constant() {
    assert_eq!(resolve_seed(&None), Ok(SeedSource::Fixed(DEFAULT_SEED)));
    assert_eq!(DEFAULT_SEED, 0x0123456789ABCDEF);
}

#[test]
fn seed_from_a_number() {
    assert_eq!(resolve_seed(&Some(SeedConfig::Number(7))), Ok(SeedSource::Fixed(7)));
}

#[test]
fn seed_from_entropy() {
    let config = Some(SeedConfig::Text("entropy".to_string()));
    assert_eq!(resolve_seed(&config), Ok(SeedSource::Entropy));
}

#[test]
fn seed_from_other_text_is_refused() {
    let config = Some(SeedConfig::Text("Entropy".to_string()));
    assert_eq!(resolve_seed(&config), Err(InvalidSeed));
    assert!(InvalidSeed.message().contains("\"entropy\""));
}

#[test]
fn image_layout() {
    assert_eq!(image_len(3), 3_000_000);
    assert_eq!(image_len(4), 4_000_000);
    assert_eq!(pixel_offset(0, 0, 3), 0);
    assert_eq!(pixel_offset(2, 5, 3), 6_015);
    assert_eq!(pixel_offset(IMAGE_SIDE - 1, IMAGE_SIDE - 1, 4), 3_999_996);
}
