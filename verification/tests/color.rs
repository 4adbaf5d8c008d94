use helio::color::Color;
use helio::color::ParseColorError;

const BLUE: Color = Color { r: 0, g: 0, b: 255, a: 255 };
const WHITE: Color = Color { r: 255, g: 255, b: 255, a: 255 };
const BLACK: Color = Color { r: 0, g: 0, b: 0, a: 255 };

#[test]
fn hexadecimal_works() {
    assert_eq!(BLUE.to_hex(), "#0000ffff");
    assert_eq!(WHITE.to_hex(), "#ffffffff");
    assert_eq!(BLACK.to_hex(), "#000000ff");
    let trans = Color { r: 255, g: 100, b: 23, a: 128 };
    assert_eq!(trans.to_hex(), "#ff641780");
}

#[test]
fn from_hex_works() {
    // from_hex
    assert_eq!(Color::from_hex("#0000ffff").unwrap(), BLUE);
    assert_eq!(Color::from_hex("#ffffffff").unwrap(), WHITE);
    assert_eq!(Color::from_hex("#000000ff").unwrap(), BLACK);
    assert!(Color::from_hex("000000ff").is_err());
    assert!(Color::from_hex("Ox00000ff").is_err());
    // parse
    assert_eq!("#0000ffff".parse::<Color>().unwrap(), BLUE);
    assert_eq!("#ffffffff".parse::<Color>().unwrap(), WHITE);
    assert_eq!("#000000ff".parse::<Color>().unwrap(), BLACK);
    assert!("000000ff".parse::<Color>().is_err());
    // ffggbb
    assert_eq!(Color::from_hex("#0000ff").unwrap(), BLUE);
    assert_eq!(Color::from_hex("#ffffff").unwrap(), WHITE);
    assert_eq!(Color::from_hex("#000000").unwrap(), BLACK);
    // fgb
    assert_eq!(Color::from_hex("#00f").unwrap(), BLUE);
    assert_eq!(Color::from_hex("#fff").unwrap(), WHITE);
    assert_eq!(Color::from_hex("#000").unwrap(), BLACK);
}

#[test]
fn from_hex_rejects_malformed_strings() {
    assert_eq!(Color::from_hex(""), Err(ParseColorError {}));
    assert_eq!(Color::from_hex("#"), Err(ParseColorError {}));
    assert_eq!(Color::from_hex("#ff"), Err(ParseColorError {}));
    assert_eq!(Color::from_hex("#fffff"), Err(ParseColorError {}));
    assert_eq!(Color::from_hex("#ggg"), Err(ParseColorError {}));
    assert_eq!(Color::from_hex("#12345g"), Err(ParseColorError {}));
    assert_eq!(Color::from_hex("#0000fff!"), Err(ParseColorError {}));
}

#[test]
fn from_hex_accepts_upper_case_digits() {
    assert_eq!(
        Color::from_hex("#FF6417").unwrap(),
        Color { r: 255, g: 100, b: 23, a: 255 }
    );
    assert_eq!(
        Color::from_hex("#AbCdEf01").unwrap(),
        Color { r: 171, g: 205, b: 239, a: 1 }
    );
}

#[test]
fn short_form_doubles_each_digit() {
    assert_eq!(
        Color::from_hex("#1af").unwrap(),
        Color { r: 17, g: 170, b: 255, a: 255 }
    );
}

#[test]
fn hex_round_trip_on_values() {
    let colors = [
        BLACK,
        WHITE,
        BLUE,
        Color { r: 1, g: 2, b: 3, a: 4 },
        Color { r: 255, g: 100, b: 23, a: 128 },
    ];
    for c in colors.iter() {
        assert_eq!(Color::from_hex(&c.to_hex()).unwrap(), *c);
    }
}

#[test]
fn rgba_strings() {
    assert_eq!(BLUE.to_string(), "rgba(0,0,255,255)");
    assert_eq!(Color { r: 7, g: 42, b: 128, a: 0 }.to_string(), "rgba(7,42,128,0)");
    assert_eq!(Color::rgba(&Some(BLACK)), "rgba(0,0,0,255)");
    assert_eq!(Color::rgba(&None), "none");
}

#[test]
fn default_is_opaque_black() {
    assert_eq!(Color::default(), BLACK);
}

#[test]
fn parse_error_message_names_the_forms() {
    let e = Color::from_hex("nope").unwrap_err();
    assert_eq!(e.message(), "Only #rgb, #rrggbb or #rrggbbaa are supported");
}
