use dominator_kit::colours::{bw_on_bg, contrast_text, luma_scaled, parse, with_alpha, ColourError, InvalidColour, Rgba};

#[test]
fn parse_reads_all_forms() {
    assert_eq!(parse("#DDA0DD"), Ok(Rgba { r: 0xDD, g: 0xA0, b: 0xDD, a: 255 }));
    assert_eq!(parse("#f00"), Ok(Rgba { r: 255, g: 0, b: 0, a: 255 }));
    assert_eq!(parse("#0FFF"), Ok(Rgba { r: 0, g: 255, b: 255, a: 255 }));
    assert_eq!(parse("#F0FFFF80"), Ok(Rgba { r: 0xF0, g: 0xFF, b: 0xFF, a: 0x80 }));
}

#[test]
fn parse_reports_errors() {
    assert_eq!(parse(""), Err(ColourError::Empty));
    assert_eq!(parse("ffffff"), Err(ColourError::InvalidFormat));
    assert_eq!(parse("#fffff"), Err(ColourError::InvalidFormat));
    assert_eq!(parse("#gggggg"), Err(ColourError::InvalidDigit));
    assert_eq!(parse("#GGG"), Err(ColourError::InvalidDigit));
    assert_eq!(parse("#12345678901"), Err(ColourError::InvalidFormat));
}

#[test]
fn luma_weights() {
    assert_eq!(luma_scaled(Rgba { r: 255, g: 255, b: 255, a: 255 }), 2_550_000);
    assert_eq!(luma_scaled(Rgba { r: 1, g: 2, b: 3, a: 0 }), 2126 + 2 * 7152 + 3 * 722);
}

#[test]
fn black_text_on_light_background() {
    assert_eq!(bw_on_bg("#ffffff".to_string()), Ok("#000000".to_string()));
    assert_eq!(bw_on_bg("#EEEEEE".to_string()), Ok("#000000".to_string()));
}

#[test]
fn white_text_on_dark_background() {
    assert_eq!(bw_on_bg("#000000".to_string()), Ok("#ffffff".to_string()));
    assert_eq!(bw_on_bg("#5576B9".to_string()), Ok("#ffffff".to_string()));
    assert_eq!(bw_on_bg("#1E1E1E".to_string()), Ok("#ffffff".to_string()));
}

#[test]
fn bw_on_bg_rejects_bad_colour() {
    let err = bw_on_bg("red".to_string()).unwrap_err();
    assert_eq!(err, InvalidColour { value: "red".to_string(), reason: ColourError::InvalidFormat });
    assert_eq!(err.message(), "Invalid hex colour: red");
    assert_eq!(bw_on_bg(String::new()).unwrap_err().reason, ColourError::Empty);
    let err = bw_on_bg("#GGG".to_string()).unwrap_err();
    assert_eq!(err.reason, ColourError::InvalidDigit);
    assert_eq!(err.value, "#GGG");
}

#[test]
fn contrast_threshold_is_strict() {
    // luma of exactly 165 gives white text
    let grey = Rgba { r: 165, g: 165, b: 165, a: 255 };
    assert_eq!(luma_scaled(grey), 1_650_000);
    assert_eq!(contrast_text(grey), "#ffffff");
    let lighter = Rgba { r: 166, g: 165, b: 165, a: 255 };
    assert_eq!(contrast_text(lighter), "#000000");
}

#[test]
fn alpha_suffix() {
    assert_eq!(with_alpha("#5576B9", 0x26), "#5576B926");
    assert_eq!(with_alpha("#5576B9ff", 0xbf), "#5576B9bf");
    assert_eq!(with_alpha("#000000", 0), "#00000000");
}
