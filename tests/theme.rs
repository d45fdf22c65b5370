use dominator_kit::components::FlexDirection;
use dominator_kit::theme::{Theme, ThemeUpdate};
use dominator_kit::ty::{thousandths, Colour, RemSizing, TextColour};

#[test]
fn partial_update_keeps_unnamed_tokens() {
    let mut theme = Theme::default();
    assert_eq!(theme.colours.grey, "#1E1E1E");
    assert_eq!(theme.colours.blue, "#5576B9");
    let mut update = ThemeUpdate::new();
    update.blue = Some("#000000".to_string());
    theme.apply(update);
    assert_eq!(theme.colours.grey, "#1E1E1E");
    assert_eq!(theme.colours.blue, "#000000");
    assert_eq!(theme.colours.coral, "#F15A4D");
    assert_eq!(theme.colours.pink, "#EE3075");
    assert_eq!(theme.sizing.md, 1000);
}

#[test]
fn size_update_changes_only_named_size() {
    let mut theme = Theme::default();
    let mut update = ThemeUpdate::new();
    update.lg = Some(1750);
    theme.apply(update);
    assert_eq!(theme.sizing.lg, 1750);
    assert_eq!(theme.sizing.xs, 500);
    assert_eq!(theme.sizing.xl, 2000);
    assert_eq!(theme.colours.blue, "#5576B9");
}

#[test]
fn colours_resolve_against_theme() {
    let mut theme = Theme::default();
    assert_eq!(Colour::Grey.to_string(&theme), "#1E1E1E");
    assert_eq!(Colour::Hex("#123456").to_string(&theme), "#123456");
    let mut update = ThemeUpdate::new();
    update.pink = Some("#ff00ff".to_string());
    theme.apply(update);
    assert_eq!(Colour::Pink.to_string(&theme), "#ff00ff");
}

#[test]
fn text_colours_resolve() {
    let theme = Theme::default();
    assert_eq!(TextColour::Light.to_string(&theme), "#ffffff");
    assert_eq!(TextColour::Dark.to_string(&theme), "#000000");
    assert_eq!(TextColour::Accent.to_string(&theme), "#5576B9");
    assert_eq!(TextColour::Hex("#abcdef").to_string(&theme), "#abcdef");
}

#[test]
fn sizes_print_as_rem() {
    let theme = Theme::default();
    let text = |s: RemSizing| s.to_string(&theme);
    assert_eq!(text(RemSizing::Md), Some("1rem".to_string()));
    assert_eq!(text(RemSizing::Sm), Some("0.75rem".to_string()));
    assert_eq!(text(RemSizing::Xs), Some("0.5rem".to_string()));
    assert_eq!(text(RemSizing::Lg), Some("1.5rem".to_string()));
    assert_eq!(text(RemSizing::Xl), Some("2rem".to_string()));
    assert_eq!(text(RemSizing::Rem(2250)), Some("2.25rem".to_string()));
    assert_eq!(text(RemSizing::Unset), None);
}

#[test]
fn thousandths_trim_trailing_zeros() {
    assert_eq!(thousandths(0), "0");
    assert_eq!(thousandths(5), "0.005");
    assert_eq!(thousandths(1050), "1.05");
    assert_eq!(thousandths(12345), "12.345");
    assert_eq!(thousandths(4294967295), "4294967.295");
}

#[test]
fn root_variables_list_colour_tokens() {
    let theme = Theme::default();
    assert_eq!(
        theme.root_variables(),
        ":root { --grey: #1E1E1E; --blue: #5576B9; --coral: #F15A4D; --pink: #EE3075; }"
    );
}

#[test]
fn flex_direction_values() {
    assert_eq!(FlexDirection::Row.to_string(), "row");
    assert_eq!(FlexDirection::Column.to_string(), "column");
    assert_eq!(FlexDirection::RowReverse.to_string(), "row-reverse");
    assert_eq!(FlexDirection::ColumnReverse.to_string(), "column-reverse");
}
