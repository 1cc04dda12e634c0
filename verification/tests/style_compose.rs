use presento::style::bold_style;
use presento::style::code_style;
use presento::style::compose;
use presento::style::heading_style;
use presento::style::plain_style;
use presento::style::Color;
use presento::style::Style;

#[test]
fn composing_the_same_patch_twice_changes_nothing_more() {
    let base = code_style();
    let once = compose(base, bold_style());
    let twice = compose(once, bold_style());
    assert_eq!(once, twice);
}

#[test]
fn disjoint_patches_commute() {
    let base = plain_style();
    let color = Style { bold: false, fg: Some(Color::Red), bg: None };
    let one_way = compose(compose(base, bold_style()), color);
    let other_way = compose(compose(base, color), bold_style());
    assert_eq!(one_way, other_way);
}

#[test]
fn patching_adds_without_erasing() {
    let styled = compose(code_style(), heading_style());
    assert!(styled.bold);
    assert_eq!(styled.fg, Some(Color::Red));
    assert_eq!(styled.bg, Some(Color::DarkGray));
}

#[test]
fn a_color_set_by_the_patch_wins() {
    let base = Style { bold: false, fg: Some(Color::Red), bg: None };
    let patch = Style { bold: false, fg: Some(Color::DarkGray), bg: None };
    let merged = compose(base, patch);
    assert_eq!(merged.fg, Some(Color::DarkGray));
    let kept = compose(base, plain_style());
    assert_eq!(kept.fg, Some(Color::Red));
}
