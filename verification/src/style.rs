//! Style attributes for rendered text and their additive composition.
//!
//! A [`Style`] is a set of attributes (boldness, foreground and background
//! color). Styles are patched onto text additively: composing a patch onto a
//! base style unions the boldness flags and lets a color set by the patch take
//! precedence, while a color the patch leaves unset is kept from the base.
//! There is no operation that removes an attribute.

use vstd::prelude::*;

verus! {

/// A terminal color used by the rendering rules.
#[derive(Clone, Copy, PartialEq, Eq, Debug)]
pub enum Color {
    Red,
    DarkGray,
}

/// A set of style attributes carried by a span of text.
#[derive(Clone, Copy, PartialEq, Eq, Debug)]
pub struct Style {
    pub bold: bool,
    pub fg: Option<Color>,
    pub bg: Option<Color>,
}

/// The style composition rule: attributes of `patch` are unioned onto `base`.
/// Boldness is the disjunction of both; a color set by the patch wins, one it
/// leaves unset is kept from the base. No attribute is ever removed.
pub open spec fn spec_compose(base: Style, patch: Style) -> Style {
    Style {
        bold: base.bold || patch.bold,
        fg: if patch.fg is Some {
            patch.fg
        } else {
            base.fg
        },
        bg: if patch.bg is Some {
            patch.bg
        } else {
            base.bg
        },
    }
}

/// The style of plain, unstyled text: no attribute set.
pub open spec fn spec_plain_style() -> Style {
    Style { bold: false, fg: None, bg: None }
}

/// The style patched onto strong (bold) text.
pub open spec fn spec_bold_style() -> Style {
    Style { bold: true, fg: None, bg: None }
}

/// The style every heading line is restyled with: bold plus the heading color.
pub open spec fn spec_heading_style() -> Style {
    Style { bold: true, fg: Some(Color::Red), bg: None }
}

/// The style patched onto inline code: a highlighted background.
pub open spec fn spec_code_style() -> Style {
    Style { bold: false, fg: None, bg: Some(Color::DarkGray) }
}

/// Compose `patch` onto `base`, additively.
pub fn compose(base: Style, patch: Style) -> (r: Style)
    ensures
        r == spec_compose(base, patch),
{
    Style {
        bold: base.bold || patch.bold,
        fg: match patch.fg {
            Some(c) => Some(c),
            None => base.fg,
        },
        bg: match patch.bg {
            Some(c) => Some(c),
            None => base.bg,
        },
    }
}

/// The style of plain, unstyled text.
pub fn plain_style() -> (r: Style)
    ensures
        r == spec_plain_style(),
{
    Style { bold: false, fg: None, bg: None }
}

/// The style patched onto strong (bold) text.
pub fn bold_style() -> (r: Style)
    ensures
        r == spec_bold_style(),
{
    Style { bold: true, fg: None, bg: None }
}

/// The style every heading line is restyled with.
pub fn heading_style() -> (r: Style)
    ensures
        r == spec_heading_style(),
{
    Style { bold: true, fg: Some(Color::Red), bg: None }
}

/// The style patched onto inline code.
pub fn code_style() -> (r: Style)
    ensures
        r == spec_code_style(),
{
    Style { bold: false, fg: None, bg: Some(Color::DarkGray) }
}

/// Law: composing the same patch twice yields the same style as composing it
/// once. Patching is idempotent per attribute.
pub proof fn lemma_compose_idempotent(base: Style, patch: Style)
    ensures
        spec_compose(spec_compose(base, patch), patch) == spec_compose(base, patch),
{
}

/// Law: two patches that set disjoint attributes commute; in particular,
/// patching bold and then a color equals patching the color and then bold.
pub proof fn lemma_compose_commutes(base: Style, p1: Style, p2: Style)
    requires
        p1.fg is None || p2.fg is None,
        p1.bg is None || p2.bg is None,
    ensures
        spec_compose(spec_compose(base, p1), p2) == spec_compose(spec_compose(base, p2), p1),
{
}

} // verus!
