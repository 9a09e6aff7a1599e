//! How wide a line drawn with the card's own font is.
use vstd::prelude::*;
use crate::line::FontStyle;
use crate::messages::TypeSettings;

verus! {

/// A glyph as far as a line's width depends on it. The advance has four
/// fractional bits.
#[derive(Clone, Copy, PartialEq, Eq, Structural, Debug)]
pub struct GlyphMetric {
    pub x_offset: i8,
    pub width: u8,
    pub advance_fp: u16,
}

/// What a glyph that the font lacks advances by.
pub const FALLBACK_ADVANCE_FP: i32 = 128;

/// A running line width: how far the pen has gone, and the furthest ink.
#[derive(Clone, Copy, PartialEq, Eq, Structural, Debug)]
pub struct CustomLineInkCursor {
    pub advance_fp: i32,
    pub right: i16,
    pub settings: TypeSettings,
    pub style: FontStyle,
}

pub open spec fn further(a: i16, b: int) -> int {
    if a >= b { a as int } else { b }
}

impl CustomLineInkCursor {
    /// An empty line.
    pub fn new(settings: TypeSettings, default_style: FontStyle) -> (cursor: Self)
        ensures
            cursor == (CustomLineInkCursor {
                advance_fp: 0,
                right: 0,
                settings,
                style: default_style,
            }),
    {
        CustomLineInkCursor { advance_fp: 0, right: 0, settings, style: default_style }
    }

    /// A change of style leaves no kerning pair to forget.
    pub fn reset_pair(&mut self)
        ensures
            *final(self) == *old(self),
    {
    }

    /// Takes one glyph. `advance` is the pen's position rounded to a pixel.
    pub fn push_metric(&mut self, advance: i16, metric: &GlyphMetric)
        requires
            i16::MIN <= advance + metric.x_offset <= i16::MAX,
            advance + metric.x_offset + metric.width <= i16::MAX,
            old(self).advance_fp + metric.advance_fp <= i32::MAX,
        ensures
            *final(self) == glyph_taken(*old(self), old(self).style, Some(*metric), advance as int, 0),
            *final(self) == (CustomLineInkCursor {
                advance_fp: (old(self).advance_fp + metric.advance_fp) as i32,
                right: further(
                    old(self).right,
                    advance + metric.x_offset + metric.width,
                ) as i16,
                ..*old(self)
            }),
    {
        let glyph_right: i16 = advance + metric.x_offset as i16 + metric.width as i16;
        if self.right < glyph_right {
            self.right = glyph_right;
        }
        self.advance_fp = self.advance_fp + metric.advance_fp as i32;
    }

    /// Takes a glyph the font lacks. `end` is the pen's position after it,
    /// rounded up to a pixel.
    pub fn push_fallback(&mut self, end: i16)
        requires
            old(self).advance_fp + FALLBACK_ADVANCE_FP <= i32::MAX,
        ensures
            *final(self) == glyph_taken(*old(self), old(self).style, None, 0, end as int),
            *final(self) == (CustomLineInkCursor {
                advance_fp: (old(self).advance_fp + FALLBACK_ADVANCE_FP) as i32,
                right: further(old(self).right, end as int) as i16,
                ..*old(self)
            }),
    {
        self.advance_fp = self.advance_fp + FALLBACK_ADVANCE_FP;
        if self.right < end {
            self.right = end;
        }
    }

    /// The line's width: the furthest ink or, if that is further, the pen.
    /// `end` is the pen's position rounded up to a pixel.
    pub fn width(&self, end: i16) -> (width: i16)
        ensures
            width == line_width(*self, end as int),
            width == further(self.right, end as int),
    {
        if self.right < end {
            end
        } else {
            self.right
        }
    }

    /// Takes a glyph in `style`, or one the font lacks. `round` and `ceil` are
    /// the pen's position before the glyph rounded, and after a lacking one
    /// rounded up.
    pub fn take_glyph(&mut self, style: FontStyle, metric: Option<GlyphMetric>, round: i16, ceil: i16)
        requires
            metric matches Some(metric) ==> {
                &&& i16::MIN <= round + metric.x_offset <= i16::MAX
                &&& round + metric.x_offset + metric.width <= i16::MAX
                &&& old(self).advance_fp + metric.advance_fp <= i32::MAX
            },
            old(self).advance_fp + FALLBACK_ADVANCE_FP <= i32::MAX,
        ensures
            *final(self) == glyph_taken(*old(self), style, metric, round as int, ceil as int),
            *final(self) == match metric {
                Some(metric) => CustomLineInkCursor {
                    advance_fp: (old(self).advance_fp + metric.advance_fp) as i32,
                    right: further(
                        old(self).right,
                        round + metric.x_offset + metric.width,
                    ) as i16,
                    style,
                    ..*old(self)
                },
                None => CustomLineInkCursor {
                    advance_fp: (old(self).advance_fp + FALLBACK_ADVANCE_FP) as i32,
                    right: further(old(self).right, ceil as int) as i16,
                    style,
                    ..*old(self)
                },
            },
    {
        if self.style != style {
            self.reset_pair();
            self.style = style;
        }
        match metric {
            Some(metric) => self.push_metric(round, &metric),
            None => self.push_fallback(ceil),
        }
    }
}

/// Whether lines are measured, and pages drawn, with the font on the card: it
/// is asked for and is not built into the firmware.
pub fn measures_with_card_font(custom_family: bool, builtin_available: bool) -> (measures: bool)
    ensures
        measures == card_measures(custom_family, builtin_available),
        measures == (custom_family && !builtin_available),
{
    custom_family && !builtin_available
}

/// Which custom font the store is given.
#[derive(Clone, Copy, PartialEq, Eq, Structural, Debug)]
pub enum CustomFont {
    BuiltIn,
    OnCard,
    Absent,
}

/// The custom font: the built-in one if there is one, and the card is not
/// asked then; else the pack on the card, if it has one.
pub fn load_custom_font_manifest(builtin_available: bool, card_has_pack: bool) -> (font: CustomFont)
    ensures
        font == font_found(builtin_available, card_has_pack),
        font == if builtin_available {
            CustomFont::BuiltIn
        } else if card_has_pack {
            CustomFont::OnCard
        } else {
            CustomFont::Absent
        },
{
    if builtin_available {
        CustomFont::BuiltIn
    } else if card_has_pack {
        CustomFont::OnCard
    } else {
        CustomFont::Absent
    }
}

/// A line only grows: no glyph moves its right edge back.
pub proof fn law_ink_never_shrinks(right: i16, glyph_right: int)
    ensures
        further(right, glyph_right) >= right,
        further(right, glyph_right) >= glyph_right,
{
}

/// The cursor behind a glyph: of the pack's own metric, or of the fallback.
pub open spec fn glyph_taken(cursor: CustomLineInkCursor, style: FontStyle, metric: Option<GlyphMetric>, round: int, ceil: int) -> CustomLineInkCursor {
    CustomLineInkCursor {
        advance_fp: match metric {
            Some(metric) => (cursor.advance_fp + metric.advance_fp) as i32,
            None => (cursor.advance_fp + FALLBACK_ADVANCE_FP) as i32,
        },
        right: match metric {
            Some(metric) => further(cursor.right, round + metric.x_offset + metric.width) as i16,
            None => further(cursor.right, ceil) as i16,
        },
        settings: cursor.settings,
        style,
    }
}

pub open spec fn line_width(cursor: CustomLineInkCursor, end: int) -> int {
    further(cursor.right, end)
}

pub open spec fn card_measures(custom_family: bool, builtin_available: bool) -> bool {
    custom_family && !builtin_available
}

pub open spec fn font_found(builtin_available: bool, card_has_pack: bool) -> CustomFont {
    if builtin_available {
        CustomFont::BuiltIn
    } else if card_has_pack {
        CustomFont::OnCard
    } else {
        CustomFont::Absent
    }
}

/// A glyph's ink is drawn from its offset and is as wide as the glyph: the
/// line reaches at least to its end and no further than that or where it
/// reached before. The advance grows by the glyph's own, and by the
/// fallback's where there is none.
pub proof fn law_line_reaches_its_glyphs(cursor: CustomLineInkCursor, style: FontStyle, metric: GlyphMetric, round: int, ceil: int)
    requires
        i16::MIN <= round + metric.x_offset + metric.width <= i16::MAX,
        i16::MIN <= ceil <= i16::MAX,
        i32::MIN <= cursor.advance_fp + metric.advance_fp <= i32::MAX,
        cursor.advance_fp + FALLBACK_ADVANCE_FP <= i32::MAX,
    ensures
        ({
            let known = glyph_taken(cursor, style, Some(metric), round, ceil);
            let ink = round + metric.x_offset + metric.width;
            &&& known.right >= cursor.right && known.right >= ink
            &&& known.right == cursor.right || known.right == ink
            &&& known.advance_fp - cursor.advance_fp == metric.advance_fp
            &&& known.style == style && known.settings == cursor.settings
        }),
        ({
            let unknown = glyph_taken(cursor, style, None, round, ceil);
            &&& unknown.right >= cursor.right && unknown.right >= ceil
            &&& unknown.right == cursor.right || unknown.right == ceil
            &&& unknown.advance_fp - cursor.advance_fp == FALLBACK_ADVANCE_FP
            &&& unknown.style == style && unknown.settings == cursor.settings
        }),
{
}

/// A line is as wide as its ink or its advance reaches, whichever is further.
pub proof fn law_line_is_as_wide_as_it_reaches(cursor: CustomLineInkCursor, end: int)
    ensures
        line_width(cursor, end) >= cursor.right,
        line_width(cursor, end) >= end,
        line_width(cursor, end) == cursor.right || line_width(cursor, end) == end,
{
}

/// The card's font measures exactly where it is chosen and not built in, and
/// then it is never taken to be built in.
pub proof fn law_built_in_font_needs_no_card(custom_family: bool, builtin_available: bool, card_has_pack: bool)
    ensures
        card_measures(custom_family, builtin_available) ==> custom_family && !(font_found(
            builtin_available,
            card_has_pack,
        ) is BuiltIn),
        custom_family && !card_measures(custom_family, builtin_available) ==> font_found(
            builtin_available,
            card_has_pack,
        ) is BuiltIn,
        font_found(builtin_available, card_has_pack) is Absent <==> !builtin_available
            && !card_has_pack,
        font_found(builtin_available, card_has_pack) is OnCard ==> card_has_pack,
{
}

} // verus!
