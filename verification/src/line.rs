//! Styled lines: roles, alignment, and how words are put on a line.
use vstd::prelude::*;
use vstd::string::*;
use crate::bounded::{char_width, lemma_utf8_len_concat, utf8_len, Text};
use crate::chars::chars_of;
use crate::text::{is_decorative_separator, is_separator};

verus! {

#[derive(Clone, Copy, PartialEq, Eq, Structural, Debug)]
pub enum TextRole {
    Heading1,
    Heading2,
    Heading3,
    Body,
    BlockQuote,
}

#[derive(Clone, Copy, PartialEq, Eq, Structural, Debug)]
pub enum TextAlign {
    Left,
    Center,
    Right,
    Justify,
}

#[derive(Clone, Copy, PartialEq, Eq, Structural, Debug)]
pub enum FontStyle {
    Regular,
    Bold,
    Italic,
    BoldItalic,
}

/// The characters that switch the style inside a line: the marker, and the
/// code of each style that follows it.
#[derive(Clone, Copy, PartialEq, Eq, Structural, Debug)]
pub struct StyleMarks {
    pub marker: char,
    pub regular: char,
    pub bold: char,
    pub italic: char,
    pub bold_italic: char,
}

pub open spec fn is_heading(role: TextRole) -> bool {
    role is Heading1 || role is Heading2 || role is Heading3
}

/// Whether a role is that of a heading.
pub fn heading(role: TextRole) -> (heading: bool)
    ensures
        heading == is_heading(role),
{
    matches!(role, TextRole::Heading1 | TextRole::Heading2 | TextRole::Heading3)
}

/// The style a run is drawn in: a heading's plain text is bold.
pub open spec fn drawn_style(style: FontStyle, role: TextRole) -> FontStyle {
    if style == FontStyle::Regular && is_heading(role) { FontStyle::Bold } else { style }
}

/// The style a run is drawn in: its own, or bold for plain text in a heading.
pub fn preview_style_for_proto_style(style: FontStyle, role: TextRole) -> (drawn: FontStyle)
    ensures
        drawn == drawn_style(style, role),
{
    match style {
        FontStyle::Regular => if heading(role) {
            FontStyle::Bold
        } else {
            FontStyle::Regular
        },
        other => other,
    }
}

/// The level of a heading in a generated table of contents.
pub fn heading_toc_level(role: TextRole) -> (level: u8)
    ensures
        level == level_of(role),
        level == match role {
            TextRole::Heading2 => 2u8,
            TextRole::Heading3 => 3u8,
            _ => 1u8,
        },
{
    match role {
        TextRole::Heading1 => 1,
        TextRole::Heading2 => 2,
        TextRole::Heading3 => 3,
        TextRole::Body | TextRole::BlockQuote => 1,
    }
}

pub open spec fn block_align(run_align: TextAlign, block: Seq<char>, role: TextRole) -> TextAlign {
    if is_heading(role) || is_separator(block) { TextAlign::Center } else { run_align }
}

/// The alignment of a block: headings and decorative breaks are centred, the
/// rest stands as it was given.
pub fn block_align_for(run_align: TextAlign, block: &str, role: TextRole) -> (align: TextAlign)
    ensures
        align == block_align(run_align, block@, role),
{
    if run_align == TextAlign::Center || heading(role) || is_decorative_separator(block) {
        TextAlign::Center
    } else {
        run_align
    }
}

/// Whether a paragraph's first line is indented.
pub open spec fn is_indented(role: TextRole, align: TextAlign) -> bool {
    role == TextRole::Body && (align == TextAlign::Left || align == TextAlign::Justify)
}

/// Whether a paragraph's first line is indented.
pub fn takes_indent(role: TextRole, align: TextAlign) -> (takes: bool)
    ensures
        takes == is_indented(role, align),
{
    role == TextRole::Body && (align == TextAlign::Left || align == TextAlign::Justify)
}

pub open spec fn mark_code(marks: StyleMarks, style: FontStyle) -> char {
    match style {
        FontStyle::Regular => marks.regular,
        FontStyle::Bold => marks.bold,
        FontStyle::Italic => marks.italic,
        FontStyle::BoldItalic => marks.bold_italic,
    }
}

fn style_marker_code(marks: &StyleMarks, style: FontStyle) -> (code: char)
    ensures
        code == mark_code(*marks, style),
{
    match style {
        FontStyle::Regular => marks.regular,
        FontStyle::Bold => marks.bold,
        FontStyle::Italic => marks.italic,
        FontStyle::BoldItalic => marks.bold_italic,
    }
}

/// What is written for a word, in the pieces it is written in: a space where
/// one is due, the marker and its code where the style changes, the word.
pub open spec fn word_pieces(
    word: Seq<char>,
    style: FontStyle,
    current: FontStyle,
    leading_space: bool,
    marks: StyleMarks,
) -> Seq<Seq<char>> {
    let space = if leading_space { seq![seq![' ']] } else { Seq::empty() };
    let mark = if style != current {
        seq![seq![marks.marker], seq![mark_code(marks, style)]]
    } else {
        Seq::empty()
    };
    space + mark + seq![word]
}

/// A line after as many of the pieces, in order, as fit one after another.
pub open spec fn with_pieces(line: Seq<char>, pieces: Seq<Seq<char>>, capacity: int) -> Seq<char>
    decreases pieces.len(),
{
    if pieces.len() == 0 || utf8_len(line) + utf8_len(pieces[0]) > capacity {
        line
    } else {
        with_pieces(line + pieces[0], pieces.drop_first(), capacity)
    }
}

/// Whether all of the pieces fit.
pub open spec fn pieces_fit(line: Seq<char>, pieces: Seq<Seq<char>>, capacity: int) -> bool
    decreases pieces.len(),
{
    pieces.len() == 0 || (utf8_len(line) + utf8_len(pieces[0]) <= capacity && pieces_fit(
        line + pieces[0],
        pieces.drop_first(),
        capacity,
    ))
}

/// Appends the marker that switches to `style`.
pub fn append_style_marker<const N: usize>(
    line: &mut Text<N>,
    style: FontStyle,
    marks: &StyleMarks,
) -> (outcome: Result<(), ()>)
    ensures
        ({
            let pieces = seq![seq![marks.marker], seq![mark_code(*marks, style)]];
            &&& final(line)@ == with_pieces(old(line)@, pieces, N as int)
            &&& outcome is Ok <==> pieces_fit(old(line)@, pieces, N as int)
        }),
{
    let ghost pieces = seq![seq![marks.marker], seq![mark_code(*marks, style)]];
    let ghost rest = pieces.drop_first();
    proof {
        lemma_single(marks.marker);
        lemma_single(mark_code(*marks, style));
        assert(pieces[0] == seq![marks.marker]);
        assert(rest[0] == seq![mark_code(*marks, style)]);
        assert(rest.drop_first() =~= Seq::<Seq<char>>::empty());
        assert(line@.push(marks.marker) =~= line@ + pieces[0]);
        assert((line@ + pieces[0]).push(mark_code(*marks, style)) =~= line@ + pieces[0] + rest[0]);
        lemma_utf8_len_concat(line@, pieces[0]);
        reveal_with_fuel(with_pieces, 4);
        reveal_with_fuel(pieces_fit, 4);
    }
    if line.push(marks.marker).is_err() {
        return Err(());
    }
    line.push(style_marker_code(marks, style))
}

proof fn lemma_single(c: char)
    ensures
        utf8_len(seq![c]) == char_width(c),
{
    assert(seq![c].drop_last() =~= Seq::<char>::empty());
    assert(utf8_len(Seq::<char>::empty()) == 0);
}

/// Pieces written in two goes are written as in one.
proof fn lemma_pieces_split(line: Seq<char>, a: Seq<Seq<char>>, b: Seq<Seq<char>>, capacity: int)
    ensures
        pieces_fit(line, a, capacity) ==> with_pieces(line, a + b, capacity) == with_pieces(
            with_pieces(line, a, capacity),
            b,
            capacity,
        ) && pieces_fit(line, a + b, capacity) == pieces_fit(
            with_pieces(line, a, capacity),
            b,
            capacity,
        ),
        !pieces_fit(line, a, capacity) ==> with_pieces(line, a + b, capacity) == with_pieces(
            line,
            a,
            capacity,
        ) && !pieces_fit(line, a + b, capacity),
    decreases a.len(),
{
    if a.len() == 0 {
        assert(a + b =~= b);
    } else {
        assert((a + b)[0] == a[0]);
        assert((a + b).drop_first() =~= a.drop_first() + b);
        lemma_pieces_split(line + a[0], a.drop_first(), b, capacity);
    }
}

proof fn lemma_one_piece(line: Seq<char>, piece: Seq<char>, capacity: int)
    ensures
        with_pieces(line, seq![piece], capacity) == if utf8_len(line) + utf8_len(piece)
            <= capacity {
            line + piece
        } else {
            line
        },
        pieces_fit(line, seq![piece], capacity) == (utf8_len(line) + utf8_len(piece) <= capacity),
{
    assert(seq![piece].drop_first() =~= Seq::<Seq<char>>::empty());
    reveal_with_fuel(with_pieces, 3);
    reveal_with_fuel(pieces_fit, 3);
}

/// Appends a word: a space if one is due, a marker only where the style
/// changes, then the word whole. Stops at the first piece that does not fit.
pub fn append_styled_word<const N: usize>(
    line: &mut Text<N>,
    word: &str,
    style: FontStyle,
    current_style: FontStyle,
    leading_space: bool,
    marks: &StyleMarks,
) -> (outcome: Result<(), ()>)
    ensures
        ({
            let pieces = word_pieces(word@, style, current_style, leading_space, *marks);
            &&& final(line)@ == with_pieces(old(line)@, pieces, N as int)
            &&& outcome is Ok <==> pieces_fit(old(line)@, pieces, N as int)
        }),
{
    let ghost start = line@;
    let ghost space = if leading_space { seq![seq![' ']] } else { Seq::<Seq<char>>::empty() };
    let ghost mark = if style != current_style {
        seq![seq![marks.marker], seq![mark_code(*marks, style)]]
    } else {
        Seq::<Seq<char>>::empty()
    };
    let ghost tail = mark + seq![word@];
    proof {
        assert(word_pieces(word@, style, current_style, leading_space, *marks) =~= space + tail);
        lemma_pieces_split(start, space, tail, N as int);
        lemma_single(' ');
        lemma_one_piece(start, seq![' '], N as int);
        assert(start.push(' ') =~= start + seq![' ']);
    }
    if leading_space {
        if line.push(' ').is_err() {
            return Err(());
        }
    }
    let ghost spaced = line@;
    proof {
        lemma_pieces_split(spaced, mark, seq![word@], N as int);
    }
    if style != current_style {
        if append_style_marker(line, style, marks).is_err() {
            return Err(());
        }
    }
    proof {
        lemma_one_piece(line@, word@, N as int);
    }
    line.push_str(word)
}

/// Pieces only ever extend a line.
pub proof fn lemma_pieces_extend(line: Seq<char>, pieces: Seq<Seq<char>>, capacity: int)
    ensures
        with_pieces(line, pieces, capacity).len() >= line.len(),
        with_pieces(line, pieces, capacity).take(line.len() as int) == line,
    decreases pieces.len(),
{
    if pieces.len() == 0 || utf8_len(line) + utf8_len(pieces[0]) > capacity {
        assert(line.take(line.len() as int) =~= line);
    } else {
        let next = line + pieces[0];
        lemma_pieces_extend(next, pieces.drop_first(), capacity);
        let result = with_pieces(next, pieces.drop_first(), capacity);
        assert(result.take(line.len() as int) =~= result.take(next.len() as int).take(
            line.len() as int,
        ));
        assert(next.take(line.len() as int) =~= line);
    }
}

/// Takes back what was appended to a line since it held `kept`.
pub(crate) fn take_back<const N: usize>(line: &mut Text<N>, kept_len: usize, Ghost(kept): Ghost<Seq<char>>)
    requires
        kept_len == utf8_len(kept),
        old(line)@.len() >= kept.len(),
        old(line)@.take(kept.len() as int) == kept,
    ensures
        final(line)@ == kept,
{
    line.truncate(kept_len);
}

/// A styled line without its markers and their codes.
pub open spec fn plain_text(styled: Seq<char>, marker: char) -> Seq<char>
    decreases styled.len(),
{
    if styled.len() == 0 {
        Seq::empty()
    } else if styled[0] == marker {
        plain_text(styled.skip(if styled.len() >= 2 { 2 } else { 1 }), marker)
    } else {
        seq![styled[0]] + plain_text(styled.drop_first(), marker)
    }
}

/// A text after each character of `more` in turn, leaving out those that do
/// not fit.
pub open spec fn with_each(text: Seq<char>, more: Seq<char>, capacity: int) -> Seq<char>
    decreases more.len(),
{
    if more.len() == 0 {
        text
    } else if utf8_len(text) + char_width(more[0]) <= capacity {
        with_each(text.push(more[0]), more.drop_first(), capacity)
    } else {
        with_each(text, more.drop_first(), capacity)
    }
}

/// Appends a styled line without its markers. A character that does not fit
/// is left out.
pub fn push_plain_styled_text<const N: usize>(styled: &str, marker: char, out: &mut Text<N>)
    ensures
        final(out)@ == with_each(old(out)@, plain_text(styled@, marker), N as int),
{
    let chars = chars_of(styled);
    let mut skip_style_code: bool = false;
    let mut i: usize = 0;
    let ghost whole = with_each(out@, plain_text(styled@, marker), N as int);
    proof {
        assert(styled@.skip(0) =~= styled@);
    }
    while i < chars.len()
        invariant
            i <= chars@.len(),
            chars@ == styled@,
            whole == with_each(
                out@,
                plain_text(
                    styled@.skip(
                        if skip_style_code && i < chars@.len() { i + 1 } else { i as int },
                    ),
                    marker,
                ),
                N as int,
            ),
        decreases chars@.len() - i,
    {
        let c: char = chars[i];
        let ghost rest = styled@.skip(i as int);
        proof {
            assert(rest[0] == c);
            assert(rest.drop_first() =~= styled@.skip(i + 1));
            if i + 1 < chars@.len() {
                assert(rest.skip(2) =~= styled@.skip(i + 2));
            } else {
                assert(rest.skip(1) =~= styled@.skip(i + 1));
            }
        }
        if skip_style_code {
            skip_style_code = false;
        } else if c == marker {
            skip_style_code = true;
        } else {
            proof {
                let tail = plain_text(styled@.skip(i + 1), marker);
                assert((seq![c] + tail)[0] == c);
                assert((seq![c] + tail).drop_first() =~= tail);
            }
            let _ = out.push(c);
        }
        i += 1;
    }
    proof {
        assert(styled@.skip(i as int) =~= Seq::<char>::empty());
    }
}

/// Only plain text in a heading is drawn otherwise than it is marked: bold.
/// Marked text keeps its marking everywhere.
pub proof fn law_headings_are_bold(style: FontStyle, role: TextRole)
    ensures
        ({
            let in_heading = role == TextRole::Heading1 || role == TextRole::Heading2 || role
                == TextRole::Heading3;
            let drawn = drawn_style(style, role);
            &&& in_heading ==> drawn != FontStyle::Regular
            &&& drawn != style ==> in_heading && style == FontStyle::Regular && drawn
                == FontStyle::Bold
        }),
{
}

/// A block is centred when it is a heading, a break or given so, and stands
/// as it was given otherwise. Only a paragraph of the body that is flush to
/// the left is indented.
pub proof fn law_alignment_of_a_block(run_align: TextAlign, block: Seq<char>, role: TextRole)
    ensures
        ({
            let in_heading = role == TextRole::Heading1 || role == TextRole::Heading2 || role
                == TextRole::Heading3;
            let align = block_align(run_align, block, role);
            &&& in_heading || is_separator(block) ==> align == TextAlign::Center
            &&& align != run_align ==> in_heading || is_separator(block)
            &&& is_indented(role, align) ==> role == TextRole::Body && align != TextAlign::Center
                && align != TextAlign::Right
            &&& role == TextRole::Body && align != TextAlign::Center && align != TextAlign::Right
                ==> is_indented(role, align)
        }),
{
}

/// A word that fits is written with what it needs and nothing else: read
/// without its markers the line is longer by the word, behind a space where
/// one is due. The style is switched by one marker and its code, only where
/// it changes.
pub proof fn law_word_is_written(
    line: Seq<char>,
    word: Seq<char>,
    style: FontStyle,
    current: FontStyle,
    leading_space: bool,
    marks: StyleMarks,
    capacity: int,
)
    requires
        pieces_fit(line, word_pieces(word, style, current, leading_space, marks), capacity),
    ensures
        ({
            let after = with_pieces(
                line,
                word_pieces(word, style, current, leading_space, marks),
                capacity,
            );
            let space = if leading_space { seq![' '] } else { Seq::empty() };
            let code = match style {
                FontStyle::Regular => marks.regular,
                FontStyle::Bold => marks.bold,
                FontStyle::Italic => marks.italic,
                FontStyle::BoldItalic => marks.bold_italic,
            };
            &&& style == current ==> after == line + space + word
            &&& style != current ==> after == line + space + seq![marks.marker, code] + word
        }),
{
    let space = if leading_space { seq![seq![' ']] } else { Seq::<Seq<char>>::empty() };
    let mark = if style != current {
        seq![seq![marks.marker], seq![mark_code(marks, style)]]
    } else {
        Seq::<Seq<char>>::empty()
    };
    let tail = mark + seq![word];
    assert(word_pieces(word, style, current, leading_space, marks) =~= space + tail);
    lemma_pieces_split(line, space, tail, capacity);
    lemma_one_piece(line, seq![' '], capacity);
    let spaced = with_pieces(line, space, capacity);
    let given = if leading_space { seq![' '] } else { Seq::empty() };
    assert(line + Seq::<char>::empty() =~= line);
    assert(spaced == line + given);
    lemma_pieces_split(spaced, mark, seq![word], capacity);
    let marked = with_pieces(spaced, mark, capacity);
    if style != current {
        let code = mark_code(marks, style);
        assert(mark =~= seq![seq![marks.marker]] + seq![seq![code]]);
        lemma_pieces_split(spaced, seq![seq![marks.marker]], seq![seq![code]], capacity);
        lemma_one_piece(spaced, seq![marks.marker], capacity);
        lemma_one_piece(spaced + seq![marks.marker], seq![code], capacity);
        assert(spaced + seq![marks.marker] + seq![code] =~= spaced + seq![marks.marker, code]);
        assert(marked == spaced + seq![marks.marker, code]);
    } else {
        assert(marked == spaced);
    }
    lemma_one_piece(marked, word, capacity);
}

/// Taking the markers out of a line takes out each marker with the code
/// behind it and leaves every other character, in its place: a line without
/// markers is left whole, and what stands on either side of a marked code
/// comes out as it would by itself.
pub proof fn law_markers_are_taken_out(before: Seq<char>, code: char, after: Seq<char>, marker: char)
    requires
        forall|i: int| 0 <= i < before.len() ==> #[trigger] before[i] != marker,
    ensures
        plain_text(before, marker) == before,
        plain_text(before + seq![marker, code] + after, marker) == before + plain_text(after, marker),
    decreases before.len(),
{
    let whole = before + seq![marker, code] + after;
    if before.len() == 0 {
        assert(whole.skip(2) =~= after);
        assert(before + plain_text(after, marker) =~= plain_text(after, marker));
        assert(plain_text(before, marker) =~= before);
    } else {
        let rest = before.drop_first();
        assert forall|i: int| 0 <= i < rest.len() implies #[trigger] rest[i] != marker by {
            assert(rest[i] == before[i + 1]);
        }
        law_markers_are_taken_out(rest, code, after, marker);
        assert(whole[0] == before[0]);
        assert(whole.drop_first() =~= rest + seq![marker, code] + after);
        assert(seq![before[0]] + rest =~= before);
        assert(seq![before[0]] + (rest + plain_text(after, marker)) =~= before + plain_text(
            after,
            marker,
        ));
    }
}

/// In a buffer with room for all of them every character is appended, in
/// order.
pub proof fn law_room_enough_keeps_every_character(text: Seq<char>, more: Seq<char>, capacity: int)
    requires
        utf8_len(text) + utf8_len(more) <= capacity,
    ensures
        with_each(text, more, capacity) == text + more,
    decreases more.len(),
{
    if more.len() > 0 {
        let first = seq![more[0]];
        let rest = more.drop_first();
        assert(more =~= first + rest);
        lemma_utf8_len_concat(first, rest);
        lemma_single(more[0]);
        lemma_utf8_len_concat(text, first);
        assert(text.push(more[0]) =~= text + first);
        law_room_enough_keeps_every_character(text.push(more[0]), rest, capacity);
        assert(text.push(more[0]) + rest =~= text + more);
    } else {
        assert(text + more =~= text);
    }
}

pub open spec fn level_of(role: TextRole) -> u8 {
    match role {
        TextRole::Heading2 => 2,
        TextRole::Heading3 => 3,
        _ => 1,
    }
}

/// A heading is listed at its own level, deeper ones deeper, and anything else
/// at the top.
pub proof fn law_headings_are_listed_at_their_level(role: TextRole)
    ensures
        1 <= level_of(role) <= 3,
        level_of(TextRole::Heading1) < level_of(TextRole::Heading2) < level_of(TextRole::Heading3),
        role is Body || role is BlockQuote ==> level_of(role) == 1,
{
}

} // verus!
