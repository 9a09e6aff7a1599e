//! Words and the space between them.
use vstd::prelude::*;
use crate::bounded::utf8_len;
use crate::chars::{is_white_space, word_len, words};
use crate::sink::normal_form;
use crate::text::{
    collapsed, decoded, drawable, fitting, law_fitting_is_the_longest_beginning,
    without_trailing_spaces,
};
use crate::text_laws::law_text_without_entities_is_itself;

verus! {

/// The characters that count as space, by their numbers.
pub open spec fn space_numbers() -> Seq<u32> {
    seq![
        0x09u32, 0x0a, 0x0b, 0x0c, 0x0d, 0x20, 0x85, 0xa0, 0x1680, 0x2000, 0x2001, 0x2002, 0x2003,
        0x2004, 0x2005, 0x2006, 0x2007, 0x2008, 0x2009, 0x200a, 0x2028, 0x2029, 0x202f, 0x205f,
        0x3000,
    ]
}

/// A character is white space exactly if it is one of twenty-five: no letter,
/// digit or mark of any script is, nor is the zero-width space.
pub proof fn law_white_space_is_a_known_set(c: char)
    ensures
        is_white_space(c) <==> space_numbers().contains(c as u32),
{
    let list = space_numbers();
    let u = c as u32;
    if is_white_space(c) {
        let at: int = if u <= 0x0d {
            u - 0x09
        } else if u == 0x20 {
            5
        } else if u == 0x85 {
            6
        } else if u == 0xa0 {
            7
        } else if u == 0x1680 {
            8
        } else if u <= 0x200a {
            u - 0x2000 + 9
        } else if u == 0x2028 {
            20
        } else if u == 0x2029 {
            21
        } else if u == 0x202f {
            22
        } else if u == 0x205f {
            23
        } else {
            24
        };
        assert(list[at] == u);
    }
    if list.contains(u) {
        let at = choose|at: int| 0 <= at < list.len() && list[at] == u;
        assert(list[at] == u);
    }
}

/// A character is drawn as it is, but for the space that does not break, which
/// is drawn as any space, and what lies beyond the first plane, which is drawn
/// as a question mark.
pub proof fn law_characters_are_drawn(c: char)
    ensures
        c == '\u{a0}' ==> drawable(c) == ' ',
        c != '\u{a0}' && c as u32 <= 0xffff ==> drawable(c) == c,
        c as u32 > 0xffff ==> drawable(c) == '?',
{
}

/// Whether a text that is being normalized has just seen space.
pub open spec fn ends_in_space(text: Seq<char>, after_space: bool) -> bool {
    if text.len() == 0 { after_space } else { is_white_space(text.last()) }
}

/// A text is normalized piece by piece: two pieces one after the other come
/// out as they would by themselves, the second knowing whether space came
/// before it. Of a run of space the first becomes a space, and none does at
/// the start; any other character is drawn, whatever stands before it.
pub proof fn law_normalizing_goes_piece_by_piece(a: Seq<char>, b: Seq<char>, after_space: bool)
    ensures
        collapsed(a + b, after_space) == collapsed(a, after_space) + collapsed(
            b,
            ends_in_space(a, after_space),
        ),
    decreases a.len(),
{
    if a.len() == 0 {
        assert(a + b =~= b);
        assert(collapsed(a, after_space) + collapsed(b, after_space) =~= collapsed(b, after_space));
    } else {
        let rest = a.drop_first();
        let now = is_white_space(a[0]);
        assert((a + b)[0] == a[0]);
        assert((a + b).drop_first() =~= rest + b);
        law_normalizing_goes_piece_by_piece(rest, b, now);
        assert(ends_in_space(rest, now) == ends_in_space(a, after_space));
        let tail = collapsed(b, ends_in_space(a, after_space));
        if now && after_space {
        } else if now {
            assert(seq![' '] + (collapsed(rest, true) + tail) =~= (seq![' '] + collapsed(rest, true))
                + tail);
        } else {
            let c = drawable(a[0]);
            assert(seq![c] + (collapsed(rest, false) + tail) =~= (seq![c] + collapsed(rest, false))
                + tail);
        }
    }
}

/// What becomes of one character: a space gives a space unless one came
/// before it, and any other character itself, as it is drawn.
pub proof fn law_one_character_is_normalized(c: char, after_space: bool)
    ensures
        is_white_space(c) && !after_space ==> collapsed(seq![c], after_space) == seq![' '],
        is_white_space(c) && after_space ==> collapsed(seq![c], after_space).len() == 0,
        !is_white_space(c) ==> collapsed(seq![c], after_space) == seq![drawable(c)],
{
    let rest = seq![c].drop_first();
    assert(rest =~= Seq::<char>::empty());
    assert(collapsed(rest, true) =~= Seq::<char>::empty());
    assert(collapsed(rest, false) =~= Seq::<char>::empty());
    assert(seq![' '] + Seq::<char>::empty() =~= seq![' ']);
    assert(seq![drawable(c)] + Seq::<char>::empty() =~= seq![drawable(c)]);
}

/// Whether a text has no space in it.
pub open spec fn is_spaceless(text: Seq<char>) -> bool {
    forall|i: int| 0 <= i < text.len() ==> !is_white_space(#[trigger] text[i])
}

proof fn lemma_word_len_of(word: Seq<char>, rest: Seq<char>)
    requires
        is_spaceless(word),
        rest.len() == 0 || is_white_space(rest[0]),
    ensures
        word_len(word + rest) == word.len(),
    decreases word.len(),
{
    if word.len() == 0 {
        assert(word + rest =~= rest);
    } else {
        let later = word.drop_first();
        assert forall|i: int| 0 <= i < later.len() implies !is_white_space(#[trigger] later[i]) by {
            assert(later[i] == word[i + 1]);
        }
        assert(!is_white_space(word[0]));
        assert((word + rest)[0] == word[0]);
        assert((word + rest).drop_first() =~= later + rest);
        lemma_word_len_of(later, rest);
    }
}

/// A text without space is one word, and no word at all if it is empty.
pub proof fn law_spaceless_text_is_one_word(text: Seq<char>)
    requires
        is_spaceless(text),
    ensures
        text.len() > 0 ==> words(text) == seq![text],
        text.len() == 0 ==> words(text).len() == 0,
{
    if text.len() > 0 {
        let none = Seq::<char>::empty();
        assert(!is_white_space(text[0]));
        assert(text + none =~= text);
        lemma_word_len_of(text, none);
        assert(text.take(text.len() as int) =~= text);
        assert(text.skip(text.len() as int) =~= none);
        assert(words(none) =~= Seq::<Seq<char>>::empty());
        assert(seq![text] + Seq::<Seq<char>>::empty() =~= seq![text]);
    }
}

/// Space parts words: the words of a text with space in it are those before
/// the space and those behind it, wherever in the text it is.
pub proof fn law_space_parts_words(a: Seq<char>, space: char, b: Seq<char>)
    requires
        is_white_space(space),
    ensures
        words(a + seq![space] + b) == words(a) + words(b),
    decreases a.len(),
{
    let whole = a + seq![space] + b;
    let behind = seq![space] + b;
    if a.len() == 0 {
        assert(whole =~= behind);
        assert(behind[0] == space);
        assert(behind.drop_first() =~= b);
        assert(words(a) =~= Seq::<Seq<char>>::empty());
        assert(Seq::<Seq<char>>::empty() + words(b) =~= words(b));
    } else if is_white_space(a[0]) {
        assert(whole[0] == a[0]);
        assert(whole.drop_first() =~= a.drop_first() + seq![space] + b);
        law_space_parts_words(a.drop_first(), space, b);
    } else {
        let n = lemma_first_word(a);
        let word = a.take(n);
        let rest = a.skip(n);
        assert(is_spaceless(word)) by {
            assert forall|i: int| 0 <= i < word.len() implies !is_white_space(#[trigger] word[i]) by {
                assert(word[i] == a[i]);
            }
        }
        let tail = rest + seq![space] + b;
        assert(tail[0] == if rest.len() > 0 { rest[0] } else { space });
        if rest.len() > 0 {
            assert(rest[0] == a[n]);
        }
        lemma_word_len_of(word, rest);
        lemma_word_len_of(word, tail);
        assert(word + rest =~= a);
        assert(word + tail =~= whole);
        assert(whole[0] == a[0]);
        assert(whole.take(n) =~= word);
        assert(whole.skip(n) =~= tail);
        law_space_parts_words(rest, space, b);
        assert(seq![word] + (words(rest) + words(b)) =~= (seq![word] + words(rest)) + words(b));
    }
}

proof fn lemma_first_word(text: Seq<char>) -> (n: int)
    requires
        text.len() > 0,
        !is_white_space(text[0]),
    ensures
        0 < n <= text.len(),
        forall|i: int| 0 <= i < n ==> !is_white_space(#[trigger] text[i]),
        n < text.len() ==> is_white_space(text[n]),
    decreases text.len(),
{
    let rest = text.drop_first();
    if rest.len() == 0 || is_white_space(rest[0]) {
        if rest.len() > 0 {
            assert(text[1] == rest[0]);
        }
        1
    } else {
        let n = lemma_first_word(rest);
        assert forall|i: int| 0 <= i < n + 1 implies !is_white_space(#[trigger] text[i]) by {
            if i > 0 {
                assert(rest[i - 1] == text[i]);
            }
        }
        if n + 1 < text.len() {
            assert(rest[n] == text[n + 1]);
        }
        n + 1
    }
}

/// A text that needs nothing done to it is set as it is: it has no entities,
/// one plain space between its words and none around them, it can be drawn,
/// and it fits.
pub proof fn law_plain_text_is_set_as_it_is(text: Seq<char>, entities: Seq<Option<char>>, capacity: int)
    requires
        entities.len() == text.len(),
        forall|i: int| 0 <= i < text.len() ==> #[trigger] entities[i] is None,
        forall|i: int| 0 <= i < text.len() ==> (#[trigger] text[i]) as u32 <= 0xffff,
        forall|i: int|
            0 <= i < text.len() && is_white_space(#[trigger] text[i]) ==> text[i] == ' ' && i > 0
                && !is_white_space(text[i - 1]),
        text.len() > 0 ==> text.last() != ' ',
        utf8_len(text) <= capacity,
    ensures
        normal_form(text, entities, capacity) == text,
{
    law_text_without_entities_is_itself(text, entities, 0);
    assert(text.skip(0) =~= text);
    lemma_plain_stays(text, true);
    law_fitting_is_the_longest_beginning(text, capacity);
    let part = fitting(text, capacity);
    if part.len() < text.len() {
        let k = part.len() as int + 1;
        assert(text =~= text.take(k) + text.skip(k));
        crate::bounded::lemma_utf8_len_concat(text.take(k), text.skip(k));
        assert(false);
    }
    assert(text.take(text.len() as int) =~= text);
}

proof fn lemma_plain_stays(text: Seq<char>, after_space: bool)
    requires
        forall|i: int| 0 <= i < text.len() ==> (#[trigger] text[i]) as u32 <= 0xffff,
        forall|i: int|
            0 <= i < text.len() && is_white_space(#[trigger] text[i]) ==> text[i] == ' ' && (if i
                == 0 {
                !after_space
            } else {
                !is_white_space(text[i - 1])
            }),
    ensures
        collapsed(text, after_space) == text,
    decreases text.len(),
{
    if text.len() > 0 {
        let rest = text.drop_first();
        assert forall|i: int| 0 <= i < rest.len() implies (#[trigger] rest[i]) as u32 <= 0xffff by {
            assert(rest[i] == text[i + 1]);
        }
        assert forall|i: int|
            0 <= i < rest.len() && is_white_space(#[trigger] rest[i]) implies rest[i] == ' ' && (if i
            == 0 {
            !is_white_space(text[0])
        } else {
            !is_white_space(rest[i - 1])
        }) by {
            assert(rest[i] == text[i + 1]);
            if i > 0 {
                assert(rest[i - 1] == text[i]);
            }
        }
        lemma_plain_stays(rest, is_white_space(text[0]));
        assert(text[0] as u32 <= 0xffff);
        assert(seq![text[0]] + rest =~= text);
    } else {
        assert(collapsed(text, after_space) =~= text);
    }
}

/// A text that is set fits, and does not end with a space.
pub proof fn law_set_text_fits(text: Seq<char>, entities: Seq<Option<char>>, capacity: int)
    requires
        capacity >= 0,
    ensures
        utf8_len(normal_form(text, entities, capacity)) <= capacity,
        normal_form(text, entities, capacity).len() > 0 ==> normal_form(text, entities, capacity).last()
            != ' ',
{
    let plain = collapsed(decoded(text, entities, 0), true);
    law_fitting_is_the_longest_beginning(plain, capacity);
    lemma_trimming(fitting(plain, capacity));
}

proof fn lemma_trimming(text: Seq<char>)
    ensures
        utf8_len(without_trailing_spaces(text)) <= utf8_len(text),
        without_trailing_spaces(text).len() > 0 ==> without_trailing_spaces(text).last() != ' ',
    decreases text.len(),
{
    if text.len() > 0 && text.last() == ' ' {
        lemma_trimming(text.drop_last());
    }
}

} // verus!
