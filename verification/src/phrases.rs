//! Reading a text for a phrase, the case of its letters aside: what the
//! lower-case bytes of a text say of its characters.
use vstd::prelude::*;
use vstd::utf8::*;
use crate::bounded::{char_width, lemma_encoded_len, lemma_utf8_len_concat, utf8_len};
use crate::chars::stands_at;
use crate::text::{fitting, law_fitting_is_the_longest_beginning, lower_ascii, lowered};

verus! {

/// Whether `c` is the letter `small`, in lower case or as a capital.
pub open spec fn is_letter(c: char, small: char) -> bool {
    c == small || ('A' <= c <= 'Z' && c as u32 + 32 == small as u32)
}

/// Whether `phrase` can be read in `text` at position `at`.
pub open spec fn reads(text: Seq<char>, phrase: Seq<char>, at: int) -> bool {
    &&& 0 <= at
    &&& at + phrase.len() <= text.len()
    &&& forall|i: int| 0 <= i < phrase.len() ==> #[trigger] is_letter(text[at + i], phrase[i])
}

/// Whether `phrase` can be read anywhere in `text`.
pub open spec fn mentions(text: Seq<char>, phrase: Seq<char>) -> bool {
    exists|at: int| reads(text, phrase, at)
}

/// Whether `text` is `phrase` and nothing else.
pub open spec fn is_phrase(text: Seq<char>, phrase: Seq<char>) -> bool {
    text.len() == phrase.len() && reads(text, phrase, 0)
}

/// A phrase to look for: of plain characters, none of them a capital.
pub open spec fn is_plain(phrase: Seq<char>) -> bool {
    phrase.len() > 0 && forall|i: int|
        0 <= i < phrase.len() ==> (#[trigger] phrase[i] as u32) < 0x80 && !('A' <= phrase[i] <= 'Z')
}

proof fn lemma_encoded_scalar(c: char)
    ensures
        encode_scalar(c as u32).len() == char_width(c),
        (c as u32) < 0x80 ==> encode_scalar(c as u32)[0] as u32 == c as u32,
        c as u32 >= 0x80 ==> forall|i: int|
            0 <= i < char_width(c) ==> #[trigger] encode_scalar(c as u32)[i] >= 0x80,
{
    char_is_scalar(c);
    let v = c as u32;
    assert(v <= 0x7f ==> (v & 0x7f) as u8 as u32 == v) by (bit_vector);
    assert(0xC0u8 | ((v >> 6) & 0x1F) as u8 >= 0x80) by (bit_vector);
    assert(0xE0u8 | ((v >> 12) & 0x0F) as u8 >= 0x80) by (bit_vector);
    assert(0xF0u8 | ((v >> 18) & 0x7) as u8 >= 0x80) by (bit_vector);
    assert(0x80u8 | (v & 0x3F) as u8 >= 0x80) by (bit_vector);
    assert(0x80u8 | ((v >> 6) & 0x3F) as u8 >= 0x80) by (bit_vector);
    assert(0x80u8 | ((v >> 12) & 0x3F) as u8 >= 0x80) by (bit_vector);
}

proof fn lemma_lowered(byte: u8, c: char, small: char)
    requires
        byte as u32 == c as u32,
        byte < 0x80,
        !('A' <= small <= 'Z'),
    ensures
        lowered(byte) == small <==> is_letter(c, small),
{
    assert('A' as u32 == 65);
    assert('Z' as u32 == 90);
    char_u32_cast(c, byte as u32);
    assert(byte as char == c);
    if 65 <= byte <= 90 {
        assert(((byte + 32) as char) as u32 == byte + 32);
        char_u32_cast(small, small as u32);
    }
}

/// Whether the bytes of a text, in lower case, are `phrase` from byte `at` on.
spec fn bytes_read(text: Seq<char>, phrase: Seq<char>, at: int) -> bool {
    let bytes = encode_utf8(text);
    &&& 0 <= at
    &&& at + phrase.len() <= bytes.len()
    &&& forall|i: int| 0 <= i < phrase.len() ==> lowered(#[trigger] bytes[at + i]) == phrase[i]
}

/// Where a plain phrase stands in the bytes of a text, it stands in the text.
proof fn lemma_bytes_read(text: Seq<char>, phrase: Seq<char>, at: int) -> (found: int)
    requires
        bytes_read(text, phrase, at),
        is_plain(phrase),
    ensures
        reads(text, phrase, found),
        at == 0 ==> found == 0,
    decreases text.len(), phrase.len(),
{
    let c = text[0];
    let rest = text.drop_first();
    let head = encode_scalar(c as u32);
    let bytes = encode_utf8(text);
    assert(bytes[at + 0int] == bytes[at]);
    assert(lowered(bytes[at + 0int]) == phrase[0]);
    assert(text.len() > 0);
    assert(bytes == head + encode_utf8(rest));
    lemma_encoded_scalar(c);
    let w = char_width(c) as int;
    if at >= w {
        assert forall|i: int| 0 <= i < phrase.len() implies lowered(
            #[trigger] encode_utf8(rest)[at - w + i],
        ) == phrase[i] by {
            assert(bytes[at + i] == encode_utf8(rest)[at + i - w]);
        }
        let found = lemma_bytes_read(rest, phrase, at - w);
        assert forall|i: int| 0 <= i < phrase.len() implies #[trigger] is_letter(
            text[found + 1 + i],
            phrase[i],
        ) by {
            assert(is_letter(rest[found + i], phrase[i]));
        }
        found + 1
    } else {
        assert(bytes[at] == head[at]);
        if c as u32 >= 0x80 {
            assert(head[at] >= 0x80);
            assert(phrase[0] as u32 >= 0x80);
        }
        assert(w == 1 && at == 0);
        assert(!('A' <= phrase[0] <= 'Z'));
        lemma_lowered(bytes[0], c, phrase[0]);
        assert(is_letter(c, phrase[0]));
        if phrase.len() > 1 {
            let later = phrase.drop_first();
            assert forall|i: int| 0 <= i < later.len() implies lowered(
                #[trigger] encode_utf8(rest)[0 + i],
            ) == later[i] by {
                assert(bytes[at + (i + 1)] == encode_utf8(rest)[i]);
            }
            assert forall|i: int| 0 <= i < later.len() implies (#[trigger] later[i] as u32) < 0x80
                && !('A' <= later[i] <= 'Z') by {
                assert(later[i] == phrase[i + 1]);
            }
            let found = lemma_bytes_read(rest, later, 0);
            assert forall|i: int| 0 <= i < phrase.len() implies #[trigger] is_letter(
                text[0 + i],
                phrase[i],
            ) by {
                if i > 0 {
                    assert(is_letter(rest[0 + (i - 1)], later[i - 1]));
                }
            }
        }
        0
    }
}

/// A phrase that can be read at the start of a text is how its bytes start.
proof fn lemma_reads_first(text: Seq<char>, phrase: Seq<char>)
    requires
        reads(text, phrase, 0),
        forall|i: int|
            0 <= i < phrase.len() ==> (#[trigger] phrase[i] as u32) < 0x80 && !('A' <= phrase[i]
                <= 'Z'),
    ensures
        bytes_read(text, phrase, 0),
    decreases text.len(),
{
    if phrase.len() > 0 {
        let c = text[0];
        let rest = text.drop_first();
        let later = phrase.drop_first();
        lemma_encoded_scalar(c);
        assert(is_letter(text[0int + 0int], phrase[0]));
        assert forall|i: int| 0 <= i < later.len() implies #[trigger] is_letter(
            rest[0 + i],
            later[i],
        ) by {
            assert(is_letter(text[0 + (i + 1)], phrase[i + 1]));
        }
        assert forall|i: int| 0 <= i < later.len() implies (#[trigger] later[i] as u32) < 0x80 && !(
        'A' <= later[i] <= 'Z') by {
            assert(later[i] == phrase[i + 1]);
        }
        lemma_reads_first(rest, later);
        let bytes = encode_utf8(text);
        assert(bytes == encode_scalar(c as u32) + encode_utf8(rest));
        assert(!('A' <= phrase[0] <= 'Z') && (phrase[0] as u32) < 0x80);
        assert(bytes[0] as u32 == c as u32);
        lemma_lowered(bytes[0], c, phrase[0]);
        assert forall|i: int| 0 <= i < phrase.len() implies lowered(#[trigger] bytes[0 + i])
            == phrase[i] by {
            if i > 0 {
                assert(bytes[i] == encode_utf8(rest)[0 + (i - 1)]);
                assert(lowered(encode_utf8(rest)[0 + (i - 1)]) == later[i - 1]);
            }
        }
    } else {
        lemma_encoded_len(text);
    }
}

proof fn lemma_plain_width(phrase: Seq<char>)
    requires
        forall|i: int| 0 <= i < phrase.len() ==> (#[trigger] phrase[i] as u32) < 0x80,
    ensures
        utf8_len(phrase) == phrase.len(),
    decreases phrase.len(),
{
    if phrase.len() > 0 {
        let front = phrase.drop_last();
        assert forall|i: int| 0 <= i < front.len() implies (#[trigger] front[i] as u32) < 0x80 by {
            assert(front[i] == phrase[i]);
        }
        lemma_plain_width(front);
        assert((phrase[phrase.len() - 1] as u32) < 0x80);
    }
}

/// A phrase found in a text's lower case can be read in the text.
pub proof fn lemma_found_is_read(text: Seq<char>, phrase: Seq<char>, capacity: int, at: int) -> (found: int)
    requires
        is_plain(phrase),
        capacity >= 0,
        stands_at(lower_ascii(text, capacity), phrase, at),
    ensures
        reads(text, phrase, found),
        at == 0 ==> found == 0,
{
    let all = encode_utf8(text).map_values(|byte: u8| lowered(byte));
    let part = fitting(all, capacity);
    law_fitting_is_the_longest_beginning(all, capacity);
    assert forall|i: int| 0 <= i < phrase.len() implies lowered(
        #[trigger] encode_utf8(text)[at + i],
    ) == phrase[i] by {
        assert(part.subrange(at, at + phrase.len())[i] == part[at + i]);
        assert(part[at + i] == all[at + i]);
    }
    lemma_bytes_read(text, phrase, at)
}

/// A text opens with a phrase exactly when its lower case does.
pub proof fn lemma_opening(text: Seq<char>, phrase: Seq<char>, capacity: int)
    requires
        is_plain(phrase),
        phrase.len() <= capacity,
    ensures
        stands_at(lower_ascii(text, capacity), phrase, 0) <==> reads(text, phrase, 0),
{
    if stands_at(lower_ascii(text, capacity), phrase, 0) {
        let _ = lemma_found_is_read(text, phrase, capacity, 0);
    }
    if reads(text, phrase, 0) {
        lemma_reads_first(text, phrase);
        let all = encode_utf8(text).map_values(|byte: u8| lowered(byte));
        let part = fitting(all, capacity);
        let n = phrase.len() as int;
        law_fitting_is_the_longest_beginning(all, capacity);
        assert forall|i: int| 0 <= i < n implies all[i] == #[trigger] phrase[i] by {
            assert(lowered(encode_utf8(text)[0 + i]) == phrase[i]);
        }
        assert(all.take(n) =~= phrase);
        lemma_plain_width(phrase);
        if part.len() < n {
            let k = part.len() as int + 1;
            assert(all.take(k) + phrase.skip(k) =~= phrase);
            lemma_utf8_len_concat(all.take(k), phrase.skip(k));
            assert(false);
        }
        assert(part.subrange(0, n) =~= phrase) by {
            assert forall|i: int| 0 <= i < n implies part[i] == phrase[i] by {
                assert(part[i] == all.take(part.len() as int)[i]);
            }
        }
    }
}

/// Among plain characters byte and character positions agree.
proof fn lemma_plain_bytes(text: Seq<char>, n: int, i: int)
    requires
        0 <= i < n <= text.len(),
        forall|j: int| 0 <= j < n ==> (#[trigger] text[j] as u32) < 0x80,
    ensures
        encode_utf8(text).len() >= n,
        encode_utf8(text)[i] as u32 == text[i] as u32,
    decreases n,
{
    let rest = text.drop_first();
    lemma_encoded_scalar(text[0]);
    assert((text[0] as u32) < 0x80);
    assert forall|j: int| 0 <= j < n - 1 implies (#[trigger] rest[j] as u32) < 0x80 by {
        assert(rest[j] == text[j + 1]);
    }
    if n > 1 {
        lemma_plain_bytes(rest, n - 1, if i > 0 { i - 1 } else { 0 });
    }
    if i > 0 {
        assert(encode_utf8(text)[i] == encode_utf8(rest)[i - 1]);
    }
}

/// A phrase that can be read within the first `capacity` characters of a
/// text, all of them plain, is found in its lower case.
pub proof fn lemma_read_is_found(text: Seq<char>, phrase: Seq<char>, capacity: int, at: int)
    requires
        is_plain(phrase),
        reads(text, phrase, at),
        at + phrase.len() <= capacity,
        forall|i: int| 0 <= i < at + phrase.len() ==> (#[trigger] text[i] as u32) < 0x80,
    ensures
        stands_at(lower_ascii(text, capacity), phrase, at),
{
    let all = encode_utf8(text).map_values(|byte: u8| lowered(byte));
    let part = fitting(all, capacity);
    let n = at + phrase.len();
    law_fitting_is_the_longest_beginning(all, capacity);
    lemma_plain_bytes(text, n, 0);
    assert forall|i: int| 0 <= i < n implies (#[trigger] all.take(n)[i] as u32) < 0x80 by {
        lemma_plain_bytes(text, n, i);
        assert((text[i] as u32) < 0x80);
        assert(all.take(n)[i] == lowered(encode_utf8(text)[i]));
    }
    if part.len() < n {
        let k = part.len() as int + 1;
        assert(all.take(n).take(k) =~= all.take(k));
        assert forall|i: int| 0 <= i < k implies (#[trigger] all.take(k)[i] as u32) < 0x80 by {
            assert(all.take(k)[i] == all.take(n)[i]);
        }
        lemma_plain_width(all.take(k));
        assert(false);
    }
    assert forall|i: int| 0 <= i < phrase.len() implies part[at + i] == #[trigger] phrase[i] by {
        lemma_plain_bytes(text, n, at + i);
        assert(is_letter(text[at + i], phrase[i]));
        assert((text[at + i] as u32) < 0x80);
        lemma_lowered(encode_utf8(text)[at + i], text[at + i], phrase[i]);
        assert(part[at + i] == all[at + i]);
    }
    assert(part.subrange(at, n) =~= phrase);
}

/// A text is a phrase exactly when its lower case is.
pub proof fn lemma_whole(text: Seq<char>, phrase: Seq<char>, capacity: int)
    requires
        is_plain(phrase),
        phrase.len() + 2 <= capacity,
    ensures
        lower_ascii(text, capacity) == phrase <==> is_phrase(text, phrase),
{
    let all = encode_utf8(text).map_values(|byte: u8| lowered(byte));
    let part = fitting(all, capacity);
    let n = phrase.len() as int;
    law_fitting_is_the_longest_beginning(all, capacity);
    lemma_opening(text, phrase, capacity);
    lemma_encoded_len(text);
    lemma_plain_width(phrase);
    assert(part.subrange(0, part.len() as int) =~= part);
    if part == phrase {
        if part.len() < all.len() {
            let next = all.take(n + 1);
            assert(next.drop_last() =~= part);
            assert(char_width(next.last()) <= 2) by {
                assert(next.last() == lowered(encode_utf8(text)[n]));
            }
            assert(false);
        }
        assert(utf8_len(text) == n);
        lemma_rest_has_width(text, n);
    }
    if is_phrase(text, phrase) {
        lemma_read_width(text, phrase);
        assert(all.len() == n);
        assert(part =~= phrase);
    }
}

/// A text of which `n` characters are read and that has `n` bytes has no more
/// characters.
proof fn lemma_rest_has_width(text: Seq<char>, n: int)
    requires
        0 <= n <= text.len(),
        utf8_len(text) == n,
    ensures
        text.len() == n,
{
    crate::bounded::lemma_utf8_len_bounds(text);
}

proof fn lemma_read_width(text: Seq<char>, phrase: Seq<char>)
    requires
        is_phrase(text, phrase),
        is_plain(phrase),
    ensures
        utf8_len(text) == phrase.len(),
{
    assert forall|i: int| 0 <= i < text.len() implies (#[trigger] text[i] as u32) < 0x80 by {
        assert(is_letter(text[0 + i], phrase[i]));
        assert((phrase[i] as u32) < 0x80);
    }
    lemma_plain_width(text);
}

/// Whether all characters of a text are plain.
pub open spec fn is_plain_text(text: Seq<char>) -> bool {
    forall|i: int| 0 <= i < text.len() ==> (#[trigger] text[i] as u32) < 0x80
}

/// The lower case of a plain text that fits has its characters, letter for
/// letter, and none else.
pub proof fn lemma_plain_lower(text: Seq<char>, capacity: int)
    requires
        is_plain_text(text),
        text.len() <= capacity,
    ensures
        lower_ascii(text, capacity).len() == text.len(),
        forall|i: int, small: char|
            0 <= i < text.len() && !('A' <= small <= 'Z') ==> ((#[trigger] lower_ascii(
                text,
                capacity,
            )[i] == small) <==> #[trigger] is_letter(text[i], small)),
{
    let all = encode_utf8(text).map_values(|byte: u8| lowered(byte));
    let part = fitting(all, capacity);
    law_fitting_is_the_longest_beginning(all, capacity);
    lemma_encoded_len(text);
    lemma_plain_width(text);
    assert(all.len() == text.len());
    if part.len() < all.len() {
        let k = part.len() as int + 1;
        assert forall|i: int| 0 <= i < k implies (#[trigger] all.take(k)[i] as u32) < 0x80 by {
            lemma_plain_bytes(text, text.len() as int, i);
            assert((text[i] as u32) < 0x80);
            assert(all.take(k)[i] == lowered(encode_utf8(text)[i]));
        }
        lemma_plain_width(all.take(k));
        assert(false);
    }
    assert forall|i: int, small: char|
        0 <= i < text.len() && !('A' <= small <= 'Z') implies ((#[trigger] part[i] == small)
        <==> #[trigger] is_letter(text[i], small)) by {
        lemma_plain_bytes(text, text.len() as int, i);
        assert((text[i] as u32) < 0x80);
        lemma_lowered(encode_utf8(text)[i], text[i], small);
        assert(part[i] == all[i]);
    }
}

/// In a plain text that fits, a phrase stands in the lower case exactly where
/// it can be read.
pub proof fn lemma_plain_stands(text: Seq<char>, phrase: Seq<char>, capacity: int, at: int)
    requires
        is_plain_text(text),
        text.len() <= capacity,
        is_plain(phrase),
    ensures
        stands_at(lower_ascii(text, capacity), phrase, at) <==> reads(text, phrase, at),
{
    let name = lower_ascii(text, capacity);
    let n = phrase.len() as int;
    lemma_plain_lower(text, capacity);
    if stands_at(name, phrase, at) {
        assert forall|i: int| 0 <= i < n implies #[trigger] is_letter(text[at + i], phrase[i]) by {
            assert(name.subrange(at, at + n)[i] == name[at + i]);
            assert(!('A' <= phrase[i] <= 'Z'));
            assert(name[at + i] == phrase[i]);
        }
    }
    if reads(text, phrase, at) {
        assert forall|i: int| 0 <= i < n implies name[at + i] == #[trigger] phrase[i] by {
            assert(!('A' <= phrase[i] <= 'Z'));
            assert(is_letter(text[at + i], phrase[i]));
        }
        assert(name.subrange(at, at + n) =~= phrase);
    }
}

} // verus!
