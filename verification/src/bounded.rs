//! Fixed-capacity text.
//!
//! [`Text`] keeps its characters in a `heapless::String<N>`. The trusted
//! items below say what that string's methods do; everything else about text
//! is proved from them.
use vstd::prelude::*;
use vstd::string::*;
use vstd::utf8::*;
use crate::chars::chars_of;

verus! {

/// How many bytes a character takes in UTF-8.
pub open spec fn char_width(c: char) -> nat {
    if (c as u32) < 0x80 {
        1
    } else if (c as u32) < 0x800 {
        2
    } else if (c as u32) < 0x10000 {
        3
    } else {
        4
    }
}

/// How many bytes a text takes in UTF-8.
pub open spec fn utf8_len(text: Seq<char>) -> nat
    decreases text.len(),
{
    if text.len() == 0 {
        0
    } else {
        utf8_len(text.drop_last()) + char_width(text.last())
    }
}

/// `heapless::String<N>`, a string of at most `N` bytes kept in place. The
/// type is opaque; [`Text`] says what it holds.
#[verifier::external_type_specification]
#[verifier::external_body]
pub struct ExString<const N: usize>(heapless::String<N>);

/// A text of at most `N` bytes.
///
/// `held` mirrors the characters that `inner` holds. Nothing outside the
/// trusted methods below builds or changes either field, and each of them
/// says of `held` what its call does to `inner`.
pub struct Text<const N: usize> {
    inner: heapless::String<N>,
    held: Ghost<Seq<char>>,
}

impl<const N: usize> View for Text<N> {
    type V = Seq<char>;

    closed spec fn view(&self) -> Seq<char> {
        self.held@
    }
}

impl<const N: usize> Text<N> {
    /// The bound of the type: what is held fits in `N` bytes.
    #[verifier::type_invariant]
    closed spec fn fits(self) -> bool {
        utf8_len(self.held@) <= N
    }

    /// `heapless::String::new`: an empty string.
    #[verifier::external_body]
    pub(crate) fn new() -> (text: Self)
        ensures
            text@ == Seq::<char>::empty(),
    {
        Text { inner: heapless::String::new(), held: Ghost(Seq::empty()) }
    }

    /// `heapless::String::push`: appends the character if its bytes fit, and
    /// otherwise fails and changes nothing.
    #[verifier::external_body]
    pub(crate) fn push(&mut self, c: char) -> (outcome: Result<(), ()>)
        ensures
            outcome is Ok <==> utf8_len(old(self)@) + char_width(c) <= N,
            final(self)@ == if outcome is Ok { old(self)@.push(c) } else { old(self)@ },
    {
        self.inner.push(c)
    }

    /// `heapless::String::push_str`: appends all of the text if its bytes
    /// fit, and otherwise fails and changes nothing.
    #[verifier::external_body]
    pub(crate) fn push_str(&mut self, text: &str) -> (outcome: Result<(), ()>)
        ensures
            outcome is Ok <==> utf8_len(old(self)@) + utf8_len(text@) <= N,
            final(self)@ == if outcome is Ok { old(self)@ + text@ } else { old(self)@ },
    {
        self.inner.push_str(text)
    }

    /// `heapless::String::pop`: takes the last character off, if there is one.
    #[verifier::external_body]
    pub(crate) fn pop(&mut self) -> (last: Option<char>)
        ensures
            old(self)@.len() == 0 ==> last is None && final(self)@ == old(self)@,
            old(self)@.len() > 0 ==> last == Some(old(self)@.last()) && final(self)@ == old(
                self,
            )@.drop_last(),
    {
        self.inner.pop()
    }

    /// `heapless::String::clear`: empties the string.
    #[verifier::external_body]
    pub(crate) fn clear(&mut self)
        ensures
            final(self)@ == Seq::<char>::empty(),
    {
        self.inner.clear()
    }

    /// `heapless::String::truncate`: keeps the first `new_len` bytes, which
    /// must end on a character; a length past the end changes nothing.
    #[verifier::external_body]
    pub(crate) fn truncate(&mut self, new_len: usize)
        requires
            new_len > utf8_len(old(self)@) || exists|k: int|
                0 <= k <= old(self)@.len() && utf8_len(#[trigger] old(self)@.take(k)) == new_len,
        ensures
            new_len > utf8_len(old(self)@) ==> final(self)@ == old(self)@,
            forall|k: int|
                0 <= k <= old(self)@.len() && utf8_len(#[trigger] old(self)@.take(k)) == new_len
                    ==> final(self)@ == old(self)@.take(k),
    {
        self.inner.truncate(new_len)
    }

    /// `heapless::String::as_str`: the text as it stands.
    #[verifier::external_body]
    pub(crate) fn as_str(&self) -> (text: &str)
        ensures
            text@ == self@,
    {
        self.inner.as_str()
    }

    /// A text holding `content`, if that fits.
    pub fn of(content: &str) -> (text: Option<Self>)
        ensures
            text is Some <==> utf8_len(content@) <= N,
            text matches Some(text) ==> text@ == content@,
    {
        let mut text = Text::new();
        assert(utf8_len(Seq::<char>::empty()) == 0);
        assert(Seq::<char>::empty() + content@ =~= content@);
        match text.push_str(content) {
            Ok(()) => Some(text),
            Err(()) => None,
        }
    }

    /// The characters held.
    pub fn chars(&self) -> (chars: Vec<char>)
        ensures
            chars@ == self@,
    {
        chars_of(self.as_str())
    }

    /// The length in bytes. It never passes the capacity.
    pub fn len(&self) -> (len: usize)
        ensures
            len == utf8_len(self@),
            len <= N,
    {
        proof {
            use_type_invariant(self);
            lemma_encoded_len(self@);
        }
        self.as_str().len()
    }

    pub fn is_empty(&self) -> (empty: bool)
        ensures
            empty == (self@.len() == 0),
    {
        self.as_str().is_empty()
    }
}

/// Byte lengths add up.
pub proof fn lemma_utf8_len_concat(a: Seq<char>, b: Seq<char>)
    ensures
        utf8_len(a + b) == utf8_len(a) + utf8_len(b),
    decreases b.len(),
{
    if b.len() == 0 {
        assert(a + b =~= a);
    } else {
        assert((a + b).drop_last() =~= a + b.drop_last());
        lemma_utf8_len_concat(a, b.drop_last());
    }
}

/// A text is at least as many bytes as characters, and at most four times as
/// many.
pub proof fn lemma_utf8_len_bounds(text: Seq<char>)
    ensures
        text.len() <= utf8_len(text) <= 4 * text.len(),
    decreases text.len(),
{
    if text.len() > 0 {
        lemma_utf8_len_bounds(text.drop_last());
    }
}

/// A shorter prefix takes fewer bytes.
pub proof fn lemma_utf8_len_prefix(text: Seq<char>, k: int)
    requires
        0 <= k <= text.len(),
    ensures
        utf8_len(text.take(k)) + text.len() - k <= utf8_len(text),
{
    lemma_utf8_len_concat(text.take(k), text.skip(k));
    lemma_utf8_len_bounds(text.skip(k));
    assert(text.take(k) + text.skip(k) =~= text);
}

pub proof fn lemma_encoded_len(text: Seq<char>)
    ensures
        encode_utf8(text).len() == utf8_len(text),
    decreases text.len(),
{
    if text.len() > 0 {
        lemma_encoded_len(text.drop_first());
        assert(seq![text[0]] + text.drop_first() =~= text);
        lemma_utf8_len_concat(seq![text[0]], text.drop_first());
        assert(seq![text[0]].drop_last() =~= Seq::<char>::empty());
        assert(utf8_len(Seq::<char>::empty()) == 0);
        assert(utf8_len(seq![text[0]]) == char_width(text[0]));
        char_is_scalar(text[0]);
    }
}

} // verus!
