//! Phonetic texts: what the engine accepts, checked before it is asked.

use super::Error;
use vstd::prelude::*;
use vstd::utf8::encode_utf8;

verus! {

/// The longest text, in bytes of UTF-8, that is handed to the encoder: with
/// it the buffer of the encoder, also where it grows for characters that
/// have no code, stays within what a `usize` of 32 bits can address.
pub const MAX_KOE_BYTES: usize = 0x07ff_ffff;

/// The most characters that one accent phrase may have.
pub const MAX_PHRASE_CHARS: usize = 255;

/// Whether a text is short enough to be encoded.
pub open spec fn fits(text: Seq<char>) -> bool {
    encode_utf8(text).len() <= MAX_KOE_BYTES
}

/// The characters that end an accent phrase.
pub open spec fn is_delimiter(c: char) -> bool {
    c == '。' || c == '？' || c == '、' || c == ',' || c == ';' || c == '/' || c == '+'
}

/// Whether the characters from `from` up to `to` hold no delimiter.
pub open spec fn unbroken(text: Seq<char>, from: int, to: int) -> bool {
    forall|j: int| from <= j < to ==> !is_delimiter(#[trigger] text[j])
}

/// Whether some accent phrase of the text is longer than
/// [`MAX_PHRASE_CHARS`]: the text holds that many characters and one more
/// in a row without a delimiter among them.
pub open spec fn has_long_phrase(text: Seq<char>) -> bool {
    exists|start: int|
        0 <= start && start + MAX_PHRASE_CHARS + 1 <= text.len() && #[trigger] unbroken(
            text,
            start,
            start + MAX_PHRASE_CHARS + 1,
        )
}

/// What `encoding_rs` makes of a text in Shift_JIS: the bytes, and whether
/// some character has no code there.
pub uninterp spec fn shift_jis(text: Seq<char>) -> (Seq<u8>, bool);

/// The verdict on a text: its bytes in Shift_JIS, or the code of the fault
/// that the engine reports for it.
pub open spec fn checked(text: Seq<char>) -> Result<Seq<u8>, int> {
    if text.len() == 0 {
        Err(100)
    } else if text.contains(' ') || text.contains('\0') {
        Err(105)
    } else if has_long_phrase(text) {
        Err(102)
    } else if shift_jis(text).1 {
        Err(105)
    } else {
        Ok(shift_jis(text).0)
    }
}

/// Calls `encoding_rs::SHIFT_JIS.encode`. The result is the pair that the
/// call gives, without the encoding it names: the bytes and the flag for
/// characters that have no code. The bound keeps the size of the buffer that
/// the crate allocates, which it rounds up to a power of two, from
/// overflowing.
#[verifier::external_body]
fn shift_jis_encode(text: &str) -> (encoded: (Vec<u8>, bool))
    requires
        fits(text@),
    ensures
        (encoded.0@, encoded.1) == shift_jis(text@),
{
    let (bytes, _, had_errors) = encoding_rs::SHIFT_JIS.encode(text);
    (bytes.into_owned(), had_errors)
}

/// A phonetic text that passed the checks, in Shift_JIS.
#[derive(Debug, Clone, PartialEq, Eq)]
pub struct Koe {
    bytes: Vec<u8>,
}

impl View for Koe {
    type V = Seq<u8>;

    closed spec fn view(&self) -> Seq<u8> {
        self.bytes@
    }
}

fn delimits(c: char) -> (b: bool)
    ensures
        b == is_delimiter(c),
{
    c == '。' || c == '？' || c == '、' || c == ',' || c == ';' || c == '/' || c == '+'
}

impl Koe {
    /// Checks a text as the engine would and encodes it.
    pub fn from_str(s: &str) -> (koe: Result<Koe, Error>)
        requires
            fits(s@),
        ensures
            match koe {
                Ok(k) => checked(s@) == Ok::<Seq<u8>, int>(k@),
                Err(e) => checked(s@) == Err::<Seq<u8>, int>(e@),
            },
    {
        if s.is_empty() {
            return Err(Error::new(100));
        }
        let ghost text = s@;
        let mut blank = false;
        let mut long = false;
        let mut run: usize = 0;
        for c in it: s.chars()
            invariant
                it.seq() == text,
                blank == exists|j: int| 0 <= j < it.index() && (#[trigger] text[j] == ' ' || text[j] == '\0'),
                !long ==> run <= it.index() && run <= MAX_PHRASE_CHARS,
                !long ==> unbroken(text, it.index() - run, it.index() as int),
                !long && run < it.index() ==> is_delimiter(text[it.index() - run - 1]),
                long ==> has_long_phrase(text),
                !long ==> forall|k: int|
                    0 <= k && k + MAX_PHRASE_CHARS + 1 <= it.index() ==> !#[trigger] unbroken(
                        text,
                        k,
                        k + MAX_PHRASE_CHARS + 1,
                    ),
        {
            let ghost i = it.index();
            assert(c == text[i]);
            if c == ' ' || c == '\0' {
                blank = true;
            }
            if !long {
                if delimits(c) {
                    run = 0;
                } else {
                    run = run + 1;
                    assert(unbroken(text, i + 1 - run, i + 1));
                    if run > MAX_PHRASE_CHARS {
                        long = true;
                        assert(i < text.len());
                        assert(unbroken(text, i - MAX_PHRASE_CHARS, i - MAX_PHRASE_CHARS + MAX_PHRASE_CHARS + 1));
                    }
                }
                proof {
                    if !long {
                        assert forall|k: int|
                            0 <= k && k + MAX_PHRASE_CHARS + 1 <= i + 1 implies !#[trigger] unbroken(
                            text,
                            k,
                            k + MAX_PHRASE_CHARS + 1,
                        ) by {
                            if k + MAX_PHRASE_CHARS + 1 == i + 1 {
                                if is_delimiter(c) {
                                    assert(is_delimiter(text[i]));
                                } else {
                                    assert(is_delimiter(text[i + 1 - run - 1]));
                                }
                            }
                        }
                    }
                }
            }
        }
        if blank {
            assert(text.contains(' ') || text.contains('\0'));
            return Err(Error::new(105));
        }
        if long {
            return Err(Error::new(102));
        }
        let (bytes, had_errors) = shift_jis_encode(s);
        if had_errors {
            return Err(Error::new(105));
        }
        Ok(Koe { bytes })
    }

    /// The encoded text.
    pub fn as_bytes(&self) -> (bytes: &[u8])
        ensures
            bytes@ == self@,
    {
        self.bytes.as_slice()
    }
}

} // verus!
