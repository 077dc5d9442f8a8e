//! Ferris greets a name: the greeting text, its width, and the speech
//! bubble that `ferris_says` draws around it.

use vstd::prelude::*;
use vstd::utf8::{is_ascii_chars, is_ascii_chars_concat};

verus! {

/// The longest text, and the widest wrapping width, in characters, that
/// the library hands to Ferris in general.
///
/// `ferris_says` wraps text with `textwrap`'s optimal-fit algorithm, which
/// adds up `i32` line costs: 1000 per line, the square of a line's gap to
/// the width, 2500 per column of overflow. With overflow checks on, a sum
/// above `i32::MAX` panics. For `n` characters (at most two columns each)
/// wrapped at `w` columns, every cost stays below about
/// `4 * max(n, w)^2 + 11000 * max(n, w)`, which is below `i32::MAX` up to
/// this bound.
pub const MAX_SPEECH_CHARS: usize = 20000;

/// The widest wrapping width for ASCII text that fits on one line.
///
/// When every character is one column wide at most and the text is no
/// longer than the width, every prefix of a paragraph fits on one line, so
/// every cost stays below `2 * w^2 + 2050`, which is below `i32::MAX` up to
/// this bound.
pub const MAX_ASCII_SPEECH_CHARS: usize = 32000;

/// The texts and widths on which `ferris_says::say` is called: those whose
/// wrapping costs stay in range by the bounds above.
pub open spec fn speech_in_range(text: Seq<char>, max_width: usize) -> bool {
    ||| text.len() <= MAX_SPEECH_CHARS && max_width <= MAX_SPEECH_CHARS
    ||| is_ascii_chars(text) && text.len() <= max_width && max_width <= MAX_ASCII_SPEECH_CHARS
}

/// The longest name that [`hello`] accepts in general: the general bound
/// less the six characters of `"Hello "`.
pub const MAX_NAME_CHARS: usize = 19994;

/// The longest ASCII name that [`hello`] accepts: the ASCII bound less the
/// six characters of `"Hello "`.
pub const MAX_ASCII_NAME_CHARS: usize = 31994;

/// The names that [`hello`] accepts.
pub open spec fn name_in_range(name: Seq<char>) -> bool {
    ||| name.len() <= MAX_NAME_CHARS
    ||| is_ascii_chars(name) && name.len() <= MAX_ASCII_NAME_CHARS
}

/// The bytes that `ferris_says::say` writes for `text` wrapped at
/// `max_width` columns: a bubble around the wrapped lines, then Ferris.
pub uninterp spec fn ferris_speech(text: Seq<char>, max_width: usize) -> Seq<u8>;

/// The picture of Ferris that closes every speech.
pub open spec fn ferris_picture() -> Seq<u8> {
    seq![
        10u8,
        32, 32, 32, 32, 32, 32, 32, 32, 92, 10,
        32, 32, 32, 32, 32, 32, 32, 32, 32, 92, 10,
        32, 32, 32, 32, 32, 32, 32, 32, 32, 32, 32, 32, 95, 126, 94, 126, 94, 126, 95, 10,
        32, 32, 32, 32, 32, 32, 32, 32, 92, 41, 32, 47, 32, 32, 111, 32, 111, 32, 32, 92,
            32, 40, 47, 10,
        32, 32, 32, 32, 32, 32, 32, 32, 32, 32, 39, 95, 32, 32, 32, 45, 32, 32, 32, 95, 39, 10,
        32, 32, 32, 32, 32, 32, 32, 32, 32, 32, 47, 32, 39, 45, 45, 45, 45, 45, 39, 32, 92,
            10,
    ]
}

/// Calls `ferris_says::say` with a byte vector as the writer.
///
/// Claimed of the outside code: the bytes written are `ferris_speech(text,
/// max_width)`, a function of the two arguments alone; they open with the
/// space that starts the bubble's top border and close with the picture of
/// Ferris (the source appends that constant last). Writing into a `Vec`
/// cannot fail, so the `Result` of `say` is always `Ok`. The precondition
/// admits only inputs on which `textwrap`'s cost arithmetic stays in range
/// (the bounds assume, as `textwrap` does, that the `smawk` column minima it
/// uses are true minima).
#[verifier::external_body]
fn ferris_say(text: &str, max_width: usize) -> (out: Vec<u8>)
    requires
        speech_in_range(text@, max_width),
    ensures
        out@ == ferris_speech(text@, max_width),
        out@.len() > ferris_picture().len(),
        out@[0] == 32u8,
        out@.subrange(out@.len() - ferris_picture().len(), out@.len() as int) == ferris_picture(),
{
    let mut out: Vec<u8> = Vec::new();
    ferris_says::say(text.as_bytes(), max_width, &mut out).unwrap();
    out
}

/// The text that Ferris is asked to say to `name`.
pub open spec fn greeting(name: Seq<char>) -> Seq<char> {
    seq!['H', 'e', 'l', 'l', 'o', ' '] + name
}

/// Builds `"Hello "` followed by the name.
pub fn hello_message(name: &str) -> (message: String)
    ensures
        message@ == greeting(name@),
        message@.len() == name@.len() + 6,
        message@.subrange(0, 6) == seq!['H', 'e', 'l', 'l', 'o', ' '],
        message@.subrange(6, message@.len() as int) == name@,
{
    let greeting_start = String::from_str("Hello ");
    proof {
        reveal_strlit("Hello ");
    }
    let message = greeting_start.concat(name);
    assert(message@ =~= greeting(name@));
    proof {
        lemma_greeting_shape(name@);
    }
    message
}

/// The greeting is `Hello ` followed by the whole name: six characters
/// longer than the name, with the name unchanged after the first six.
pub proof fn lemma_greeting_shape(name: Seq<char>)
    ensures
        greeting(name).len() == name.len() + 6,
        greeting(name).subrange(0, 6) == seq!['H', 'e', 'l', 'l', 'o', ' '],
        greeting(name).subrange(6, greeting(name).len() as int) == name,
{
    assert(greeting(name).subrange(0, 6) =~= seq!['H', 'e', 'l', 'l', 'o', ' ']);
    assert(greeting(name).subrange(6, greeting(name).len() as int) =~= name);
}

/// Greetings of different names differ: the name can be read back from
/// the greeting.
pub proof fn lemma_greeting_injective(name1: Seq<char>, name2: Seq<char>)
    ensures
        greeting(name1) == greeting(name2) ==> name1 == name2,
{
    lemma_greeting_shape(name1);
    lemma_greeting_shape(name2);
}

/// What Ferris says to `name`: the greeting, wrapped at a width equal to
/// its number of characters, inside a speech bubble.
pub fn hello(name: String) -> (speech: Vec<u8>)
    requires
        name_in_range(name@),
    ensures
        speech@ == ferris_speech(greeting(name@), greeting(name@).len() as usize),
        speech@.subrange(speech@.len() - ferris_picture().len(), speech@.len() as int)
            == ferris_picture(),
{
    let message = hello_message(name.as_str());
    proof {
        is_ascii_chars_concat(message@, seq!['H', 'e', 'l', 'l', 'o', ' '], name@);
    }
    let width = message.as_str().unicode_len();
    ferris_say(message.as_str(), width)
}

} // verus!
