//! Generated class names: the selector identifiers that scope a style rule.

use vstd::prelude::*;
use vstd::string::StrSliceExecFns;

verus! {

/// How many random characters follow the leading underscore.
pub const ID_LENGTH: usize = 15;

/// The characters that a class name is drawn from.
pub const ALPHABET: &'static str = "abcdefghijklmnopqrstuvwxyz0123456789";

/// Whether `c` is a lower-case letter or a digit.
pub open spec fn is_alphabet_char(c: char) -> bool {
    ('a' <= c && c <= 'z') || ('0' <= c && c <= '9')
}

/// Whether `name` has the shape of a generated class name: an underscore,
/// so that the selector does not start with a digit, and then `ID_LENGTH`
/// lower-case letters or digits.
pub open spec fn is_class_name(name: Seq<char>) -> bool {
    &&& name.len() == ID_LENGTH + 1
    &&& name[0] == '_'
    &&& forall|i: int| 1 <= i < name.len() ==> is_alphabet_char(#[trigger] name[i])
}

/// The generator that names are drawn from, `rand::rngs::StdRng`: carried
/// through, never looked into.
#[verifier::external_type_specification]
#[verifier::external_body]
pub struct ExStdRng(rand::rngs::StdRng);

/// Draws one element of `chars` with `rand::seq::SliceRandom::choose`.
///
/// Trusted: the result is an element of the slice, and `None` only for an
/// empty slice. Which element comes is left to the generator.
#[verifier::external_body]
fn choose_char(chars: &Vec<char>, rng: &mut rand::rngs::StdRng) -> (picked: Option<char>)
    ensures
        match picked {
            Some(c) => chars@.contains(c),
            None => chars@.len() == 0,
        },
{
    rand::seq::SliceRandom::choose(chars.as_slice(), rng).copied()
}

/// `String::push`: appends one character.
#[verifier::external_body]
fn push_char(text: &mut String, c: char)
    ensures
        final(text)@ == old(text)@.push(c),
{
    text.push(c)
}

/// The characters of the alphabet, in order.
fn alphabet_chars() -> (chars: Vec<char>)
    ensures
        chars@ == ALPHABET@,
{
    let mut chars: Vec<char> = Vec::new();
    let len = ALPHABET.unicode_len();
    let mut i: usize = 0;
    while i < len
        invariant
            len == ALPHABET@.len(),
            i <= len,
            chars@ == ALPHABET@.take(i as int),
        decreases len - i,
    {
        chars.push(ALPHABET.get_char(i));
        assert(chars@ =~= ALPHABET@.take(i + 1));
        i += 1;
    }
    assert(ALPHABET@.take(len as int) =~= ALPHABET@);
    chars
}

/// Every character of the alphabet is a lower-case letter or a digit.
proof fn lemma_alphabet()
    ensures
        ALPHABET@.len() == 36,
        forall|i: int| 0 <= i < 36 ==> is_alphabet_char(#[trigger] ALPHABET@[i]),
{
    reveal_strlit("abcdefghijklmnopqrstuvwxyz0123456789");
}

/// The class name made of the drawn characters `drawn`: an underscore, so
/// that the selector does not start with a digit, and then the characters in
/// the order in which they were drawn.
pub fn class_name_of(drawn: &Vec<char>) -> (class: String)
    ensures
        class@ == seq!['_'] + drawn@,
{
    let mut class = "_".to_owned();
    proof {
        reveal_strlit("_");
        assert(class@ =~= seq!['_'] + drawn@.take(0));
    }
    let mut i: usize = 0;
    while i < drawn.len()
        invariant
            i <= drawn.len(),
            class@ == seq!['_'] + drawn@.take(i as int),
        decreases drawn.len() - i,
    {
        push_char(&mut class, drawn[i]);
        assert(class@ =~= seq!['_'] + drawn@.take(i + 1));
        i += 1;
    }
    assert(drawn@.take(i as int) =~= drawn@);
    class
}

/// Generates a class name from `rng`: `ID_LENGTH` characters are drawn, one
/// after the other and each from the whole alphabet, and the name is
/// `class_name_of` them.
pub fn generate_class_name(rng: &mut rand::rngs::StdRng) -> (class: String)
    ensures
        is_class_name(class@),
{
    let chars = alphabet_chars();
    proof {
        lemma_alphabet();
    }
    let mut drawn: Vec<char> = Vec::new();
    while drawn.len() < ID_LENGTH
        invariant
            drawn.len() <= ID_LENGTH,
            chars@ == ALPHABET@,
            ALPHABET@.len() == 36,
            forall|i: int| 0 <= i < 36 ==> is_alphabet_char(#[trigger] ALPHABET@[i]),
            forall|i: int| 0 <= i < drawn@.len() ==> is_alphabet_char(#[trigger] drawn@[i]),
        decreases ID_LENGTH - drawn.len(),
    {
        match choose_char(&chars, rng) {
            Some(c) => {
                drawn.push(c);
            },
            // The alphabet is not empty.
            None => unreached(),
        }
    }
    let class = class_name_of(&drawn);
    assert forall|i: int| 1 <= i < class@.len() implies is_alphabet_char(#[trigger] class@[i]) by {
        assert(class@[i] == drawn@[i - 1]);
    }
    class
}

} // verus!
