//! Small string helpers: lengths, in-place growth, and word slicing.

use vstd::prelude::*;

verus! {

/// The length of the string, in characters.
pub fn calculate_length(s: &String) -> (len: usize)
    ensures
        len == s@.len(),
{
    s.as_str().unicode_len()
}

/// Appends `, world` to the string.
pub fn change(some_string: &mut String)
    ensures
        final(some_string)@ == old(some_string)@ + ", world"@,
{
    some_string.append(", world");
}

/// Returns a freshly owned `hello`.
pub fn no_dangle() -> (s: String)
    ensures
        s@ == "hello"@,
{
    String::from_str("hello")
}

/// The longest space-free prefix of `s`: everything up to but excluding the
/// first space, or all of `s` if it has no space.
pub fn first_word(s: &str) -> (word: &str)
    ensures
        word@.len() <= s@.len(),
        word@ == s@.take(word@.len() as int),
        forall|i: int| 0 <= i < word@.len() ==> s@[i] != ' ',
        word@.len() < s@.len() ==> s@[word@.len() as int] == ' ',
{
    let len = s.unicode_len();
    let mut i: usize = 0;
    while i < len
        invariant
            i <= len,
            len == s@.len(),
            forall|j: int| 0 <= j < i ==> s@[j] != ' ',
        decreases len - i,
    {
        if s.get_char(i) == ' ' {
            let word = s.substring_char(0, i);
            proof {
                assert(word@ =~= s@.take(i as int));
            }
            return word;
        }
        i = i + 1;
    }
    proof {
        assert(s@ =~= s@.take(s@.len() as int));
    }
    s
}

/// The longer of the two strings, measured in characters; `y` on a tie.
pub fn longest<'a>(x: &'a str, y: &'a str) -> (r: &'a str)
    ensures
        r@ == if x@.len() > y@.len() {
            x@
        } else {
            y@
        },
{
    if x.unicode_len() > y.unicode_len() {
        x
    } else {
        y
    }
}

} // verus!
