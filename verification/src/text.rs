//! Names compared without regard to the case of ASCII letters.

use vstd::prelude::*;

verus! {

/// The character with an ASCII lower-case letter turned into its upper-case
/// form; any other character as it is.
pub open spec fn upper_char(c: char) -> char {
    if 'a' <= c && c <= 'z' {
        ((c as u32 - 32) as u8) as char
    } else {
        c
    }
}

/// The text with each ASCII lower-case letter turned into its upper-case
/// form: the key under which a name is found whatever its case.
pub open spec fn upper(s: Seq<char>) -> Seq<char> {
    Seq::new(s.len(), |i: int| upper_char(s[i]))
}

/// Turning into upper case twice is turning once.
pub proof fn lemma_upper_idempotent(s: Seq<char>)
    ensures
        upper(upper(s)) == upper(s),
{
    assert forall|i: int| 0 <= i < s.len() implies upper_char(upper_char(s[i])) == upper_char(
        s[i],
    ) by {
        let c = s[i];
        if 'a' <= c && c <= 'z' {
            let u = upper_char(c);
            assert(u as u32 == c as u32 - 32);
        }
    }
    assert(upper(upper(s)) =~= upper(s));
}

/// The code of the upper-case form of a character.
fn upper_code(c: char) -> (code: u32)
    ensures
        code == upper_char(c) as u32,
{
    if 'a' <= c && c <= 'z' {
        c as u32 - 32
    } else {
        c as u32
    }
}

/// Whether two names are the same but for the case of ASCII letters.
pub fn eq_ignore_case(a: &str, b: &str) -> (r: bool)
    ensures
        r == (upper(a@) == upper(b@)),
{
    let n = a.unicode_len();
    if n != b.unicode_len() {
        assert(upper(a@).len() != upper(b@).len());
        return false;
    }
    let mut i: usize = 0;
    while i < n
        invariant
            i <= n,
            n == a@.len(),
            n == b@.len(),
            forall|j: int| 0 <= j < i ==> upper_char(#[trigger] a@[j]) == upper_char(b@[j]),
        decreases n - i,
    {
        let x = a.get_char(i);
        let y = b.get_char(i);
        if upper_code(x) != upper_code(y) {
            assert(upper(a@)[i as int] != upper(b@)[i as int]);
            return false;
        }
        i = i + 1;
    }
    assert(upper(a@) =~= upper(b@));
    true
}

} // verus!
