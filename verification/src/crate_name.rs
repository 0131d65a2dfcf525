//! Package names: strings restricted to ASCII alphanumerics, `-` and `_`.

use vstd::prelude::*;

verus! {

/// A character allowed in a package name.
pub open spec fn is_name_char(c: char) -> bool {
    ||| 'a' <= c && c <= 'z'
    ||| 'A' <= c && c <= 'Z'
    ||| '0' <= c && c <= '9'
    ||| c == '-'
    ||| c == '_'
}

/// A string is a valid package name when every character is allowed.
pub open spec fn valid_name(s: Seq<char>) -> bool {
    forall|i: int| 0 <= i < s.len() ==> is_name_char(s[i])
}

/// Why a string failed to parse as a package name: the first offending
/// character and its index.
#[derive(Clone, Copy, Debug, PartialEq, Eq, Structural)]
pub enum ParseError {
    InvalidCharacter(char, usize),
}

/// A package name whose characters are all ASCII alphanumeric, `-` or `_`.
#[derive(Clone, Debug)]
pub struct CrateName {
    text: String,
}

impl View for CrateName {
    type V = Seq<char>;

    closed spec fn view(&self) -> Seq<char> {
        self.text@
    }
}

impl CrateName {
    /// Every constructed name satisfies the character restriction.
    pub open spec fn wf(&self) -> bool {
        valid_name(self@)
    }

    /// Parse a package name, rejecting the first character that is not
    /// ASCII alphanumeric, `-` or `_`, reported with its index.
    pub fn from_str(s: &str) -> (r: Result<CrateName, ParseError>)
        ensures
            r is Ok <==> valid_name(s@),
            r matches Ok(n) ==> n@ == s@ && n.wf(),
            r matches Err(e) ==> (e matches ParseError::InvalidCharacter(c, i)
                && i < s@.len()
                && s@[i as int] == c
                && !is_name_char(c)
                && (forall|j: int| 0 <= j < i ==> is_name_char(s@[j]))),
    {
        let n = s.unicode_len();
        let mut i: usize = 0;
        while i < n
            invariant
                n == s@.len(),
                i <= n,
                forall|j: int| 0 <= j < i ==> is_name_char(s@[j]),
            decreases n - i,
        {
            let c = s.get_char(i);
            if !char_is_allowed(c) {
                return Err(ParseError::InvalidCharacter(c, i));
            }
            i += 1;
        }
        Ok(CrateName { text: s.to_owned() })
    }

    /// The name as text; names format back to exactly the parsed string.
    pub fn as_str(&self) -> (r: &str)
        ensures
            r@ == self@,
    {
        self.text.as_str()
    }
}

/// Executable form of the character restriction.
fn char_is_allowed(c: char) -> (r: bool)
    ensures
        r == is_name_char(c),
{
    ('a' <= c && c <= 'z') || ('A' <= c && c <= 'Z') || ('0' <= c && c <= '9') || c == '-' || c
        == '_'
}

} // verus!
