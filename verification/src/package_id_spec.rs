//! Package specifications: a single token of the form `name` or
//! `name@constraint`, split on the first `@`.

use vstd::prelude::*;

use crate::crate_name::{self, is_name_char, valid_name, CrateName};
use crate::versions::{opt_req_view, parse_constraint, req_parses, Constraint};

verus! {

/// The index of the first `@` in `s`, or `s.len()` when there is none.
pub open spec fn first_at(s: Seq<char>) -> int
    decreases s.len(),
{
    if s.len() == 0 {
        0
    } else if s[0] == '@' {
        0
    } else {
        1 + first_at(s.skip(1))
    }
}

/// `first_at` lies in range, points at an `@` when it is in range, and
/// nothing before it is an `@`.
pub proof fn lemma_first_at_bounds(s: Seq<char>)
    ensures
        0 <= first_at(s) <= s.len(),
        first_at(s) < s.len() ==> s[first_at(s)] == '@',
        forall|j: int| 0 <= j < first_at(s) ==> s[j] != '@',
    decreases s.len(),
{
    if s.len() != 0 && s[0] != '@' {
        lemma_first_at_bounds(s.skip(1));
        assert forall|j: int| 0 <= j < first_at(s) implies s[j] != '@' by {
            if j > 0 {
                assert(s.skip(1)[j - 1] != '@');
            }
        }
    }
}

/// An index left of which there is no `@`, and which holds an `@` or the
/// end of the string, is `first_at`.
pub proof fn lemma_first_at_is(s: Seq<char>, i: int)
    requires
        0 <= i <= s.len(),
        forall|j: int| 0 <= j < i ==> s[j] != '@',
        i < s.len() ==> s[i] == '@',
    ensures
        first_at(s) == i,
    decreases i,
{
    if i > 0 {
        assert(s[0] != '@');
        lemma_first_at_is(s.skip(1), i - 1);
    }
}

/// The name half of a token: everything before the first `@`.
pub open spec fn name_part(s: Seq<char>) -> Seq<char> {
    s.take(first_at(s))
}

/// The constraint half of a token: everything after the first `@`, absent
/// when the token holds no `@`.
pub open spec fn req_part(s: Seq<char>) -> Option<Seq<char>> {
    if first_at(s) == s.len() {
        Option::None
    } else {
        Option::Some(s.skip(first_at(s) + 1))
    }
}

/// When a token parses as a package specification: its name half is a valid
/// name, and its constraint half, if present, parses as a constraint.
pub open spec fn parse_ok(s: Seq<char>) -> bool {
    &&& valid_name(name_part(s))
    &&& match req_part(s) {
        Option::None => true,
        Option::Some(t) => req_parses(t),
    }
}

/// Formatting a specification: the name, then `@` and the constraint when
/// one is present.
pub open spec fn format_parts(name: Seq<char>, req: Option<Seq<char>>) -> Seq<char> {
    match req {
        Option::None => name,
        Option::Some(t) => name + seq!['@'] + t,
    }
}

/// Splitting any token on its first `@` and formatting the halves back
/// reproduces the token exactly.
pub proof fn lemma_split_round_trip(s: Seq<char>)
    ensures
        format_parts(name_part(s), req_part(s)) == s,
{
    lemma_first_at_bounds(s);
    let i = first_at(s);
    if i == s.len() {
        assert(format_parts(name_part(s), req_part(s)) =~= s);
    } else {
        assert(s[i] == '@');
        assert(format_parts(name_part(s), req_part(s)) =~= s);
    }
}

/// Every valid name text parses as a specification: the whole text is the
/// name, there is no constraint, and formatting returns the text unchanged.
pub proof fn lemma_name_round_trip(s: Seq<char>)
    requires
        valid_name(s),
    ensures
        parse_ok(s),
        name_part(s) == s,
        req_part(s) is None,
        format_parts(name_part(s), req_part(s)) == s,
{
    assert(!is_name_char('@'));
    assert(forall|j: int| 0 <= j < s.len() ==> s[j] != '@');
    lemma_first_at_is(s, s.len() as int);
    assert(name_part(s) =~= s);
}

/// Locate the first `@` of a token, or its end when there is none.
fn find_first_at(s: &str) -> (i: usize)
    ensures
        i as int == first_at(s@),
        i <= s@.len(),
{
    let n = s.unicode_len();
    let mut i: usize = 0;
    while i < n
        invariant
            n == s@.len(),
            i <= n,
            forall|j: int| 0 <= j < i ==> s@[j] != '@',
        decreases n - i,
    {
        if s.get_char(i) == '@' {
            proof {
                lemma_first_at_is(s@, i as int);
            }
            return i;
        }
        i += 1;
    }
    proof {
        lemma_first_at_is(s@, n as int);
    }
    n
}

/// Why a token failed to parse as a package specification, with the
/// offending substring.
#[derive(Debug)]
pub enum ParseError {
    CrateName(crate_name::ParseError, String),
    VersionReq(String),
}

/// A parsed package specification: a name and an optional version
/// constraint.
pub struct PackageIdSpec {
    pub name: CrateName,
    pub version_req: Option<Constraint>,
}

impl PackageIdSpec {
    /// Every constructed specification holds a well-formed name.
    pub open spec fn wf(&self) -> bool {
        self.name.wf()
    }

    /// Parse a token of the form `name` or `name@constraint`, splitting on
    /// the first `@`. A bad name reports its first offending character and
    /// index; a bad constraint reports the constraint substring.
    pub fn from_str(s: &str) -> (r: Result<PackageIdSpec, ParseError>)
        ensures
            r is Ok <==> parse_ok(s@),
            r matches Ok(p) ==> p.name@ == name_part(s@) && opt_req_view(&p.version_req)
                == req_part(s@) && p.wf(),
            r matches Err(e) ==> match e {
                ParseError::CrateName(ne, t) => !valid_name(name_part(s@)) && t@ == name_part(s@)
                    && (ne matches crate_name::ParseError::InvalidCharacter(c, ci) && ci
                    < name_part(s@).len() && name_part(s@)[ci as int] == c && !is_name_char(c) && (
                forall|j: int| 0 <= j < ci ==> is_name_char(name_part(s@)[j]))),
                ParseError::VersionReq(t) => valid_name(name_part(s@)) && (req_part(
                    s@,
                ) matches Some(t2) && t@ == t2 && !req_parses(t2)),
            },
    {
        let n = s.unicode_len();
        let i = find_first_at(s);
        let name_str = s.substring_char(0, i);
        assert(name_str@ == name_part(s@));
        let name = match CrateName::from_str(name_str) {
            Ok(name) => name,
            Err(e) => {
                return Err(ParseError::CrateName(e, name_str.to_owned()));
            },
        };
        if i < n {
            let req_str = s.substring_char(i + 1, n);
            assert(req_part(s@) matches Some(t) && t == req_str@);
            match parse_constraint(req_str) {
                Some(c) => Ok(PackageIdSpec { name, version_req: Some(c) }),
                None => Err(ParseError::VersionReq(req_str.to_owned())),
            }
        } else {
            assert(req_part(s@) is None);
            Ok(PackageIdSpec { name, version_req: None })
        }
    }

    /// Format the specification back to text: `name`, or `name@constraint`.
    pub fn to_text(&self) -> (r: String)
        ensures
            r@ == format_parts(self.name@, opt_req_view(&self.version_req)),
    {
        let mut out = String::new();
        out.append(self.name.as_str());
        match &self.version_req {
            Some(c) => {
                proof {
                    reveal_strlit("@");
                }
                assert(("@")@ =~= seq!['@']);
                out.append("@");
                out.append(c.as_str());
            },
            None => {},
        }
        out
    }
}

} // verus!
