//! The slice of an HTTP request the protection API reads: the method used
//! to invoke an operation and the resource identifier carried by the
//! request target's path.

use vstd::prelude::*;
use vstd::string::StrSliceExecFns;

verus! {

/// The HTTP method a protection API request was invoked with. Every
/// operation validates the method first and rejects mismatches.
#[derive(Clone, Copy, PartialEq, Eq, Structural, Debug)]
pub enum HttpMethod {
    Get,
    Post,
    Put,
    Delete,
}

/// How many characters of leading `/` the path starts with.
pub open spec fn leading_slashes(s: Seq<char>) -> int
    decreases s.len(),
{
    if s.len() == 0 || s[0] != '/' {
        0
    } else {
        1 + leading_slashes(s.skip(1))
    }
}

/// The resource identifier a request path denotes: the path with its
/// leading slashes stripped.
pub open spec fn path_resource_id(s: Seq<char>) -> Seq<char> {
    s.skip(leading_slashes(s))
}

proof fn lemma_leading_slashes(s: Seq<char>, i: int)
    requires
        0 <= i <= s.len(),
        forall|j: int| 0 <= j < i ==> s[j] == '/',
        i == s.len() || s[i] != '/',
    ensures
        leading_slashes(s) == i,
    decreases i,
{
    if i == 0 {
    } else {
        assert(s[0] == '/');
        lemma_leading_slashes(s.skip(1), i - 1);
    }
}

/// Extracts the resource identifier from a request path by stripping the
/// leading slashes.
pub fn resource_id_from_path(path: &String) -> (r: String)
    ensures
        r@ == path_resource_id(path@),
{
    let s = path.as_str();
    let n = s.unicode_len();
    let mut i: usize = 0;
    while i < n && s.get_char(i) == '/'
        invariant
            i <= n,
            n == s@.len(),
            forall|j: int| 0 <= j < i ==> s@[j] == '/',
        decreases n - i,
    {
        i = i + 1;
    }
    proof {
        lemma_leading_slashes(s@, i as int);
        assert(s@.skip(i as int) =~= s@.subrange(i as int, s@.len() as int));
    }
    let rest = s.substring_char(i, n);
    rest.to_owned()
}

} // verus!
