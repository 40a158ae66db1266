//! The data-URI shape that image fields carry on the wire:
//! `data:<type>/<subtype>;base64,<payload>`.

use vstd::prelude::*;
use vstd::string::*;
use crate::text::chars_of;

verus! {

broadcast use vstd::string::group_string_axioms;

/// `s` has the shape `data:<mime>;<encoding>` where `<mime>` is everything up
/// to the first `;` after the scheme, holds a `/`, and `<encoding>` starts
/// with `base64,`.
pub open spec fn is_data_uri(s: Seq<char>) -> bool {
    &&& s.len() >= 5
    &&& s.take(5) == "data:"@
    &&& exists|j: int|
        #![trigger s[j]]
        {
            &&& 5 <= j && j + 8 <= s.len()
            &&& s[j] == ';'
            &&& forall|k: int| 5 <= k < j ==> s[k] != ';'
            &&& exists|k: int| 5 <= k < j && s[k] == '/'
            &&& s.subrange(j + 1, j + 8) == "base64,"@
        }
}

/// Decides [`is_data_uri`].
pub fn is_valid_data_uri(s: &str) -> (r: bool)
    ensures
        r == is_data_uri(s@),
{
    proof {
        reveal_strlit("data:");
        reveal_strlit("base64,");
    }
    let v = chars_of(s);
    let n = v.len();
    if n < 5 || v[0] != 'd' || v[1] != 'a' || v[2] != 't' || v[3] != 'a' || v[4] != ':' {
        assert(n < 5 ==> !is_data_uri(s@));
        assert(n >= 5 ==> s@.take(5)[0] == v@[0] && s@.take(5)[1] == v@[1] && s@.take(5)[2]
            == v@[2] && s@.take(5)[3] == v@[3] && s@.take(5)[4] == v@[4]);
        return false;
    }
    assert(s@.take(5) =~= "data:"@);
    // Find the first `;` after the scheme, noting whether a `/` precedes it.
    let mut j: usize = 5;
    let mut slash = false;
    while j < n && v[j] != ';'
        invariant
            5 <= j <= n,
            n == v@.len(),
            v@ == s@,
            forall|k: int| 5 <= k < j ==> v@[k] != ';',
            slash <==> exists|k: int| 5 <= k < j && v@[k] == '/',
        decreases n - j,
    {
        if v[j] == '/' {
            slash = true;
        }
        j = j + 1;
    }
    if j == n {
        assert forall|jj: int| 5 <= jj && jj + 8 <= s@.len() && s@[jj] == ';' implies !(forall|
            k: int,
        | 5 <= k < jj ==> s@[k] != ';') by {}
        return false;
    }
    let ok = slash && n >= 8 && j <= n - 8 && v[j + 1] == 'b' && v[j + 2] == 'a' && v[j + 3] == 's'
        && v[j + 4] == 'e' && v[j + 5] == '6' && v[j + 6] == '4' && v[j + 7] == ',';
    proof {
        let jj = j as int;
        if ok {
            assert(s@.subrange(jj + 1, jj + 8) =~= "base64,"@);
            assert(s@[jj] == ';');
        } else {
            assert forall|j2: int|
                5 <= j2 && j2 + 8 <= s@.len() && s@[j2] == ';' && (forall|k: int|
                    5 <= k < j2 ==> s@[k] != ';') && (exists|k: int| 5 <= k < j2 && s@[k] == '/')
                implies s@.subrange(j2 + 1, j2 + 8) != "base64,"@ by {
                assert(j2 == jj);
                if s@.subrange(j2 + 1, j2 + 8) == "base64,"@ {
                    assert(s@.subrange(j2 + 1, j2 + 8)[0] == 'b');
                    assert(s@.subrange(j2 + 1, j2 + 8)[1] == 'a');
                    assert(s@.subrange(j2 + 1, j2 + 8)[2] == 's');
                    assert(s@.subrange(j2 + 1, j2 + 8)[3] == 'e');
                    assert(s@.subrange(j2 + 1, j2 + 8)[4] == '6');
                    assert(s@.subrange(j2 + 1, j2 + 8)[5] == '4');
                    assert(s@.subrange(j2 + 1, j2 + 8)[6] == ',');
                }
            }
        }
    }
    ok
}

/// A string field that holds a data URI, checked when it is read.
pub struct DataUriDe(pub String);

/// Accepts `s` as a data URI, or names it in the error.
pub fn data_uri_from_string(s: String) -> (r: Result<DataUriDe, String>)
    ensures
        match r {
            Ok(d) => is_data_uri(s@) && d.0@ == s@,
            Err(msg) => !is_data_uri(s@) && msg@ == "invalid data URI: "@ + s@,
        },
{
    if is_valid_data_uri(s.as_str()) {
        Ok(DataUriDe(s))
    } else {
        let msg = String::from_str("invalid data URI: ").concat(s.as_str());
        Err(msg)
    }
}

} // verus!
