//! The asset server's decision rule: which embedded file answers a request
//! path, with the single-page-application fallback. The embedded directory
//! lookup and the HTTP plumbing stay with the caller; this module decides,
//! given the lookup outcomes, what to serve and with which media type.

use vstd::prelude::*;
use vstd::string::StringSliceAdditionalSpecFns;

verus! {

pub const DOT: u8 = 46;
pub const SLASH: u8 = 47;

/// The length of `s` with its trailing slashes dropped: request paths may
/// end in a separator, which names the same file.
pub open spec fn trimmed_len(s: Seq<u8>) -> nat
    decreases s.len(),
{
    if s.len() == 0 {
        0
    } else if s[s.len() - 1] == SLASH {
        trimmed_len(s.drop_last())
    } else {
        s.len()
    }
}

/// Whether `j` marks an extension dot of `s` up to `n`: a dot inside the
/// last path segment, not its first character.
pub open spec fn ext_dot_at(s: Seq<u8>, n: int, j: int) -> bool {
    1 <= j < n && s[j] == DOT && s[j - 1] != SLASH && (forall|k: int|
        j < k < n ==> s[k] != SLASH)
}

/// Whether a request path names a file with an extension: its last
/// segment, trailing slashes aside, has a dot after its first character.
/// A path without one is taken for a client-side route and answered with
/// the application entry document instead of a miss.
pub open spec fn spec_has_extension(s: Seq<u8>) -> bool {
    exists|j: int| ext_dot_at(s, trimmed_len(s) as int, j)
}

proof fn lemma_trimmed_take_step(s: Seq<u8>, n: int)
    requires
        0 < n <= s.len(),
        s[n - 1] == SLASH,
    ensures
        trimmed_len(s.take(n)) == trimmed_len(s.take(n - 1)),
{
    assert(s.take(n).drop_last() =~= s.take(n - 1));
}

proof fn lemma_trimmed_take_stop(s: Seq<u8>, n: int)
    requires
        0 < n <= s.len(),
        s[n - 1] != SLASH,
    ensures
        trimmed_len(s.take(n)) == n,
{
}

/// Whether `path` has an extension, exactly as [`spec_has_extension`] says
/// of its bytes.
#[verifier::loop_isolation(false)]
pub fn has_extension(path: &str) -> (r: bool)
    ensures
        r == spec_has_extension(path.spec_bytes()),
{
    let b = path.as_bytes();
    let ghost s = b@;
    let mut n: usize = b.len();
    proof {
        assert(s.take(n as int) =~= s);
    }
    while n > 0 && b[n - 1] == SLASH
        invariant
            n <= s.len(),
            b@ == s,
            trimmed_len(s) == trimmed_len(s.take(n as int)),
        decreases n,
    {
        proof {
            lemma_trimmed_take_step(s, n as int);
        }
        n = n - 1;
    }
    proof {
        if n > 0 {
            lemma_trimmed_take_stop(s, n as int);
        } else {
            assert(s.take(0) =~= Seq::<u8>::empty());
        }
        assert(trimmed_len(s) == n);
    }
    let ghost tn = n as int;
    let mut i: usize = n;
    while i > 0
        invariant
            i <= n,
            n == trimmed_len(s),
            b@ == s,
            n <= s.len(),
            forall|k: int| i <= k < n ==> s[k] != DOT && s[k] != SLASH,
        decreases i,
    {
        let c = b[i - 1];
        if c == SLASH {
            proof {
                assert forall|j: int| !ext_dot_at(s, tn, j) by {
                    if 1 <= j < tn && s[j] == DOT {
                        assert(j < i - 1);
                        assert(s[i - 1] == SLASH);
                    }
                }
            }
            return false;
        }
        if c == DOT {
            if i - 1 == 0 {
                proof {
                    assert forall|j: int| !ext_dot_at(s, tn, j) by {
                        if 1 <= j < tn {
                            assert(s[j] != DOT);
                        }
                    }
                }
                return false;
            }
            if b[i - 2] == SLASH {
                proof {
                    assert forall|j: int| !ext_dot_at(s, tn, j) by {
                        if 1 <= j < tn && s[j] == DOT {
                            assert(j == i - 1 || j < i - 2);
                            if j < i - 2 {
                                assert(s[i - 2] == SLASH);
                            }
                        }
                    }
                }
                return false;
            }
            proof {
                assert(ext_dot_at(s, tn, i - 1));
            }
            return true;
        }
        i = i - 1;
    }
    proof {
        assert forall|j: int| !ext_dot_at(s, tn, j) by {
            if 1 <= j < tn {
                assert(s[j] != DOT);
            }
        }
    }
    false
}

/// The media type of the file a path names, guessed from its extension.
/// It depends on the path alone.
pub uninterp spec fn mime_of(path: Seq<char>) -> Seq<char>;

/// Relies on `mime_guess::from_path` and `MimeGuess::first_or_octet_stream`:
/// the guess is a pure function of the path, falling back to the octet-stream
/// type when no extension is known.
#[verifier::external_body]
pub fn guess_mime(path: &str) -> (m: String)
    ensures
        m@ == mime_of(path@),
{
    mime_guess::from_path(path).first_or_octet_stream().as_ref().to_string()
}

/// What the asset server should answer for one request path.
pub enum ServePlan {
    /// The path names an embedded asset: serve it with this media type.
    Asset { mime: String },
    /// The path looks like a client-side route: serve the application
    /// entry document with this media type.
    IndexFallback { mime: String },
    /// Nothing matches: answer a miss.
    NotFound,
}

/// Decide what to serve: the asset itself when the lookup found it; the
/// entry document when the path is extensionless and the entry document
/// exists; a miss otherwise. The caller reports the two lookup outcomes
/// and performs the plan.
pub fn plan_response(path: &str, path_found: bool, index_found: bool) -> (r: ServePlan)
    ensures
        path_found ==> (r matches ServePlan::Asset { mime } && mime@ == mime_of(path@)),
        !path_found && !spec_has_extension(path.spec_bytes()) && index_found ==> (r matches
            ServePlan::IndexFallback { mime } && mime@ == mime_of("index.html"@)),
        !path_found && (spec_has_extension(path.spec_bytes()) || !index_found) ==> r is NotFound,
{
    if path_found {
        ServePlan::Asset { mime: guess_mime(path) }
    } else if !has_extension(path) && index_found {
        ServePlan::IndexFallback { mime: guess_mime("index.html") }
    } else {
        ServePlan::NotFound
    }
}

} // verus!
