//! Selection of the authentication strategy for a push target.
//!
//! The decision rule is deliberately coarse: a remote URL that contains
//! the HTTPS scheme marker anywhere selects the configured credential
//! helper; every other URL selects the operator's SSH agent. This is a
//! substring-containment check, not a URL-scheme parse.

use vstd::prelude::*;

verus! {

/// The chosen method for authenticating a push to a remote.
#[derive(Clone, Copy, Debug, PartialEq, Eq, Structural)]
pub enum CredentialStrategy {
    /// Ask the running SSH agent for a key under the hinted username.
    SshAgent,
    /// Defer to the configured credential helper programs.
    CredentialHelper,
}

/// Whether the five characters of the HTTPS scheme marker stand in `s`
/// beginning at position `i`.
pub open spec fn https_marker_at(s: Seq<char>, i: int) -> bool {
    0 <= i
        && i + 5 <= s.len()
        && s[i] == 'h'
        && s[i + 1] == 't'
        && s[i + 2] == 't'
        && s[i + 3] == 'p'
        && s[i + 4] == 's'
}

/// Whether the HTTPS scheme marker occurs anywhere in `s`.
pub open spec fn has_https_marker(s: Seq<char>) -> bool {
    exists|i: int| https_marker_at(s, i)
}

/// Decides whether the URL contains the HTTPS scheme marker.
pub fn contains_https_marker(url: &str) -> (b: bool)
    ensures
        b == has_https_marker(url@),
{
    let len = url.unicode_len();
    if len < 5 {
        proof {
            assert(forall|i: int| !https_marker_at(url@, i));
        }
        return false;
    }
    let mut k: usize = 0;
    while k <= len - 5
        invariant
            0 <= k,
            5 <= len,
            k + 4 <= len,
            len == url@.len(),
            forall|i: int| i < k ==> !https_marker_at(url@, i),
        decreases len - k,
    {
        if url.get_char(k) == 'h'
            && url.get_char(k + 1) == 't'
            && url.get_char(k + 2) == 't'
            && url.get_char(k + 3) == 'p'
            && url.get_char(k + 4) == 's'
        {
            proof {
                assert(https_marker_at(url@, k as int));
            }
            return true;
        }
        k = k + 1;
    }
    proof {
        assert(forall|i: int| i >= k ==> !https_marker_at(url@, i));
    }
    false
}

/// The strategy that a remote URL selects.
pub open spec fn strategy_for(url: Seq<char>) -> CredentialStrategy {
    if has_https_marker(url) {
        CredentialStrategy::CredentialHelper
    } else {
        CredentialStrategy::SshAgent
    }
}

/// Selects the authentication strategy for a remote URL: the HTTPS
/// marker anywhere in the URL selects the credential helper, and any
/// other URL selects the SSH agent.
pub fn select_strategy(url: &str) -> (s: CredentialStrategy)
    ensures
        s == strategy_for(url@),
{
    if contains_https_marker(url) {
        CredentialStrategy::CredentialHelper
    } else {
        CredentialStrategy::SshAgent
    }
}

/// The username under which an SSH-agent key is requested: the hint
/// embedded in the remote URL when there is one, and `git` otherwise.
pub fn username_or_default<'a>(hint: Option<&'a str>) -> (r: &'a str)
    ensures
        hint matches Some(h) ==> r@ == h@,
        hint matches None ==> r@ == "git"@,
{
    match hint {
        Some(h) => h,
        None => "git",
    }
}

} // verus!
