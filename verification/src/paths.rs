//! Path normalization for staging: a leading `./`-style relative
//! prefix — a dot followed by either separator — is stripped so that
//! paths reach the engine in the root-relative form its pathspecs
//! expect.

use vstd::prelude::*;

verus! {

/// Whether a path begins with a two-character relative prefix: a dot
/// followed by a forward or backward separator.
pub open spec fn has_relative_prefix(p: Seq<char>) -> bool {
    p.len() >= 2 && p[0] == '.' && (p[1] == '/' || p[1] == '\\')
}

/// The path as it is submitted to the engine: the leading `./` or `.\`
/// prefix, when present, is stripped; any other path is kept as given.
pub open spec fn normalized_path(p: Seq<char>) -> Seq<char> {
    if has_relative_prefix(p) {
        p.subrange(2, p.len() as int)
    } else {
        p
    }
}

/// Returns the normalized form of one path.
pub fn normalize_path(p: &str) -> (r: String)
    ensures
        r@ == normalized_path(p@),
{
    let len = p.unicode_len();
    if len >= 2 && p.get_char(0) == '.' {
        let sep = p.get_char(1);
        if sep == '/' || sep == '\\' {
            let rest = p.substring_char(2, len);
            return String::from_str(rest);
        }
    }
    String::from_str(p)
}

/// Returns the normalized form of every path in the list, in order.
pub fn normalize_paths(files: &Vec<String>) -> (v: Vec<String>)
    ensures
        v@.len() == files@.len(),
        forall|i: int| 0 <= i < files@.len() ==> #[trigger] v@[i]@ == normalized_path(files@[i]@),
{
    let mut v: Vec<String> = Vec::new();
    let mut k: usize = 0;
    while k < files.len()
        invariant
            0 <= k <= files@.len(),
            v@.len() == k,
            forall|i: int| 0 <= i < k ==> #[trigger] v@[i]@ == normalized_path(files@[i]@),
        decreases files@.len() - k,
    {
        let n = normalize_path(files[k].as_str());
        v.push(n);
        k = k + 1;
    }
    v
}

/// A path given with a leading relative prefix — `./` or `.\` — and
/// the same path given without it normalize to the identical entry, so
/// both stage to the same index slot.
pub proof fn lemma_prefix_normalizes_alike(p: Seq<char>, sep: char)
    requires
        sep == '/' || sep == '\\',
        !has_relative_prefix(p),
    ensures
        normalized_path(seq!['.', sep] + p) == normalized_path(p),
{
    let pre = seq!['.', sep] + p;
    assert(pre[0] == '.');
    assert(pre[1] == sep);
    assert(pre.subrange(2, pre.len() as int) =~= p);
}

} // verus!
