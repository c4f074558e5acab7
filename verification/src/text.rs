//! Verified text utilities: the whitespace predicate and whitespace
//! trimming used when assembling commit messages.

use vstd::prelude::*;

verus! {

/// A character counts as whitespace exactly when it has the Unicode
/// `White_Space` property.
pub open spec fn is_space_char(c: char) -> bool {
    let u = c as u32;
    (9 <= u && u <= 13)  // tab, line feed, vertical tab, form feed, carriage return
        || u == 32       // space
        || u == 0x85     // next line
        || u == 0xA0     // no-break space
        || u == 0x1680   // ogham space mark
        || (0x2000 <= u && u <= 0x200A)  // en quad .. hair space
        || u == 0x2028   // line separator
        || u == 0x2029   // paragraph separator
        || u == 0x202F   // narrow no-break space
        || u == 0x205F   // medium mathematical space
        || u == 0x3000   // ideographic space
}

/// Decides the Unicode `White_Space` property for one character.
pub fn is_space(c: char) -> (b: bool)
    ensures
        b == is_space_char(c),
{
    let u = c as u32;
    (9 <= u && u <= 13)
        || u == 32
        || u == 0x85
        || u == 0xA0
        || u == 0x1680
        || (0x2000 <= u && u <= 0x200A)
        || u == 0x2028
        || u == 0x2029
        || u == 0x202F
        || u == 0x205F
        || u == 0x3000
}

/// The sequence with its leading whitespace removed.
pub open spec fn trim_start_spec(s: Seq<char>) -> Seq<char>
    decreases s.len(),
{
    if s.len() == 0 {
        s
    } else if is_space_char(s[0]) {
        trim_start_spec(s.subrange(1, s.len() as int))
    } else {
        s
    }
}

/// The sequence with its trailing whitespace removed.
pub open spec fn trim_end_spec(s: Seq<char>) -> Seq<char>
    decreases s.len(),
{
    if s.len() == 0 {
        s
    } else if is_space_char(s.last()) {
        trim_end_spec(s.drop_last())
    } else {
        s
    }
}

/// The sequence with both leading and trailing whitespace removed.
pub open spec fn trim_spec(s: Seq<char>) -> Seq<char> {
    trim_end_spec(trim_start_spec(s))
}

/// Returns a copy of `s` with leading and trailing whitespace removed,
/// as free-text prompt answers are stored.
pub fn trim_text(s: &str) -> (t: String)
    ensures
        t@ == trim_spec(s@),
{
    let len = s.unicode_len();
    let ghost full = s@;
    let mut lo: usize = 0;
    proof {
        assert(full.subrange(0, len as int) =~= full);
    }
    while lo < len && is_space(s.get_char(lo))
        invariant
            0 <= lo <= len,
            len == full.len(),
            full == s@,
            trim_start_spec(full) == trim_start_spec(full.subrange(lo as int, len as int)),
        decreases len - lo,
    {
        proof {
            let tail = full.subrange(lo as int, len as int);
            assert(tail[0] == full[lo as int]);
            assert(tail.subrange(1, tail.len() as int)
                =~= full.subrange(lo as int + 1, len as int));
        }
        lo = lo + 1;
    }
    proof {
        let tail = full.subrange(lo as int, len as int);
        if lo < len {
            assert(tail[0] == full[lo as int]);
        }
        assert(trim_start_spec(full) == tail);
    }
    let mut hi: usize = len;
    while hi > lo && is_space(s.get_char(hi - 1))
        invariant
            lo <= hi <= len,
            len == full.len(),
            full == s@,
            trim_start_spec(full) == full.subrange(lo as int, len as int),
            trim_end_spec(full.subrange(lo as int, len as int))
                == trim_end_spec(full.subrange(lo as int, hi as int)),
        decreases hi,
    {
        proof {
            let part = full.subrange(lo as int, hi as int);
            assert(part.last() == full[hi as int - 1]);
            assert(part.drop_last() =~= full.subrange(lo as int, hi as int - 1));
        }
        hi = hi - 1;
    }
    proof {
        let part = full.subrange(lo as int, hi as int);
        if hi > lo {
            assert(part.last() == full[hi as int - 1]);
        }
        assert(trim_spec(full) == part);
    }
    let out = s.substring_char(lo, hi);
    String::from_str(out)
}

} // verus!
