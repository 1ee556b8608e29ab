//! Verified string building blocks: character-precise truncation and
//! decimal rendering of counters, both used by recap and diagnostics lines.

use vstd::prelude::*;
use vstd::string::*;

verus! {

/// `s` cut to at most `limit` characters; when something was cut, `suffix`
/// marks the cut.
pub open spec fn clipped(s: Seq<char>, limit: int, suffix: Seq<char>) -> Seq<char> {
    if s.len() > limit {
        s.take(limit) + suffix
    } else {
        s
    }
}

/// Truncate `s` to `limit` characters, appending `suffix` when something
/// was cut.
pub fn clip(s: &str, limit: usize, suffix: &str) -> (r: String)
    ensures
        r@ == clipped(s@, limit as int, suffix@),
{
    let n = s.unicode_len();
    if n > limit {
        let mut r = String::from_str(s.substring_char(0, limit));
        r.append(suffix);
        proof {
            assert(r@ =~= clipped(s@, limit as int, suffix@));
        }
        r
    } else {
        String::from_str(s)
    }
}

/// The decimal digit characters, in value order.
pub open spec fn digit_char(d: int) -> char {
    seq!['0', '1', '2', '3', '4', '5', '6', '7', '8', '9'][d]
}

/// The decimal rendering of `n`, most significant digit first, no sign and
/// no leading zero (except for `n == 0` itself).
pub open spec fn dec_str(n: nat) -> Seq<char>
    decreases n,
{
    if n < 10 {
        seq![digit_char(n as int)]
    } else {
        dec_str(n / 10) + seq![digit_char((n % 10) as int)]
    }
}

/// Render `n` in decimal.
pub fn u64_to_string(n: u64) -> (r: String)
    ensures
        r@ == dec_str(n as nat),
    decreases n,
{
    let digits = "0123456789";
    proof {
        reveal_strlit("0123456789");
        assert(digits@ =~= seq!['0', '1', '2', '3', '4', '5', '6', '7', '8', '9']);
    }
    let d = (n % 10) as usize;
    let c = digits.substring_char(d, d + 1);
    proof {
        assert(c@ =~= seq![digit_char(d as int)]);
    }
    if n < 10 {
        String::from_str(c)
    } else {
        let mut r = u64_to_string(n / 10);
        r.append(c);
        r
    }
}

/// The view of an optional string.
pub open spec fn opt_text(o: Option<String>) -> Option<Seq<char>> {
    match o {
        Some(s) => Some(s@),
        None => None,
    }
}

/// The view of an optional string slice.
pub open spec fn opt_str_text(o: Option<&str>) -> Option<Seq<char>> {
    match o {
        Some(s) => Some(s@),
        None => None,
    }
}

} // verus!
