//! Small verified text utilities: decimal rendering of integers,
//! lexicographic order on character sequences, and the wording of the
//! cooldown wait notice.

use vstd::prelude::*;

verus! {

/// The decimal digit character for a single digit value.
pub open spec fn digit_char(d: nat) -> char {
    if d == 0 {
        '0'
    } else if d == 1 {
        '1'
    } else if d == 2 {
        '2'
    } else if d == 3 {
        '3'
    } else if d == 4 {
        '4'
    } else if d == 5 {
        '5'
    } else if d == 6 {
        '6'
    } else if d == 7 {
        '7'
    } else if d == 8 {
        '8'
    } else {
        '9'
    }
}

/// The usual decimal rendering of a non-negative integer, without sign or
/// leading zeroes (zero itself renders as "0").
pub open spec fn dec_str(n: nat) -> Seq<char>
    decreases n,
{
    if n < 10 {
        seq![digit_char(n)]
    } else {
        dec_str(n / 10) + seq![digit_char(n % 10)]
    }
}

/// A one-character string slice for a single digit value.
fn digit_str(d: u64) -> (r: &'static str)
    requires
        d < 10,
    ensures
        r@ =~= seq![digit_char(d as nat)],
{
    proof {
        reveal_strlit("0");
        reveal_strlit("1");
        reveal_strlit("2");
        reveal_strlit("3");
        reveal_strlit("4");
        reveal_strlit("5");
        reveal_strlit("6");
        reveal_strlit("7");
        reveal_strlit("8");
        reveal_strlit("9");
    }
    if d == 0 {
        "0"
    } else if d == 1 {
        "1"
    } else if d == 2 {
        "2"
    } else if d == 3 {
        "3"
    } else if d == 4 {
        "4"
    } else if d == 5 {
        "5"
    } else if d == 6 {
        "6"
    } else if d == 7 {
        "7"
    } else if d == 8 {
        "8"
    } else {
        "9"
    }
}

/// Appends the decimal rendering of `n` to `out`.
pub fn push_dec_u64(out: &mut String, n: u64)
    ensures
        final(out)@ == old(out)@ + dec_str(n as nat),
    decreases n,
{
    if n < 10 {
        out.append(digit_str(n));
    } else {
        push_dec_u64(out, n / 10);
        out.append(digit_str(n % 10));
        proof {
            assert(old(out)@ + dec_str((n / 10) as nat) + seq![digit_char((n % 10) as nat)]
                =~= old(out)@ + dec_str(n as nat));
        }
    }
}

/// The decimal rendering of `n` as a fresh string.
pub fn dec_string_u64(n: u64) -> (r: String)
    ensures
        r@ == dec_str(n as nat),
{
    let mut out = String::new();
    push_dec_u64(&mut out, n);
    proof {
        assert(Seq::<char>::empty() + dec_str(n as nat) =~= dec_str(n as nat));
    }
    out
}

/// Lead-in of the notice sent while a user's cooldown is still running.
pub const WAIT_PREFIX: &'static str = "You must wait until ";

/// Tail of the notice sent while a user's cooldown is still running.
pub const WAIT_SUFFIX: &'static str = " to use Mod Mail again.";

/// The rendering of a positive number of remaining seconds as
/// "`X minute(s) and Y second(s)`": a unit is omitted when its count is
/// zero, and the "and" appears only when both units are present.
pub open spec fn duration_text(secs: nat) -> Seq<char> {
    let mins = secs / 60;
    let rem = secs % 60;
    (if mins > 0 {
        dec_str(mins) + (if mins == 1 {
            " minute"@
        } else {
            " minutes"@
        })
    } else {
        Seq::<char>::empty()
    }) + (if mins > 0 && rem > 0 {
        " and "@
    } else {
        Seq::<char>::empty()
    }) + (if rem > 0 {
        dec_str(rem) + (if rem == 1 {
            " second"@
        } else {
            " seconds"@
        })
    } else {
        Seq::<char>::empty()
    })
}

/// The full wait notice for a user whose cooldown has `secs` seconds left.
pub open spec fn wait_notice_text(secs: nat) -> Seq<char> {
    WAIT_PREFIX@ + duration_text(secs) + WAIT_SUFFIX@
}

/// Builds the wait notice for a cooldown with `secs` seconds remaining.
pub fn wait_notice(secs: u64) -> (r: String)
    ensures
        r@ == wait_notice_text(secs as nat),
{
    let mins: u64 = secs / 60;
    let rem: u64 = secs % 60;
    let mut out = String::new();
    out.append(WAIT_PREFIX);
    if mins > 0 {
        push_dec_u64(&mut out, mins);
        if mins == 1 {
            out.append(" minute");
        } else {
            out.append(" minutes");
        }
    }
    if mins > 0 && rem > 0 {
        out.append(" and ");
    }
    if rem > 0 {
        push_dec_u64(&mut out, rem);
        if rem == 1 {
            out.append(" second");
        } else {
            out.append(" seconds");
        }
    }
    out.append(WAIT_SUFFIX);
    proof {
        assert(out@ =~= wait_notice_text(secs as nat));
    }
    out
}

/// Strict lexicographic order on character sequences, by code point. This is
/// the order in which candidate server names are listed; on UTF-8 encoded
/// strings it agrees with the byte-wise order used by ordered string maps.
pub open spec fn lex_lt(a: Seq<char>, b: Seq<char>) -> bool
    decreases a.len(),
{
    if b.len() == 0 {
        false
    } else if a.len() == 0 {
        true
    } else if a[0] != b[0] {
        (a[0] as int) < (b[0] as int)
    } else {
        lex_lt(a.skip(1), b.skip(1))
    }
}

/// Decides the strict lexicographic order between two strings.
pub fn str_lex_lt(a: &str, b: &str) -> (r: bool)
    ensures
        r == lex_lt(a@, b@),
{
    let a_len = a.unicode_len();
    let b_len = b.unicode_len();
    let mut i: usize = 0;
    proof {
        assert(a@.skip(0) =~= a@);
        assert(b@.skip(0) =~= b@);
    }
    loop
        invariant
            i <= a_len,
            i <= b_len,
            a_len == a@.len(),
            b_len == b@.len(),
            lex_lt(a@, b@) == lex_lt(a@.skip(i as int), b@.skip(i as int)),
            forall|k: int| 0 <= k < i ==> a@[k] == b@[k],
        decreases a_len - i,
    {
        if i == b_len {
            return false;
        }
        if i == a_len {
            return true;
        }
        let ca = a.get_char(i);
        let cb = b.get_char(i);
        if ca != cb {
            return (ca as u32) < (cb as u32);
        }
        proof {
            assert(a@.skip(i as int).skip(1) =~= a@.skip(i + 1));
            assert(b@.skip(i as int).skip(1) =~= b@.skip(i + 1));
        }
        i = i + 1;
    }
}

} // verus!
