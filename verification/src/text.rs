//! Verified text building: decimal rendering of positions, rendering byte
//! sequences in list form for diagnostics, and prefix tests on symbol names.

use vstd::prelude::*;

verus! {

/// The character for a single decimal digit.
pub open spec fn dec_digit(d: nat) -> char {
    if d == 0 {
        '0'
    } else if d == 1 {
        '1'
    } else if d == 2 {
        '2'
    } else if d == 3 {
        '3'
    } else if d == 4 {
        '4'
    } else if d == 5 {
        '5'
    } else if d == 6 {
        '6'
    } else if d == 7 {
        '7'
    } else if d == 8 {
        '8'
    } else {
        '9'
    }
}

/// The decimal representation of a number, most significant digit first.
pub open spec fn dec_rep(n: nat) -> Seq<char>
    decreases n,
{
    if n < 10 {
        seq![dec_digit(n)]
    } else {
        dec_rep(n / 10) + seq![dec_digit(n % 10)]
    }
}

fn digit_str(d: u64) -> (r: &'static str)
    requires
        d < 10,
    ensures
        r@ =~= seq![dec_digit(d as nat)],
{
    proof {
        reveal_strlit("0");
        reveal_strlit("1");
        reveal_strlit("2");
        reveal_strlit("3");
        reveal_strlit("4");
        reveal_strlit("5");
        reveal_strlit("6");
        reveal_strlit("7");
        reveal_strlit("8");
        reveal_strlit("9");
    }
    if d == 0 {
        "0"
    } else if d == 1 {
        "1"
    } else if d == 2 {
        "2"
    } else if d == 3 {
        "3"
    } else if d == 4 {
        "4"
    } else if d == 5 {
        "5"
    } else if d == 6 {
        "6"
    } else if d == 7 {
        "7"
    } else if d == 8 {
        "8"
    } else {
        "9"
    }
}

/// Appends the decimal representation of `n` to `s`.
pub fn push_dec(s: &mut String, n: u64)
    ensures
        final(s)@ == old(s)@ + dec_rep(n as nat),
    decreases n,
{
    if n < 10 {
        s.append(digit_str(n));
    } else {
        push_dec(s, n / 10);
        s.append(digit_str(n % 10));
        proof {
            assert(s@ =~= old(s)@ + dec_rep(n as nat));
        }
    }
}

/// The elements of a byte sequence in decimal, separated by a comma and a
/// space.
pub open spec fn bytes_list_rep(s: Seq<u8>) -> Seq<char>
    decreases s.len(),
{
    if s.len() == 0 {
        Seq::empty()
    } else if s.len() == 1 {
        dec_rep(s[0] as nat)
    } else {
        dec_rep(s[0] as nat) + ", "@ + bytes_list_rep(s.drop_first())
    }
}

/// A byte sequence rendered in list form, as diagnostics show it.
pub open spec fn bytes_debug_rep(s: Seq<u8>) -> Seq<char> {
    "["@ + bytes_list_rep(s) + "]"@
}

fn push_bytes_list(s: &mut String, v: &[u8], i: usize)
    requires
        i <= v@.len(),
    ensures
        final(s)@ == old(s)@ + bytes_list_rep(v@.skip(i as int)),
    decreases v@.len() - i,
{
    if i < v.len() {
        push_dec(s, v[i] as u64);
        if i + 1 < v.len() {
            s.append(", ");
            push_bytes_list(s, v, i + 1);
            proof {
                assert(v@.skip(i as int).drop_first() =~= v@.skip(i + 1));
                assert(v@.skip(i as int)[0] == v@[i as int]);
                assert(s@ =~= old(s)@ + bytes_list_rep(v@.skip(i as int)));
            }
        } else {
            proof {
                assert(v@.skip(i as int).len() == 1);
                assert(v@.skip(i as int)[0] == v@[i as int]);
                assert(s@ =~= old(s)@ + bytes_list_rep(v@.skip(i as int)));
            }
        }
    } else {
        proof {
            assert(v@.skip(i as int) =~= Seq::<u8>::empty());
            assert(s@ =~= old(s)@ + bytes_list_rep(v@.skip(i as int)));
        }
    }
}

/// Appends the list-form rendering of the bytes in `v` to `s`.
pub fn push_bytes_debug(s: &mut String, v: &[u8])
    ensures
        final(s)@ == old(s)@ + bytes_debug_rep(v@),
{
    s.append("[");
    push_bytes_list(s, v, 0);
    s.append("]");
    proof {
        assert(v@.skip(0) =~= v@);
        assert(s@ =~= old(s)@ + bytes_debug_rep(v@));
    }
}

/// Whether two byte slices hold the same bytes.
pub fn bytes_eq(a: &[u8], b: &[u8]) -> (r: bool)
    ensures
        r == (a@ == b@),
{
    if a.len() != b.len() {
        return false;
    }
    let mut i: usize = 0;
    while i < a.len()
        invariant
            i <= a@.len(),
            a@.len() == b@.len(),
            forall|j: int| 0 <= j < i ==> a@[j] == b@[j],
        decreases a@.len() - i,
    {
        if a[i] != b[i] {
            return false;
        }
        i += 1;
    }
    proof {
        assert(a@ =~= b@);
    }
    true
}

/// Whether two string slices hold the same characters.
pub fn str_eq(a: &str, b: &str) -> (r: bool)
    ensures
        r == (a@ == b@),
{
    let a_len = a.unicode_len();
    let b_len = b.unicode_len();
    if a_len != b_len {
        return false;
    }
    let mut i: usize = 0;
    while i < a_len
        invariant
            i <= a_len,
            a_len == a@.len(),
            b_len == b@.len(),
            a_len == b_len,
            forall|j: int| 0 <= j < i ==> a@[j] == b@[j],
        decreases a_len - i,
    {
        if a.get_char(i) != b.get_char(i) {
            return false;
        }
        i += 1;
    }
    proof {
        assert(a@ =~= b@);
    }
    true
}

/// Whether `prefix` is a prefix of the characters of `s`.
pub fn str_starts_with(s: &str, prefix: &str) -> (r: bool)
    ensures
        r == prefix@.is_prefix_of(s@),
{
    let s_len = s.unicode_len();
    let p_len = prefix.unicode_len();
    if p_len > s_len {
        proof {
            assert(!prefix@.is_prefix_of(s@));
        }
        return false;
    }
    let mut i: usize = 0;
    while i < p_len
        invariant
            i <= p_len,
            p_len == prefix@.len(),
            s_len == s@.len(),
            p_len <= s_len,
            forall|j: int| 0 <= j < i ==> s@[j] == prefix@[j],
        decreases p_len - i,
    {
        if s.get_char(i) != prefix.get_char(i) {
            proof {
                assert(!prefix@.is_prefix_of(s@)) by {
                    assert(s@.subrange(0, p_len as int)[i as int] != prefix@[i as int]);
                }
            }
            return false;
        }
        i += 1;
    }
    proof {
        assert(prefix@ =~= s@.subrange(0, p_len as int));
    }
    true
}

} // verus!
