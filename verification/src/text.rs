//! Text primitives shared across the library: the whitespace model, the
//! trimming that output normalization is built on, and a few small string
//! helpers.

use vstd::prelude::*;

verus! {

use vstd::string::{StrSliceExecFns, StringExecFns};

/// The Unicode white-space characters: the set stripped from the ends
/// of program output before comparison.
pub open spec fn is_wsp(c: char) -> bool {
    let v = c as u32;
    ||| (9 <= v && v <= 13)
    ||| v == 32
    ||| v == 0x85
    ||| v == 0xa0
    ||| v == 0x1680
    ||| (0x2000 <= v && v <= 0x200a)
    ||| v == 0x2028
    ||| v == 0x2029
    ||| v == 0x202f
    ||| v == 0x205f
    ||| v == 0x3000
}

/// `s` with its leading whitespace removed.
pub open spec fn trim_start_spec(s: Seq<char>) -> Seq<char>
    decreases s.len(),
{
    if s.len() > 0 && is_wsp(s[0]) {
        trim_start_spec(s.drop_first())
    } else {
        s
    }
}

/// `s` with its trailing whitespace removed.
pub open spec fn trim_end_spec(s: Seq<char>) -> Seq<char>
    decreases s.len(),
{
    if s.len() > 0 && is_wsp(s.last()) {
        trim_end_spec(s.drop_last())
    } else {
        s
    }
}

/// `s` with whitespace removed from both ends: the normal form in which
/// outputs are compared.
pub open spec fn norm_spec(s: Seq<char>) -> Seq<char> {
    trim_start_spec(trim_end_spec(s))
}

/// Whether `c` is treated as whitespace.
pub fn is_wsp_char(c: char) -> (b: bool)
    ensures
        b == is_wsp(c),
{
    let v = c as u32;
    (9 <= v && v <= 13) || v == 32 || v == 0x85 || v == 0xa0 || v == 0x1680 || (0x2000 <= v && v
        <= 0x200a) || v == 0x2028 || v == 0x2029 || v == 0x202f || v == 0x205f || v == 0x3000
}

/// Byte length of a string, the length of its UTF-8 encoding; the unit
/// in which the admission size limits are stated.
pub open spec fn byte_len(s: Seq<char>) -> nat {
    vstd::utf8::encode_utf8(s).len()
}

/// The character for a single decimal digit.
pub open spec fn dec_digit(n: int) -> char {
    if n == 0 {
        '0'
    } else if n == 1 {
        '1'
    } else if n == 2 {
        '2'
    } else if n == 3 {
        '3'
    } else if n == 4 {
        '4'
    } else if n == 5 {
        '5'
    } else if n == 6 {
        '6'
    } else if n == 7 {
        '7'
    } else if n == 8 {
        '8'
    } else {
        '9'
    }
}

/// The usual decimal rendering of a non-negative integer.
pub open spec fn dec_rep(n: int) -> Seq<char>
    decreases n,
{
    if n < 10 {
        seq![dec_digit(n)]
    } else {
        dec_rep(n / 10) + seq![dec_digit(n % 10)]
    }
}

/// The one-character string for a decimal digit.
fn digit_str(d: u64) -> (r: &'static str)
    requires
        d < 10,
    ensures
        r@ == seq![dec_digit(d as int)],
{
    if d == 0 {
        proof {
            reveal_strlit("0");
            assert("0"@ =~= seq![dec_digit(0)]);
        }
        "0"
    } else if d == 1 {
        proof {
            reveal_strlit("1");
            assert("1"@ =~= seq![dec_digit(1)]);
        }
        "1"
    } else if d == 2 {
        proof {
            reveal_strlit("2");
            assert("2"@ =~= seq![dec_digit(2)]);
        }
        "2"
    } else if d == 3 {
        proof {
            reveal_strlit("3");
            assert("3"@ =~= seq![dec_digit(3)]);
        }
        "3"
    } else if d == 4 {
        proof {
            reveal_strlit("4");
            assert("4"@ =~= seq![dec_digit(4)]);
        }
        "4"
    } else if d == 5 {
        proof {
            reveal_strlit("5");
            assert("5"@ =~= seq![dec_digit(5)]);
        }
        "5"
    } else if d == 6 {
        proof {
            reveal_strlit("6");
            assert("6"@ =~= seq![dec_digit(6)]);
        }
        "6"
    } else if d == 7 {
        proof {
            reveal_strlit("7");
            assert("7"@ =~= seq![dec_digit(7)]);
        }
        "7"
    } else if d == 8 {
        proof {
            reveal_strlit("8");
            assert("8"@ =~= seq![dec_digit(8)]);
        }
        "8"
    } else {
        proof {
            reveal_strlit("9");
            assert("9"@ =~= seq![dec_digit(9)]);
        }
        "9"
    }
}

/// Render a non-negative integer in decimal.
pub fn u64_to_dec(n: u64) -> (r: String)
    ensures
        r@ == dec_rep(n as int),
    decreases n,
{
    if n < 10 {
        digit_str(n).to_owned()
    } else {
        let q = n / 10;
        let d = n % 10;
        u64_to_dec(q).concat(digit_str(d))
    }
}

/// String equality by contents.
pub fn str_eq(a: &str, b: &str) -> (r: bool)
    ensures
        r == (a@ == b@),
{
    let ao: String = a.to_owned();
    let bo: String = b.to_owned();
    ao == bo
}

/// Trailing whitespace beginning at `b` and a non-whitespace character
/// just before it pin down exactly where trimming the end stops.
pub proof fn lemma_trim_end_at(s: Seq<char>, b: int)
    requires
        0 <= b <= s.len(),
        forall|k: int| b <= k < s.len() ==> is_wsp(s[k]),
        b == 0 || !is_wsp(s[b - 1]),
    ensures
        trim_end_spec(s) == s.subrange(0, b),
    decreases s.len(),
{
    if s.len() == 0 {
        assert(s.subrange(0, 0) =~= s);
    } else if b == s.len() {
        assert(!is_wsp(s.last()));
        assert(s.subrange(0, b) =~= s);
    } else {
        assert(is_wsp(s.last()));
        let t = s.drop_last();
        assert(forall|k: int| b <= k < t.len() ==> is_wsp(t[k]));
        lemma_trim_end_at(t, b);
        assert(t.subrange(0, b) =~= s.subrange(0, b));
    }
}

/// Leading whitespace up to `a` and a non-whitespace character at `a`
/// pin down exactly where trimming the start stops.
pub proof fn lemma_trim_start_at(s: Seq<char>, a: int)
    requires
        0 <= a <= s.len(),
        forall|k: int| 0 <= k < a ==> is_wsp(s[k]),
        a == s.len() || !is_wsp(s[a]),
    ensures
        trim_start_spec(s) == s.subrange(a, s.len() as int),
    decreases a,
{
    if a == 0 {
        if s.len() == 0 || !is_wsp(s[0]) {
            assert(s.subrange(0, s.len() as int) =~= s);
        }
    } else {
        assert(is_wsp(s[0]));
        let t = s.drop_first();
        assert(forall|k: int| 0 <= k < a - 1 ==> is_wsp(t[k]));
        lemma_trim_start_at(t, a - 1);
        assert(t.subrange(a - 1, t.len() as int) =~= s.subrange(a, s.len() as int));
    }
}

/// The normal form of `s` is the slice between the first and last
/// non-whitespace characters.
pub proof fn lemma_norm_window(s: Seq<char>, a: int, b: int)
    requires
        0 <= a <= b <= s.len(),
        forall|k: int| 0 <= k < a ==> is_wsp(s[k]),
        forall|k: int| b <= k < s.len() ==> is_wsp(s[k]),
        a == b || (!is_wsp(s[a]) && !is_wsp(s[b - 1])),
    ensures
        norm_spec(s) == s.subrange(a, b),
{
    if a == b {
        lemma_trim_end_at(s, 0);
        assert(trim_end_spec(s) == s.subrange(0, 0));
        assert(s.subrange(0, 0).len() == 0);
        assert(trim_start_spec(s.subrange(0, 0)) == s.subrange(0, 0));
        assert(s.subrange(0, 0) =~= s.subrange(a, b));
    } else {
        lemma_trim_end_at(s, b);
        let t = s.subrange(0, b);
        assert(forall|k: int| 0 <= k < a ==> is_wsp(t[k]));
        assert(!is_wsp(t[a]));
        lemma_trim_start_at(t, a);
        assert(t.subrange(a, t.len() as int) =~= s.subrange(a, b));
    }
}

/// Appending only whitespace to a string does not change its normal
/// form: `norm(x + t) == norm(x)` whenever `t` is all whitespace.
pub proof fn lemma_norm_append_wsp(x: Seq<char>, t: Seq<char>)
    requires
        forall|k: int| 0 <= k < t.len() ==> is_wsp(t[k]),
    ensures
        norm_spec(x + t) == norm_spec(x),
    decreases t.len(),
{
    if t.len() == 0 {
        assert(x + t =~= x);
    } else {
        let s = x + t;
        assert(is_wsp(s.last()));
        assert(trim_end_spec(s) == trim_end_spec(s.drop_last()));
        assert(s.drop_last() =~= x + t.drop_last());
        assert(forall|k: int| 0 <= k < t.drop_last().len() ==> is_wsp(t.drop_last()[k]));
        lemma_norm_append_wsp(x, t.drop_last());
    }
}

} // verus!
