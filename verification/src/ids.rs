//! Correlation ids.
//!
//! An id is the text `req_<counter>_<stamp>`, where `counter` is the broker's
//! monotonically increasing request counter and `stamp` is the millisecond
//! clock reading at submission. Distinct counters give distinct ids, which is
//! what "an id, once issued, is never reused" rests on; the injectivity proof
//! is below.

use vstd::prelude::*;
use vstd::string::StringExecFns;

verus! {

/// The character that writes a single decimal digit.
pub open spec fn digit_char(d: nat) -> char
    recommends
        d < 10,
{
    if d == 0 {
        '0'
    } else if d == 1 {
        '1'
    } else if d == 2 {
        '2'
    } else if d == 3 {
        '3'
    } else if d == 4 {
        '4'
    } else if d == 5 {
        '5'
    } else if d == 6 {
        '6'
    } else if d == 7 {
        '7'
    } else if d == 8 {
        '8'
    } else {
        '9'
    }
}

/// Whether `c` is one of the ten decimal digit characters.
pub open spec fn is_digit_char(c: char) -> bool {
    c == '0' || c == '1' || c == '2' || c == '3' || c == '4' || c == '5' || c == '6' || c == '7'
        || c == '8' || c == '9'
}

/// The decimal writing of `n`, most significant digit first, no leading
/// zeros (except for `n == 0` itself).
pub open spec fn dec_spec(n: nat) -> Seq<char>
    decreases n,
{
    if n < 10 {
        seq![digit_char(n)]
    } else {
        dec_spec(n / 10).push(digit_char(n % 10))
    }
}

pub proof fn lemma_dec_spec_len(n: nat)
    ensures
        dec_spec(n).len() >= 1,
        n >= 10 ==> dec_spec(n).len() >= 2,
    decreases n,
{
    if n >= 10 {
        lemma_dec_spec_len(n / 10);
    }
}

pub proof fn lemma_digit_char_injective(x: nat, y: nat)
    requires
        x < 10,
        y < 10,
        digit_char(x) == digit_char(y),
    ensures
        x == y,
{
}

pub proof fn lemma_dec_spec_digits(n: nat)
    ensures
        forall|i: int| 0 <= i < dec_spec(n).len() ==> is_digit_char(#[trigger] dec_spec(n)[i]),
    decreases n,
{
    if n < 10 {
        assert(dec_spec(n)[0] == digit_char(n));
    } else {
        lemma_dec_spec_digits(n / 10);
        assert forall|i: int| 0 <= i < dec_spec(n).len() implies is_digit_char(
            #[trigger] dec_spec(n)[i],
        ) by {
            if i < dec_spec(n).len() - 1 {
                assert(dec_spec(n)[i] == dec_spec(n / 10)[i]);
            } else {
                assert(dec_spec(n)[i] == digit_char(n % 10));
            }
        }
    }
}

/// Two numbers with the same decimal writing are the same number.
pub proof fn lemma_dec_spec_injective(a: nat, b: nat)
    requires
        dec_spec(a) == dec_spec(b),
    ensures
        a == b,
    decreases a,
{
    lemma_dec_spec_len(a);
    lemma_dec_spec_len(b);
    if a < 10 && b < 10 {
        assert(dec_spec(a)[0] == digit_char(a));
        assert(dec_spec(b)[0] == digit_char(b));
        lemma_digit_char_injective(a, b);
    } else if a < 10 {
        assert(dec_spec(a).len() == 1);
        assert(false);
    } else if b < 10 {
        assert(dec_spec(b).len() == 1);
        assert(false);
    } else {
        let la = dec_spec(a).len() as int;
        assert(dec_spec(a) == dec_spec(a / 10).push(digit_char(a % 10)));
        assert(dec_spec(b) == dec_spec(b / 10).push(digit_char(b % 10)));
        assert(dec_spec(a)[la - 1] == digit_char(a % 10));
        assert(dec_spec(b)[la - 1] == digit_char(b % 10));
        lemma_digit_char_injective(a % 10, b % 10);
        assert(dec_spec(a).drop_last() =~= dec_spec(a / 10));
        assert(dec_spec(b).drop_last() =~= dec_spec(b / 10));
        lemma_dec_spec_injective(a / 10, b / 10);
        vstd::arithmetic::div_mod::lemma_fundamental_div_mod(a as int, 10);
        vstd::arithmetic::div_mod::lemma_fundamental_div_mod(b as int, 10);
    }
}

/// The fixed text an id starts with.
pub open spec fn id_prefix() -> Seq<char> {
    seq!['r', 'e', 'q', '_']
}

/// The characters of the id built from a counter and a clock stamp.
pub open spec fn id_chars(counter: nat, stamp: nat) -> Seq<char> {
    id_prefix() + dec_spec(counter) + seq!['_'] + dec_spec(stamp)
}

/// Ids determine the counter and the stamp they were built from: two equal
/// id texts come from the same counter and the same stamp.
pub proof fn lemma_id_chars_injective(c1: nat, t1: nat, c2: nat, t2: nat)
    requires
        id_chars(c1, t1) == id_chars(c2, t2),
    ensures
        c1 == c2,
        t1 == t2,
{
    let a1 = dec_spec(c1);
    let a2 = dec_spec(c2);
    let b1 = dec_spec(t1);
    let b2 = dec_spec(t2);
    let s1 = id_chars(c1, t1);
    let s2 = id_chars(c2, t2);
    lemma_dec_spec_len(c1);
    lemma_dec_spec_len(c2);
    lemma_dec_spec_len(t1);
    lemma_dec_spec_len(t2);
    lemma_dec_spec_digits(c1);
    lemma_dec_spec_digits(c2);
    assert(s1.len() == 5 + a1.len() + b1.len());
    assert(s2.len() == 5 + a2.len() + b2.len());
    // The counters' digit runs have the same length: otherwise the shorter
    // run's closing underscore would stand where the longer run still has a
    // digit.
    if a1.len() < a2.len() {
        let k = 4 + a1.len() as int;
        assert(s1[k] == '_');
        assert(s2[k] == a2[a1.len() as int]);
        assert(is_digit_char(s2[k]));
        assert(false);
    }
    if a2.len() < a1.len() {
        let k = 4 + a2.len() as int;
        assert(s2[k] == '_');
        assert(s1[k] == a1[a2.len() as int]);
        assert(is_digit_char(s1[k]));
        assert(false);
    }
    assert(a1 =~= a2) by {
        assert forall|i: int| 0 <= i < a1.len() implies a1[i] == a2[i] by {
            assert(s1[4 + i] == a1[i]);
            assert(s2[4 + i] == a2[i]);
        }
    }
    lemma_dec_spec_injective(c1, c2);
    assert(b1.len() == b2.len());
    assert(b1 =~= b2) by {
        assert forall|i: int| 0 <= i < b1.len() implies b1[i] == b2[i] by {
            assert(s1[5 + a1.len() + i] == b1[i]);
            assert(s2[5 + a2.len() + i] == b2[i]);
        }
    }
    lemma_dec_spec_injective(t1, t2);
}

fn digit_str(d: u64) -> (r: &'static str)
    requires
        d < 10,
    ensures
        r@ == seq![digit_char(d as nat)],
{
    if d == 0 {
        proof {
            reveal_strlit("0");
        }
        let r = "0";
        assert(r@ =~= seq![digit_char(d as nat)]);
        r
    } else if d == 1 {
        proof {
            reveal_strlit("1");
        }
        let r = "1";
        assert(r@ =~= seq![digit_char(d as nat)]);
        r
    } else if d == 2 {
        proof {
            reveal_strlit("2");
        }
        let r = "2";
        assert(r@ =~= seq![digit_char(d as nat)]);
        r
    } else if d == 3 {
        proof {
            reveal_strlit("3");
        }
        let r = "3";
        assert(r@ =~= seq![digit_char(d as nat)]);
        r
    } else if d == 4 {
        proof {
            reveal_strlit("4");
        }
        let r = "4";
        assert(r@ =~= seq![digit_char(d as nat)]);
        r
    } else if d == 5 {
        proof {
            reveal_strlit("5");
        }
        let r = "5";
        assert(r@ =~= seq![digit_char(d as nat)]);
        r
    } else if d == 6 {
        proof {
            reveal_strlit("6");
        }
        let r = "6";
        assert(r@ =~= seq![digit_char(d as nat)]);
        r
    } else if d == 7 {
        proof {
            reveal_strlit("7");
        }
        let r = "7";
        assert(r@ =~= seq![digit_char(d as nat)]);
        r
    } else if d == 8 {
        proof {
            reveal_strlit("8");
        }
        let r = "8";
        assert(r@ =~= seq![digit_char(d as nat)]);
        r
    } else {
        proof {
            reveal_strlit("9");
        }
        let r = "9";
        assert(r@ =~= seq![digit_char(d as nat)]);
        r
    }
}

/// The decimal writing of `n` as an owned string.
pub fn decimal_string(n: u64) -> (s: String)
    ensures
        s@ == dec_spec(n as nat),
    decreases n,
{
    if n < 10 {
        String::from_str(digit_str(n))
    } else {
        let mut s = decimal_string(n / 10);
        s.append(digit_str(n % 10));
        proof {
            assert(s@ =~= dec_spec((n as nat) / 10).push(digit_char((n as nat) % 10)));
        }
        s
    }
}

/// Builds the id text `req_<counter>_<stamp>`.
pub fn format_request_id(counter: u64, stamp: u64) -> (s: String)
    ensures
        s@ == id_chars(counter as nat, stamp as nat),
{
    let mut s = String::from_str("req_");
    proof {
        reveal_strlit("req_");
        assert(s@ =~= id_prefix());
    }
    let c = decimal_string(counter);
    s.append(c.as_str());
    s.append("_");
    proof {
        reveal_strlit("_");
    }
    let t = decimal_string(stamp);
    s.append(t.as_str());
    proof {
        assert(s@ =~= id_chars(counter as nat, stamp as nat));
    }
    s
}

} // verus!
