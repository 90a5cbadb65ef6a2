//! Text helpers for request preparation: decimal rendering of an ordinal,
//! character-wise string comparison, and substitution of the literal `{i}`
//! placeholder in a body template.

use vstd::prelude::*;

verus! {

/// The decimal digit character for a value below ten.
pub open spec fn spec_digit(d: int) -> char {
    if d == 0 {
        '0'
    } else if d == 1 {
        '1'
    } else if d == 2 {
        '2'
    } else if d == 3 {
        '3'
    } else if d == 4 {
        '4'
    } else if d == 5 {
        '5'
    } else if d == 6 {
        '6'
    } else if d == 7 {
        '7'
    } else if d == 8 {
        '8'
    } else {
        '9'
    }
}

/// The decimal rendering of `n`, most significant digit first, with no
/// leading zeros (`0` renders as `"0"`).
pub open spec fn spec_dec(n: nat) -> Seq<char>
    decreases n,
{
    if n < 10 {
        seq![spec_digit(n as int)]
    } else {
        spec_dec(n / 10) + seq![spec_digit((n % 10) as int)]
    }
}

/// The literal placeholder that a body template may hold.
pub open spec fn placeholder() -> Seq<char> {
    seq!['{', 'i', '}']
}

/// The template with every occurrence of the placeholder `{i}` replaced by
/// the decimal rendering of `ord`, scanning left to right.
pub open spec fn spec_subst(t: Seq<char>, ord: nat) -> Seq<char>
    decreases t.len(),
{
    if t.len() == 0 {
        Seq::empty()
    } else if t.len() >= 3 && t.take(3) == placeholder() {
        spec_dec(ord) + spec_subst(t.skip(3), ord)
    } else {
        seq![t[0]] + spec_subst(t.skip(1), ord)
    }
}

fn digit_str(d: u64) -> (s: &'static str)
    requires
        d < 10,
    ensures
        s@ == seq![spec_digit(d as int)],
{
    if d == 0 {
        proof {
            reveal_strlit("0");
            assert("0"@ =~= seq![spec_digit(0)]);
        }
        "0"
    } else if d == 1 {
        proof {
            reveal_strlit("1");
            assert("1"@ =~= seq![spec_digit(1)]);
        }
        "1"
    } else if d == 2 {
        proof {
            reveal_strlit("2");
            assert("2"@ =~= seq![spec_digit(2)]);
        }
        "2"
    } else if d == 3 {
        proof {
            reveal_strlit("3");
            assert("3"@ =~= seq![spec_digit(3)]);
        }
        "3"
    } else if d == 4 {
        proof {
            reveal_strlit("4");
            assert("4"@ =~= seq![spec_digit(4)]);
        }
        "4"
    } else if d == 5 {
        proof {
            reveal_strlit("5");
            assert("5"@ =~= seq![spec_digit(5)]);
        }
        "5"
    } else if d == 6 {
        proof {
            reveal_strlit("6");
            assert("6"@ =~= seq![spec_digit(6)]);
        }
        "6"
    } else if d == 7 {
        proof {
            reveal_strlit("7");
            assert("7"@ =~= seq![spec_digit(7)]);
        }
        "7"
    } else if d == 8 {
        proof {
            reveal_strlit("8");
            assert("8"@ =~= seq![spec_digit(8)]);
        }
        "8"
    } else {
        proof {
            reveal_strlit("9");
            assert("9"@ =~= seq![spec_digit(9)]);
        }
        "9"
    }
}

/// Renders `n` in decimal.
pub fn dec_string(n: u64) -> (s: String)
    ensures
        s@ == spec_dec(n as nat),
    decreases n,
{
    if n < 10 {
        digit_str(n).to_owned()
    } else {
        proof {
            assert(n / 10 < n) by (nonlinear_arith)
                requires
                    n >= 10,
            ;
        }
        let mut s = dec_string(n / 10);
        s.append(digit_str(n % 10));
        proof {
            assert((n / 10) as nat == n as nat / 10);
            assert((n % 10) as int == (n as nat % 10) as int);
        }
        s
    }
}

/// Compares two strings character by character.
pub fn str_eq(a: &str, b: &str) -> (r: bool)
    ensures
        r == (a@ == b@),
{
    let la = a.unicode_len();
    let lb = b.unicode_len();
    if la != lb {
        return false;
    }
    let mut i: usize = 0;
    while i < la
        invariant
            i <= la,
            la == a@.len(),
            lb == b@.len(),
            la == lb,
            forall|m: int| 0 <= m < i ==> a@[m] == b@[m],
        decreases la - i,
    {
        if a.get_char(i) != b.get_char(i) {
            return false;
        }
        i += 1;
    }
    proof {
        assert(a@ =~= b@);
    }
    true
}

/// Replaces every occurrence of the literal `{i}` in `template` by the
/// decimal rendering of `ordinal`.
pub fn substitute(template: &str, ordinal: u64) -> (out: String)
    ensures
        out@ == spec_subst(template@, ordinal as nat),
{
    let len = template.unicode_len();
    let mut out = String::new();
    let mut i: usize = 0;
    proof {
        assert(template@.skip(0) =~= template@);
        assert(out@ + spec_subst(template@.skip(0), ordinal as nat) =~= spec_subst(
            template@,
            ordinal as nat,
        ));
    }
    while i < len
        invariant
            i <= len,
            len == template@.len(),
            out@ + spec_subst(template@.skip(i as int), ordinal as nat) == spec_subst(
                template@,
                ordinal as nat,
            ),
        decreases len - i,
    {
        let ghost t = template@.skip(i as int);
        if len - i >= 3 && template.get_char(i) == '{' && template.get_char(i + 1) == 'i'
            && template.get_char(i + 2) == '}' {
            let d = dec_string(ordinal);
            let ghost out_before = out@;
            out.append(d.as_str());
            proof {
                assert(t.take(3) =~= placeholder());
                assert(t.skip(3) =~= template@.skip(i as int + 3));
                assert(spec_subst(t, ordinal as nat) == spec_dec(ordinal as nat) + spec_subst(
                    t.skip(3),
                    ordinal as nat,
                ));
                assert(out@ + spec_subst(template@.skip(i as int + 3), ordinal as nat)
                    =~= out_before + spec_subst(t, ordinal as nat));
            }
            i += 3;
        } else {
            let piece = template.substring_char(i, i + 1);
            let ghost out_before = out@;
            out.append(piece);
            proof {
                assert(t.len() >= 1);
                if t.len() >= 3 && t.take(3) == placeholder() {
                    assert(t.take(3)[0] == t[0]);
                    assert(t.take(3)[1] == t[1]);
                    assert(t.take(3)[2] == t[2]);
                    assert(t[0] == template@[i as int]);
                    assert(t[1] == template@[i as int + 1]);
                    assert(t[2] == template@[i as int + 2]);
                    assert(false);
                }
                assert(spec_subst(t, ordinal as nat) == seq![t[0]] + spec_subst(
                    t.skip(1),
                    ordinal as nat,
                ));
                assert(piece@ =~= seq![t[0]]);
                assert(t.skip(1) =~= template@.skip(i as int + 1));
                assert(out@ + spec_subst(template@.skip(i as int + 1), ordinal as nat)
                    =~= out_before + spec_subst(t, ordinal as nat));
            }
            i += 1;
        }
    }
    proof {
        assert(template@.skip(len as int) =~= Seq::<char>::empty());
        assert(out@ + spec_subst(template@.skip(len as int), ordinal as nat) =~= out@);
    }
    out
}

} // verus!
