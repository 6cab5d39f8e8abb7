//! Zero-padded decimal rendering of task indices.
//!
//! Output names embed instrument and channel numbers as decimal text padded
//! with leading zeros to at least four places.  The rendering is proved
//! injective by showing that reading the digit characters back yields the
//! number they were rendered from.

use vstd::prelude::*;
use vstd::string::StringExecFns;

verus! {

/// The ten decimal digit characters.
pub open spec fn is_digit(c: char) -> bool {
    c == '0' || c == '1' || c == '2' || c == '3' || c == '4' || c == '5' || c == '6' || c == '7'
        || c == '8' || c == '9'
}

/// The character for one digit value.
pub open spec fn digit_char(d: int) -> char {
    if d == 0 {
        '0'
    } else if d == 1 {
        '1'
    } else if d == 2 {
        '2'
    } else if d == 3 {
        '3'
    } else if d == 4 {
        '4'
    } else if d == 5 {
        '5'
    } else if d == 6 {
        '6'
    } else if d == 7 {
        '7'
    } else if d == 8 {
        '8'
    } else {
        '9'
    }
}

/// The value of one digit character; other characters count as zero.
pub open spec fn char_val(c: char) -> nat {
    if c == '1' {
        1
    } else if c == '2' {
        2
    } else if c == '3' {
        3
    } else if c == '4' {
        4
    } else if c == '5' {
        5
    } else if c == '6' {
        6
    } else if c == '7' {
        7
    } else if c == '8' {
        8
    } else if c == '9' {
        9
    } else {
        0
    }
}

/// The plain decimal representation of a number, most significant digit
/// first and without leading zeros.
pub open spec fn dec_rep(n: nat) -> Seq<char>
    decreases n,
{
    if n < 10 {
        seq![digit_char(n as int)]
    } else {
        dec_rep(n / 10) + seq![digit_char((n % 10) as int)]
    }
}

/// A run of `k` zero characters.
pub open spec fn zeros(k: nat) -> Seq<char> {
    Seq::new(k, |i: int| '0')
}

/// Leading zeros that pad the decimal representation to four places.
pub open spec fn pad_width(n: nat) -> nat {
    if dec_rep(n).len() < 4 {
        (4 - dec_rep(n).len()) as nat
    } else {
        0
    }
}

/// The zero-padded decimal text of a number: at least four characters.
pub open spec fn padded_dec(n: nat) -> Seq<char> {
    zeros(pad_width(n)) + dec_rep(n)
}

/// The number read back out of a digit string, most significant first.
pub open spec fn seq_val(s: Seq<char>) -> nat
    decreases s.len(),
{
    if s.len() == 0 {
        0
    } else {
        seq_val(s.drop_last()) * 10 + char_val(s.last())
    }
}

/// Every character of a decimal representation is a digit, and there is at
/// least one of them.
pub proof fn lemma_dec_rep_digits(n: nat)
    ensures
        dec_rep(n).len() >= 1,
        forall|i: int| 0 <= i < dec_rep(n).len() ==> is_digit(#[trigger] dec_rep(n)[i]),
    decreases n,
{
    if n >= 10 {
        lemma_dec_rep_digits(n / 10);
    }
}

/// How many digits a number takes: one per decimal place.
pub proof fn lemma_dec_rep_len(n: nat)
    ensures
        dec_rep(n).len() >= 1,
        n < 10 ==> dec_rep(n).len() == 1,
        10 <= n < 100 ==> dec_rep(n).len() == 2,
        100 <= n < 1000 ==> dec_rep(n).len() == 3,
        1000 <= n < 10000 ==> dec_rep(n).len() == 4,
        10000 <= n ==> dec_rep(n).len() >= 5,
    decreases n,
{
    if n >= 10 {
        lemma_dec_rep_len(n / 10);
        vstd::arithmetic::div_mod::lemma_div_is_ordered(10, n as int, 10);
        if n < 100 {
            vstd::arithmetic::div_mod::lemma_div_is_ordered(n as int, 99, 10);
        } else {
            vstd::arithmetic::div_mod::lemma_div_is_ordered(100, n as int, 10);
            if n < 1000 {
                vstd::arithmetic::div_mod::lemma_div_is_ordered(n as int, 999, 10);
            } else {
                vstd::arithmetic::div_mod::lemma_div_is_ordered(1000, n as int, 10);
                if n < 10000 {
                    vstd::arithmetic::div_mod::lemma_div_is_ordered(n as int, 9999, 10);
                } else {
                    vstd::arithmetic::div_mod::lemma_div_is_ordered(10000, n as int, 10);
                }
            }
        }
    }
}

/// Reading the decimal representation back gives the number itself.
pub proof fn lemma_seq_val_dec_rep(n: nat)
    ensures
        seq_val(dec_rep(n)) == n,
    decreases n,
{
    if n < 10 {
        assert(dec_rep(n).drop_last() =~= Seq::<char>::empty());
        assert(dec_rep(n).last() == digit_char(n as int));
        assert(char_val(digit_char(n as int)) == n);
        assert(seq_val(dec_rep(n)) == seq_val(Seq::<char>::empty()) * 10 + n);
    } else {
        lemma_seq_val_dec_rep(n / 10);
        vstd::arithmetic::div_mod::lemma_mod_bound(n as int, 10);
        vstd::arithmetic::div_mod::lemma_fundamental_div_mod(n as int, 10);
        assert(dec_rep(n).drop_last() =~= dec_rep(n / 10));
        assert(dec_rep(n).last() == digit_char((n % 10) as int));
        assert(char_val(digit_char((n % 10) as int)) == n % 10);
    }
}

/// Leading zeros do not change the value a digit string reads back as.
pub proof fn lemma_seq_val_zeros_prefix(k: nat, s: Seq<char>)
    ensures
        seq_val(zeros(k) + s) == seq_val(s),
    decreases s.len(), k,
{
    if s.len() == 0 {
        assert(zeros(k) + s =~= zeros(k));
        if k > 0 {
            assert(zeros(k).drop_last() =~= zeros((k - 1) as nat));
            assert(zeros(k).last() == '0');
            lemma_seq_val_zeros_prefix((k - 1) as nat, s);
            assert(zeros((k - 1) as nat) + s =~= zeros((k - 1) as nat));
        }
    } else {
        assert((zeros(k) + s).drop_last() =~= zeros(k) + s.drop_last());
        assert((zeros(k) + s).last() == s.last());
        lemma_seq_val_zeros_prefix(k, s.drop_last());
    }
}

/// Reading a padded decimal back gives the number itself, so padding is
/// injective.
pub proof fn lemma_padded_dec_val(n: nat)
    ensures
        seq_val(padded_dec(n)) == n,
{
    lemma_seq_val_zeros_prefix(pad_width(n), dec_rep(n));
    lemma_seq_val_dec_rep(n);
}

/// Two numbers with the same padded decimal text are the same number.
pub proof fn lemma_padded_dec_injective(a: nat, b: nat)
    requires
        padded_dec(a) == padded_dec(b),
    ensures
        a == b,
{
    lemma_padded_dec_val(a);
    lemma_padded_dec_val(b);
}

/// A padded decimal is at least four characters of digits.
pub proof fn lemma_padded_dec_digits(n: nat)
    ensures
        padded_dec(n).len() >= 4,
        forall|i: int| 0 <= i < padded_dec(n).len() ==> is_digit(#[trigger] padded_dec(n)[i]),
{
    lemma_dec_rep_digits(n);
}

/// In two equal strings that each start with a run of digits ended by a
/// non-digit, the runs are the same and so are the tails.
pub proof fn lemma_digit_run_prefix(d1: Seq<char>, r1: Seq<char>, d2: Seq<char>, r2: Seq<char>)
    requires
        d1 + r1 == d2 + r2,
        forall|i: int| 0 <= i < d1.len() ==> is_digit(#[trigger] d1[i]),
        forall|i: int| 0 <= i < d2.len() ==> is_digit(#[trigger] d2[i]),
        r1.len() > 0,
        r2.len() > 0,
        !is_digit(r1[0]),
        !is_digit(r2[0]),
    ensures
        d1 == d2,
        r1 == r2,
{
    if d1.len() < d2.len() {
        assert((d1 + r1)[d1.len() as int] == r1[0]);
        assert((d2 + r2)[d1.len() as int] == d2[d1.len() as int]);
        assert(false);
    }
    if d2.len() < d1.len() {
        assert((d2 + r2)[d2.len() as int] == r2[0]);
        assert((d1 + r1)[d2.len() as int] == d1[d2.len() as int]);
        assert(false);
    }
    assert(d1 =~= d2) by {
        assert forall|i: int| 0 <= i < d1.len() implies d1[i] == d2[i] by {
            assert((d1 + r1)[i] == d1[i]);
            assert((d2 + r2)[i] == d2[i]);
        }
    }
    let t1 = d1 + r1;
    let t2 = d2 + r2;
    assert(t1.len() == t2.len());
    assert(t1.len() == d1.len() + r1.len());
    assert(t2.len() == d2.len() + r2.len());
    assert(r1.len() == r2.len());
    assert(r1 =~= r2) by {
        assert forall|i: int| 0 <= i < r1.len() implies r1[i] == r2[i] by {
            assert((d1 + r1)[d1.len() + i] == r1[i]);
            assert((d2 + r2)[d2.len() + i] == r2[i]);
        }
    }
}

/// One decimal digit as text.
pub fn digit_str(d: u8) -> (s: &'static str)
    requires
        d < 10,
    ensures
        s@ == seq![digit_char(d as int)],
{
    match d {
        0 => {
            proof {
                reveal_strlit("0");
                assert("0"@ =~= seq![digit_char(0)]);
            }
            "0"
        },
        1 => {
            proof {
                reveal_strlit("1");
                assert("1"@ =~= seq![digit_char(1)]);
            }
            "1"
        },
        2 => {
            proof {
                reveal_strlit("2");
                assert("2"@ =~= seq![digit_char(2)]);
            }
            "2"
        },
        3 => {
            proof {
                reveal_strlit("3");
                assert("3"@ =~= seq![digit_char(3)]);
            }
            "3"
        },
        4 => {
            proof {
                reveal_strlit("4");
                assert("4"@ =~= seq![digit_char(4)]);
            }
            "4"
        },
        5 => {
            proof {
                reveal_strlit("5");
                assert("5"@ =~= seq![digit_char(5)]);
            }
            "5"
        },
        6 => {
            proof {
                reveal_strlit("6");
                assert("6"@ =~= seq![digit_char(6)]);
            }
            "6"
        },
        7 => {
            proof {
                reveal_strlit("7");
                assert("7"@ =~= seq![digit_char(7)]);
            }
            "7"
        },
        8 => {
            proof {
                reveal_strlit("8");
                assert("8"@ =~= seq![digit_char(8)]);
            }
            "8"
        },
        _ => {
            proof {
                reveal_strlit("9");
                assert("9"@ =~= seq![digit_char(9)]);
            }
            "9"
        },
    }
}

/// Appends the decimal representation of a number.
pub fn push_dec(s: &mut String, n: u32)
    ensures
        final(s)@ == old(s)@ + dec_rep(n as nat),
    decreases n,
{
    if n < 10 {
        s.append(digit_str(n as u8));
        proof {
            assert(final(s)@ =~= old(s)@ + dec_rep(n as nat));
        }
    } else {
        push_dec(s, n / 10);
        proof {
            vstd::arithmetic::div_mod::lemma_mod_bound(n as int, 10);
        }
        s.append(digit_str((n % 10) as u8));
        proof {
            assert(final(s)@ =~= old(s)@ + dec_rep(n as nat));
        }
    }
}

/// The zero-padded decimal text of a number, at least four places wide.
pub fn padded_dec_string(n: u32) -> (s: String)
    ensures
        s@ == padded_dec(n as nat),
{
    let pad: usize = if n < 10 {
        3
    } else if n < 100 {
        2
    } else if n < 1000 {
        1
    } else {
        0
    };
    proof {
        lemma_dec_rep_len(n as nat);
        assert(pad == pad_width(n as nat));
    }
    let mut s = String::new();
    let mut k: usize = 0;
    while k < pad
        invariant
            k <= pad,
            s@ == zeros(k as nat),
        decreases pad - k,
    {
        s.append(digit_str(0));
        k = k + 1;
        proof {
            assert(s@ =~= zeros(k as nat));
        }
    }
    push_dec(&mut s, n);
    s
}

} // verus!
