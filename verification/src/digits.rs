//! Decimal digits: reading a non-negative index out of a user token and
//! formatting an index for display.

use vstd::prelude::*;

verus! {

/// Whether `c` is a decimal digit.
pub open spec fn is_dec_digit(c: char) -> bool {
    '0' <= c && c <= '9'
}

/// The numeric value of a decimal digit character.
pub open spec fn digit_val(c: char) -> int {
    c as int - '0' as int
}

/// Whether every character of `s` is a decimal digit.
pub open spec fn all_dec_digits(s: Seq<char>) -> bool {
    forall|i: int| 0 <= i < s.len() ==> is_dec_digit(#[trigger] s[i])
}

/// The value of a run of decimal digits, most significant first.
pub open spec fn dec_val(s: Seq<char>) -> int
    decreases s.len(),
{
    if s.len() == 0 {
        0
    } else {
        dec_val(s.drop_last()) * 10 + digit_val(s.last())
    }
}

/// The digit run of a token: the token itself, or what follows one
/// leading plus sign, mirroring how a non-negative integer literal is
/// read.
pub open spec fn token_digits(s: Seq<char>) -> Seq<char> {
    if s.len() > 0 && s[0] == '+' {
        s.subrange(1, s.len() as int)
    } else {
        s
    }
}

/// The index a token denotes, if any: a non-empty run of decimal
/// digits, optionally preceded by one plus sign, whose value fits in
/// `usize`. Anything else (including overflow) denotes no index.
pub open spec fn parse_index_spec(s: Seq<char>) -> Option<int> {
    let d = token_digits(s);
    if d.len() > 0 && all_dec_digits(d) && dec_val(d) <= usize::MAX as int {
        Some(dec_val(d))
    } else {
        None
    }
}

/// A run of decimal digits has a non-negative value.
pub proof fn lemma_dec_val_nonneg(s: Seq<char>)
    requires
        all_dec_digits(s),
    ensures
        dec_val(s) >= 0,
    decreases s.len(),
{
    if s.len() > 0 {
        assert(all_dec_digits(s.drop_last()));
        lemma_dec_val_nonneg(s.drop_last());
    }
}

/// Extending a digit prefix by one character multiplies its value by
/// ten and adds the new digit.
pub proof fn lemma_dec_val_snoc(s: Seq<char>, i: int)
    requires
        0 <= i < s.len(),
    ensures
        dec_val(s.subrange(0, i + 1)) == dec_val(s.subrange(0, i)) * 10 + digit_val(s[i]),
{
    let p = s.subrange(0, i + 1);
    assert(p.drop_last() =~= s.subrange(0, i));
    assert(p.last() == s[i]);
}

/// The value of a run of digits is at least the value of any prefix.
pub proof fn lemma_dec_val_prefix_le(s: Seq<char>, i: int)
    requires
        0 <= i <= s.len(),
        all_dec_digits(s),
    ensures
        dec_val(s.subrange(0, i)) <= dec_val(s),
    decreases s.len() - i,
{
    if i == s.len() {
        assert(s.subrange(0, i) =~= s);
    } else {
        lemma_dec_val_snoc(s, i);
        assert(all_dec_digits(s.subrange(0, i)));
        lemma_dec_val_nonneg(s.subrange(0, i));
        lemma_dec_val_prefix_le(s, i + 1);
    }
}

/// Parse a token as a non-negative index. Returns the denoted index
/// exactly when the token is an optional plus sign followed by one or
/// more decimal digits whose value fits in `usize`.
pub fn parse_index(token: &str) -> (r: Option<usize>)
    ensures
        match r {
            Some(v) => parse_index_spec(token@) == Some(v as int),
            None => parse_index_spec(token@) is None,
        },
{
    let n = token.unicode_len();
    let start: usize = if n > 0 && token.get_char(0) == '+' {
        1
    } else {
        0
    };
    let ghost d = token_digits(token@);
    proof {
        assert(d =~= token@.subrange(start as int, n as int));
    }
    if start >= n {
        return None;
    }
    let mut i: usize = start;
    let mut val: usize = 0;
    while i < n
        invariant
            start <= i <= n,
            n == token@.len(),
            d == token_digits(token@),
            d =~= token@.subrange(start as int, n as int),
            all_dec_digits(d.subrange(0, i - start)),
            val as int == dec_val(d.subrange(0, i - start)),
        decreases n - i,
    {
        let c = token.get_char(i);
        let ghost k = i - start;
        proof {
            assert(d[k] == token@[i as int]);
        }
        if c < '0' || c > '9' {
            proof {
                assert(!is_dec_digit(d[k]));
            }
            return None;
        }
        let dv: usize = (c as u32 - '0' as u32) as usize;
        proof {
            assert(dv as int == digit_val(d[k]));
            lemma_dec_val_snoc(d, k);
        }
        let next = match val.checked_mul(10) {
            Some(m) => m.checked_add(dv),
            None => None,
        };
        match next {
            Some(v) => {
                val = v;
            },
            None => {
                proof {
                    assert(dec_val(d.subrange(0, k + 1)) > usize::MAX as int);
                    if all_dec_digits(d) {
                        lemma_dec_val_prefix_le(d, k + 1);
                    }
                }
                return None;
            },
        }
        i = i + 1;
    }
    proof {
        assert(d.subrange(0, i - start) =~= d);
        assert(d.len() > 0);
    }
    Some(val)
}

/// The decimal digit character for a value below ten.
pub open spec fn char_of_digit(d: int) -> char {
    if d == 0 {
        '0'
    } else if d == 1 {
        '1'
    } else if d == 2 {
        '2'
    } else if d == 3 {
        '3'
    } else if d == 4 {
        '4'
    } else if d == 5 {
        '5'
    } else if d == 6 {
        '6'
    } else if d == 7 {
        '7'
    } else if d == 8 {
        '8'
    } else {
        '9'
    }
}

/// The decimal representation of a non-negative number: most
/// significant digit first, no leading zeros, a lone zero for zero.
pub open spec fn dec_rep(n: int) -> Seq<char>
    decreases n,
{
    if n < 10 {
        seq![char_of_digit(n)]
    } else {
        dec_rep(n / 10) + seq![char_of_digit(n % 10)]
    }
}

/// One-character string slice for a digit value.
fn digit_str(dv: usize) -> (s: &'static str)
    requires
        dv < 10,
    ensures
        s@ =~= seq![char_of_digit(dv as int)],
{
    match dv {
        0 => {
            proof {
                reveal_strlit("0");
            }
            "0"
        },
        1 => {
            proof {
                reveal_strlit("1");
            }
            "1"
        },
        2 => {
            proof {
                reveal_strlit("2");
            }
            "2"
        },
        3 => {
            proof {
                reveal_strlit("3");
            }
            "3"
        },
        4 => {
            proof {
                reveal_strlit("4");
            }
            "4"
        },
        5 => {
            proof {
                reveal_strlit("5");
            }
            "5"
        },
        6 => {
            proof {
                reveal_strlit("6");
            }
            "6"
        },
        7 => {
            proof {
                reveal_strlit("7");
            }
            "7"
        },
        8 => {
            proof {
                reveal_strlit("8");
            }
            "8"
        },
        _ => {
            proof {
                reveal_strlit("9");
            }
            "9"
        },
    }
}

proof fn lemma_dec_rep_all_digits(n: int)
    requires
        n >= 0,
    ensures
        all_dec_digits(dec_rep(n)),
        dec_rep(n).len() > 0,
    decreases n,
{
    if n < 10 {
        assert(is_dec_digit(char_of_digit(n)));
        assert(dec_rep(n)[0] == char_of_digit(n));
    } else {
        lemma_dec_rep_all_digits(n / 10);
        let p = dec_rep(n / 10);
        assert forall|i: int| 0 <= i < dec_rep(n).len() implies is_dec_digit(
            #[trigger] dec_rep(n)[i],
        ) by {
            if i < p.len() {
                assert(dec_rep(n)[i] == p[i]);
            } else {
                assert(dec_rep(n)[i] == char_of_digit(n % 10));
            }
        }
    }
}

proof fn lemma_dec_val_of_dec_rep(n: int)
    requires
        n >= 0,
    ensures
        dec_val(dec_rep(n)) == n,
    decreases n,
{
    if n < 10 {
        let s = dec_rep(n);
        assert(s.drop_last() =~= Seq::<char>::empty());
        assert(dec_val(Seq::<char>::empty()) == 0);
        assert(s.last() == char_of_digit(n));
        assert(digit_val(char_of_digit(n)) == n);
        assert(dec_val(s) == dec_val(s.drop_last()) * 10 + digit_val(s.last()));
    } else {
        lemma_dec_val_of_dec_rep(n / 10);
        let s = dec_rep(n);
        let p = dec_rep(n / 10);
        assert(s.drop_last() =~= p);
        assert(s.last() == char_of_digit(n % 10));
        assert(digit_val(char_of_digit(n % 10)) == n % 10);
        assert(dec_val(s) == dec_val(p) * 10 + digit_val(s.last()));
        vstd::arithmetic::div_mod::lemma_fundamental_div_mod(n, 10);
    }
}

/// Law: formatting an index and reading the result back as a token
/// yields the same index. The display index column is itself a valid
/// index token for the enumeration it came from.
pub proof fn lemma_parse_of_dec_rep(n: int)
    requires
        0 <= n <= usize::MAX as int,
    ensures
        parse_index_spec(dec_rep(n)) == Some(n),
{
    lemma_dec_rep_all_digits(n);
    lemma_dec_val_of_dec_rep(n);
    let s = dec_rep(n);
    assert(is_dec_digit(s[0]));
    assert(token_digits(s) == s);
}

/// Format an index as its decimal representation, as a display
/// enumeration shows it.
pub fn format_index(n: usize) -> (s: String)
    ensures
        s@ == dec_rep(n as int),
    decreases n,
{
    if n < 10 {
        digit_str(n).to_owned()
    } else {
        let prefix = format_index(n / 10);
        let s = prefix.concat(digit_str(n % 10));
        proof {
            assert(s@ =~= dec_rep(n as int));
        }
        s
    }
}

} // verus!
