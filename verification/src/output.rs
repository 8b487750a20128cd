//! Number formatting for reports.

use vstd::prelude::*;

use crate::strings::{decimal, push_decimal, signed_decimal, unsigned_abs};

verus! {

/// The first `i` digits of `digits`, with a comma before every digit after the
/// first that has a multiple of three digits to its right.
pub open spec fn with_commas(digits: Seq<char>, i: nat) -> Seq<char>
    decreases i,
{
    if i == 0 {
        Seq::empty()
    } else {
        let k = (i - 1) as nat;
        with_commas(digits, k) + (if k != 0 && (digits.len() - k) % 3 == 0 {
            seq![',']
        } else {
            Seq::empty()
        }) + seq![digits[k as int]]
    }
}

/// `value` in decimal with thousands separators, e.g. `-1,234,567`.
pub open spec fn grouped_text(value: int) -> Seq<char> {
    let digits = decimal(if value < 0 {
        (-value) as nat
    } else {
        value as nat
    });
    (if value < 0 {
        seq!['-']
    } else {
        Seq::empty()
    }) + with_commas(digits, digits.len())
}

/// Format an integer with thousands separators.
pub fn grouped(value: i64) -> (text: String)
    ensures
        text@ == grouped_text(value as int),
{
    let mut digits = String::new();
    push_decimal(&mut digits, unsigned_abs(value));
    let ghost d = digits@;
    let mut result = String::new();
    if value < 0 {
        result.append("-");
        proof {
            reveal_strlit("-");
        }
    }
    let ghost start = result@;
    let len = digits.as_str().unicode_len();
    let mut index: usize = 0;
    while index < len
        invariant
            d == digits@,
            len == d.len(),
            index <= len,
            result@ == start + with_commas(d, index as nat),
        decreases len - index,
    {
        if index != 0 && (len - index) % 3 == 0 {
            result.append(",");
            proof {
                reveal_strlit(",");
            }
        }
        let digit = digits.as_str().substring_char(index, index + 1);
        result.append(digit);
        proof {
            assert(digit@ =~= seq![d[index as int]]);
            assert(start + with_commas(d, (index + 1) as nat) =~= start + with_commas(
                d,
                index as nat,
            ) + (if index != 0 && (d.len() - index) % 3 == 0 {
                seq![',']
            } else {
                Seq::empty()
            }) + seq![d[index as int]]);
        }
        index = index + 1;
    }
    result
}

/// `count` followed by `singular`, with an `s` unless the count is one.
pub open spec fn quantity_text(count: int, singular: Seq<char>) -> Seq<char> {
    grouped_text(count) + seq![' '] + singular + (if count == 1 {
        Seq::empty()
    } else {
        seq!['s']
    })
}

/// `s` without its commas.
pub open spec fn strip_commas(s: Seq<char>) -> Seq<char>
    decreases s.len(),
{
    if s.len() == 0 {
        s
    } else if s.last() == ',' {
        strip_commas(s.drop_last())
    } else {
        strip_commas(s.drop_last()).push(s.last())
    }
}

/// Removing commas distributes over concatenation.
proof fn lemma_strip_commas_append(a: Seq<char>, b: Seq<char>)
    ensures
        strip_commas(a + b) == strip_commas(a) + strip_commas(b),
    decreases b.len(),
{
    if b.len() == 0 {
        assert(a + b =~= a);
        assert(strip_commas(a) + strip_commas(b) =~= strip_commas(a));
    } else {
        lemma_strip_commas_append(a, b.drop_last());
        assert((a + b).drop_last() =~= a + b.drop_last());
        assert((a + b).last() == b.last());
        if b.last() != ',' {
            assert(strip_commas(a) + strip_commas(b.drop_last()).push(b.last()) =~= (strip_commas(a)
                + strip_commas(b.drop_last())).push(b.last()));
        }
    }
}

/// Decimal digits hold no comma.
proof fn lemma_decimal_has_no_comma(n: nat)
    ensures
        forall|k: int| 0 <= k < decimal(n).len() ==> #[trigger] decimal(n)[k] != ',',
        decimal(n).len() >= 1,
    decreases n,
{
    if n >= 10 {
        lemma_decimal_has_no_comma(n / 10);
        let d = decimal(n / 10);
        assert forall|k: int| 0 <= k < decimal(n).len() implies #[trigger] decimal(n)[k] != ',' by {
            if k < d.len() {
                assert(decimal(n)[k] == d[k]);
            }
        }
    }
}

/// Inserting the separators and removing them gives the digits back.
proof fn lemma_with_commas_strip(digits: Seq<char>, i: nat)
    requires
        i <= digits.len(),
        forall|k: int| 0 <= k < digits.len() ==> #[trigger] digits[k] != ',',
    ensures
        strip_commas(with_commas(digits, i)) == digits.take(i as int),
    decreases i,
{
    if i > 0 {
        let k = (i - 1) as nat;
        lemma_with_commas_strip(digits, k);
        let sep = if k != 0 && (digits.len() - k) % 3 == 0 {
            seq![',']
        } else {
            Seq::<char>::empty()
        };
        lemma_strip_commas_append(with_commas(digits, k), sep);
        lemma_strip_commas_append(with_commas(digits, k) + sep, seq![digits[k as int]]);
        assert(strip_commas(sep) =~= Seq::<char>::empty()) by {
            reveal_with_fuel(strip_commas, 2);
            if sep.len() == 1 {
                assert(sep.drop_last() =~= Seq::<char>::empty());
            }
        }
        assert(strip_commas(seq![digits[k as int]]) =~= seq![digits[k as int]]) by {
            reveal_with_fuel(strip_commas, 2);
            assert(digits[k as int] != ',');
            assert(seq![digits[k as int]].drop_last() =~= Seq::<char>::empty());
        }
        assert(digits.take(k as int) + seq![digits[k as int]] =~= digits.take(i as int));
    }
}

/// Grouping a number with commas changes nothing but the commas: without
/// them, the text is the number in plain decimal.
pub proof fn law_grouped_is_decimal(value: int)
    ensures
        strip_commas(grouped_text(value)) == signed_decimal(value),
{
    let n = if value < 0 {
        (-value) as nat
    } else {
        value as nat
    };
    let digits = decimal(n);
    lemma_decimal_has_no_comma(n);
    lemma_with_commas_strip(digits, digits.len());
    assert(digits.take(digits.len() as int) =~= digits);
    let sign = if value < 0 {
        seq!['-']
    } else {
        Seq::<char>::empty()
    };
    lemma_strip_commas_append(sign, with_commas(digits, digits.len()));
    if value < 0 {
        assert(strip_commas(sign) =~= sign) by {
            reveal_with_fuel(strip_commas, 2);
            assert(sign.drop_last() =~= Seq::<char>::empty());
        }
    } else {
        assert(strip_commas(sign) =~= sign);
        assert(sign + digits =~= digits);
    }
}

/// Format a count with a singular or plural label.
pub fn quantity(count: i64, singular: &str) -> (text: String)
    ensures
        text@ == quantity_text(count as int, singular@),
{
    let mut text = grouped(count);
    text.append(" ");
    text.append(singular);
    if count != 1 {
        text.append("s");
    }
    proof {
        reveal_strlit(" ");
        reveal_strlit("s");
    }
    text
}

} // verus!
