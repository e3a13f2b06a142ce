//! Decimal text for the integers that a spawned worker receives in its
//! environment: its signature hash and its two channel handles.
use vstd::prelude::*;

verus! {

/// `c` is an ASCII decimal digit.
pub open spec fn is_digit(c: u8) -> bool {
    48 <= c <= 57
}

/// Every byte of `s` is a decimal digit.
pub open spec fn all_digits(s: Seq<u8>) -> bool {
    forall|i: int| 0 <= i < s.len() ==> is_digit(#[trigger] s[i])
}

/// The number that the decimal digits `s` spell, most significant first.
pub open spec fn decimal_value(s: Seq<u8>) -> nat
    decreases s.len(),
{
    if s.len() == 0 {
        0
    } else {
        decimal_value(s.drop_last()) * 10 + (s.last() - 48) as nat
    }
}

/// The shortest decimal text of `v`.
pub open spec fn decimal_text(v: nat) -> Seq<u8>
    decreases v,
{
    if v < 10 {
        seq![(v + 48) as u8]
    } else {
        decimal_text(v / 10).push((v % 10 + 48) as u8)
    }
}

/// The value that `s` denotes as decimal text of a `u64`, if any.
pub open spec fn parsed_decimal(s: Seq<u8>) -> Option<u64> {
    if s.len() > 0 && all_digits(s) && decimal_value(s) <= u64::MAX {
        Some(decimal_value(s) as u64)
    } else {
        None
    }
}

proof fn lemma_value_grows(s: Seq<u8>, c: u8)
    requires
        is_digit(c),
    ensures
        decimal_value(s.push(c)) == decimal_value(s) * 10 + (c - 48) as nat,
        decimal_value(s.push(c)) >= decimal_value(s),
{
    assert(s.push(c).drop_last() =~= s);
}

proof fn lemma_value_prefix_bound(s: Seq<u8>, i: int)
    requires
        0 <= i <= s.len(),
        all_digits(s),
    ensures
        decimal_value(s.take(i)) <= decimal_value(s),
    decreases s.len() - i,
{
    if i < s.len() {
        lemma_value_prefix_bound(s, i + 1);
        assert(s.take(i + 1) =~= s.take(i).push(s[i]));
        lemma_value_grows(s.take(i), s[i]);
    } else {
        assert(s.take(i) =~= s);
    }
}

/// Reads decimal text of a `u64`: at least one digit, digits only, and a
/// value that fits.
pub fn parse_decimal(s: &[u8]) -> (r: Option<u64>)
    ensures
        r == parsed_decimal(s@),
{
    if s.len() == 0 {
        return None;
    }
    let mut v: u64 = 0;
    let mut i: usize = 0;
    while i < s.len()
        invariant
            0 <= i <= s@.len(),
            s@.len() > 0,
            all_digits(s@.take(i as int)),
            v as nat == decimal_value(s@.take(i as int)),
        decreases s@.len() - i,
    {
        let c = s[i];
        assert(s@.take(i as int + 1) =~= s@.take(i as int).push(c));
        if c < 48 || c > 57 {
            assert(!all_digits(s@)) by {
                assert(!is_digit(s@[i as int]));
            }
            return None;
        }
        proof {
            lemma_value_grows(s@.take(i as int), c);
        }
        match v.checked_mul(10) {
            None => {
                proof {
                    assert(!all_digits(s@) || decimal_value(s@) > u64::MAX) by {
                        if all_digits(s@) {
                            lemma_value_prefix_bound(s@, i as int + 1);
                        }
                    }
                }
                return None;
            },
            Some(m) => match m.checked_add((c - 48) as u64) {
                None => {
                    proof {
                        assert(!all_digits(s@) || decimal_value(s@) > u64::MAX) by {
                            if all_digits(s@) {
                                lemma_value_prefix_bound(s@, i as int + 1);
                            }
                        }
                    }
                    return None;
                },
                Some(n) => {
                    v = n;
                },
            },
        }
        i = i + 1;
    }
    assert(s@.take(s@.len() as int) =~= s@);
    Some(v)
}

/// Writes the shortest decimal text of `v`.
pub fn format_decimal(v: u64) -> (r: Vec<u8>)
    ensures
        r@ == decimal_text(v as nat),
    decreases v,
{
    if v < 10 {
        let mut r: Vec<u8> = Vec::new();
        r.push((v + 48) as u8);
        assert(r@ =~= decimal_text(v as nat));
        r
    } else {
        let mut r = format_decimal(v / 10);
        r.push((v % 10 + 48) as u8);
        r
    }
}

/// Decimal text is never empty and holds digits only, and reading it gives
/// the number back.
pub proof fn lemma_decimal_round_trip(v: nat)
    ensures
        decimal_text(v).len() > 0,
        all_digits(decimal_text(v)),
        decimal_value(decimal_text(v)) == v,
    decreases v,
{
    if v >= 10 {
        lemma_decimal_round_trip(v / 10);
        let t = decimal_text(v / 10);
        let c = (v % 10 + 48) as u8;
        assert(t.push(c).drop_last() =~= t);
        assert(t.push(c).last() == c);
        assert((c - 48) as nat == v % 10);
        assert(v == (v / 10) * 10 + v % 10) by (nonlinear_arith);
        assert(decimal_text(v) == t.push(c));
        assert(decimal_value(t.push(c)) == decimal_value(t) * 10 + (c - 48) as nat);
        assert(decimal_value(t) * 10 == (v / 10) * 10);
        assert forall|i: int| 0 <= i < t.push(c).len() implies is_digit(#[trigger] t.push(c)[i]) by {
            if i < t.len() {
                assert(t.push(c)[i] == t[i]);
            }
        }
    } else {
        assert(decimal_text(v).drop_last() =~= Seq::<u8>::empty());
        assert(decimal_value(decimal_text(v)) == decimal_value(Seq::<u8>::empty()) * 10 + v);
    }
}

/// Parsing the decimal text of a `u64` gives it back.
pub proof fn lemma_parse_format(v: u64)
    ensures
        parsed_decimal(decimal_text(v as nat)) == Some(v),
{
    lemma_decimal_round_trip(v as nat);
}

} // verus!
