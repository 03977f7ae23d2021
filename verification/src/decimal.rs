//! Fixed-point representation of the non-negative numeric fields that
//! exchanges report as strings (balances, quantities, prices), together with
//! a verified parser for those strings.
use vstd::prelude::*;
use vstd::arithmetic::mul::lemma_mul_inequality;
use vstd::arithmetic::mul::lemma_mul_is_distributive_sub_other_way;

verus! {

/// Number of fractional digits a [`Decimal`] keeps.
pub const DECIMAL_SCALE: u32 = 8;

/// Units per whole one: ten to the `DECIMAL_SCALE`.
pub const DECIMAL_UNIT: u64 = 100_000_000;

/// A non-negative fixed-point amount. `units` counts multiples of
/// 10^-8, so `Decimal { units: 150_000_000 }` denotes 1.5.
#[derive(Debug, Clone, Copy, PartialEq, Eq, Structural)]
pub struct Decimal {
    pub units: u64,
}

impl View for Decimal {
    type V = nat;

    open spec fn view(&self) -> nat {
        self.units as nat
    }
}

impl DeepView for Decimal {
    type V = nat;

    open spec fn deep_view(&self) -> nat {
        self.units as nat
    }
}

pub open spec fn pow10(n: nat) -> nat
    decreases n,
{
    if n == 0 {
        1
    } else {
        10 * pow10((n - 1) as nat)
    }
}

pub open spec fn is_digit(c: char) -> bool {
    48 <= c as int <= 57
}

pub open spec fn digit_val(c: char) -> nat {
    (c as int - 48) as nat
}

pub open spec fn is_digits(s: Seq<char>) -> bool {
    s.len() > 0 && forall|i: int| 0 <= i < s.len() ==> is_digit(#[trigger] s[i])
}

/// Value of a digit string read left to right.
pub open spec fn digits_val(s: Seq<char>) -> nat
    decreases s.len(),
{
    if s.len() == 0 {
        0
    } else {
        digits_val(s.drop_last()) * 10 + digit_val(s.last())
    }
}

/// Index of the first `'.'` at or after position `i`, if any.
pub open spec fn find_dot(s: Seq<char>, i: int) -> Option<int>
    decreases s.len() - i,
{
    if i < 0 || i >= s.len() {
        None
    } else if s[i] == '.' {
        Some(i)
    } else {
        find_dot(s, i + 1)
    }
}

/// The value, in 10^-8 units, denoted by a decimal string of the form
/// `digits` or `digits '.' digits` with at most `DECIMAL_SCALE` fractional
/// digits; `None` if the string is not of that form.
pub open spec fn spec_parse_decimal(s: Seq<char>) -> Option<nat> {
    match find_dot(s, 0) {
        None => if is_digits(s) {
            Some(digits_val(s) * (DECIMAL_UNIT as nat))
        } else {
            None
        },
        Some(d) => {
            let ip = s.subrange(0, d);
            let fp = s.subrange(d + 1, s.len() as int);
            if is_digits(ip) && is_digits(fp) && fp.len() <= DECIMAL_SCALE {
                Some(
                    digits_val(ip) * (DECIMAL_UNIT as nat) + digits_val(fp) * pow10(
                        (DECIMAL_SCALE - fp.len()) as nat,
                    ),
                )
            } else {
                None
            }
        },
    }
}

pub proof fn lemma_pow10_pos(n: nat)
    ensures
        pow10(n) >= 1,
    decreases n,
{
    if n > 0 {
        lemma_pow10_pos((n - 1) as nat);
    }
}

pub proof fn lemma_pow10_mono(i: nat, j: nat)
    requires
        i <= j,
    ensures
        pow10(i) <= pow10(j),
    decreases j,
{
    if i < j {
        lemma_pow10_mono(i, (j - 1) as nat);
        lemma_pow10_pos((j - 1) as nat);
    }
}

pub proof fn lemma_pow10_add(a: nat, b: nat)
    ensures
        pow10(a + b) == pow10(a) * pow10(b),
    decreases a,
{
    if a == 0 {
        assert(pow10(0 + b) == 1 * pow10(b));
    } else {
        lemma_pow10_add((a - 1) as nat, b);
        assert(pow10(a + b) == 10 * pow10((a + b - 1) as nat));
        assert(pow10((a - 1) as nat + b) == pow10((a - 1) as nat) * pow10(b));
        assert(10 * (pow10((a - 1) as nat) * pow10(b)) == (10 * pow10((a - 1) as nat)) * pow10(b))
            by (nonlinear_arith);
    }
}

/// A string of `n` digits denotes a value below ten to the `n`.
pub proof fn lemma_digits_val_bound(s: Seq<char>)
    requires
        forall|i: int| 0 <= i < s.len() ==> is_digit(#[trigger] s[i]),
    ensures
        digits_val(s) < pow10(s.len()),
    decreases s.len(),
{
    if s.len() > 0 {
        assert(forall|i: int|
            0 <= i < s.drop_last().len() ==> is_digit(#[trigger] s.drop_last()[i]));
        lemma_digits_val_bound(s.drop_last());
        assert(digit_val(s.last()) <= 9);
        assert(digits_val(s.drop_last()) <= pow10((s.len() - 1) as nat) - 1);
        assert(digits_val(s.drop_last()) * 10 <= (pow10((s.len() - 1) as nat) - 1) * 10) by {
            lemma_mul_inequality(
                digits_val(s.drop_last()) as int,
                pow10((s.len() - 1) as nat) - 1,
                10,
            );
        }
        assert((pow10((s.len() - 1) as nat) - 1) * 10 == pow10((s.len() - 1) as nat) * 10 - 10) by {
            lemma_mul_is_distributive_sub_other_way(
                10,
                pow10((s.len() - 1) as nat) as int,
                1,
            );
        }
        assert(pow10(s.len()) == 10 * pow10((s.len() - 1) as nat));
    }
}

/// Reading more digits never decreases the value.
pub proof fn lemma_digits_val_mono(s: Seq<char>, a: int, i: int, j: int)
    requires
        0 <= a <= i <= j <= s.len(),
    ensures
        digits_val(s.subrange(a, i)) <= digits_val(s.subrange(a, j)),
    decreases j - i,
{
    if i < j {
        lemma_digits_val_mono(s, a, i, j - 1);
        assert(s.subrange(a, j).drop_last() =~= s.subrange(a, j - 1));
        assert(digits_val(s.subrange(a, j)) == digits_val(s.subrange(a, j - 1)) * 10 + digit_val(
            s.subrange(a, j).last(),
        ));
        assert(digits_val(s.subrange(a, j - 1)) * 10 >= digits_val(s.subrange(a, j - 1)));
    }
}

proof fn lemma_find_dot_skip(s: Seq<char>, a: int, b: int)
    requires
        0 <= a <= b <= s.len(),
        forall|k: int| a <= k < b ==> s[k] != '.',
    ensures
        find_dot(s, a) == find_dot(s, b),
    decreases b - a,
{
    if a < b {
        lemma_find_dot_skip(s, a + 1, b);
    }
}

/// Position of the first `'.'` in `s`, if any.
fn find_dot_exec(s: &str) -> (r: Option<usize>)
    ensures
        match r {
            Some(i) => find_dot(s@, 0) == Some(i as int) && i < s@.len(),
            None => find_dot(s@, 0) is None,
        },
{
    let n = s.unicode_len();
    let mut i: usize = 0;
    while i < n
        invariant
            0 <= i <= n,
            n == s@.len(),
            forall|k: int| 0 <= k < i ==> s@[k] != '.',
        decreases n - i,
    {
        if s.get_char(i) == '.' {
            proof {
                lemma_find_dot_skip(s@, 0, i as int);
            }
            return Some(i);
        }
        i = i + 1;
    }
    proof {
        lemma_find_dot_skip(s@, 0, n as int);
    }
    None
}

fn pow10_exec(e: u32) -> (r: u64)
    requires
        e <= 8,
    ensures
        r as nat == pow10(e as nat),
{
    let mut r: u64 = 1;
    let mut i: u32 = 0;
    while i < e
        invariant
            0 <= i <= e <= 8,
            r as nat == pow10(i as nat),
        decreases e - i,
    {
        proof {
            lemma_pow10_mono(i as nat, 7);
            assert(pow10(7) == 10_000_000) by {
                reveal_with_fuel(pow10, 8);
            }
        }
        r = r * 10;
        i = i + 1;
    }
    r
}

/// Parse the digit run `s[from..to]`; `None` when the range is empty, holds a
/// non-digit, or denotes a value that does not fit in `u64`.
fn parse_digits(s: &str, from: usize, to: usize) -> (r: Option<u64>)
    requires
        from <= to,
        to <= s@.len(),
    ensures
        (r is Some) <==> (is_digits(s@.subrange(from as int, to as int)) && digits_val(
            s@.subrange(from as int, to as int),
        ) <= u64::MAX),
        r matches Some(v) ==> v as nat == digits_val(s@.subrange(from as int, to as int)),
{
    if from == to {
        return None;
    }
    let mut acc: u64 = 0;
    let mut i: usize = from;
    while i < to
        invariant
            from <= i <= to,
            to <= s@.len(),
            acc as nat == digits_val(s@.subrange(from as int, i as int)),
            forall|k: int| from <= k < i ==> is_digit(#[trigger] s@[k]),
        decreases to - i,
    {
        let c = s.get_char(i);
        let cu = c as u32;
        proof {
            assert(s@.subrange(from as int, to as int)[i - from] == s@[i as int]);
        }
        if cu < 48 || cu > 57 {
            return None;
        }
        let d = (cu - 48) as u64;
        proof {
            assert(s@.subrange(from as int, i + 1).drop_last() =~= s@.subrange(
                from as int,
                i as int,
            ));
            assert(s@.subrange(from as int, i + 1).last() == s@[i as int]);
            assert(digits_val(s@.subrange(from as int, i + 1)) == (acc as nat) * 10 + digit_val(
                s@[i as int],
            ));
        }
        let stepped = match acc.checked_mul(10) {
            Some(m) => m.checked_add(d),
            None => None,
        };
        match stepped {
            Some(n) => {
                acc = n;
            },
            None => {
                proof {
                    lemma_digits_val_mono(s@, from as int, i + 1, to as int);
                }
                return None;
            },
        }
        i = i + 1;
    }
    proof {
        assert(s@.subrange(from as int, i as int) =~= s@.subrange(from as int, to as int));
        assert(forall|k: int|
            0 <= k < s@.subrange(from as int, to as int).len() ==> is_digit(
                #[trigger] s@.subrange(from as int, to as int)[k],
            ));
    }
    Some(acc)
}

impl Decimal {
    /// The amount counting `units` multiples of 10^-8.
    pub fn from_units(units: u64) -> (r: Decimal)
        ensures
            r@ == units as nat,
    {
        Decimal { units }
    }

    /// Parse a decimal string such as `"1.5"` or `"0"`; `None` when the
    /// string is malformed, keeps more than `DECIMAL_SCALE` fractional
    /// digits, or denotes an amount too large to represent.
    pub fn parse(s: &str) -> (r: Option<Decimal>)
        ensures
            (r is Some) <==> (spec_parse_decimal(s@) matches Some(v) && v <= u64::MAX),
            r matches Some(d) ==> spec_parse_decimal(s@) == Some(d.units as nat),
    {
        let n = s.unicode_len();
        let dot = find_dot_exec(s);
        if dot.is_none() {
            // no dot: the whole string is the integer part
            proof {
                assert(s@.subrange(0, n as int) =~= s@);
            }
            match parse_digits(s, 0, n) {
                None => {
                    proof {
                        if is_digits(s@) {
                            // the digits alone overflow, so the scaled value does too
                            lemma_mul_inequality(1, DECIMAL_UNIT as int, digits_val(s@) as int);
                        }
                    }
                    None
                },
                Some(ip) => {
                    match ip.checked_mul(DECIMAL_UNIT) {
                        None => None,
                        Some(u) => Some(Decimal { units: u }),
                    }
                },
            }
        } else {
            let i = dot.unwrap();
            let ghost ipg = s@.subrange(0, i as int);
            let ghost fpg = s@.subrange(i + 1, n as int);
            let fplen = n - (i + 1);
            if fplen > 8 {
                return None;
            }
            let ip = match parse_digits(s, 0, i) {
                None => {
                    proof {
                        if is_digits(ipg) {
                            lemma_mul_inequality(1, DECIMAL_UNIT as int, digits_val(ipg) as int);
                            lemma_pow10_pos((DECIMAL_SCALE - fpg.len()) as nat);
                        }
                    }
                    return None;
                },
                Some(v) => v,
            };
            let fp = match parse_digits(s, i + 1, n) {
                None => {
                    proof {
                        if is_digits(fpg) {
                            // the fractional digits fit in far fewer than 20 digits
                            lemma_digits_val_bound(fpg);
                            lemma_pow10_mono(fpg.len(), 8);
                            assert(pow10(8) == 100_000_000) by {
                                reveal_with_fuel(pow10, 9);
                            }
                        }
                    }
                    return None;
                },
                Some(v) => v,
            };
            proof {
                lemma_digits_val_bound(fpg);
                lemma_pow10_add(fpg.len(), (DECIMAL_SCALE - fpg.len()) as nat);
                assert(pow10(8) == 100_000_000) by {
                    reveal_with_fuel(pow10, 9);
                }
                lemma_mul_inequality(
                    digits_val(fpg) as int,
                    pow10(fpg.len()) - 1,
                    pow10((DECIMAL_SCALE - fpg.len()) as nat) as int,
                );
                lemma_mul_is_distributive_sub_other_way(
                    pow10((DECIMAL_SCALE - fpg.len()) as nat) as int,
                    pow10(fpg.len()) as int,
                    1,
                );
                lemma_pow10_pos((DECIMAL_SCALE - fpg.len()) as nat);
            }
            let mult = pow10_exec(8 - fplen as u32);
            let fp_units = fp * mult;
            assert(fp_units < DECIMAL_UNIT);
            match ip.checked_mul(DECIMAL_UNIT) {
                None => {
                    proof {
                        lemma_mul_inequality(1, 1, (digits_val(fpg) * pow10(
                            (DECIMAL_SCALE - fpg.len()) as nat,
                        )) as int);
                    }
                    None
                },
                Some(hi) => {
                    match hi.checked_add(fp_units) {
                        None => None,
                        Some(u) => Some(Decimal { units: u }),
                    }
                },
            }
        }
    }

    /// The sum of two amounts, or `None` when it cannot be represented.
    pub fn checked_add(self, other: Decimal) -> (r: Option<Decimal>)
        ensures
            (r is Some) <==> self@ + other@ <= u64::MAX,
            r matches Some(d) ==> d@ == self@ + other@,
    {
        match self.units.checked_add(other.units) {
            Some(u) => Some(Decimal { units: u }),
            None => None,
        }
    }

    /// Whether the amount is strictly greater than zero.
    pub fn is_positive(&self) -> (r: bool)
        ensures
            r == (self@ > 0),
    {
        self.units > 0
    }

    /// Whether `self` is at least `other`.
    pub fn ge(&self, other: &Decimal) -> (r: bool)
        ensures
            r == (self@ >= other@),
    {
        self.units >= other.units
    }
}

} // verus!
