//! Parcel areas, given in square metres or as hectares, ares and square
//! metres, with their canonical total and its grouped digit rendering.
use vstd::prelude::*;

verus! {

/// A present component, or 0 for an absent one.
pub open spec fn or_zero(x: Option<u64>) -> nat {
    match x {
        Some(v) => v as nat,
        None => 0,
    }
}

/// The decimal digit of `d`, for `d < 10`.
pub open spec fn digit(d: nat) -> char {
    if d == 0 {
        '0'
    } else if d == 1 {
        '1'
    } else if d == 2 {
        '2'
    } else if d == 3 {
        '3'
    } else if d == 4 {
        '4'
    } else if d == 5 {
        '5'
    } else if d == 6 {
        '6'
    } else if d == 7 {
        '7'
    } else if d == 8 {
        '8'
    } else {
        '9'
    }
}

/// The decimal digits of `n`, most significant first, without leading zeros
/// ("0" for zero).
pub open spec fn decimal(n: nat) -> Seq<char>
    decreases n,
{
    if n < 10 {
        seq![digit(n)]
    } else {
        decimal(n / 10).push(digit(n % 10))
    }
}

/// All digits but the last four (the hectares).
pub open spec fn hectare_digits(d: Seq<char>) -> Seq<char> {
    if d.len() > 4 {
        d.subrange(0, d.len() - 4)
    } else {
        Seq::empty()
    }
}

/// The two digits before the last two (the ares), or fewer where the number
/// is shorter.
pub open spec fn are_digits(d: Seq<char>) -> Seq<char> {
    let lo: int = if d.len() > 4 {
        d.len() - 4
    } else {
        0
    };
    let hi: int = if d.len() > 2 {
        d.len() - 2
    } else {
        0
    };
    d.subrange(lo, hi)
}

/// The last two digits (the square metres), or "0" where none are left.
pub open spec fn square_meter_digits(d: Seq<char>) -> Seq<char> {
    let lo: int = if d.len() > 2 {
        d.len() - 2
    } else {
        0
    };
    if d.len() - lo == 0 {
        seq!['0']
    } else {
        d.subrange(lo, d.len() as int)
    }
}

/// A number has at least one digit.
pub proof fn lemma_decimal_nonempty(n: nat)
    ensures
        decimal(n).len() >= 1,
    decreases n,
{
    if n >= 10 {
        lemma_decimal_nonempty(n / 10);
    }
}

/// The hectares, ares and square-metres displays, put side by side, give
/// back the digits of the total.
pub proof fn lemma_groups_rebuild_digits(n: nat)
    ensures
        hectare_digits(decimal(n)) + are_digits(decimal(n)) + square_meter_digits(decimal(n))
            == decimal(n),
{
    lemma_decimal_nonempty(n);
    let d = decimal(n);
    assert(hectare_digits(d) + are_digits(d) + square_meter_digits(d) =~= d);
}

/// The one-character string of the digit `d`.
fn digit_str(d: u64) -> (r: &'static str)
    requires
        d < 10,
    ensures
        r@ == seq![digit(d as nat)],
{
    proof {
        reveal_strlit("0");
        reveal_strlit("1");
        reveal_strlit("2");
        reveal_strlit("3");
        reveal_strlit("4");
        reveal_strlit("5");
        reveal_strlit("6");
        reveal_strlit("7");
        reveal_strlit("8");
        reveal_strlit("9");
    }
    if d == 0 {
        assert("0"@ =~= seq!['0']);
        "0"
    } else if d == 1 {
        assert("1"@ =~= seq!['1']);
        "1"
    } else if d == 2 {
        assert("2"@ =~= seq!['2']);
        "2"
    } else if d == 3 {
        assert("3"@ =~= seq!['3']);
        "3"
    } else if d == 4 {
        assert("4"@ =~= seq!['4']);
        "4"
    } else if d == 5 {
        assert("5"@ =~= seq!['5']);
        "5"
    } else if d == 6 {
        assert("6"@ =~= seq!['6']);
        "6"
    } else if d == 7 {
        assert("7"@ =~= seq!['7']);
        "7"
    } else if d == 8 {
        assert("8"@ =~= seq!['8']);
        "8"
    } else {
        assert("9"@ =~= seq!['9']);
        "9"
    }
}

/// The decimal digits of `n` as a string.
pub fn decimal_string(n: u64) -> (r: String)
    ensures
        r@ == decimal(n as nat),
    decreases n,
{
    if n < 10 {
        String::from_str(digit_str(n))
    } else {
        let mut s = decimal_string(n / 10);
        s.append(digit_str(n % 10));
        s
    }
}

/// Size of a parcel: plain square metres, or hectares, ares and square
/// metres, each component optional.
#[derive(Debug, Clone, PartialEq, Eq, Structural, PartialOrd, Ord, Hash)]
pub enum FlurstueckGroesse {
    Metrisch { m2: Option<u64> },
    Hektar { ha: Option<u64>, a: Option<u64>, m2: Option<u64> },
}

impl FlurstueckGroesse {
    /// No component is present.
    pub open spec fn is_empty_spec(&self) -> bool {
        match self {
            FlurstueckGroesse::Metrisch { m2 } => m2 is None,
            FlurstueckGroesse::Hektar { ha, a, m2 } => m2 is None && ha is None && a is None,
        }
    }

    /// The total in square metres: `ha * 100000 + a * 100 + m2`, absent
    /// components counting as 0.
    pub open spec fn total(&self) -> nat {
        match self {
            FlurstueckGroesse::Metrisch { m2 } => or_zero(*m2),
            FlurstueckGroesse::Hektar { ha, a, m2 } => or_zero(*ha) * 100000 + or_zero(*a) * 100
                + or_zero(*m2),
        }
    }

    pub fn ist_leer(&self) -> (r: bool)
        ensures
            r == self.is_empty_spec(),
    {
        match self {
            FlurstueckGroesse::Metrisch { m2 } => m2.is_none(),
            FlurstueckGroesse::Hektar { ha, a, m2 } => m2.is_none() && ha.is_none() && a.is_none(),
        }
    }

    pub fn get_m2(&self) -> (r: u64)
        requires
            self.total() <= u64::MAX,
        ensures
            r == self.total(),
    {
        match self {
            FlurstueckGroesse::Metrisch { m2 } => match m2 {
                Some(v) => *v,
                None => 0,
            },
            FlurstueckGroesse::Hektar { ha, a, m2 } => {
                let h: u64 = match ha {
                    Some(v) => *v,
                    None => 0,
                };
                let r: u64 = match a {
                    Some(v) => *v,
                    None => 0,
                };
                let q: u64 = match m2 {
                    Some(v) => *v,
                    None => 0,
                };
                h * 100000 + r * 100 + q
            },
        }
    }

    /// The hectares display: all digits of the total but the last four.
    pub fn get_ha_string(&self) -> (r: String)
        requires
            self.total() <= u64::MAX,
        ensures
            r@ == hectare_digits(decimal(self.total())),
    {
        let d = decimal_string(self.get_m2());
        let n: usize = d.as_str().unicode_len();
        let hi: usize = if n > 4 {
            n - 4
        } else {
            0
        };
        let r = String::from_str(d.as_str().substring_char(0, hi));
        proof {
            if n <= 4 {
                assert(r@ =~= Seq::<char>::empty());
            }
        }
        r
    }

    /// The ares display: the two digits before the last two.
    pub fn get_a_string(&self) -> (r: String)
        requires
            self.total() <= u64::MAX,
        ensures
            r@ == are_digits(decimal(self.total())),
    {
        let d = decimal_string(self.get_m2());
        let n: usize = d.as_str().unicode_len();
        let lo: usize = if n > 4 {
            n - 4
        } else {
            0
        };
        let hi: usize = if n > 2 {
            n - 2
        } else {
            0
        };
        String::from_str(d.as_str().substring_char(lo, hi))
    }

    /// The square-metres display: the last two digits, or "0".
    pub fn get_m2_string(&self) -> (r: String)
        requires
            self.total() <= u64::MAX,
        ensures
            r@ == square_meter_digits(decimal(self.total())),
    {
        let d = decimal_string(self.get_m2());
        let n: usize = d.as_str().unicode_len();
        let lo: usize = if n > 2 {
            n - 2
        } else {
            0
        };
        if n - lo == 0 {
            proof {
                reveal_strlit("0");
                assert("0"@ =~= seq!['0']);
            }
            String::from_str("0")
        } else {
            String::from_str(d.as_str().substring_char(lo, n))
        }
    }
}

impl Default for FlurstueckGroesse {
    /// No square metres given.
    fn default() -> (r: Self)
        ensures
            r == (FlurstueckGroesse::Metrisch { m2: None }),
    {
        FlurstueckGroesse::Metrisch { m2: None }
    }
}

} // verus!
