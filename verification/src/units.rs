//! Traffic totals as text: a count of kilobytes shown in the largest unit that it reaches.

use crate::text::{decimal, digit_char, digit_str, push_numeral};
use vstd::prelude::*;

verus! {

/// The kilobytes in one MiB.
pub const MEBI: u64 = 1024;

/// The kilobytes in one GiB.
pub const GIBI: u64 = 1024 * 1024;

/// The units in which a total is shown, smallest first.
#[derive(Clone, Copy, Debug, PartialEq, Eq, Structural)]
pub enum Unit {
    Kibi,
    Mebi,
    Gibi,
}

impl Unit {
    /// How many kilobytes make one of this unit. A total is shown in a unit once it
    /// has reached one whole of it.
    pub open spec fn kilobytes(self) -> nat {
        match self {
            Unit::Kibi => 1,
            Unit::Mebi => MEBI as nat,
            Unit::Gibi => GIBI as nat,
        }
    }

    /// Whether a total of `kb` kilobytes may be shown in this unit: every total may be
    /// shown in kiB, and in a larger unit when it holds at least one of it.
    pub open spec fn applies_to(self, kb: nat) -> bool {
        self is Kibi || kb >= self.kilobytes()
    }

    /// Whether this is the largest unit in which a total of `kb` kilobytes may be
    /// shown.
    pub open spec fn is_largest_for(self, kb: nat) -> bool {
        &&& self.applies_to(kb)
        &&& forall|other: Unit| #[trigger]
            other.applies_to(kb) ==> other.kilobytes() <= self.kilobytes()
    }

    /// What follows the number: a blank and the unit's name.
    pub open spec fn suffix(self) -> Seq<char> {
        match self {
            Unit::Kibi => " kiB"@,
            Unit::Mebi => " MiB"@,
            Unit::Gibi => " GiB"@,
        }
    }

    /// The unit in which a total of `kb` kilobytes is shown.
    pub open spec fn of(kb: nat) -> Unit {
        if kb >= GIBI {
            Unit::Gibi
        } else if kb >= MEBI {
            Unit::Mebi
        } else {
            Unit::Kibi
        }
    }

    /// Picks the unit for a total: the largest one that applies to it.
    pub fn for_total(kb: u64) -> (unit: Unit)
        ensures
            unit == Unit::of(kb as nat),
            unit.is_largest_for(kb as nat),
    {
        if kb >= GIBI {
            Unit::Gibi
        } else if kb >= MEBI {
            Unit::Mebi
        } else {
            Unit::Kibi
        }
    }

    /// How many kilobytes make one of this unit.
    pub fn size(self) -> (kb: u64)
        ensures
            kb == self.kilobytes(),
    {
        match self {
            Unit::Kibi => 1,
            Unit::Mebi => MEBI,
            Unit::Gibi => GIBI,
        }
    }

    /// What follows the number.
    pub fn label(self) -> (label: &'static str)
        ensures
            label@ == self.suffix(),
    {
        match self {
            Unit::Kibi => " kiB",
            Unit::Mebi => " MiB",
            Unit::Gibi => " GiB",
        }
    }
}

/// `num / den` rounded to the nearest whole number; a value exactly halfway between
/// two whole numbers goes to the even one.
pub open spec fn round_half_even(num: nat, den: nat) -> nat
    recommends
        den > 0,
{
    let floor = num / den;
    let rest = num % den;
    if 2 * rest > den || (2 * rest == den && floor % 2 == 1) {
        floor + 1
    } else {
        floor
    }
}

/// A total of `kb` kilobytes in hundredths of the given unit, rounded.
pub open spec fn hundredths(kb: nat, unit: Unit) -> nat {
    round_half_even(kb * 100, unit.kilobytes())
}

/// A number of hundredths written with two decimals: `150` is `1.50`.
pub open spec fn two_decimals(h: nat) -> Seq<char> {
    decimal(h / 100) + seq!['.', digit_char((h % 100 / 10) as int), digit_char((h % 10) as int)]
}

/// The number shown for a total in the given unit: a whole number of kiB, two
/// decimals of anything larger.
pub open spec fn magnitude(kb: nat, unit: Unit) -> Seq<char> {
    if unit is Kibi {
        decimal(kb)
    } else {
        two_decimals(hundredths(kb, unit))
    }
}

/// The text for a total of `kb` kilobytes: its magnitude in the unit picked for it,
/// then the unit.
pub open spec fn bytes_text(kb: nat) -> Seq<char> {
    magnitude(kb, Unit::of(kb)) + Unit::of(kb).suffix()
}

/// Whatever the total, it is shown in the largest unit that applies to it: GiB before
/// MiB before kiB.
pub proof fn lemma_largest_applicable_unit(kb: nat, unit: Unit)
    ensures
        Unit::of(kb).is_largest_for(kb),
        unit.is_largest_for(kb) <==> unit == Unit::of(kb),
{
    if unit.is_largest_for(kb) {
        assert(Unit::of(kb).applies_to(kb));
    }
}

/// Appends a total in hundredths of a unit, with two decimals.
fn push_two_decimals(out: &mut String, h: u128)
    ensures
        final(out)@ == old(out)@ + two_decimals(h as nat),
{
    let frac: u8 = (h % 100) as u8;
    push_numeral(out, h / 100, 10);
    out.append(".");
    out.append(digit_str(frac / 10));
    out.append(digit_str(frac % 10));
    proof {
        reveal_strlit(".");
    }
}

/// Renders a traffic total, given in kilobytes, for display: below one MiB as a
/// whole number of kiB, below one GiB in MiB and from there on in GiB, both with two
/// decimals. The decimals are those of the exact quotient, rounded to the nearest
/// hundredth and to the even one from halfway.
pub fn gen_bytes_str(kb: u64) -> (bytes_str: String)
    ensures
        bytes_str@ == bytes_text(kb as nat),
        forall|unit: Unit|
            unit.is_largest_for(kb as nat) ==> bytes_str@ == magnitude(kb as nat, unit)
                + unit.suffix(),
{
    let mut bytes_str = String::new();
    let unit = Unit::for_total(kb);
    match unit {
        Unit::Kibi => push_numeral(&mut bytes_str, kb as u128, 10),
        _ => push_two_decimals(&mut bytes_str, rounded_hundredths(kb, unit.size())),
    }
    bytes_str.append(unit.label());
    assert forall|other: Unit| other.is_largest_for(kb as nat) implies bytes_str@ == magnitude(
        kb as nat,
        other,
    ) + other.suffix() by {
        lemma_largest_applicable_unit(kb as nat, other);
    }
    bytes_str
}

/// A total in hundredths of a unit of `per_unit` kilobytes, rounded half to even.
fn rounded_hundredths(kb: u64, per_unit: u64) -> (h: u128)
    requires
        per_unit > 0,
    ensures
        h == round_half_even(kb as nat * 100, per_unit as nat),
{
    let scaled: u128 = kb as u128 * 100;
    let den: u128 = per_unit as u128;
    let floor: u128 = scaled / den;
    let rest: u128 = scaled % den;
    assert(floor <= scaled) by (nonlinear_arith)
        requires
            floor == scaled / den,
            den > 0,
    ;
    if 2 * rest > den || (2 * rest == den && floor % 2 == 1) {
        floor + 1
    } else {
        floor
    }
}

} // verus!
