//! The units of length that the tool offers, their exact lengths in metres,
//! and the exact factor that takes a value from one unit to another.

use vstd::prelude::*;
use vstd::std_specs::convert::{FromSpecImpl, TryFromSpecImpl};

verus! {

/// A unit of length. The order is the order of the entries of a unit selector.
#[derive(Copy, Clone, Debug, PartialEq, Eq, Structural)]
pub enum Unit {
    Meters,
    Centimeters,
    Feet,
    Inches,
}

/// An exact fraction of two machine integers.
#[derive(Copy, Clone, Debug, PartialEq, Eq, Structural)]
pub struct Fraction {
    pub numerator: u32,
    pub denominator: u32,
}

impl Fraction {
    /// Whether the fraction is a positive number: neither part is zero.
    pub open spec fn positive(self) -> bool {
        self.numerator > 0 && self.denominator > 0
    }

    /// Whether `self` and `other` are the same number, by cross multiplication.
    pub open spec fn same_number(self, other: Fraction) -> bool {
        self.numerator * other.denominator == other.numerator * self.denominator
    }

    /// Whether the product of `self` and `other` is one.
    pub open spec fn inverse_of(self, other: Fraction) -> bool {
        self.numerator * other.numerator == self.denominator * other.denominator
    }
}

impl Unit {
    /// The place of the unit in a unit selector, counted from zero.
    pub open spec fn index(self) -> int {
        match self {
            Unit::Meters => 0,
            Unit::Centimeters => 1,
            Unit::Feet => 2,
            Unit::Inches => 3,
        }
    }

    /// The unit at place `index` of a unit selector, if there is one.
    pub open spec fn at(index: int) -> Option<Unit> {
        if index == 0 {
            Some(Unit::Meters)
        } else if index == 1 {
            Some(Unit::Centimeters)
        } else if index == 2 {
            Some(Unit::Feet)
        } else if index == 3 {
            Some(Unit::Inches)
        } else {
            None
        }
    }

    /// The length of one unit in metres: a centimetre is 1/100 m, the
    /// international foot 0.3048 m = 381/1250 m, the inch 0.0254 m = 127/5000 m.
    pub open spec fn meters(self) -> Fraction {
        match self {
            Unit::Meters => (Fraction { numerator: 1, denominator: 1 }),
            Unit::Centimeters => (Fraction { numerator: 1, denominator: 100 }),
            Unit::Feet => (Fraction { numerator: 381, denominator: 1250 }),
            Unit::Inches => (Fraction { numerator: 127, denominator: 5000 }),
        }
    }

    /// The length of one unit in metres, in lowest terms.
    pub fn coefficient(self) -> (r: Fraction)
        ensures
            r == self.meters(),
            r.positive(),
    {
        match self {
            Unit::Meters => Fraction { numerator: 1, denominator: 1 },
            Unit::Centimeters => Fraction { numerator: 1, denominator: 100 },
            Unit::Feet => Fraction { numerator: 381, denominator: 1250 },
            Unit::Inches => Fraction { numerator: 127, denominator: 5000 },
        }
    }
}

impl std::convert::From<Unit> for i32 {
    fn from(val: Unit) -> (r: i32) {
        match val {
            Unit::Meters => 0,
            Unit::Centimeters => 1,
            Unit::Feet => 2,
            Unit::Inches => 3,
        }
    }
}

impl FromSpecImpl<Unit> for i32 {
    open spec fn obeys_from_spec() -> bool {
        true
    }

    open spec fn from_spec(val: Unit) -> i32 {
        val.index() as i32
    }
}

impl std::convert::TryFrom<i32> for Unit {
    type Error = ();

    fn try_from(value: i32) -> (r: Result<Unit, ()>) {
        let ok = match value {
            0 => Unit::Meters,
            1 => Unit::Centimeters,
            2 => Unit::Feet,
            3 => Unit::Inches,
            _ => return Err(()),
        };
        Ok(ok)
    }
}

impl TryFromSpecImpl<i32> for Unit {
    open spec fn obeys_try_from_spec() -> bool {
        true
    }

    open spec fn try_from_spec(value: i32) -> Result<Unit, ()> {
        match Unit::at(value as int) {
            Some(unit) => Ok(unit),
            None => Err(()),
        }
    }
}

/// The factor that takes a value in unit `a` to the same length in unit `b`:
/// the length of `a` divided by the length of `b`, the two fractions
/// multiplied crosswise and not reduced.
pub open spec fn rate(a: Unit, b: Unit) -> Fraction {
    Fraction {
        numerator: (a.meters().numerator * b.meters().denominator) as u32,
        denominator: (a.meters().denominator * b.meters().numerator) as u32,
    }
}

/// By what number a value in unit `a` is multiplied to give the same length
/// in unit `b`, as an exact fraction.
pub fn conversion_rate(a: Unit, b: Unit) -> (r: Fraction)
    ensures
        r == rate(a, b),
        r.numerator == a.meters().numerator * b.meters().denominator,
        r.denominator == a.meters().denominator * b.meters().numerator,
        r.positive(),
{
    let from = a.coefficient();
    let to = b.coefficient();
    proof {
        lemma_rate_parts(a, b);
    }
    Fraction {
        numerator: from.numerator * to.denominator,
        denominator: from.denominator * to.numerator,
    }
}

/// The factor for the number in a field whose unit selector went from
/// `previous` to `chosen`. A field that holds a length follows the unit. A
/// field that holds how much of something makes up one unit goes the other
/// way, which `invert` asks for.
pub fn selector_rate(previous: Unit, chosen: Unit, invert: bool) -> (r: Fraction)
    ensures
        !invert ==> r == rate(previous, chosen),
        invert ==> r == rate(chosen, previous),
        r.positive(),
{
    if !invert {
        conversion_rate(previous, chosen)
    } else {
        conversion_rate(chosen, previous)
    }
}

/// The two parts of a rate are the cross products themselves: neither is
/// too large to be stored.
pub proof fn lemma_rate_parts(a: Unit, b: Unit)
    ensures
        rate(a, b).numerator == a.meters().numerator * b.meters().denominator,
        rate(a, b).denominator == a.meters().denominator * b.meters().numerator,
        rate(a, b).positive(),
{
    let an = a.meters().numerator as int;
    let ad = a.meters().denominator as int;
    let bn = b.meters().numerator as int;
    let bd = b.meters().denominator as int;
    assert(0 < an <= 381 && 0 < ad <= 5000);
    assert(0 < bn <= 381 && 0 < bd <= 5000);
    assert(0 < an * bd <= 381 * 5000) by (nonlinear_arith)
        requires
            0 < an <= 381,
            0 < bd <= 5000,
    ;
    assert(0 < ad * bn <= 5000 * 381) by (nonlinear_arith)
        requires
            0 < bn <= 381,
            0 < ad <= 5000,
    ;
}

/// Going from `a` to `b` and back changes nothing: the two rates multiply
/// to one, for every pair of units.
pub proof fn lemma_rates_are_inverse(a: Unit, b: Unit)
    ensures
        rate(a, b).inverse_of(rate(b, a)),
{
    lemma_rate_parts(a, b);
    lemma_rate_parts(b, a);
    let an = a.meters().numerator as int;
    let ad = a.meters().denominator as int;
    let bn = b.meters().numerator as int;
    let bd = b.meters().denominator as int;
    assert((an * bd) * (bn * ad) == (ad * bn) * (bd * an)) by (nonlinear_arith);
}

/// A value keeps its number when the unit stays the same: the rate from a
/// unit to itself is one.
pub proof fn lemma_rate_to_self_is_one(a: Unit)
    ensures
        rate(a, a).same_number((Fraction { numerator: 1, denominator: 1 })),
{
    lemma_rate_parts(a, a);
    let an = a.meters().numerator as int;
    let ad = a.meters().denominator as int;
    assert(an * ad == ad * an) by (nonlinear_arith);
}

/// Going from `a` to `c` by way of `b` multiplies by the same number as
/// going there directly.
pub proof fn lemma_rates_compose(a: Unit, b: Unit, c: Unit)
    ensures
        rate(a, b).numerator * rate(b, c).numerator * rate(a, c).denominator
            == rate(a, c).numerator * (rate(a, b).denominator * rate(b, c).denominator),
{
    lemma_rate_parts(a, b);
    lemma_rate_parts(b, c);
    lemma_rate_parts(a, c);
    let an = a.meters().numerator as int;
    let ad = a.meters().denominator as int;
    let bn = b.meters().numerator as int;
    let bd = b.meters().denominator as int;
    let cn = c.meters().numerator as int;
    let cd = c.meters().denominator as int;
    assert((an * bd) * (bn * cd) * (ad * cn) == (an * cd) * ((ad * bn) * (bd * cn)))
        by (nonlinear_arith);
}

/// A unit's place in a selector leads back to the unit, and no other place does.
pub proof fn lemma_index_round_trip(unit: Unit, index: int)
    ensures
        Unit::at(unit.index()) == Some(unit),
        Unit::at(index) == Some(unit) <==> index == unit.index(),
        Unit::at(index) is Some <==> 0 <= index <= 3,
{
}

} // verus!
