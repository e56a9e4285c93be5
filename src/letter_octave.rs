use vstd::prelude::*;
use core::cmp::Ordering;
use crate::calc::{
    letter_octave_from_step, letter_of_step, octave_of_step, step_from_letter_octave, step_spec,
    Octave,
};
use crate::letter::Letter;
use crate::utils::compare_spec;

verus! {

/// Pitch representation in the form of a letter in an octave.
#[derive(Clone, Copy, Debug)]
pub struct LetterOctave(pub Letter, pub Octave);

/// A whole step held to the range of `i32`, as a rounded pitch step is when it is cast to one.
pub open spec fn saturate(step: int) -> int {
    if step > i32::MAX {
        i32::MAX as int
    } else if step < i32::MIN {
        i32::MIN as int
    } else {
        step
    }
}

/// `a / b` rounded to the nearest whole number, halves away from zero; a division by zero
/// gives the largest step of the sign of `a`, and zero for `0 / 0`.
pub open spec fn round_div(a: int, b: int) -> int {
    if b == 0 {
        if a > 0 {
            i32::MAX as int
        } else if a < 0 {
            i32::MIN as int
        } else {
            0
        }
    } else {
        let n = if a >= 0 { a } else { -a };
        let d = if b >= 0 { b } else { -b };
        let q = (2 * n + d) / (2 * d);
        if (a >= 0) == (b >= 0) {
            q
        } else {
            -q
        }
    }
}

/// The remainder of `a / b` with the sign of `a`, as `%` gives it; zero where `b` is zero.
pub open spec fn trunc_rem(a: int, b: int) -> int {
    if b == 0 {
        0
    } else {
        let d = if b >= 0 { b } else { -b };
        if a >= 0 {
            a % d
        } else {
            -((-a) % d)
        }
    }
}

impl LetterOctave {
    /// The step of the pitch: step 0 is `C` in octave -1, and `A 4` is step 69.
    pub open spec fn step_spec(self) -> int {
        step_spec(self.0, self.1 as int)
    }

    /// The letter and octave of a whole step, held to the range of `i32` first.
    pub open spec fn from_step_spec(step: int) -> LetterOctave {
        LetterOctave(letter_of_step(saturate(step)), octave_of_step(saturate(step)) as Octave)
    }

    /// Return the value as (Letter, Octave).
    pub fn letter_octave(self) -> (r: (Letter, Octave))
        ensures
            r == (self.0, self.1),
    {
        let LetterOctave(letter, octave) = self;
        (letter, octave)
    }

    /// Return just the Letter.
    pub fn letter(self) -> (r: Letter)
        ensures
            r == self.0,
    {
        self.0
    }

    /// Return just the octave.
    pub fn octave(self) -> (r: Octave)
        ensures
            r == self.1,
    {
        self.1
    }

    /// Convert to the MIDI-esque step of the same pitch, which is always whole.
    pub fn step(self) -> (r: i64)
        ensures
            r == self.step_spec(),
    {
        let LetterOctave(letter, octave) = self;
        step_from_letter_octave(letter, octave)
    }

    /// The letter and octave of a whole step; a step beyond the range of `i32` is held to it.
    fn from_step(step: i128) -> (r: LetterOctave)
        ensures
            r == LetterOctave::from_step_spec(step as int),
    {
        let held: i32 = if step > i32::MAX as i128 {
            i32::MAX
        } else if step < i32::MIN as i128 {
            i32::MIN
        } else {
            step as i32
        };
        let (letter, octave) = letter_octave_from_step(held);
        LetterOctave(letter, octave)
    }
}

/// The range of the step of any letter in any octave.
proof fn lemma_step_bounds(lo: LetterOctave)
    ensures
        -25769803776 <= lo.step_spec() <= 25769803787,
{
}

impl PartialEq for LetterOctave {
    /// Equal when the pitch classes and the octaves are.
    fn eq(&self, other: &LetterOctave) -> (r: bool)
        ensures
            r == (self.0.class() == other.0.class() && self.1 == other.1),
    {
        self.0 == other.0 && self.1 == other.1
    }
}

impl vstd::std_specs::cmp::PartialEqSpecImpl for LetterOctave {
    open spec fn obeys_eq_spec() -> bool {
        true
    }

    open spec fn eq_spec(&self, other: &LetterOctave) -> bool {
        self.0.class() == other.0.class() && self.1 == other.1
    }
}

impl Eq for LetterOctave {
}

impl PartialOrd for LetterOctave {
    /// Ordered by octave first, then by the pitch class of the letter.
    fn partial_cmp(&self, other: &LetterOctave) -> (r: Option<Ordering>)
        ensures
            r == Some(
                if self.1 != other.1 {
                    compare_spec(self.1 as int, other.1 as int)
                } else {
                    compare_spec(self.0.class(), other.0.class())
                },
            ),
    {
        if self.1 < other.1 {
            Some(Ordering::Less)
        } else if self.1 > other.1 {
            Some(Ordering::Greater)
        } else {
            self.0.partial_cmp(&other.0)
        }
    }
}

impl vstd::std_specs::cmp::PartialOrdSpecImpl for LetterOctave {
    open spec fn obeys_partial_cmp_spec() -> bool {
        true
    }

    open spec fn partial_cmp_spec(&self, other: &LetterOctave) -> Option<Ordering> {
        Some(
            if self.1 != other.1 {
                compare_spec(self.1 as int, other.1 as int)
            } else {
                compare_spec(self.0.class(), other.0.class())
            },
        )
    }
}

impl core::ops::Add for LetterOctave {
    type Output = LetterOctave;

    /// The pitch whose step is the sum of the two steps.
    fn add(self, rhs: LetterOctave) -> (r: LetterOctave)
        ensures
            r == LetterOctave::from_step_spec(self.step_spec() + rhs.step_spec()),
    {
        proof {
            lemma_step_bounds(self);
            lemma_step_bounds(rhs);
        }
        LetterOctave::from_step((self.step() + rhs.step()) as i128)
    }
}

impl vstd::std_specs::ops::AddSpecImpl for LetterOctave {
    open spec fn obeys_add_spec() -> bool {
        true
    }

    open spec fn add_req(self, rhs: LetterOctave) -> bool {
        true
    }

    open spec fn add_spec(self, rhs: LetterOctave) -> LetterOctave {
        LetterOctave::from_step_spec(self.step_spec() + rhs.step_spec())
    }
}

impl core::ops::Sub for LetterOctave {
    type Output = LetterOctave;

    /// The pitch whose step is the difference of the two steps.
    fn sub(self, rhs: LetterOctave) -> (r: LetterOctave)
        ensures
            r == LetterOctave::from_step_spec(self.step_spec() - rhs.step_spec()),
    {
        proof {
            lemma_step_bounds(self);
            lemma_step_bounds(rhs);
        }
        LetterOctave::from_step((self.step() - rhs.step()) as i128)
    }
}

impl vstd::std_specs::ops::SubSpecImpl for LetterOctave {
    open spec fn obeys_sub_spec() -> bool {
        true
    }

    open spec fn sub_req(self, rhs: LetterOctave) -> bool {
        true
    }

    open spec fn sub_spec(self, rhs: LetterOctave) -> LetterOctave {
        LetterOctave::from_step_spec(self.step_spec() - rhs.step_spec())
    }
}

impl core::ops::Mul for LetterOctave {
    type Output = LetterOctave;

    /// The pitch whose step is the product of the two steps.
    fn mul(self, rhs: LetterOctave) -> (r: LetterOctave)
        ensures
            r == LetterOctave::from_step_spec(self.step_spec() * rhs.step_spec()),
    {
        let a = self.step();
        let b = rhs.step();
        proof {
            lemma_step_bounds(self);
            lemma_step_bounds(rhs);
            assert(-1000000000000000000000 <= a as int * b as int <= 1000000000000000000000)
                by (nonlinear_arith)
                requires
                    -25769803776 <= a <= 25769803787,
                    -25769803776 <= b <= 25769803787,
            ;
        }
        LetterOctave::from_step(a as i128 * b as i128)
    }
}

impl vstd::std_specs::ops::MulSpecImpl for LetterOctave {
    open spec fn obeys_mul_spec() -> bool {
        true
    }

    open spec fn mul_req(self, rhs: LetterOctave) -> bool {
        true
    }

    open spec fn mul_spec(self, rhs: LetterOctave) -> LetterOctave {
        LetterOctave::from_step_spec(self.step_spec() * rhs.step_spec())
    }
}

impl core::ops::Div for LetterOctave {
    type Output = LetterOctave;

    /// The pitch whose step is the quotient of the two steps, rounded halves away from zero.
    fn div(self, rhs: LetterOctave) -> (r: LetterOctave)
        ensures
            r == LetterOctave::from_step_spec(round_div(self.step_spec(), rhs.step_spec())),
    {
        let a = self.step();
        let b = rhs.step();
        proof {
            lemma_step_bounds(self);
            lemma_step_bounds(rhs);
        }
        if b == 0 {
            if a > 0 {
                LetterOctave::from_step(i32::MAX as i128)
            } else if a < 0 {
                LetterOctave::from_step(i32::MIN as i128)
            } else {
                LetterOctave::from_step(0)
            }
        } else {
            let n: i64 = if a >= 0 { a } else { -a };
            let d: i64 = if b >= 0 { b } else { -b };
            let q: i64 = (2 * n + d) / (2 * d);
            proof {
                assert(0 <= q <= 2 * n + d) by (nonlinear_arith)
                    requires
                        d >= 1,
                        n >= 0,
                        q == (2 * n + d) / (2 * d),
                ;
            }
            if (a >= 0) == (b >= 0) {
                LetterOctave::from_step(q as i128)
            } else {
                LetterOctave::from_step(-(q as i128))
            }
        }
    }
}

impl vstd::std_specs::ops::DivSpecImpl for LetterOctave {
    open spec fn obeys_div_spec() -> bool {
        true
    }

    open spec fn div_req(self, rhs: LetterOctave) -> bool {
        true
    }

    open spec fn div_spec(self, rhs: LetterOctave) -> LetterOctave {
        LetterOctave::from_step_spec(round_div(self.step_spec(), rhs.step_spec()))
    }
}

impl core::ops::Rem for LetterOctave {
    type Output = LetterOctave;

    /// The pitch whose step is the remainder of the two steps, with the sign of the first.
    fn rem(self, rhs: LetterOctave) -> (r: LetterOctave)
        ensures
            r == LetterOctave::from_step_spec(trunc_rem(self.step_spec(), rhs.step_spec())),
    {
        let a = self.step();
        let b = rhs.step();
        proof {
            lemma_step_bounds(self);
            lemma_step_bounds(rhs);
        }
        if b == 0 {
            LetterOctave::from_step(0)
        } else {
            let d: i64 = if b >= 0 { b } else { -b };
            if a >= 0 {
                LetterOctave::from_step((a % d) as i128)
            } else {
                LetterOctave::from_step(-(((-a) % d) as i128))
            }
        }
    }
}

impl vstd::std_specs::ops::RemSpecImpl for LetterOctave {
    open spec fn obeys_rem_spec() -> bool {
        true
    }

    open spec fn rem_req(self, rhs: LetterOctave) -> bool {
        true
    }

    open spec fn rem_spec(self, rhs: LetterOctave) -> LetterOctave {
        LetterOctave::from_step_spec(trunc_rem(self.step_spec(), rhs.step_spec()))
    }
}

impl core::ops::Neg for LetterOctave {
    type Output = LetterOctave;

    /// The pitch whose step is the negated step.
    fn neg(self) -> (r: LetterOctave)
        ensures
            r == LetterOctave::from_step_spec(-self.step_spec()),
    {
        proof {
            lemma_step_bounds(self);
        }
        LetterOctave::from_step(-(self.step() as i128))
    }
}

impl vstd::std_specs::ops::NegSpecImpl for LetterOctave {
    open spec fn obeys_neg_spec() -> bool {
        true
    }

    open spec fn neg_req(self) -> bool {
        true
    }

    open spec fn neg_spec(self) -> LetterOctave {
        LetterOctave::from_step_spec(-self.step_spec())
    }
}

} // verus!
