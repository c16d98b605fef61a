//! The executable counter.

use crate::bigint::add_u32;
use crate::bigint::big_value;
use crate::bigint::checked_mul;
use crate::bigint::digits_value;
use crate::bigint::from_u32;
use crate::bigint::is_zero;
use crate::bigint::modpow;
use crate::bigint::one;
use crate::bigint::to_u32_digits;
use crate::model::lemma_initial_inv;
use crate::model::lemma_restart_and_modulus_keep_inv;
use crate::model::lemma_tick_keeps_inv;
use crate::model::CounterView;
use num_bigint::BigUint;
use vstd::arithmetic::power::lemma_pow1;
use vstd::prelude::*;

verus! {

/// What can happen to a counter.
#[derive(Clone, Copy, Debug)]
pub enum Msg {
    /// The clock fired: the counter advances.
    UpdateTime,
    /// The pause button was pressed. The pause flag belongs to whoever drives
    /// the clock; the counter itself is untouched.
    PauseTime,
    /// The modulus control was moved to the given position.
    ModulusChange(u32),
}

/// A power of two of unbounded size, the exponent shown beside it, and the
/// modulus that decides on which ticks the display refreshes.
pub struct CounterState {
    value: BigUint,
    power: BigUint,
    modulus: u32,
}

impl View for CounterState {
    type V = CounterView;

    closed spec fn view(&self) -> CounterView {
        CounterView {
            value: big_value(self.value),
            power: big_value(self.power),
            modulus: self.modulus as nat,
        }
    }
}

impl CounterState {
    #[verifier::type_invariant]
    spec fn consistent(self) -> bool {
        self@.inv()
    }

    /// A counter in its initial state.
    pub fn new() -> (state: CounterState)
        ensures
            state@ == CounterView::initial(),
            state@.inv(),
    {
        proof {
            lemma_initial_inv(1);
        }
        CounterState { value: one(), power: one(), modulus: 1 }
    }

    /// The value, which is two raised to one less than the power, as the
    /// invariant of the model says.
    pub fn value(&self) -> (value: &BigUint)
        ensures
            big_value(*value) == self@.value,
            self@.inv(),
    {
        proof {
            use_type_invariant(self);
        }
        &self.value
    }

    /// The power: one more than the number of ticks since the counter last
    /// started from one.
    pub fn power(&self) -> (power: &BigUint)
        ensures
            big_value(*power) == self@.power,
            self@.inv(),
    {
        proof {
            use_type_invariant(self);
        }
        &self.power
    }

    /// The modulus, which is never zero.
    pub fn modulus(&self) -> (modulus: u32)
        ensures
            modulus == self@.modulus,
            modulus >= 1,
    {
        proof {
            use_type_invariant(self);
        }
        self.modulus
    }

    /// The value as base-2^32 digits, least significant first.
    pub fn value_digits(&self) -> (digits: Vec<u32>)
        ensures
            digits_value(digits@) == self@.value,
    {
        to_u32_digits(&self.value)
    }

    /// Whether the display should refresh in the current state: the power is
    /// a multiple of the modulus.
    pub fn display_worthy(&self) -> (worthy: bool)
        ensures
            worthy == self@.display_worthy(),
            worthy == (self@.power % self@.modulus == 0),
    {
        proof {
            use_type_invariant(self);
        }
        let modulus = from_u32(self.modulus).unwrap();
        let exponent = one();
        let remainder = modpow(&self.power, &exponent, &modulus);
        proof {
            lemma_pow1(big_value(self.power) as int);
        }
        is_zero(&remainder)
    }

    /// Takes the outcome of doubling the value. With a product, the value
    /// becomes the product and the power grows by one. Without one, the
    /// doubling could not be represented, and value and power start again
    /// from one. Returns whether the display should refresh in the new state.
    pub fn advance(&mut self, doubled: Option<BigUint>) -> (worthy: bool)
        requires
            doubled matches Some(d) ==> big_value(d) == 2 * old(self)@.value,
        ensures
            doubled is Some ==> final(self)@ == old(self)@.ticked(),
            doubled is None ==> final(self)@ == old(self)@.restarted(),
            final(self)@.inv(),
            worthy == (final(self)@.power % final(self)@.modulus == 0),
    {
        proof {
            use_type_invariant(&*self);
            lemma_tick_keeps_inv(self@);
            lemma_restart_and_modulus_keep_inv(self@, 1);
        }
        let (value, power) = match doubled {
            Some(product) => (product, add_u32(&self.power, 1)),
            None => (one(), one()),
        };
        *self = CounterState { value, power, modulus: self.modulus };
        self.display_worthy()
    }

    /// Advances the counter by one tick: the value doubles and the power
    /// grows by one. Returns whether the display should refresh, that is,
    /// whether the new power is a multiple of the modulus.
    pub fn tick(&mut self) -> (worthy: bool)
        ensures
            final(self)@ == old(self)@.ticked(),
            final(self)@.inv(),
            worthy == (final(self)@.power % final(self)@.modulus == 0),
    {
        let two = from_u32(2).unwrap();
        let doubled = checked_mul(&self.value, &two);
        self.advance(doubled)
    }

    /// Sets the modulus. Zero, which no power is a multiple of, is raised to
    /// one; every other number is stored as given. Value and power stay as
    /// they are.
    pub fn set_modulus(&mut self, new_modulus: u32)
        ensures
            final(self)@ == old(self)@.with_modulus(new_modulus as nat),
            final(self)@.value == old(self)@.value,
            final(self)@.power == old(self)@.power,
            final(self)@.modulus == (if new_modulus == 0 { 1 } else { new_modulus as nat }),
            final(self)@.inv(),
    {
        proof {
            use_type_invariant(&*self);
            lemma_restart_and_modulus_keep_inv(self@, new_modulus as nat);
        }
        if new_modulus == 0 {
            self.modulus = 1;
        } else {
            self.modulus = new_modulus;
        }
    }

    /// Applies one message and says whether the display should be drawn
    /// again. A tick advances the counter and asks for a redraw when the new
    /// power is a multiple of the modulus. A pause leaves the counter as it is
    /// and always asks for a redraw. A change of modulus is stored and asks
    /// for none.
    pub fn update(&mut self, msg: Msg) -> (render: bool)
        ensures
            final(self)@.inv(),
            match msg {
                Msg::UpdateTime => {
                    &&& final(self)@ == old(self)@.ticked()
                    &&& render == final(self)@.display_worthy()
                },
                Msg::PauseTime => {
                    &&& final(self)@ == old(self)@
                    &&& render
                },
                Msg::ModulusChange(wanted) => {
                    &&& final(self)@ == old(self)@.with_modulus(wanted as nat)
                    &&& !render
                },
            },
    {
        match msg {
            Msg::UpdateTime => self.tick(),
            Msg::PauseTime => {
                proof {
                    use_type_invariant(&*self);
                }
                true
            },
            Msg::ModulusChange(wanted) => {
                self.set_modulus(wanted);
                false
            },
        }
    }
}

} // verus!
