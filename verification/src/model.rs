//! The mathematical model of the counter, and the laws that follow from it.

use vstd::arithmetic::power2::lemma2_to64;
use vstd::arithmetic::power2::lemma_pow2_unfold;
use vstd::arithmetic::power2::pow2;
use vstd::prelude::*;

verus! {

/// What a counter is, as numbers: the value shown, the exponent shown beside
/// it, and the modulus that gates the display.
pub struct CounterView {
    pub value: nat,
    pub power: nat,
    pub modulus: nat,
}

impl CounterView {
    /// The state a counter starts in: value one, power one, modulus one.
    pub open spec fn initial() -> CounterView {
        CounterView { value: 1, power: 1, modulus: 1 }
    }

    /// The relation that every counter keeps: the power counts from one, the
    /// value is two raised to one less than the power, and the modulus is
    /// positive.
    pub open spec fn inv(self) -> bool {
        &&& self.power >= 1
        &&& self.value == pow2((self.power - 1) as nat)
        &&& self.modulus >= 1
    }

    /// The state after one tick: the value doubled, the power one higher.
    pub open spec fn ticked(self) -> CounterView {
        CounterView { value: 2 * self.value, power: self.power + 1, modulus: self.modulus }
    }

    /// The state after a doubling that could not be represented: value and
    /// power back at one, the modulus kept.
    pub open spec fn restarted(self) -> CounterView {
        CounterView { value: 1, power: 1, modulus: self.modulus }
    }

    /// The modulus that a request for `wanted` leads to: zero is raised to
    /// one, every other number is taken as it is.
    pub open spec fn clamp_modulus(wanted: nat) -> nat {
        if wanted == 0 {
            1
        } else {
            wanted
        }
    }

    /// The state after the modulus was set to `wanted`.
    pub open spec fn with_modulus(self, wanted: nat) -> CounterView {
        CounterView {
            value: self.value,
            power: self.power,
            modulus: Self::clamp_modulus(wanted),
        }
    }

    /// Whether the display should refresh in this state: the power is a
    /// multiple of the modulus.
    pub open spec fn display_worthy(self) -> bool {
        self.power % self.modulus == 0
    }

    /// The state after `k` ticks.
    pub open spec fn after_ticks(self, k: nat) -> CounterView
        decreases k,
    {
        if k == 0 {
            self
        } else {
            self.after_ticks((k - 1) as nat).ticked()
        }
    }
}

/// A tick keeps the invariant.
pub proof fn lemma_tick_keeps_inv(s: CounterView)
    requires
        s.inv(),
    ensures
        s.ticked().inv(),
{
    lemma_pow2_unfold(s.power);
}

/// A restart and a change of modulus keep the invariant.
pub proof fn lemma_restart_and_modulus_keep_inv(s: CounterView, wanted: nat)
    requires
        s.inv(),
    ensures
        s.restarted().inv(),
        s.with_modulus(wanted).inv(),
{
    lemma2_to64();
}

/// The initial state satisfies the invariant, whatever modulus is then set.
pub proof fn lemma_initial_inv(wanted: nat)
    ensures
        CounterView::initial().inv(),
        CounterView::initial().with_modulus(wanted).inv(),
{
    lemma2_to64();
}

/// Any number of ticks keeps the invariant: in every state reached from a
/// consistent one, the value is two raised to one less than the power.
pub proof fn lemma_ticks_keep_inv(s: CounterView, k: nat)
    requires
        s.inv(),
    ensures
        s.after_ticks(k).inv(),
    decreases k,
{
    if k > 0 {
        lemma_ticks_keep_inv(s, (k - 1) as nat);
        lemma_tick_keeps_inv(s.after_ticks((k - 1) as nat));
    }
}

/// After `k` ticks from the initial state, under any modulus, the power is
/// `k + 1` and the value is two raised to `k`; the display refreshes on the
/// last of them exactly when `k + 1` is a multiple of the modulus.
pub proof fn lemma_ticks_from_initial(wanted: nat, k: nat)
    ensures
        CounterView::initial().with_modulus(wanted).after_ticks(k).power == k + 1,
        CounterView::initial().with_modulus(wanted).after_ticks(k).value == pow2(k),
        CounterView::initial().with_modulus(wanted).after_ticks(k).modulus
            == CounterView::clamp_modulus(wanted),
        CounterView::initial().with_modulus(wanted).after_ticks(k).display_worthy() == ((k + 1)
            % CounterView::clamp_modulus(wanted) == 0),
    decreases k,
{
    if k == 0 {
        lemma2_to64();
    } else {
        lemma_ticks_from_initial(wanted, (k - 1) as nat);
        lemma_pow2_unfold(k);
    }
}

/// Ticks never touch the modulus, and setting the modulus never touches the
/// value or the power, so the two commute.
pub proof fn lemma_modulus_commutes_with_ticks(s: CounterView, wanted: nat, k: nat)
    ensures
        s.with_modulus(wanted).after_ticks(k) == s.after_ticks(k).with_modulus(wanted),
    decreases k,
{
    if k > 0 {
        lemma_modulus_commutes_with_ticks(s, wanted, (k - 1) as nat);
    }
}

} // verus!
