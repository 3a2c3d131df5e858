//! Length counter: it mutes a channel after a programmed count of
//! frame-sequencer ticks, plus the fixed 32-entry reload table.

use vstd::prelude::*;

verus! {

/// Reload value for a 5-bit length index.
pub open spec fn spec_length_counter_tbl(i: u8) -> u8 {
    match i {
        0u8 => 0x05u8,
        1u8 => 0x7Fu8,
        2u8 => 0x0Au8,
        3u8 => 0x01u8,
        4u8 => 0x14u8,
        5u8 => 0x02u8,
        6u8 => 0x28u8,
        7u8 => 0x03u8,
        8u8 => 0x50u8,
        9u8 => 0x04u8,
        10u8 => 0x1Eu8,
        11u8 => 0x05u8,
        12u8 => 0x07u8,
        13u8 => 0x06u8,
        14u8 => 0x0Du8,
        15u8 => 0x07u8,
        16u8 => 0x06u8,
        17u8 => 0x08u8,
        18u8 => 0x0Cu8,
        19u8 => 0x09u8,
        20u8 => 0x18u8,
        21u8 => 0x0Au8,
        22u8 => 0x30u8,
        23u8 => 0x0Bu8,
        24u8 => 0x60u8,
        25u8 => 0x0Cu8,
        26u8 => 0x24u8,
        27u8 => 0x0Du8,
        28u8 => 0x08u8,
        29u8 => 0x0Eu8,
        30u8 => 0x10u8,
        31u8 => 0x0Fu8,
        _ => 0u8,
    }
}

/// Looks up the length-counter reload value for a 5-bit index.
pub fn length_counter_tbl(i: u8) -> (r: u8)
    requires
        i < 32,
    ensures
        r == spec_length_counter_tbl(i),
{
    match i {
        0u8 => 0x05u8,
        1u8 => 0x7Fu8,
        2u8 => 0x0Au8,
        3u8 => 0x01u8,
        4u8 => 0x14u8,
        5u8 => 0x02u8,
        6u8 => 0x28u8,
        7u8 => 0x03u8,
        8u8 => 0x50u8,
        9u8 => 0x04u8,
        10u8 => 0x1Eu8,
        11u8 => 0x05u8,
        12u8 => 0x07u8,
        13u8 => 0x06u8,
        14u8 => 0x0Du8,
        15u8 => 0x07u8,
        16u8 => 0x06u8,
        17u8 => 0x08u8,
        18u8 => 0x0Cu8,
        19u8 => 0x09u8,
        20u8 => 0x18u8,
        21u8 => 0x0Au8,
        22u8 => 0x30u8,
        23u8 => 0x0Bu8,
        24u8 => 0x60u8,
        25u8 => 0x0Cu8,
        26u8 => 0x24u8,
        27u8 => 0x0Du8,
        28u8 => 0x08u8,
        29u8 => 0x0Eu8,
        30u8 => 0x10u8,
        31u8 => 0x0Fu8,
        _ => 0u8,
    }
}

/// Mutes a channel once its counter has run out.
#[derive(Clone, Copy, Debug, PartialEq)]
pub struct LengthCounter {
    pub enabled: bool,
    pub count: u8,
    pub counter: u8,
}

/// One frame-sequencer tick: an enabled, non-empty counter decrements.
pub open spec fn lc_tick_spec(l: LengthCounter) -> LengthCounter {
    if l.enabled && l.counter > 0 {
        LengthCounter { counter: (l.counter - 1) as u8, ..l }
    } else {
        l
    }
}

/// The mute condition: an enabled counter that reached zero silences the voice.
pub open spec fn lc_mute_spec(l: LengthCounter) -> bool {
    l.enabled && l.counter == 0
}

/// The counter after `k` ticks.
pub open spec fn lc_ticked(l: LengthCounter, k: nat) -> LengthCounter
    decreases k,
{
    if k == 0 {
        l
    } else {
        lc_tick_spec(lc_ticked(l, (k - 1) as nat))
    }
}

impl LengthCounter {
    /// Fresh counter with reload value and current count both `counter`.
    pub fn new(enabled: bool, counter: u8) -> (r: Self)
        ensures
            r == (LengthCounter { enabled, count: counter, counter }),
    {
        LengthCounter { enabled, count: counter, counter }
    }

    /// One frame-sequencer tick.
    pub fn tick(&mut self)
        ensures
            *final(self) == lc_tick_spec(*old(self)),
    {
        if !self.enabled {
            return ;
        }
        if self.counter > 0 {
            self.counter = self.counter - 1;
        }
    }

    /// True when the counter mutes the voice.
    pub fn mute(&self) -> (r: bool)
        ensures
            r == lc_mute_spec(*self),
    {
        self.enabled && self.counter == 0
    }

    /// Reloads the counter from the programmed count.
    pub fn reset(&mut self)
        ensures
            *final(self) == (LengthCounter { counter: old(self).count, ..*old(self) }),
    {
        self.counter = self.count;
    }
}

/// After `k` ticks of an enabled counter loaded with `n`, the counter holds
/// `n - k` (floored at zero).
proof fn lemma_lc_ticked_counter(n: u8, k: nat)
    ensures
        lc_ticked(LengthCounter { enabled: true, count: n, counter: n }, k) == (LengthCounter {
            enabled: true,
            count: n,
            counter: (if k <= n {
                (n - k) as u8
            } else {
                0u8
            }),
        }),
    decreases k,
{
    if k > 0 {
        lemma_lc_ticked_counter(n, (k - 1) as nat);
    }
}

/// An enabled length counter loaded from index `idx` stays open for every
/// tick count below the table value and mutes from that count on.
pub proof fn lemma_length_counter_mutes(idx: u8, k: nat)
    requires
        idx < 32,
    ensures
        ({
            let n = spec_length_counter_tbl(idx);
            let l0 = (LengthCounter { enabled: true, count: n, counter: n });
            &&& k < n ==> !lc_mute_spec(lc_ticked(l0, k))
            &&& k >= n ==> lc_mute_spec(lc_ticked(l0, k))
        }),
{
    lemma_lc_ticked_counter(spec_length_counter_tbl(idx), k);
}

} // verus!
