//! The read-modify-write protocol on the shared register byte.
use vstd::prelude::*;

verus! {

/// Path of the debug-filesystem file that exposes the controller's registers.
pub const EC_PATH: &'static str = "/sys/kernel/debug/ec/ec0/io";

/// Offset of the LED control byte inside the controller's register file.
pub const LED_OFFSET: u64 = 0x10;

/// Position of the breathing-disable bit inside that byte.
pub const LED_BIT: u8 = 6;

/// Mask of the breathing-disable bit.
pub const LED_MASK: u8 = 0x40;

/// Mode applied when the system prepares to sleep: breathing disabled.
pub const VAL_SLEEP_MODE: bool = true;

/// Mode applied when the system has resumed: breathing back under system control.
pub const VAL_WAKE_MODE: bool = false;

/// Whether bit `i` of `v` is set.
pub open spec fn bit_of(v: u8, i: u8) -> bool {
    (v >> i) & 1u8 == 1u8
}

/// The byte that results from forcing the breathing-disable bit of `original`
/// to `disable_breathing`, every other bit copied.
pub open spec fn led_value(original: u8, disable_breathing: bool) -> u8 {
    if disable_breathing {
        original | LED_MASK
    } else {
        original & !LED_MASK
    }
}

/// Whether applying `disable_breathing` to `original` needs a physical write.
pub open spec fn needs_write(original: u8, disable_breathing: bool) -> bool {
    led_value(original, disable_breathing) != original
}

/// Byte held after applying each mode of `modes` in turn, starting from `v`.
pub open spec fn value_after(v: u8, modes: Seq<bool>) -> u8
    decreases modes.len(),
{
    if modes.len() == 0 {
        v
    } else {
        led_value(value_after(v, modes.drop_last()), modes.last())
    }
}

/// Number of physical writes made while applying each mode of `modes` in turn,
/// starting from `v`.
pub open spec fn writes_for(v: u8, modes: Seq<bool>) -> nat
    decreases modes.len(),
{
    if modes.len() == 0 {
        0
    } else {
        let before = value_after(v, modes.drop_last());
        writes_for(v, modes.drop_last()) + if needs_write(before, modes.last()) {
            1nat
        } else {
            0nat
        }
    }
}

/// The new register byte for `disable_breathing`: the designated bit set when
/// breathing is to be disabled and cleared otherwise, every other bit as in
/// `original`.
pub fn new_led_value(original: u8, disable_breathing: bool) -> (r: u8)
    ensures
        r == led_value(original, disable_breathing),
        bit_of(r, LED_BIT) == disable_breathing,
        forall|i: u8| i < 8 && i != LED_BIT ==> #[trigger] bit_of(r, i) == bit_of(original, i),
{
    let r = if disable_breathing {
        original | LED_MASK
    } else {
        original & !LED_MASK
    };
    proof {
        lemma_led_value_bits(original, disable_breathing);
    }
    r
}

/// The byte to write back after reading `original`, or `None` where the byte
/// already holds the requested mode and no write is to be made.
pub fn led_write(original: u8, disable_breathing: bool) -> (r: Option<u8>)
    ensures
        r == (if needs_write(original, disable_breathing) {
            Some(led_value(original, disable_breathing))
        } else {
            None::<u8>
        }),
{
    let new_val = new_led_value(original, disable_breathing);
    if new_val != original {
        Some(new_val)
    } else {
        None
    }
}

/// Forcing the breathing-disable bit touches that bit alone: it holds the
/// requested mode afterwards, and each of the other seven bits keeps its value.
pub proof fn lemma_led_value_bits(v: u8, m: bool)
    ensures
        bit_of(led_value(v, m), LED_BIT) == m,
        forall|i: u8| i < 8 && i != LED_BIT ==> #[trigger] bit_of(led_value(v, m), i) == bit_of(v, i),
{
    let r = led_value(v, m);
    if m {
        assert(r == v | 0x40u8);
        assert(((v | 0x40u8) >> 6u8) & 1u8 == 1u8) by (bit_vector);
        assert forall|i: u8| i < 8 && i != 6 implies #[trigger] bit_of(r, i) == bit_of(v, i) by {
            assert(i < 8 && i != 6 ==> ((v | 0x40u8) >> i) & 1u8 == (v >> i) & 1u8) by (bit_vector);
        }
    } else {
        assert(r == v & !0x40u8);
        assert(((v & !0x40u8) >> 6u8) & 1u8 == 0u8) by (bit_vector);
        assert forall|i: u8| i < 8 && i != 6 implies #[trigger] bit_of(r, i) == bit_of(v, i) by {
            assert(i < 8 && i != 6 ==> ((v & !0x40u8) >> i) & 1u8 == (v >> i) & 1u8) by (bit_vector);
        }
    }
}

/// Applying the same mode twice makes at most one physical write: the second
/// application finds the byte already in that mode and writes nothing. Where
/// the byte did not hold the mode at first, exactly one write is made.
pub proof fn lemma_repeat_writes_once(v: u8, m: bool)
    ensures
        !needs_write(led_value(v, m), m),
        value_after(v, seq![m, m]) == led_value(v, m),
        writes_for(v, seq![m, m]) == writes_for(v, seq![m]),
        writes_for(v, seq![m, m]) <= 1,
        needs_write(v, m) ==> writes_for(v, seq![m, m]) == 1,
{
    let r = led_value(v, m);
    if m {
        assert((v | 0x40u8) | 0x40u8 == v | 0x40u8) by (bit_vector);
    } else {
        assert((v & !0x40u8) & !0x40u8 == v & !0x40u8) by (bit_vector);
    }
    assert(seq![m, m].drop_last() =~= seq![m]);
    assert(seq![m].drop_last() =~= Seq::<bool>::empty());
    reveal_with_fuel(value_after, 3);
    reveal_with_fuel(writes_for, 3);
}

/// Disabling breathing and then enabling it again gives back the original byte,
/// for every byte whose breathing-disable bit was clear to begin with.
pub proof fn lemma_disable_then_enable_restores(v: u8)
    requires
        !bit_of(v, LED_BIT),
    ensures
        value_after(v, seq![true, false]) == v,
{
    assert(((v >> 6u8) & 1u8 != 1u8) ==> (v | 0x40u8) & !0x40u8 == v) by (bit_vector);
    assert(seq![true, false].drop_last() =~= seq![true]);
    assert(seq![true].drop_last() =~= Seq::<bool>::empty());
    reveal_with_fuel(value_after, 3);
}

/// Applying a sequence of modes one after another, each starting from the byte
/// the previous one left, ends with the breathing-disable bit in the last mode
/// and every other bit as it was before the first.
pub proof fn lemma_sequence_ends_in_last_mode(v: u8, modes: Seq<bool>)
    requires
        modes.len() > 0,
    ensures
        bit_of(value_after(v, modes), LED_BIT) == modes.last(),
        forall|i: u8| i < 8 && i != LED_BIT ==> #[trigger] bit_of(value_after(v, modes), i) == bit_of(v, i),
    decreases modes.len(),
{
    let before = value_after(v, modes.drop_last());
    lemma_led_value_bits(before, modes.last());
    if modes.len() > 1 {
        lemma_sequence_ends_in_last_mode(v, modes.drop_last());
    }
}

} // verus!
