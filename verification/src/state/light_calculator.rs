//! Power level of a character: the floor of the average of its eight gear slots.
use vstd::prelude::*;
use crate::error::{Result, SunriseError};

verus! {

pub const POWER_SLOT_COUNT: usize = 8;

/// The power of the item in each of the eight slots that count toward light.
#[derive(Debug, Clone, Copy, PartialEq, Eq, Structural)]
pub struct GearSlots {
    pub kinetic: u32,
    pub energy: u32,
    pub power: u32,
    pub helmet: u32,
    pub gauntlets: u32,
    pub chest: u32,
    pub legs: u32,
    pub class_item: u32,
}

/// The slots in their fixed order: three weapons, then five armor pieces.
pub open spec fn slot_seq(s: GearSlots) -> Seq<u32> {
    seq![s.kinetic, s.energy, s.power, s.helmet, s.gauntlets, s.chest, s.legs, s.class_item]
}

/// The sum of the values in `s`.
pub open spec fn power_sum(s: Seq<u32>) -> int
    decreases s.len(),
{
    if s.len() == 0 {
        0
    } else {
        power_sum(s.drop_last()) + s.last()
    }
}

proof fn lemma_power_sum_bound(s: Seq<u32>)
    ensures
        0 <= power_sum(s) <= s.len() * 0xFFFF_FFFF,
    decreases s.len(),
{
    if s.len() > 0 {
        lemma_power_sum_bound(s.drop_last());
    }
}

/// The total power of the eight slots.
pub open spec fn slots_sum(s: GearSlots) -> int {
    s.kinetic + s.energy + s.power + s.helmet + s.gauntlets + s.chest + s.legs + s.class_item
}

/// The light of a set of slots: the average power, rounded down.
pub open spec fn base_light(s: GearSlots) -> int {
    slots_sum(s) / 8
}

proof fn lemma_slot_seq_sum(s: GearSlots)
    ensures
        power_sum(slot_seq(s)) == slots_sum(s),
{
    let q = slot_seq(s);
    reveal_with_fuel(power_sum, 9);
    assert(q.drop_last() =~= seq![s.kinetic, s.energy, s.power, s.helmet, s.gauntlets, s.chest, s.legs]);
    assert(q.drop_last().drop_last() =~= seq![s.kinetic, s.energy, s.power, s.helmet, s.gauntlets, s.chest]);
    assert(q.drop_last().drop_last().drop_last() =~= seq![s.kinetic, s.energy, s.power, s.helmet, s.gauntlets]);
    assert(q.drop_last().drop_last().drop_last().drop_last() =~= seq![s.kinetic, s.energy, s.power, s.helmet]);
    assert(q.drop_last().drop_last().drop_last().drop_last().drop_last() =~= seq![s.kinetic, s.energy, s.power]);
    assert(q.drop_last().drop_last().drop_last().drop_last().drop_last().drop_last() =~= seq![s.kinetic, s.energy]);
    assert(q.drop_last().drop_last().drop_last().drop_last().drop_last().drop_last().drop_last() =~= seq![s.kinetic]);
    assert(q.drop_last().drop_last().drop_last().drop_last().drop_last().drop_last().drop_last().drop_last()
        =~= Seq::<u32>::empty());
}

impl GearSlots {
    pub fn new(
        kinetic: u32,
        energy: u32,
        power: u32,
        helmet: u32,
        gauntlets: u32,
        chest: u32,
        legs: u32,
        class_item: u32,
    ) -> (s: Self)
        ensures
            s == (GearSlots { kinetic, energy, power, helmet, gauntlets, chest, legs, class_item }),
    {
        GearSlots { kinetic, energy, power, helmet, gauntlets, chest, legs, class_item }
    }

    pub fn to_array(&self) -> (a: [u32; 8])
        ensures
            a@ == slot_seq(*self),
    {
        let a = [
            self.kinetic,
            self.energy,
            self.power,
            self.helmet,
            self.gauntlets,
            self.chest,
            self.legs,
            self.class_item,
        ];
        assert(a@ =~= slot_seq(*self));
        a
    }
}

/// The sum of `values`, widened so that it cannot overflow.
fn sum_u64(values: &[u32]) -> (sum: u64)
    requires
        values@.len() <= 8,
    ensures
        sum == power_sum(values@),
{
    let mut sum: u64 = 0;
    let mut i: usize = 0;
    while i < values.len()
        invariant
            i <= values@.len() <= 8,
            sum == power_sum(values@.subrange(0, i as int)),
        decreases values@.len() - i,
    {
        proof {
            lemma_power_sum_bound(values@.subrange(0, i as int));
            assert(values@.subrange(0, i + 1).drop_last() =~= values@.subrange(0, i as int));
        }
        sum = sum + values[i] as u64;
        i += 1;
    }
    proof {
        assert(values@.subrange(0, i as int) =~= values@);
    }
    sum
}

pub fn calculate_base_light(slots: &GearSlots) -> (light: u32)
    ensures
        light == base_light(*slots),
{
    let array = slots.to_array();
    let sum = sum_u64(&array);
    proof {
        lemma_slot_seq_sum(*slots);
    }
    (sum / 8) as u32
}

pub fn calculate_light_from_slice(slice: &[u32]) -> (r: Result<u32>)
    ensures
        slice@.len() != 8 ==> (r matches Err(SunriseError::InvalidBucketCount(n)) && n == slice@.len()),
        slice@.len() == 8 ==> r == Ok::<u32, SunriseError>((power_sum(slice@) / 8) as u32),
{
    if slice.len() != POWER_SLOT_COUNT {
        return Err(SunriseError::InvalidBucketCount(slice.len()));
    }
    let sum = sum_u64(slice);
    proof {
        lemma_power_sum_bound(slice@);
    }
    Ok((sum / 8) as u32)
}

/// The light rounded down, and how many eighths of a level lie above it.
pub fn calculate_fractional_light(slots: &GearSlots) -> (r: (u32, u32))
    ensures
        r.0 == base_light(*slots),
        r.1 == slots_sum(*slots) % 8,
{
    let array = slots.to_array();
    let sum = sum_u64(&array);
    proof {
        lemma_slot_seq_sum(*slots);
    }
    ((sum / 8) as u32, (sum % 8) as u32)
}

/// The highest power a character can reach: the light of the best weapons and
/// armor across all characters, plus the bonus power.
pub fn calculate_max_cross_character_power(weapons: &[u32; 3], armor: &[u32; 5], bonus_power: u32) -> (p: u32)
    requires
        (power_sum(weapons@) + power_sum(armor@)) / 8 + bonus_power <= u32::MAX,
    ensures
        p == (power_sum(weapons@) + power_sum(armor@)) / 8 + bonus_power,
{
    let w = sum_u64(weapons);
    let a = sum_u64(armor);
    proof {
        lemma_power_sum_bound(weapons@);
        lemma_power_sum_bound(armor@);
    }
    let base = ((w + a) / 8) as u32;
    base + bonus_power
}

} // verus!
