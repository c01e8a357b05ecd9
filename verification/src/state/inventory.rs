//! Item instances and the inventory of one character.
use vstd::prelude::*;

verus! {

#[derive(Debug, Clone, Copy, PartialEq, Eq, Hash, Structural)]
pub enum ItemBucketType {
    KineticWeapons,
    EnergyWeapons,
    PowerWeapons,
    Helmet,
    Gauntlets,
    ChestArmor,
    LegArmor,
    ClassArmor,
    GhostShell,
    Ship,
    Vehicle,
    Emblem,
    Consumables,
    Modifications,
    Vault,
}

/// The number a bucket is known by on the wire.
pub open spec fn bucket_code(b: ItemBucketType) -> u32 {
    match b {
        ItemBucketType::KineticWeapons => 1,
        ItemBucketType::EnergyWeapons => 2,
        ItemBucketType::PowerWeapons => 3,
        ItemBucketType::Helmet => 4,
        ItemBucketType::Gauntlets => 5,
        ItemBucketType::ChestArmor => 6,
        ItemBucketType::LegArmor => 7,
        ItemBucketType::ClassArmor => 8,
        ItemBucketType::GhostShell => 9,
        ItemBucketType::Ship => 10,
        ItemBucketType::Vehicle => 11,
        ItemBucketType::Emblem => 12,
        ItemBucketType::Consumables => 13,
        ItemBucketType::Modifications => 14,
        ItemBucketType::Vault => 15,
    }
}

impl ItemBucketType {
    pub fn code(self) -> (c: u32)
        ensures
            c == bucket_code(self),
    {
        match self {
            ItemBucketType::KineticWeapons => 1,
            ItemBucketType::EnergyWeapons => 2,
            ItemBucketType::PowerWeapons => 3,
            ItemBucketType::Helmet => 4,
            ItemBucketType::Gauntlets => 5,
            ItemBucketType::ChestArmor => 6,
            ItemBucketType::LegArmor => 7,
            ItemBucketType::ClassArmor => 8,
            ItemBucketType::GhostShell => 9,
            ItemBucketType::Ship => 10,
            ItemBucketType::Vehicle => 11,
            ItemBucketType::Emblem => 12,
            ItemBucketType::Consumables => 13,
            ItemBucketType::Modifications => 14,
            ItemBucketType::Vault => 15,
        }
    }
}

#[derive(Debug, Clone, Copy, PartialEq, Eq, Structural)]
pub struct ItemInstance {
    pub item_instance_id: u64,
    pub item_hash: u32,
    pub quantity: u32,
    pub power_level: u32,
    pub is_equipped: bool,
    pub is_locked: bool,
    pub bucket: ItemBucketType,
}

impl ItemInstance {
    /// A new item, neither equipped nor locked.
    pub fn new(item_instance_id: u64, item_hash: u32, quantity: u32, power_level: u32, bucket: ItemBucketType) -> (i:
        Self)
        ensures
            i == (ItemInstance {
                item_instance_id,
                item_hash,
                quantity,
                power_level,
                is_equipped: false,
                is_locked: false,
                bucket,
            }),
    {
        ItemInstance { item_instance_id, item_hash, quantity, power_level, is_equipped: false, is_locked: false, bucket }
    }
}

/// `items[i]` is the first equipped item of bucket `b`.
pub open spec fn first_equipped_at(items: Seq<ItemInstance>, b: ItemBucketType, i: int) -> bool {
    &&& 0 <= i < items.len()
    &&& items[i].bucket == b
    &&& items[i].is_equipped
    &&& forall|j: int| 0 <= j < i ==> !(#[trigger] items[j].bucket == b && items[j].is_equipped)
}

/// The first equipped item of bucket `b`, if any.
pub open spec fn equipped_item(items: Seq<ItemInstance>, b: ItemBucketType) -> Option<ItemInstance> {
    if exists|i: int| first_equipped_at(items, b, i) {
        Some(items[choose|i: int| first_equipped_at(items, b, i)])
    } else {
        None
    }
}

/// `items[i]` is the first item with instance id `id`.
pub open spec fn first_with_id_at(items: Seq<ItemInstance>, id: u64, i: int) -> bool {
    &&& 0 <= i < items.len()
    &&& items[i].item_instance_id == id
    &&& forall|j: int| 0 <= j < i ==> #[trigger] items[j].item_instance_id != id
}

/// The index of the first item with instance id `id`, if any.
pub open spec fn index_of_id(items: Seq<ItemInstance>, id: u64) -> Option<int> {
    if exists|i: int| first_with_id_at(items, id, i) {
        Some(choose|i: int| first_with_id_at(items, id, i))
    } else {
        None
    }
}

pub proof fn lemma_first_equipped_unique(items: Seq<ItemInstance>, b: ItemBucketType, i: int)
    requires
        first_equipped_at(items, b, i),
    ensures
        equipped_item(items, b) == Some(items[i]),
{
    let k = choose|k: int| first_equipped_at(items, b, k);
    if k < i {
        assert(items[k].bucket == b && items[k].is_equipped);
    } else if k > i {
        assert(items[i].bucket == b && items[i].is_equipped);
    }
}

pub proof fn lemma_first_with_id_unique(items: Seq<ItemInstance>, id: u64, i: int)
    requires
        first_with_id_at(items, id, i),
    ensures
        index_of_id(items, id) == Some(i),
{
    let k = choose|k: int| first_with_id_at(items, id, k);
    if k < i {
        assert(items[k].item_instance_id == id);
    } else if k > i {
        assert(items[i].item_instance_id == id);
    }
}

/// The items after equipping the one at index `k`: every item of its bucket is
/// equipped exactly when it carries the chosen instance id; other buckets stay.
pub open spec fn equip_result(items: Seq<ItemInstance>, k: int) -> Seq<ItemInstance> {
    items.map_values(
        |it: ItemInstance|
            if it.bucket == items[k].bucket {
                ItemInstance { is_equipped: it.item_instance_id == items[k].item_instance_id, ..it }
            } else {
                it
            },
    )
}

/// Equipping the item with instance id `id` equips it and unequips every other
/// item of its bucket; items of other buckets, the order, and every field but
/// the equipped flag stay as they were.
pub proof fn lemma_equip_unequips_rest(items: Seq<ItemInstance>, id: u64)
    requires
        index_of_id(items, id) is Some,
    ensures
        ({
            let k = index_of_id(items, id)->0;
            let after = equip_result(items, k);
            &&& after.len() == items.len()
            &&& after[k].is_equipped
            &&& forall|j: int|
                0 <= j < after.len() && #[trigger] after[j].bucket == items[k].bucket
                    && after[j].item_instance_id != id ==> !after[j].is_equipped
            &&& forall|j: int|
                0 <= j < after.len() && after[j].bucket == items[k].bucket ==> (#[trigger] after[j].is_equipped
                    <==> after[j].item_instance_id == id)
            &&& forall|j: int|
                0 <= j < items.len() && #[trigger] items[j].bucket != items[k].bucket ==> after[j] == items[j]
            &&& forall|j: int|
                0 <= j < items.len() ==> (#[trigger] after[j]) == ItemInstance {
                    is_equipped: after[j].is_equipped,
                    ..items[j]
                }
        }),
{
    let k = index_of_id(items, id)->0;
    assert(first_with_id_at(items, id, k));
}

/// Equipping the item with instance id `id` makes it the equipped item of
/// its bucket, and leaves the equipped item of every other bucket as it was.
pub proof fn lemma_equip_then_get(items: Seq<ItemInstance>, id: u64, b: ItemBucketType)
    requires
        index_of_id(items, id) is Some,
    ensures
        ({
            let k = index_of_id(items, id)->0;
            let after = equip_result(items, k);
            &&& b == items[k].bucket ==> equipped_item(after, b) == Some(ItemInstance { is_equipped: true, ..items[k] })
            &&& b != items[k].bucket ==> equipped_item(after, b) == equipped_item(items, b)
        }),
{
    let k = index_of_id(items, id)->0;
    assert(first_with_id_at(items, id, k));
    let after = equip_result(items, k);
    if b == items[k].bucket {
        assert forall|j: int| 0 <= j < k implies !(#[trigger] after[j].bucket == b && after[j].is_equipped) by {
            assert(items[j].item_instance_id != id);
        }
        assert(first_equipped_at(after, b, k));
        lemma_first_equipped_unique(after, b, k);
        assert(after[k] == ItemInstance { is_equipped: true, ..items[k] });
    } else {
        assert forall|j: int| 0 <= j < items.len() && items[j].bucket == b implies #[trigger] after[j] == items[j] by {
        }
        if exists|i: int| first_equipped_at(items, b, i) {
            let i = choose|i: int| first_equipped_at(items, b, i);
            assert forall|j: int| 0 <= j < i implies !(#[trigger] after[j].bucket == b && after[j].is_equipped) by {
                if after[j].bucket == b {
                    assert(after[j] == items[j]);
                }
            }
            assert(after[i] == items[i]);
            assert(first_equipped_at(after, b, i));
            lemma_first_equipped_unique(after, b, i);
        } else {
            if exists|i: int| first_equipped_at(after, b, i) {
                let i = choose|i: int| first_equipped_at(after, b, i);
                assert(after[i] == items[i]);
                assert forall|j: int| 0 <= j < i implies !(#[trigger] items[j].bucket == b && items[j].is_equipped) by {
                    if items[j].bucket == b {
                        assert(after[j] == items[j]);
                    }
                }
                assert(first_equipped_at(items, b, i));
            }
        }
    }
}

/// The items a character carries, in the order they were added.
#[derive(Debug, Clone, Default)]
pub struct CharacterInventory {
    pub items: Vec<ItemInstance>,
}

impl CharacterInventory {
    pub fn new() -> (inv: Self)
        ensures
            inv.items@ == Seq::<ItemInstance>::empty(),
    {
        CharacterInventory { items: Vec::new() }
    }

    pub fn add_item(&mut self, item: ItemInstance)
        ensures
            final(self).items@ == old(self).items@.push(item),
    {
        self.items.push(item);
    }

    /// The first equipped item of `bucket`.
    pub fn get_equipped_item(&self, bucket: ItemBucketType) -> (r: Option<&ItemInstance>)
        ensures
            match r {
                Some(it) => equipped_item(self.items@, bucket) == Some(*it),
                None => equipped_item(self.items@, bucket) is None,
            },
    {
        let mut i: usize = 0;
        while i < self.items.len()
            invariant
                i <= self.items@.len(),
                forall|j: int| 0 <= j < i ==> !(#[trigger] self.items@[j].bucket == bucket && self.items@[j].is_equipped),
            decreases self.items@.len() - i,
        {
            if self.items[i].bucket == bucket && self.items[i].is_equipped {
                proof {
                    lemma_first_equipped_unique(self.items@, bucket, i as int);
                }
                return Some(&self.items[i]);
            }
            i += 1;
        }
        None
    }

    /// The index of the first item with `instance_id`.
    fn find_index(&self, instance_id: u64) -> (r: Option<usize>)
        ensures
            match r {
                Some(k) => index_of_id(self.items@, instance_id) == Some(k as int),
                None => index_of_id(self.items@, instance_id) is None,
            },
    {
        let n = self.items.len();
        let mut k: usize = 0;
        while k < n
            invariant
                k <= n == self.items@.len(),
                forall|j: int| 0 <= j < k ==> #[trigger] self.items@[j].item_instance_id != instance_id,
            decreases n - k,
        {
            if self.items[k].item_instance_id == instance_id {
                proof {
                    lemma_first_with_id_unique(self.items@, instance_id, k as int);
                }
                return Some(k);
            }
            k += 1;
        }
        None
    }

    /// Equips the item with `instance_id` and unequips the other items of its
    /// bucket. Returns false, changing nothing, when no item has that id.
    pub fn equip_item(&mut self, instance_id: u64) -> (found: bool)
        ensures
            found == (index_of_id(old(self).items@, instance_id) is Some),
            match index_of_id(old(self).items@, instance_id) {
                Some(k) => final(self).items@ == equip_result(old(self).items@, k),
                None => final(self).items@ == old(self).items@,
            },
            final(self).items@.len() == old(self).items@.len(),
            found ==> forall|j: int|
                0 <= j < final(self).items@.len() && #[trigger] final(self).items@[j].bucket
                    == old(self).items@[index_of_id(old(self).items@, instance_id)->0].bucket
                    ==> (final(self).items@[j].is_equipped <==> final(self).items@[j].item_instance_id
                    == instance_id),
    {
        proof {
            if index_of_id(self.items@, instance_id) is Some {
                lemma_equip_unequips_rest(self.items@, instance_id);
            }
        }
        let n = self.items.len();
        let k = match self.find_index(instance_id) {
            Some(k) => k,
            None => {
                return false;
            },
        };
        let target_bucket = self.items[k].bucket;
        let ghost orig = self.items@;
        let mut i: usize = 0;
        while i < n
            invariant
                i <= n == self.items@.len() == orig.len(),
                k < n,
                orig[k as int].bucket == target_bucket,
                orig[k as int].item_instance_id == instance_id,
                forall|j: int| 0 <= j < i ==> #[trigger] self.items@[j] == equip_result(orig, k as int)[j],
                forall|j: int| i <= j < n ==> #[trigger] self.items@[j] == orig[j],
            decreases n - i,
        {
            let mut it = self.items[i];
            if it.bucket == target_bucket {
                it.is_equipped = it.item_instance_id == instance_id;
                self.items.set(i, it);
            }
            i += 1;
        }
        proof {
            assert(self.items@ =~= equip_result(orig, k as int));
        }
        true
    }

    /// Locks or unlocks the first item with `instance_id`. Returns false,
    /// changing nothing, when no item has that id.
    pub fn set_locked(&mut self, instance_id: u64, locked: bool) -> (found: bool)
        ensures
            found == (index_of_id(old(self).items@, instance_id) is Some),
            match index_of_id(old(self).items@, instance_id) {
                Some(k) => final(self).items@ == old(self).items@.update(
                    k,
                    ItemInstance { is_locked: locked, ..old(self).items@[k] },
                ),
                None => final(self).items@ == old(self).items@,
            },
    {
        match self.find_index(instance_id) {
            Some(k) => {
                let mut it = self.items[k];
                it.is_locked = locked;
                self.items.set(k, it);
                true
            },
            None => false,
        }
    }
}

} // verus!
