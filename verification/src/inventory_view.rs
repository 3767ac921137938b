//! Which of the player's items a list shows, and in what order: the
//! equipped items slot by slot, then the backpack.
use vstd::prelude::*;

verus! {

/// Where a listed item is found.
#[derive(Debug, Clone, Copy, PartialEq, Eq, Structural)]
pub enum ItemRef {
    /// In equipment slot `i`.
    Equipped(usize),
    /// At position `i` of the backpack.
    Backpack(usize),
}

/// The equipment slots that hold an item, in slot order.
pub open spec fn equipped_refs(filled: Seq<bool>) -> Seq<ItemRef>
    decreases filled.len(),
{
    if filled.len() == 0 {
        seq![]
    } else {
        equipped_refs(filled.drop_last()) + if filled.last() {
            seq![ItemRef::Equipped((filled.len() - 1) as usize)]
        } else {
            seq![]
        }
    }
}

/// The backpack positions whose item is kept, in backpack order.
pub open spec fn backpack_refs(kept: Seq<bool>) -> Seq<ItemRef>
    decreases kept.len(),
{
    if kept.len() == 0 {
        seq![]
    } else {
        backpack_refs(kept.drop_last()) + if kept.last() {
            seq![ItemRef::Backpack((kept.len() - 1) as usize)]
        } else {
            seq![]
        }
    }
}

fn push_equipped(out: &mut Vec<ItemRef>, filled: &Vec<bool>)
    ensures
        final(out)@ == old(out)@ + equipped_refs(filled@),
{
    let ghost start = out@;
    for i in 0..filled.len()
        invariant
            out@ == start + equipped_refs(filled@.take(i as int)),
    {
        proof {
            assert(filled@.take(i + 1).drop_last() =~= filled@.take(i as int));
            assert(filled@.take(i + 1).last() == filled@[i as int]);
        }
        if filled[i] {
            out.push(ItemRef::Equipped(i));
        }
        assert(out@ =~= start + equipped_refs(filled@.take(i + 1)));
    }
    assert(filled@.take(filled.len() as int) =~= filled@);
}

fn push_backpack(out: &mut Vec<ItemRef>, kept: &Vec<bool>)
    ensures
        final(out)@ == old(out)@ + backpack_refs(kept@),
{
    let ghost start = out@;
    for i in 0..kept.len()
        invariant
            out@ == start + backpack_refs(kept@.take(i as int)),
    {
        proof {
            assert(kept@.take(i + 1).drop_last() =~= kept@.take(i as int));
            assert(kept@.take(i + 1).last() == kept@[i as int]);
        }
        if kept[i] {
            out.push(ItemRef::Backpack(i));
        }
        assert(out@ =~= start + backpack_refs(kept@.take(i + 1)));
    }
    assert(kept@.take(kept.len() as int) =~= kept@);
}

/// All the player's items: the filled equipment slots (`filled[i]` tells
/// whether slot `i` holds an item), then every backpack item.
pub fn collect_player_items(filled: &Vec<bool>, backpack_len: usize) -> (items: Vec<ItemRef>)
    ensures
        items@ == equipped_refs(filled@) + Seq::new(
            backpack_len as nat,
            |i: int| ItemRef::Backpack(i as usize),
        ),
{
    let mut items: Vec<ItemRef> = Vec::new();
    push_equipped(&mut items, filled);
    let ghost start = items@;
    for i in 0..backpack_len
        invariant
            items@ == start + Seq::new(i as nat, |j: int| ItemRef::Backpack(j as usize)),
    {
        items.push(ItemRef::Backpack(i));
        assert(items@ =~= start + Seq::new((i + 1) as nat, |j: int| ItemRef::Backpack(j as usize)));
    }
    assert(items@ =~= equipped_refs(filled@) + Seq::new(
        backpack_len as nat,
        |i: int| ItemRef::Backpack(i as usize),
    ));
    items
}

/// The player's equipment: the filled equipment slots, then the backpack
/// items that are equipment (`is_equipment[i]`); materials cannot be
/// upgraded, so they are left out.
pub fn collect_player_equipment(filled: &Vec<bool>, is_equipment: &Vec<bool>) -> (items: Vec<ItemRef>)
    ensures
        items@ == equipped_refs(filled@) + backpack_refs(is_equipment@),
{
    let mut items: Vec<ItemRef> = Vec::new();
    push_equipped(&mut items, filled);
    push_backpack(&mut items, is_equipment);
    assert(items@ =~= equipped_refs(filled@) + backpack_refs(is_equipment@));
    items
}

/// Every backpack position of a backpack of `n` items, in order.
pub open spec fn all_backpack(n: nat) -> Seq<ItemRef> {
    Seq::new(n, |i: int| ItemRef::Backpack(i as usize))
}

/// Whether a listed item is kept in the equipment list: equipped items
/// always, backpack items when they are equipment.
pub open spec fn is_kept(r: ItemRef, is_equipment: Seq<bool>) -> bool {
    match r {
        ItemRef::Equipped(_) => true,
        ItemRef::Backpack(i) => i < is_equipment.len() && is_equipment[i as int],
    }
}

/// The items of `refs` that are kept, in order.
pub open spec fn keep_equipment(refs: Seq<ItemRef>, is_equipment: Seq<bool>) -> Seq<ItemRef>
    decreases refs.len(),
{
    if refs.len() == 0 {
        seq![]
    } else {
        let rest = keep_equipment(refs.drop_last(), is_equipment);
        if is_kept(refs.last(), is_equipment) {
            rest.push(refs.last())
        } else {
            rest
        }
    }
}

proof fn lemma_keep_concat(a: Seq<ItemRef>, b: Seq<ItemRef>, e: Seq<bool>)
    ensures
        keep_equipment(a + b, e) == keep_equipment(a, e) + keep_equipment(b, e),
    decreases b.len(),
{
    if b.len() == 0 {
        assert(a + b =~= a);
        assert(keep_equipment(a, e) + keep_equipment(b, e) =~= keep_equipment(a, e));
    } else {
        lemma_keep_concat(a, b.drop_last(), e);
        assert((a + b).drop_last() =~= a + b.drop_last());
        assert((a + b).last() == b.last());
        let ka = keep_equipment(a, e);
        let kb = keep_equipment(b.drop_last(), e);
        assert((ka + kb).push(b.last()) =~= ka + kb.push(b.last()));
    }
}

proof fn lemma_keep_equipped(filled: Seq<bool>, e: Seq<bool>)
    ensures
        keep_equipment(equipped_refs(filled), e) == equipped_refs(filled),
    decreases filled.len(),
{
    if filled.len() > 0 {
        let p = filled.drop_last();
        lemma_keep_equipped(p, e);
        let tail = if filled.last() {
            seq![ItemRef::Equipped((filled.len() - 1) as usize)]
        } else {
            Seq::<ItemRef>::empty()
        };
        lemma_keep_concat(equipped_refs(p), tail, e);
        if filled.last() {
            let one = seq![ItemRef::Equipped((filled.len() - 1) as usize)];
            assert(one.drop_last() =~= Seq::<ItemRef>::empty());
            assert(keep_equipment(Seq::<ItemRef>::empty(), e) == Seq::<ItemRef>::empty());
            assert(one.last() == ItemRef::Equipped((filled.len() - 1) as usize));
            assert(keep_equipment(one, e) =~= one);
        } else {
            assert(keep_equipment(tail, e) =~= tail);
        }
    }
}

proof fn lemma_keep_backpack(e: Seq<bool>, k: nat)
    requires
        k <= e.len() <= usize::MAX,
    ensures
        keep_equipment(all_backpack(k), e) == backpack_refs(e.take(k as int)),
    decreases k,
{
    if k > 0 {
        let j = (k - 1) as nat;
        lemma_keep_backpack(e, j);
        assert(all_backpack(k).drop_last() =~= all_backpack(j));
        assert(all_backpack(k).last() == ItemRef::Backpack(j as usize));
        assert(e.take(k as int).drop_last() =~= e.take(j as int));
        assert(e.take(k as int).last() == e[j as int]);
        assert((j as usize) as int == j);
        assert(is_kept(ItemRef::Backpack(j as usize), e) == e[j as int]);
        if e[j as int] {
            assert(backpack_refs(e.take(k as int)) =~= backpack_refs(e.take(j as int)).push(
                ItemRef::Backpack(j as usize),
            ));
        } else {
            assert(backpack_refs(e.take(k as int)) =~= backpack_refs(e.take(j as int)));
        }
    } else {
        assert(all_backpack(0) =~= Seq::<ItemRef>::empty());
        assert(e.take(0) =~= Seq::<bool>::empty());
    }
}

/// Law of the item lists: the equipment list is the list of all items (for
/// a backpack of as many items as there are flags) with the backpack items
/// that are not equipment taken out, in the same order; every equipped item
/// stays.
pub proof fn lemma_equipment_is_filtered_items(filled: Seq<bool>, is_equipment: Seq<bool>)
    requires
        is_equipment.len() <= usize::MAX,
    ensures
        equipped_refs(filled) + backpack_refs(is_equipment) == keep_equipment(
            equipped_refs(filled) + all_backpack(is_equipment.len()),
            is_equipment,
        ),
{
    lemma_keep_concat(equipped_refs(filled), all_backpack(is_equipment.len()), is_equipment);
    lemma_keep_equipped(filled, is_equipment);
    lemma_keep_backpack(is_equipment, is_equipment.len());
    assert(is_equipment.take(is_equipment.len() as int) =~= is_equipment);
}

} // verus!
