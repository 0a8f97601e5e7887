//! The slot map that a registry keeps its fonts in.
//!
//! The map comes from the `slotmap` crate and is only ever grown here: fonts
//! are inserted and looked up, never removed. What it holds is named by
//! [`slot_entries`], in the order of insertion, which for a map without
//! vacant slots is the order in which the map walks its slots.

use vstd::prelude::*;
use slotmap::{DefaultKey, Key, SlotMap};
use crate::font::UiFont;

verus! {

#[verifier::external_type_specification]
#[verifier::external_body]
pub struct ExDefaultKey(DefaultKey);

/// The handle of a font in a registry.
#[derive(Clone, Copy, Debug, PartialEq, Eq, Hash)]
pub struct FontId {
    key: DefaultKey,
}

/// The fonts of a registry, each in a slot of its own.
#[verifier::external_body]
pub struct FontSlots<'s> {
    inner: SlotMap<DefaultKey, UiFont<'s>>,
}

/// The number of fonts that a map can take: one slot is the map's own, and
/// the count of slots has to stay under `u32::MAX`.
pub const SLOT_LIMIT: usize = 0xFFFF_FFFE;

/// The fonts in the map with their handles, in the order they were inserted.
pub uninterp spec fn slot_entries(slots: FontSlots<'_>) -> Seq<(FontId, UiFont<'static>)>;

/// Whether some entry has this handle.
pub open spec fn has_id(entries: Seq<(FontId, UiFont<'_>)>, id: FontId) -> bool {
    exists|i: int| 0 <= i < entries.len() && (#[trigger] entries[i]).0 == id
}

impl FontId {
    /// The handle's number in hexadecimal, to tell fonts apart in messages.
    /// Calls `KeyData::as_ffi` and formats the number.
    #[verifier::external_body]
    pub fn label(&self) -> (r: String) {
        format!("{:X}", self.key.data().as_ffi())
    }
}

/// Calls `SlotMap::new`: a map that holds nothing.
#[verifier::external_body]
pub(crate) fn new_slots<'s>() -> (r: FontSlots<'s>)
    ensures
        slot_entries(r).len() == 0,
{
    FontSlots { inner: SlotMap::new() }
}

/// Calls `SlotMap::len`.
#[verifier::external_body]
pub(crate) fn slot_count(slots: &FontSlots) -> (r: usize)
    ensures
        r == slot_entries(*slots).len(),
{
    slots.inner.len()
}

/// Calls `SlotMap::insert`, which, with no slot vacant, appends a slot and
/// returns a key that no other entry has. It panics on a full map, which
/// `requires` rules out.
#[verifier::external_body]
pub(crate) fn slot_insert<'s>(slots: &mut FontSlots<'s>, font: UiFont<'s>) -> (id: FontId)
    requires
        slot_entries(*old(slots)).len() < SLOT_LIMIT,
    ensures
        slot_entries(*final(slots)) == slot_entries(*old(slots)).push((id, font)),
        !has_id(slot_entries(*old(slots)), id),
{
    FontId { key: slots.inner.insert(font) }
}

/// Calls `SlotMap::keys` and collects the keys, which come in slot order.
#[verifier::external_body]
pub(crate) fn slot_ids(slots: &FontSlots) -> (r: Vec<FontId>)
    ensures
        r@.len() == slot_entries(*slots).len(),
        forall|i: int| 0 <= i < r@.len() ==> r@[i] == (#[trigger] slot_entries(*slots)[i]).0,
{
    slots.inner.keys().map(|key| FontId { key }).collect()
}

/// Calls `SlotMap::get`: the font stored under the key, if there is one.
#[verifier::external_body]
pub(crate) fn slot_get<'a, 's>(slots: &'a FontSlots<'s>, id: FontId) -> (r: Option<&'a UiFont<'s>>)
    ensures
        match r {
            Some(font) => exists|i: int|
                0 <= i < slot_entries(*slots).len() && #[trigger] slot_entries(*slots)[i] == (
                    id,
                    *font,
                ),
            None => !has_id(slot_entries(*slots), id),
        },
{
    slots.inner.get(id.key)
}

/// Calls `SlotMap::get_mut` for a key that the map holds. What the caller
/// leaves behind the reference is what the entry holds afterwards.
#[verifier::external_body]
pub(crate) fn slot_get_mut<'a, 's>(slots: &'a mut FontSlots<'s>, id: FontId) -> (r: &'a mut UiFont<
    's,
>)
    requires
        has_id(slot_entries(*old(slots)), id),
    ensures
        exists|i: int|
            0 <= i < slot_entries(*old(slots)).len() && #[trigger] slot_entries(*old(slots))[i]
                == (id, *r) && slot_entries(*final(slots)) == slot_entries(*old(slots)).update(
                i,
                (id, *final(r)),
            ),
{
    slots.inner.get_mut(id.key).unwrap()
}

} // verus!
