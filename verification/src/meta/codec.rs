//! The stored form determines the metadata, and the metadata its stored form.
use vstd::prelude::*;
use crate::bytes::{
    ne_u32, ne_u64, u32_decode_encode, u32_encode_decode, u32_zero_bytes, u64_decode_encode,
    u64_encode_decode, u64_zero_bytes, zeros,
};
use crate::meta::model::{
    empty_slot, list_bytes, list_from_bytes, orphan_bytes, orphan_from_bytes, state_from_image,
    HashedSlotView, MetadataState, SlotView,
};
use crate::meta::orphan::OrphanPage;

verus! {

/// The two parts of a concatenation.
proof fn parts_of_sum(a: Seq<u8>, b: Seq<u8>)
    ensures
        (a + b).len() == a.len() + b.len(),
        (a + b).subrange(0, a.len() as int) == a,
        (a + b).subrange(a.len() as int, (a.len() + b.len()) as int) == b,
        (a + b).skip(a.len() as int) == b,
{
    assert((a + b).subrange(0, a.len() as int) =~= a);
    assert((a + b).subrange(a.len() as int, (a.len() + b.len()) as int) =~= b);
    assert((a + b).skip(a.len() as int) =~= b);
}

/// A byte string is the concatenation of its first `n` bytes and the rest.
proof fn sum_of_parts(b: Seq<u8>, n: int)
    requires
        0 <= n <= b.len(),
    ensures
        b.subrange(0, n) + b.subrange(n, b.len() as int) == b,
        b.subrange(0, n) + b.skip(n) == b,
{
    assert(b.subrange(0, n) + b.subrange(n, b.len() as int) =~= b);
    assert(b.subrange(0, n) + b.skip(n) =~= b);
}

/// Where the fields of the fixed metadata are stored.
pub proof fn slot_layout(s: SlotView)
    requires
        s.root_node_hash.len() == 32,
    ensures
        s.bytes().len() == 56,
        s.bytes().subrange(0, 8) == ne_u64(s.snapshot_id),
        s.bytes().subrange(8, 40) == s.root_node_hash,
        s.bytes().subrange(40, 44) == ne_u32(s.root_node_page_id),
        s.bytes().subrange(44, 48) == ne_u32(s.page_count),
        s.bytes().subrange(48, 52) == ne_u32(s.orphan_pages_len),
        s.bytes().subrange(52, 56) == ne_u32(s.reclaimed_orphans_len),
{
    reveal(SlotView::bytes);
    u64_encode_decode(s.snapshot_id);
    u32_encode_decode(s.root_node_page_id);
    u32_encode_decode(s.page_count);
    u32_encode_decode(s.orphan_pages_len);
    u32_encode_decode(s.reclaimed_orphans_len);
    let b = s.bytes();
    assert(b.subrange(0, 8) =~= ne_u64(s.snapshot_id));
    assert(b.subrange(8, 40) =~= s.root_node_hash);
    assert(b.subrange(40, 44) =~= ne_u32(s.root_node_page_id));
    assert(b.subrange(44, 48) =~= ne_u32(s.page_count));
    assert(b.subrange(48, 52) =~= ne_u32(s.orphan_pages_len));
    assert(b.subrange(52, 56) =~= ne_u32(s.reclaimed_orphans_len));
}

/// Where the parts of a slot are stored.
pub proof fn hashed_slot_layout(s: HashedSlotView)
    requires
        s.meta.root_node_hash.len() == 32,
    ensures
        s.bytes().len() == 64,
        s.bytes().subrange(0, 56) == s.meta.bytes(),
        s.bytes().subrange(56, 64) == ne_u64(s.hash),
{
    slot_layout(s.meta);
    u64_encode_decode(s.hash);
    parts_of_sum(s.meta.bytes(), ne_u64(s.hash));
}

/// Where the fields of a list entry are stored.
pub proof fn orphan_layout(orphan: OrphanPage)
    ensures
        orphan_bytes(orphan).len() == 16,
        orphan_bytes(orphan).subrange(0, 4) == ne_u32(orphan.page_id),
        orphan_bytes(orphan).subrange(4, 8) == ne_u32(orphan.padding),
        orphan_bytes(orphan).subrange(8, 16) == ne_u64(orphan.orphaned_at),
{
    u32_encode_decode(orphan.page_id);
    u32_encode_decode(orphan.padding);
    u64_encode_decode(orphan.orphaned_at);
    let b = orphan_bytes(orphan);
    assert(b.subrange(0, 4) =~= ne_u32(orphan.page_id));
    assert(b.subrange(4, 8) =~= ne_u32(orphan.padding));
    assert(b.subrange(8, 16) =~= ne_u64(orphan.orphaned_at));
}

/// Where the entries of the orphan page list are stored.
pub proof fn list_layout(list: Seq<OrphanPage>)
    ensures
        list_bytes(list).len() == 16 * list.len(),
        forall|i: int|
            0 <= i < list.len() ==> list_bytes(list).subrange(16 * i, 16 * i + 16) == orphan_bytes(
                #[trigger] list[i],
            ),
{
    assert forall|i: int| 0 <= i < list.len() implies list_bytes(list).subrange(
        16 * i,
        16 * i + 16,
    ) == orphan_bytes(#[trigger] list[i]) by {
        orphan_layout(list[i]);
        assert(list_bytes(list).subrange(16 * i, 16 * i + 16) =~= orphan_bytes(list[i]));
    }
}

/// Reading the fixed metadata gives back what was written.
pub proof fn slot_encode_decode(s: SlotView)
    requires
        s.valid(),
    ensures
        s.bytes().len() == 56,
        SlotView::from_bytes(s.bytes()) == s,
{
    reveal(SlotView::from_bytes);
    slot_layout(s);
    u64_encode_decode(s.snapshot_id);
    u32_encode_decode(s.root_node_page_id);
    u32_encode_decode(s.page_count);
    u32_encode_decode(s.orphan_pages_len);
    u32_encode_decode(s.reclaimed_orphans_len);
}

/// Writing the fixed metadata gives back what was read.
pub proof fn slot_decode_encode(b: Seq<u8>)
    requires
        b.len() == 56,
    ensures
        SlotView::from_bytes(b).valid(),
        SlotView::from_bytes(b).bytes() == b,
{
    reveal(SlotView::bytes);
    reveal(SlotView::from_bytes);
    u64_decode_encode(b.subrange(0, 8));
    u32_decode_encode(b.subrange(40, 44));
    u32_decode_encode(b.subrange(44, 48));
    u32_decode_encode(b.subrange(48, 52));
    u32_decode_encode(b.subrange(52, 56));
    assert(SlotView::from_bytes(b).bytes() =~= b);
}

/// Reading a slot gives back what was written.
pub proof fn hashed_slot_encode_decode(s: HashedSlotView)
    requires
        s.meta.valid(),
    ensures
        s.bytes().len() == 64,
        HashedSlotView::from_bytes(s.bytes()) == s,
{
    slot_encode_decode(s.meta);
    u64_encode_decode(s.hash);
    parts_of_sum(s.meta.bytes(), ne_u64(s.hash));
}

/// Writing a slot gives back what was read.
pub proof fn hashed_slot_decode_encode(b: Seq<u8>)
    requires
        b.len() == 64,
    ensures
        HashedSlotView::from_bytes(b).meta.valid(),
        HashedSlotView::from_bytes(b).bytes() == b,
{
    slot_decode_encode(b.subrange(0, 56));
    u64_decode_encode(b.subrange(56, 64));
    sum_of_parts(b, 56);
}

/// A slot was never written exactly if all its fields are zero.
pub proof fn empty_slot_fields(s: HashedSlotView)
    requires
        s.meta.valid(),
    ensures
        s.is_empty() <==> s == empty_slot(),
        s.is_empty() <==> {
            &&& s.meta.snapshot_id == 0
            &&& s.meta.root_node_hash == zeros(32)
            &&& s.meta.root_node_page_id == 0
            &&& s.meta.page_count == 0
            &&& s.meta.orphan_pages_len == 0
            &&& s.meta.reclaimed_orphans_len == 0
            &&& s.hash == 0
        },
{
    let e = empty_slot();
    u64_zero_bytes(0);
    u32_zero_bytes(0);
    assert(e.bytes() =~= zeros(64)) by {
        reveal(SlotView::bytes);
    }
    hashed_slot_encode_decode(s);
    hashed_slot_encode_decode(e);
}

/// Reading a list entry gives back what was written.
pub proof fn orphan_encode_decode(orphan: OrphanPage)
    ensures
        orphan_bytes(orphan).len() == 16,
        orphan_from_bytes(orphan_bytes(orphan)) == orphan,
{
    orphan_layout(orphan);
    u32_encode_decode(orphan.page_id);
    u32_encode_decode(orphan.padding);
    u64_encode_decode(orphan.orphaned_at);
}

/// Writing a list entry gives back what was read.
pub proof fn orphan_decode_encode(b: Seq<u8>)
    requires
        b.len() == 16,
    ensures
        orphan_bytes(orphan_from_bytes(b)) == b,
{
    u32_decode_encode(b.subrange(0, 4));
    u32_decode_encode(b.subrange(4, 8));
    u64_decode_encode(b.subrange(8, 16));
    assert(orphan_bytes(orphan_from_bytes(b)) =~= b);
}

/// Reading the orphan page list gives back what was written.
pub proof fn list_encode_decode(list: Seq<OrphanPage>)
    ensures
        list_from_bytes(list_bytes(list)) == list,
{
    let b = list_bytes(list);
    assert forall|i: int| 0 <= i < list.len() implies orphan_from_bytes(
        b.subrange(16 * i, 16 * i + 16),
    ) == list[i] by {
        orphan_encode_decode(list[i]);
        assert(b.subrange(16 * i, 16 * i + 16) =~= orphan_bytes(list[i]));
    }
    assert(list_from_bytes(b) =~= list);
}

/// Writing the orphan page list gives back what was read.
pub proof fn list_decode_encode(b: Seq<u8>)
    requires
        b.len() % 16 == 0,
    ensures
        list_bytes(list_from_bytes(b)) == b,
{
    let list = list_from_bytes(b);
    assert forall|k: int| 0 <= k < b.len() implies orphan_bytes(list[k / 16])[k % 16] == b[k] by {
        let i = k / 16;
        orphan_decode_encode(b.subrange(16 * i, 16 * i + 16));
    }
    assert(list_bytes(list) =~= b);
}

/// Where the parts of an image stand.
pub proof fn image_layout(state: MetadataState)
    requires
        state.valid(),
    ensures
        state.image().len() == 128 + 16 * state.list.len(),
        state.image().subrange(0, 64) == state.slot0.bytes(),
        state.image().subrange(64, 128) == state.slot1.bytes(),
        state.image().skip(128) == list_bytes(state.list),
{
    hashed_slot_encode_decode(state.slot0);
    hashed_slot_encode_decode(state.slot1);
    let slots = state.slot0.bytes() + state.slot1.bytes();
    parts_of_sum(state.slot0.bytes(), state.slot1.bytes());
    parts_of_sum(slots, list_bytes(state.list));
    assert(state.image().subrange(0, 64) =~= slots.subrange(0, 64));
    assert(state.image().subrange(64, 128) =~= slots.subrange(64, 128));
}

/// Reading an image gives back what was written.
pub proof fn image_encode_decode(state: MetadataState)
    requires
        state.valid(),
    ensures
        state_from_image(state.image(), state.active) == state,
{
    image_layout(state);
    hashed_slot_encode_decode(state.slot0);
    hashed_slot_encode_decode(state.slot1);
    list_encode_decode(state.list);
}

/// Writing an image gives back what was read.
pub proof fn image_decode_encode(image: Seq<u8>, active: int)
    requires
        image.len() >= 128,
        image.len() % 16 == 0,
    ensures
        state_from_image(image, active).valid(),
        state_from_image(image, active).image() == image,
{
    hashed_slot_decode_encode(image.subrange(0, 64));
    hashed_slot_decode_encode(image.subrange(64, 128));
    list_decode_encode(image.skip(128));
    sum_of_parts(image, 128);
    sum_of_parts(image.subrange(0, 128), 64);
    assert(image.subrange(0, 128).subrange(0, 64) =~= image.subrange(0, 64));
    assert(image.subrange(0, 128).subrange(64, 128) =~= image.subrange(64, 128));
}

} // verus!
