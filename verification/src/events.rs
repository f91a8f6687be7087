//! Filesystem change-event kinds and the bitmask values used to register a
//! watch for them.
//!
//! A mask is a `u32` in which each primitive event kind owns one bit (the
//! conventional Linux inotify bit layout); the compound kinds `All`, `Move`
//! and `Close` stand for fixed unions of primitive bits, and `DontFollow`,
//! `ExclUnlink` and `Oneshot` are registration modifiers carried in the same
//! word.

use vstd::prelude::*;

verus! {

/// One configurable event kind: a primitive filesystem event, a compound
/// alias for a group of them, or a watch-registration modifier.
#[derive(Clone, Copy, Debug, PartialEq, Eq, Structural)]
pub enum NotifyEvent {
    Access,
    Attrib,
    CloseWrite,
    CloseNoWrite,
    Create,
    Delete,
    DeleteSelf,
    Modify,
    MoveSelf,
    MovedFrom,
    MovedTo,
    Open,
    All,
    Move,
    Close,
    DontFollow,
    ExclUnlink,
    Oneshot,
}

/// The mask bits of one event kind.
pub open spec fn event_bits(e: NotifyEvent) -> u32 {
    match e {
        NotifyEvent::Access => 0x0000_0001u32,
        NotifyEvent::Modify => 0x0000_0002u32,
        NotifyEvent::Attrib => 0x0000_0004u32,
        NotifyEvent::CloseWrite => 0x0000_0008u32,
        NotifyEvent::CloseNoWrite => 0x0000_0010u32,
        NotifyEvent::Open => 0x0000_0020u32,
        NotifyEvent::MovedFrom => 0x0000_0040u32,
        NotifyEvent::MovedTo => 0x0000_0080u32,
        NotifyEvent::Create => 0x0000_0100u32,
        NotifyEvent::Delete => 0x0000_0200u32,
        NotifyEvent::DeleteSelf => 0x0000_0400u32,
        NotifyEvent::MoveSelf => 0x0000_0800u32,
        NotifyEvent::All => 0x0000_0fffu32,
        NotifyEvent::Move => 0x0000_08c0u32,
        NotifyEvent::Close => 0x0000_0018u32,
        NotifyEvent::DontFollow => 0x0200_0000u32,
        NotifyEvent::ExclUnlink => 0x0400_0000u32,
        NotifyEvent::Oneshot => 0x8000_0000u32,
    }
}

/// The mask obtained by taking the union of the bits of every kind in `events`.
pub open spec fn mask_of(events: Seq<NotifyEvent>) -> u32
    decreases events.len(),
{
    if events.len() == 0 {
        0u32
    } else {
        mask_of(events.drop_last()) | event_bits(events.last())
    }
}

impl NotifyEvent {
    /// The mask bits of this event kind.
    pub fn bits(&self) -> (r: u32)
        ensures
            r == event_bits(*self),
    {
        match self {
            NotifyEvent::Access => 0x0000_0001u32,
            NotifyEvent::Modify => 0x0000_0002u32,
            NotifyEvent::Attrib => 0x0000_0004u32,
            NotifyEvent::CloseWrite => 0x0000_0008u32,
            NotifyEvent::CloseNoWrite => 0x0000_0010u32,
            NotifyEvent::Open => 0x0000_0020u32,
            NotifyEvent::MovedFrom => 0x0000_0040u32,
            NotifyEvent::MovedTo => 0x0000_0080u32,
            NotifyEvent::Create => 0x0000_0100u32,
            NotifyEvent::Delete => 0x0000_0200u32,
            NotifyEvent::DeleteSelf => 0x0000_0400u32,
            NotifyEvent::MoveSelf => 0x0000_0800u32,
            NotifyEvent::All => 0x0000_0fffu32,
            NotifyEvent::Move => 0x0000_08c0u32,
            NotifyEvent::Close => 0x0000_0018u32,
            NotifyEvent::DontFollow => 0x0200_0000u32,
            NotifyEvent::ExclUnlink => 0x0400_0000u32,
            NotifyEvent::Oneshot => 0x8000_0000u32,
        }
    }
}

/// Union of the bits of every kind in `events`, the mask handed to watch
/// registration.
pub fn mask_of_events(events: &Vec<NotifyEvent>) -> (r: u32)
    ensures
        r == mask_of(events@),
{
    let mut r: u32 = 0;
    let mut i: usize = 0;
    while i < events.len()
        invariant
            i <= events.len(),
            r == mask_of(events@.take(i as int)),
        decreases events.len() - i,
    {
        proof {
            assert(events@.take(i + 1).drop_last() =~= events@.take(i as int));
            assert(events@.take(i + 1).last() == events@[i as int]);
        }
        r = r | events[i].bits();
        i = i + 1;
    }
    proof {
        assert(events@.take(events@.len() as int) =~= events@);
    }
    r
}

/// Whether a delivered event whose mask word is `event_bits_word` carries a
/// kind selected by the registered mask `mask`.
pub open spec fn spec_mask_selects(mask: u32, event_bits_word: u32) -> bool {
    mask & event_bits_word != 0
}

/// Whether an event of kind `kind` would be delivered for a watch registered
/// with `mask`: true exactly when the mask and the kind share a bit.
pub fn mask_selects(mask: u32, kind: NotifyEvent) -> (r: bool)
    ensures
        r == spec_mask_selects(mask, event_bits(kind)),
{
    mask & kind.bits() != 0
}

/// Mask union is commutative: combining kinds into a mask does not depend on
/// the order of the two operands.
pub proof fn lemma_mask_union_commutative(a: u32, b: u32)
    ensures
        a | b == b | a,
{
    assert(a | b == b | a) by (bit_vector);
}

/// Mask union is associative: combining kinds into a mask does not depend on
/// the grouping of the operands.
pub proof fn lemma_mask_union_associative(a: u32, b: u32, c: u32)
    ensures
        (a | b) | c == a | (b | c),
{
    assert((a | b) | c == a | (b | c)) by (bit_vector);
}

/// The mask of a list of kinds is order-independent: every kind contributes
/// its bits by union, so the mask of a list extended by one more kind is the
/// union of the list's mask and that kind's bits, wherever the kind stands.
pub proof fn lemma_mask_of_insert(events: Seq<NotifyEvent>, i: int, e: NotifyEvent)
    requires
        0 <= i <= events.len(),
    ensures
        mask_of(events.insert(i, e)) == mask_of(events) | event_bits(e),
    decreases events.len(),
{
    if i == events.len() {
        assert(events.insert(i, e).drop_last() =~= events);
    } else {
        let grown = events.insert(i, e);
        assert(grown.drop_last() =~= events.drop_last().insert(i, e));
        lemma_mask_of_insert(events.drop_last(), i, e);
        lemma_mask_union_commutative(mask_of(events.drop_last()), event_bits(e));
        lemma_mask_union_associative(
            event_bits(e),
            mask_of(events.drop_last()),
            event_bits(events.last()),
        );
        lemma_mask_union_commutative(
            event_bits(e),
            mask_of(events.drop_last()) | event_bits(events.last()),
        );
    }
}

} // verus!
