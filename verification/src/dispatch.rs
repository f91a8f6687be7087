//! Event dispatch: what the loop does with each item of the event stream.
//!
//! The loop has two states, running and stopped. Each stream item either
//! keeps it running (a copy for a known watch identifier, a logged skip for
//! an unknown one) or stops it (a stream error fatally, the end of the
//! stream cleanly). The decision is a pure lookup in the watch table;
//! carrying out the copy — and stopping on a failed copy — is the caller's.

use vstd::prelude::*;

verus! {

use crate::resolve::ResolvedTarget;
use crate::table::WatchTable;

/// One item of the event stream, as the dispatch loop sees it: an event
/// carrying its watch identifier, an error reported by the stream itself, or
/// the end of the stream.
pub enum StreamItem {
    Event(i64),
    StreamError,
    EndOfStream,
}

/// What the loop does with one stream item.
pub enum DispatchAction<'a> {
    /// Perform the reconciliation copy of this resolved target, then read
    /// the next item.
    CopyTo(&'a ResolvedTarget),
    /// The event's watch identifier is unknown: log it, copy nothing, and
    /// read the next item.
    Skip,
    /// The stream reported an error: stop, and propagate it as fatal.
    StopError,
    /// The stream ended: stop cleanly.
    StopClean,
}

impl<'a> DispatchAction<'a> {
    /// Whether this action ends the loop (transitions it to its stopped
    /// state).
    pub fn stops(&self) -> (r: bool)
        ensures
            r == (*self is StopError || *self is StopClean),
    {
        match self {
            DispatchAction::StopError => true,
            DispatchAction::StopClean => true,
            _ => false,
        }
    }
}

/// What dispatching `item` against `table` must come to: the copy action
/// registered under a known event identifier, a skip for an unknown one, a
/// fatal stop for a stream error, a clean stop at the end of the stream.
pub open spec fn dispatch_post(
    table: Map<i64, ResolvedTarget>,
    item: StreamItem,
    a: DispatchAction,
) -> bool {
    match item {
        StreamItem::Event(wd) => {
            if table.contains_key(wd) {
                a matches DispatchAction::CopyTo(t) && *t == table[wd]
            } else {
                a is Skip
            }
        },
        StreamItem::StreamError => a is StopError,
        StreamItem::EndOfStream => a is StopClean,
    }
}

/// Decides what one stream item leads to. An event is dispatched to the copy
/// action its watch identifier is registered under; an unknown identifier is
/// skipped, never copied and never fatal; a stream error stops the loop
/// fatally; the end of the stream stops it cleanly.
pub fn dispatch_step<'a>(table: &'a WatchTable, item: &StreamItem) -> (a: DispatchAction<'a>)
    ensures
        dispatch_post(table@, *item, a),
{
    match item {
        StreamItem::Event(wd) => match table.get(*wd) {
            Some(t) => DispatchAction::CopyTo(t),
            None => DispatchAction::Skip,
        },
        StreamItem::StreamError => DispatchAction::StopError,
        StreamItem::EndOfStream => DispatchAction::StopClean,
    }
}

/// An event whose watch identifier the table does not know can only be
/// skipped: dispatching it never triggers a copy and never stops the loop.
pub proof fn lemma_unknown_watch_is_skipped(
    table: Map<i64, ResolvedTarget>,
    wd: i64,
    a: DispatchAction,
)
    requires
        !table.contains_key(wd),
        dispatch_post(table, StreamItem::Event(wd), a),
    ensures
        a is Skip,
        !(a is CopyTo),
        !(a is StopError),
        !(a is StopClean),
{
}

} // verus!
