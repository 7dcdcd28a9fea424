//! Echo suppression: distinguishing "the clipboard changed because this
//! process wrote it" from "the clipboard changed because the user or another
//! application wrote it".
use vstd::prelude::*;

use crate::content::{
    clone_content, content_eq, content_is_empty, same_variant, ClipboardContent, ContentModel,
};

verus! {

/// The value the tracker is currently prepared to ignore because the local
/// process itself just wrote it.
pub enum EchoExpectation {
    /// No local write is outstanding.
    Idle,
    /// A local write of this snapshot was issued and has not yet been
    /// observed echoing back from the system clipboard.
    Expecting(ClipboardContent),
}

/// The mathematical value of an expectation.
pub enum ExpectationModel {
    Idle,
    Expecting(ContentModel),
}

impl View for EchoExpectation {
    type V = ExpectationModel;

    open spec fn view(&self) -> ExpectationModel {
        match self {
            EchoExpectation::Idle => ExpectationModel::Idle,
            EchoExpectation::Expecting(c) => ExpectationModel::Expecting(c@),
        }
    }
}

/// Tracks the most recent locally-written value and the last snapshot the
/// detector observed, so a poll tick can decide whether a fresh read is a
/// genuine external change.
pub struct EchoTracker {
    pub expectation: EchoExpectation,
    pub last_observed: ClipboardContent,
}

/// The mathematical value of a tracker.
pub struct TrackerModel {
    pub expectation: ExpectationModel,
    pub last_observed: ContentModel,
}

impl View for EchoTracker {
    type V = TrackerModel;

    open spec fn view(&self) -> TrackerModel {
        TrackerModel { expectation: self.expectation@, last_observed: self.last_observed@ }
    }
}

/// The fresh read is exactly the value an outstanding local write is waiting
/// to see echo back.
pub open spec fn is_echo(t: TrackerModel, cur: ContentModel) -> bool {
    t.expectation matches ExpectationModel::Expecting(s) && cur == s
}

/// Whether one poll tick, reading `cur`, emits a change event.
///
/// With no outstanding expectation a non-empty snapshot that differs from
/// the last observed one is emitted. With an outstanding expectation, the
/// exact expected value is swallowed as an echo; a same-kind but different
/// payload is an external change that raced the echo; a different kind of
/// content is an unrelated external change (still required non-empty).
pub open spec fn tick_emits(t: TrackerModel, cur: ContentModel) -> bool {
    match t.expectation {
        ExpectationModel::Idle => cur != t.last_observed && !(cur is Empty),
        ExpectationModel::Expecting(s) => if cur == s {
            false
        } else if same_variant(cur, s) {
            cur != t.last_observed
        } else {
            cur != t.last_observed && !(cur is Empty)
        },
    }
}

/// The tracker state after one poll tick reading `cur`. Observing the
/// expected echo clears the expectation; emitting an event records `cur` as
/// last observed but leaves any outstanding expectation in place.
pub open spec fn tick_next(t: TrackerModel, cur: ContentModel) -> TrackerModel {
    if is_echo(t, cur) {
        TrackerModel { expectation: ExpectationModel::Idle, last_observed: cur }
    } else if tick_emits(t, cur) {
        TrackerModel { expectation: t.expectation, last_observed: cur }
    } else {
        t
    }
}

impl EchoTracker {
    /// A tracker with no outstanding local write, primed with the snapshot
    /// the detector read when it started.
    pub fn new(initial: ClipboardContent) -> (r: EchoTracker)
        ensures
            r@ == (TrackerModel {
                expectation: ExpectationModel::Idle,
                last_observed: initial@,
            }),
    {
        EchoTracker { expectation: EchoExpectation::Idle, last_observed: initial }
    }

    /// Records that this process just pushed `v` to the system clipboard, so
    /// the next tick that reads exactly `v` is suppressed as an echo.
    pub fn note_local_write(&mut self, v: ClipboardContent)
        ensures
            final(self)@ == (TrackerModel {
                expectation: ExpectationModel::Expecting(v@),
                last_observed: old(self)@.last_observed,
            }),
    {
        self.expectation = EchoExpectation::Expecting(v);
    }

    /// Runs one poll tick against the freshly read snapshot. Returns whether
    /// a change event must be emitted for `current`.
    pub fn tick(&mut self, current: &ClipboardContent) -> (emit: bool)
        ensures
            emit == tick_emits(old(self)@, current@),
            final(self)@ == tick_next(old(self)@, current@),
    {
        let echo = match &self.expectation {
            EchoExpectation::Expecting(s) => content_eq(current, s),
            EchoExpectation::Idle => false,
        };
        if echo {
            self.last_observed = clone_content(current);
            self.expectation = EchoExpectation::Idle;
            return false;
        }
        let emit = match &self.expectation {
            EchoExpectation::Idle => !content_eq(current, &self.last_observed)
                && !content_is_empty(current),
            EchoExpectation::Expecting(s) => {
                if same_variant_exec(current, s) {
                    !content_eq(current, &self.last_observed)
                } else {
                    !content_eq(current, &self.last_observed) && !content_is_empty(current)
                }
            },
        };
        if emit {
            self.last_observed = clone_content(current);
        }
        emit
    }
}

fn same_variant_exec(a: &ClipboardContent, b: &ClipboardContent) -> (r: bool)
    ensures
        r == same_variant(a@, b@),
{
    match (a, b) {
        (ClipboardContent::Text(_), ClipboardContent::Text(_)) => true,
        (ClipboardContent::Files(_), ClipboardContent::Files(_)) => true,
        (ClipboardContent::Empty, ClipboardContent::Empty) => true,
        _ => false,
    }
}

/// Echo suppression: for any tracker, a local write of `v` followed
/// immediately by a tick that reads exactly `v` emits no change event and
/// returns the tracker to idle, with `v` recorded as last observed.
pub proof fn lemma_echo_suppression(t: TrackerModel, v: ContentModel)
    ensures
        ({
            let after_write = TrackerModel {
                expectation: ExpectationModel::Expecting(v),
                last_observed: t.last_observed,
            };
            &&& !tick_emits(after_write, v)
            &&& tick_next(after_write, v) == (TrackerModel {
                expectation: ExpectationModel::Idle,
                last_observed: v,
            })
        }),
{
}

/// An external change that is non-empty, differs from the last observed
/// snapshot and from any outstanding expectation is emitted exactly once:
/// the tick emits it, and a repeated read of the now-unchanged snapshot
/// neither emits again nor moves the tracker.
pub proof fn lemma_external_change_emitted_once(t: TrackerModel, cur: ContentModel)
    requires
        !(cur is Empty),
        cur != t.last_observed,
        !is_echo(t, cur),
    ensures
        tick_emits(t, cur),
        !tick_emits(tick_next(t, cur), cur),
        tick_next(tick_next(t, cur), cur) == tick_next(t, cur),
{
}

/// A snapshot equal to the last observed one is never emitted, whatever the
/// expectation state: unchanged content is never duplicated.
pub proof fn lemma_unchanged_never_emitted(t: TrackerModel, cur: ContentModel)
    requires
        cur == t.last_observed,
    ensures
        !tick_emits(t, cur),
{
}

} // verus!
