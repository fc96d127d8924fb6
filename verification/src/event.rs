//! Observable events of one burn operation, and the invariants of the event
//! stream: the `Preparing` event comes first, counters are bounded and
//! monotone, and a terminal event closes the stream.

use vstd::prelude::*;

verus! {

/// The observable state of a burn operation at a point in time.
///
/// For one operation the engine emits `Preparing` first, then any number of
/// `Progress` and `Verifying` events, and exactly one terminal event
/// (`Finished`, `Cancelled` or `Error`), after which nothing follows.
/// `speed_bps` is the mean throughput in bytes per second since the write
/// stage began.
#[derive(Debug, Clone)]
pub enum BurnEvent {
    Preparing,
    Progress { written: u64, total: u64, speed_bps: u64 },
    Verifying { checked: u64, total: u64 },
    Finished,
    Cancelled,
    Error(String),
}

/// A terminal event marks the end of an operation's event sequence.
pub open spec fn is_terminal(e: BurnEvent) -> bool {
    e is Finished || e is Cancelled || e is Error
}

/// The byte counter an event reports: `written` for `Progress`,
/// `checked` for `Verifying`, zero for events that carry no counter.
pub open spec fn ev_count(e: BurnEvent) -> u64 {
    match e {
        BurnEvent::Progress { written, .. } => written,
        BurnEvent::Verifying { checked, .. } => checked,
        _ => 0,
    }
}

/// An event's counters are consistent with the operation's source size:
/// the reported total is the source size and the counter never exceeds it.
pub open spec fn counters_ok(e: BurnEvent, total: u64) -> bool {
    match e {
        BurnEvent::Progress { written, total: t, .. } => written <= total && t == total,
        BurnEvent::Verifying { checked, total: t } => checked <= total && t == total,
        _ => true,
    }
}

/// `Preparing` is emitted exactly once, as the first event.
pub open spec fn preparing_only_first(h: Seq<BurnEvent>) -> bool {
    forall|i: int| 0 <= i < h.len() ==> ((#[trigger] h[i]) is Preparing <==> i == 0)
}

/// A terminal event can only stand at the end of the stream; in particular
/// there is at most one.
pub open spec fn terminal_only_last(h: Seq<BurnEvent>) -> bool {
    forall|i: int| 0 <= i < h.len() && is_terminal(#[trigger] h[i]) ==> i == h.len() - 1
}

/// Every event's counters are consistent with the source size.
pub open spec fn counters_in_range(h: Seq<BurnEvent>, total: u64) -> bool {
    forall|i: int| 0 <= i < h.len() ==> counters_ok(#[trigger] h[i], total)
}

/// `Progress` counters never decrease along the stream.
pub open spec fn progress_monotone(h: Seq<BurnEvent>) -> bool {
    forall|i: int, j: int|
        0 <= i <= j < h.len() && (#[trigger] h[i]) is Progress && (#[trigger] h[j]) is Progress
            ==> ev_count(h[i]) <= ev_count(h[j])
}

/// `Verifying` counters never decrease along the stream.
pub open spec fn verifying_monotone(h: Seq<BurnEvent>) -> bool {
    forall|i: int, j: int|
        0 <= i <= j < h.len() && (#[trigger] h[i]) is Verifying && (#[trigger] h[j]) is Verifying
            ==> ev_count(h[i]) <= ev_count(h[j])
}

/// The stream holds no `Verifying` event (true of every operation that has
/// not entered its verification stage).
pub open spec fn no_verifying_events(h: Seq<BurnEvent>) -> bool {
    forall|i: int| 0 <= i < h.len() ==> !((#[trigger] h[i]) is Verifying)
}

/// The stream holds no counter-carrying event at all (true before the copy
/// stage begins).
pub open spec fn no_counter_events(h: Seq<BurnEvent>) -> bool {
    forall|i: int|
        0 <= i < h.len() ==> !((#[trigger] h[i]) is Progress) && !(h[i] is Verifying)
}

/// Every `Progress` counter in the stream is at most `w`, and every
/// `Verifying` counter at most `c` (the operation's running counters
/// dominate everything it has reported so far).
pub open spec fn counters_dominated(h: Seq<BurnEvent>, w: u64, c: u64) -> bool {
    forall|i: int|
        0 <= i < h.len() ==> ((#[trigger] h[i]) is Progress ==> ev_count(h[i]) <= w) && (h[i]
            is Verifying ==> ev_count(h[i]) <= c)
}

/// The invariant of one operation's event stream.
pub open spec fn valid_history(h: Seq<BurnEvent>, total: u64) -> bool {
    &&& preparing_only_first(h)
    &&& terminal_only_last(h)
    &&& counters_in_range(h, total)
    &&& progress_monotone(h)
    &&& verifying_monotone(h)
}

/// Appending one event to a still-open stream preserves the stream invariant.
///
/// `w`/`c` dominate the counters already in `h`; `w2`/`c2` are the operation's
/// counters after the step and dominate the new event's counter as well.
pub proof fn lemma_history_push(
    h: Seq<BurnEvent>,
    e: BurnEvent,
    total: u64,
    w: u64,
    c: u64,
    w2: u64,
    c2: u64,
)
    requires
        h.len() > 0,
        valid_history(h, total),
        !is_terminal(h.last()),
        !(e is Preparing),
        counters_dominated(h, w, c),
        w <= w2,
        c <= c2,
        counters_ok(e, total),
        e is Progress ==> w <= ev_count(e) && ev_count(e) <= w2,
        e is Verifying ==> c <= ev_count(e) && ev_count(e) <= c2,
    ensures
        valid_history(h.push(e), total),
        counters_dominated(h.push(e), w2, c2),
        h.push(e).last() == e,
        h.push(e).len() == h.len() + 1,
{
    let h2 = h.push(e);
    assert forall|i: int| 0 <= i < h.len() implies !is_terminal(#[trigger] h[i]) by {
        if is_terminal(h[i]) {
            assert(i == h.len() - 1);
            assert(h[i] == h.last());
        }
    }
    assert forall|i: int| 0 <= i < h2.len() implies ((#[trigger] h2[i]) is Preparing <==> i
        == 0) by {
        if i < h.len() {
            assert(h2[i] == h[i]);
        } else {
            assert(h2[i] == e);
        }
    }
    assert forall|i: int| 0 <= i < h2.len() && is_terminal(#[trigger] h2[i]) implies i == h2.len()
        - 1 by {
        if i < h.len() {
            assert(h2[i] == h[i]);
        }
    }
    assert forall|i: int| 0 <= i < h2.len() implies counters_ok(#[trigger] h2[i], total) by {
        if i < h.len() {
            assert(h2[i] == h[i]);
        } else {
            assert(h2[i] == e);
        }
    }
    assert forall|i: int, j: int|
        0 <= i <= j < h2.len() && (#[trigger] h2[i]) is Progress && (#[trigger] h2[j])
            is Progress implies ev_count(h2[i]) <= ev_count(h2[j]) by {
        if j < h.len() {
            assert(h2[i] == h[i] && h2[j] == h[j]);
        } else if i < h.len() {
            assert(h2[i] == h[i] && h2[j] == e);
            assert(ev_count(h[i]) <= w);
        } else {
            assert(h2[i] == e && h2[j] == e);
        }
    }
    assert forall|i: int, j: int|
        0 <= i <= j < h2.len() && (#[trigger] h2[i]) is Verifying && (#[trigger] h2[j])
            is Verifying implies ev_count(h2[i]) <= ev_count(h2[j]) by {
        if j < h.len() {
            assert(h2[i] == h[i] && h2[j] == h[j]);
        } else if i < h.len() {
            assert(h2[i] == h[i] && h2[j] == e);
            assert(ev_count(h[i]) <= c);
        } else {
            assert(h2[i] == e && h2[j] == e);
        }
    }
    assert forall|i: int| 0 <= i < h2.len() implies ((#[trigger] h2[i]) is Progress ==> ev_count(
        h2[i],
    ) <= w2) && (h2[i] is Verifying ==> ev_count(h2[i]) <= c2) by {
        if i < h.len() {
            assert(h2[i] == h[i]);
        } else {
            assert(h2[i] == e);
        }
    }
}

/// The bytes of a run of verification chunks, summed.
pub open spec fn sum_sizes(sizes: Seq<u64>) -> int
    decreases sizes.len(),
{
    if sizes.len() == 0 {
        0
    } else {
        sizes[0] + sum_sizes(sizes.subrange(1, sizes.len() as int))
    }
}

proof fn lemma_sum_sizes_nonneg(sizes: Seq<u64>)
    ensures
        sum_sizes(sizes) >= 0,
    decreases sizes.len(),
{
    if sizes.len() > 0 {
        lemma_sum_sizes_nonneg(sizes.subrange(1, sizes.len() as int));
    }
}

/// The events of a verification pass over byte-identical content, starting
/// from `checked` bytes already compared: one `Verifying` event per chunk,
/// its counter accumulating that chunk's bytes, then the terminal `Finished`.
pub open spec fn verification_tail(checked: u64, total: u64, sizes: Seq<u64>) -> Seq<BurnEvent>
    decreases sizes.len(),
{
    if sizes.len() == 0 {
        seq![BurnEvent::Finished]
    } else {
        seq![
            (BurnEvent::Verifying { checked: (checked + sizes[0]) as u64, total }),
        ] + verification_tail(
            (checked + sizes[0]) as u64,
            total,
            sizes.subrange(1, sizes.len() as int),
        )
    }
}

/// Law: when source and destination are byte-identical, a verification pass
/// extends the operation's stream with exactly one `Verifying` event per
/// chunk and then `Finished`, and the stream invariant admits all of it: the
/// whole history stays valid and its one terminal event is `Finished` —
/// never an error.
pub proof fn lemma_identical_content_verifies(
    h: Seq<BurnEvent>,
    total: u64,
    checked: u64,
    sizes: Seq<u64>,
)
    requires
        h.len() > 0,
        valid_history(h, total),
        !is_terminal(h.last()),
        counters_dominated(h, total, checked),
        checked + sum_sizes(sizes) <= total,
    ensures
        valid_history(h + verification_tail(checked, total, sizes), total),
        (h + verification_tail(checked, total, sizes)).last() == BurnEvent::Finished,
        (h + verification_tail(checked, total, sizes)).len() == h.len() + sizes.len() + 1,
    decreases sizes.len(),
{
    let t = verification_tail(checked, total, sizes);
    if sizes.len() == 0 {
        lemma_history_push(h, BurnEvent::Finished, total, total, checked, total, checked);
        assert(h + t =~= h.push(BurnEvent::Finished));
    } else {
        let n = sizes[0];
        let rest = sizes.subrange(1, sizes.len() as int);
        lemma_sum_sizes_nonneg(rest);
        let c2 = (checked + n) as u64;
        let e = BurnEvent::Verifying { checked: c2, total };
        lemma_history_push(h, e, total, total, checked, total, c2);
        let h2 = h.push(e);
        lemma_identical_content_verifies(h2, total, c2, rest);
        assert(h + t =~= h2 + verification_tail(c2, total, rest));
    }
}

/// Law: the event stream of an operation opens with `Preparing`, so every
/// `Progress`, `Verifying` or terminal event is preceded by it.
pub proof fn lemma_preparing_first(h: Seq<BurnEvent>, total: u64)
    requires
        valid_history(h, total),
        h.len() > 0,
    ensures
        h[0] is Preparing,
        forall|i: int| 1 <= i < h.len() ==> !((#[trigger] h[i]) is Preparing),
{
}

/// Law: at most one terminal event is emitted per operation, and no event
/// follows it — a terminal event closes the stream.
pub proof fn lemma_terminal_closes_history(h: Seq<BurnEvent>, total: u64, i: int)
    requires
        valid_history(h, total),
        0 <= i < h.len(),
        is_terminal(h[i]),
    ensures
        i == h.len() - 1,
        forall|j: int| 0 <= j < h.len() && is_terminal(#[trigger] h[j]) ==> j == i,
{
}

/// Law: `Progress` counters are monotone and never exceed the reported total,
/// which is the source size.
pub proof fn lemma_progress_monotone_bounded(h: Seq<BurnEvent>, total: u64, i: int, j: int)
    requires
        valid_history(h, total),
        0 <= i <= j < h.len(),
        h[i] is Progress,
        h[j] is Progress,
    ensures
        ev_count(h[i]) <= ev_count(h[j]),
        ev_count(h[j]) <= total,
{
}

/// Law: an operation that ended in an `Error` event never reports `Finished`
/// — a failed verification or write can never be observed as a success.
pub proof fn lemma_error_excludes_finished(h: Seq<BurnEvent>, total: u64, i: int)
    requires
        valid_history(h, total),
        0 <= i < h.len(),
        h[i] is Error,
    ensures
        forall|j: int| 0 <= j < h.len() ==> !((#[trigger] h[j]) is Finished),
{
    assert forall|j: int| 0 <= j < h.len() implies !((#[trigger] h[j]) is Finished) by {
        if h[j] is Finished {
            assert(j == h.len() - 1);
            assert(i == h.len() - 1);
        }
    }
}

/// Law: an operation that reports `Finished` never reported an error or a
/// cancellation — a verified copy's stream holds no failure event at all.
pub proof fn lemma_finished_excludes_failures(h: Seq<BurnEvent>, total: u64, i: int)
    requires
        valid_history(h, total),
        0 <= i < h.len(),
        h[i] is Finished,
    ensures
        forall|j: int|
            0 <= j < h.len() ==> !((#[trigger] h[j]) is Error) && !(h[j] is Cancelled),
{
    assert forall|j: int|
        0 <= j < h.len() implies !((#[trigger] h[j]) is Error) && !(h[j] is Cancelled) by {
        if h[j] is Error || h[j] is Cancelled {
            assert(j == h.len() - 1);
            assert(i == h.len() - 1);
        }
    }
}

/// Law: a cancelled operation never reports `Finished` either.
pub proof fn lemma_cancelled_excludes_finished(h: Seq<BurnEvent>, total: u64, i: int)
    requires
        valid_history(h, total),
        0 <= i < h.len(),
        h[i] is Cancelled,
    ensures
        forall|j: int| 0 <= j < h.len() ==> !((#[trigger] h[j]) is Finished),
{
    assert forall|j: int| 0 <= j < h.len() implies !((#[trigger] h[j]) is Finished) by {
        if h[j] is Finished {
            assert(j == h.len() - 1);
            assert(i == h.len() - 1);
        }
    }
}

} // verus!
