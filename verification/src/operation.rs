//! The per-operation state machine of the burn engine.
//!
//! One `Operation` models a single burn from `Start` to its terminal event.
//! The surrounding process performs the I/O (metadata lookup, opening files,
//! the chunked copy, the durability flush, the verification reads) and
//! reports each outcome to the machine, which decides what the next event is
//! and how the operation's state evolves. The machine keeps a ghost record of
//! every event it has emitted and maintains `valid_history` over it, so the
//! ordering laws of the event stream hold for any interleaving of outcomes
//! the process reports.

use vstd::prelude::*;
use vstd::string::StringExecFns;

use crate::event::{
    ev_count, lemma_identical_content_verifies, sum_sizes, verification_tail,
    counters_dominated, counters_ok, is_terminal, lemma_history_push, no_counter_events,
    no_verifying_events, valid_history, BurnEvent,
};
use crate::pipeline::{chunk_ok, chunks_match, compute_speed_bps, speed_bps_spec};

verus! {

/// Where one operation stands. Setup runs `Sizing` through `OpeningDest`;
/// the copy loop runs in `Copying`; verification, when requested, runs
/// `VerifyOpening` then `Verifying`; `Terminal` is reached exactly when the
/// terminal event has been emitted.
#[derive(Clone, Copy, Debug, PartialEq, Eq, Structural)]
pub enum Phase {
    Sizing,
    OpeningSource,
    OpeningDest,
    Copying,
    VerifyOpening,
    Verifying,
    Terminal,
}

/// The setup phases: no `Progress` or `Verifying` event has been emitted yet.
pub open spec fn setup_phase(p: Phase) -> bool {
    p is Sizing || p is OpeningSource || p is OpeningDest
}

/// The phases before verification has begun: no `Verifying` event yet.
pub open spec fn pre_verify_phase(p: Phase) -> bool {
    setup_phase(p) || p is Copying || p is VerifyOpening
}

/// One burn operation: the source size, the running byte counters, the
/// progress throttle, and a ghost record of every event emitted so far.
pub struct Operation {
    phase: Phase,
    verify: bool,
    total: u64,
    written: u64,
    checked: u64,
    last_progress_ms: u64,
    history: Ghost<Seq<BurnEvent>>,
}

impl Operation {
    /// Every event this operation has emitted, in order.
    pub closed spec fn events(&self) -> Seq<BurnEvent> {
        self.history@
    }

    pub closed spec fn phase(&self) -> Phase {
        self.phase
    }

    /// Whether verification was requested for this operation.
    pub closed spec fn verify_requested(&self) -> bool {
        self.verify
    }

    /// The source image's size in bytes, as reported at setup.
    pub closed spec fn total(&self) -> u64 {
        self.total
    }

    /// Bytes written to the destination so far.
    pub closed spec fn written(&self) -> u64 {
        self.written
    }

    /// Bytes compared during verification so far.
    pub closed spec fn checked(&self) -> u64 {
        self.checked
    }

    /// The stage-clock reading at the last emitted `Progress` event.
    pub closed spec fn last_progress_ms(&self) -> u64 {
        self.last_progress_ms
    }

    /// The operation's invariant.
    pub closed spec fn inv(&self) -> bool {
        &&& valid_history(self.history@, self.total)
        &&& self.history@.len() > 0
        &&& (self.phase is Terminal <==> is_terminal(self.history@.last()))
        &&& self.written <= self.total
        &&& self.checked <= self.total
        &&& counters_dominated(self.history@, self.written, self.checked)
        &&& (setup_phase(self.phase) ==> no_counter_events(self.history@) && self.written == 0
            && self.checked == 0)
        &&& (pre_verify_phase(self.phase) ==> no_verifying_events(self.history@))
    }

    /// The invariant keeps the event stream valid; callers reason about the
    /// stream through this.
    pub proof fn lemma_inv_valid_history(&self)
        requires
            self.inv(),
        ensures
            valid_history(self.events(), self.total()),
            self.events().len() > 0,
            self.events()[0] is Preparing,
            self.phase() is Terminal <==> is_terminal(self.events().last()),
    {
        assert(self.history@[0] is Preparing);
    }

    /// Law: from the verification stage, byte-identical content — whatever
    /// the chunk layout — extends this operation's stream with one
    /// `Verifying` event per chunk and then `Finished`, all admitted by the
    /// stream invariant; an error can never be part of such a run.
    pub proof fn lemma_admits_identical_verification(&self, sizes: Seq<u64>)
        requires
            self.inv(),
            self.phase() is Verifying,
            self.checked() + sum_sizes(sizes) <= self.total(),
        ensures
            valid_history(
                self.events() + verification_tail(self.checked(), self.total(), sizes),
                self.total(),
            ),
            (self.events() + verification_tail(self.checked(), self.total(), sizes)).last()
                == BurnEvent::Finished,
    {
        let h = self.history@;
        assert forall|i: int| 0 <= i < h.len() implies ((#[trigger] h[i]) is Progress ==> ev_count(
            h[i],
        ) <= self.total) && (h[i] is Verifying ==> ev_count(h[i]) <= self.checked) by {
            if h[i] is Progress {
                assert(counters_ok(h[i], self.total));
            }
        }
        lemma_identical_content_verifies(h, self.total, self.checked, sizes);
    }

    /// Starts one operation: the engine announces `Preparing` before any
    /// other work, and all counters begin at zero.
    pub fn begin(verify: bool) -> (r: (Operation, BurnEvent))
        ensures
            r.0.inv(),
            r.0.phase() is Sizing,
            r.0.verify_requested() == verify,
            r.0.total() == 0,
            r.0.written() == 0,
            r.0.checked() == 0,
            r.0.last_progress_ms() == 0,
            r.1 is Preparing,
            r.0.events() =~= seq![r.1],
    {
        let ghost h0: Seq<BurnEvent> = seq![BurnEvent::Preparing];
        let op = Operation {
            phase: Phase::Sizing,
            verify,
            total: 0,
            written: 0,
            checked: 0,
            last_progress_ms: 0,
            history: Ghost(h0),
        };
        proof {
            assert(op.history@.len() == 1);
            assert(op.history@[0] is Preparing);
        }
        (op, BurnEvent::Preparing)
    }

    /// Emits the terminal event `e` and closes the operation: nothing can be
    /// emitted after it.
    fn seal(&mut self, e: BurnEvent) -> (r: BurnEvent)
        requires
            old(self).inv(),
            !(old(self).phase() is Terminal),
            is_terminal(e),
        ensures
            r == e,
            final(self).inv(),
            final(self).phase() is Terminal,
            final(self).events() == old(self).events().push(e),
            final(self).total() == old(self).total(),
            final(self).written() == old(self).written(),
            final(self).checked() == old(self).checked(),
            final(self).verify_requested() == old(self).verify_requested(),
            final(self).last_progress_ms() == old(self).last_progress_ms(),
    {
        let ghost ge: BurnEvent = e;
        proof {
            lemma_history_push(
                self.history@,
                ge,
                self.total,
                self.written,
                self.checked,
                self.written,
                self.checked,
            );
        }
        self.history = Ghost(self.history@.push(ge));
        self.phase = Phase::Terminal;
        e
    }

    /// Reports the source image's size (its metadata length), the first
    /// setup step. A failure to read it is terminal, before any copying.
    pub fn on_size(&mut self, r: Result<u64, String>) -> (ev: Option<BurnEvent>)
        requires
            old(self).inv(),
            old(self).phase() is Sizing,
        ensures
            final(self).inv(),
            final(self).verify_requested() == old(self).verify_requested(),
            final(self).written() == 0,
            final(self).checked() == 0,
            final(self).last_progress_ms() == old(self).last_progress_ms(),
            r matches Ok(n) ==> final(self).phase() is OpeningSource && final(self).total() == n
                && ev is None && final(self).events() == old(self).events(),
            r matches Err(m) ==> final(self).phase() is Terminal && ev == Some(
                BurnEvent::Error(m),
            ) && final(self).events() == old(self).events().push(BurnEvent::Error(m))
                && final(self).total() == old(self).total(),
    {
        match r {
            Ok(n) => {
                proof {
                    assert forall|i: int| 0 <= i < self.history@.len() implies counters_ok(
                        #[trigger] self.history@[i],
                        n,
                    ) by {
                        assert(!(self.history@[i] is Progress) && !(self.history@[i]
                            is Verifying));
                    }
                }
                self.total = n;
                self.phase = Phase::OpeningSource;
                None
            },
            Err(m) => Some(self.seal(BurnEvent::Error(m))),
        }
    }

    /// Reports the outcome of opening the source image for reading.
    pub fn on_source_opened(&mut self, r: Result<(), String>) -> (ev: Option<BurnEvent>)
        requires
            old(self).inv(),
            old(self).phase() is OpeningSource,
        ensures
            final(self).inv(),
            final(self).verify_requested() == old(self).verify_requested(),
            final(self).total() == old(self).total(),
            final(self).written() == 0,
            final(self).checked() == 0,
            final(self).last_progress_ms() == old(self).last_progress_ms(),
            r is Ok ==> final(self).phase() is OpeningDest && ev is None && final(self).events()
                == old(self).events(),
            r matches Err(m) ==> final(self).phase() is Terminal && ev == Some(
                BurnEvent::Error(m),
            ) && final(self).events() == old(self).events().push(BurnEvent::Error(m)),
    {
        match r {
            Ok(_) => {
                self.phase = Phase::OpeningDest;
                None
            },
            Err(m) => Some(self.seal(BurnEvent::Error(m))),
        }
    }

    /// Reports the outcome of opening the destination device for writing.
    /// Success enters the copy phase.
    pub fn on_dest_opened(&mut self, r: Result<(), String>) -> (ev: Option<BurnEvent>)
        requires
            old(self).inv(),
            old(self).phase() is OpeningDest,
        ensures
            final(self).inv(),
            final(self).verify_requested() == old(self).verify_requested(),
            final(self).total() == old(self).total(),
            final(self).written() == 0,
            final(self).checked() == 0,
            final(self).last_progress_ms() == old(self).last_progress_ms(),
            r is Ok ==> final(self).phase() is Copying && ev is None && final(self).events()
                == old(self).events(),
            r matches Err(m) ==> final(self).phase() is Terminal && ev == Some(
                BurnEvent::Error(m),
            ) && final(self).events() == old(self).events().push(BurnEvent::Error(m)),
    {
        match r {
            Ok(_) => {
                self.phase = Phase::Copying;
                None
            },
            Err(m) => Some(self.seal(BurnEvent::Error(m))),
        }
    }

    /// The cancellation check at the top of one writer iteration, before the
    /// chunk is written. Cancellation observed here ends the operation with
    /// `Cancelled`: the destination keeps whatever prefix of the source was
    /// already written, and verification is never entered.
    pub fn on_chunk_start(&mut self, cancelled: bool) -> (ev: Option<BurnEvent>)
        requires
            old(self).inv(),
            old(self).phase() is Copying,
        ensures
            final(self).inv(),
            !cancelled ==> *final(self) == *old(self) && ev is None,
            cancelled ==> ev == Some(BurnEvent::Cancelled) && final(self).phase() is Terminal
                && final(self).events() == old(self).events().push(BurnEvent::Cancelled)
                && final(self).written() == old(self).written() && final(self).written()
                <= final(self).total() && no_verifying_events(final(self).events()),
    {
        if cancelled {
            let ev = self.seal(BurnEvent::Cancelled);
            proof {
                assert forall|i: int| 0 <= i < self.history@.len() implies !((
                #[trigger] self.history@[i]) is Verifying) by {
                    if i < self.history@.len() - 1 {
                        assert(self.history@[i] == old(self).history@[i]);
                    }
                }
            }
            Some(ev)
        } else {
            None
        }
    }

    /// Reports the outcome of writing one chunk of `r` bytes to the
    /// destination. On success the byte counter advances and, when at least
    /// 100 ms of the stage clock have passed since the last one, a `Progress`
    /// event is emitted (the throttle that keeps a fast device from flooding
    /// the event stream). A write error is terminal.
    ///
    /// `now_ms` is the stage clock: milliseconds since the write stage began,
    /// which never runs backwards.
    pub fn on_chunk_written(&mut self, r: Result<u64, String>, now_ms: u64) -> (ev: Option<
        BurnEvent,
    >)
        requires
            old(self).inv(),
            old(self).phase() is Copying,
            now_ms >= old(self).last_progress_ms(),
            r matches Ok(n) ==> old(self).written() + n <= old(self).total(),
        ensures
            final(self).inv(),
            final(self).verify_requested() == old(self).verify_requested(),
            final(self).total() == old(self).total(),
            final(self).checked() == old(self).checked(),
            r matches Err(m) ==> final(self).phase() is Terminal && ev == Some(
                BurnEvent::Error(m),
            ) && final(self).events() == old(self).events().push(BurnEvent::Error(m)),
            r matches Ok(n) ==> final(self).phase() is Copying && final(self).written() == old(self).written() + n,
            r is Ok && now_ms - old(self).last_progress_ms() >= 100 ==> ev == Some(
                (BurnEvent::Progress {
                    written: final(self).written(),
                    total: old(self).total(),
                    speed_bps: speed_bps_spec(final(self).written(), now_ms),
                }),
            ) && final(self).events() == old(self).events().push(
                (BurnEvent::Progress {
                    written: final(self).written(),
                    total: old(self).total(),
                    speed_bps: speed_bps_spec(final(self).written(), now_ms),
                }),
            ) && final(self).last_progress_ms() == now_ms,
            r is Ok && now_ms - old(self).last_progress_ms() < 100 ==> ev is None && final(self).events() == old(self).events() && final(self).last_progress_ms() == old(self).last_progress_ms(),
    {
        match r {
            Err(m) => Some(self.seal(BurnEvent::Error(m))),
            Ok(n) => {
                self.written = self.written + n;
                if now_ms - self.last_progress_ms >= 100 {
                    let speed = compute_speed_bps(self.written, now_ms);
                    let e = BurnEvent::Progress {
                        written: self.written,
                        total: self.total,
                        speed_bps: speed,
                    };
                    let ghost ge: BurnEvent = e;
                    proof {
                        lemma_history_push(
                            self.history@,
                            ge,
                            self.total,
                            old(self).written,
                            self.checked,
                            self.written,
                            self.checked,
                        );
                    }
                    self.history = Ghost(self.history@.push(ge));
                    self.last_progress_ms = now_ms;
                    Some(e)
                } else {
                    None
                }
            },
        }
    }

    /// The data channel closed normally (the reader reached the end of the
    /// source or stopped) and the reader was joined; `r` reports the
    /// durability flush of the destination. A flush failure is terminal,
    /// since unflushed data is not a trustworthy completion. On success the
    /// operation either enters verification, when it was requested, or ends
    /// with `Finished`.
    pub fn on_copy_finished(&mut self, r: Result<(), String>) -> (ev: Option<BurnEvent>)
        requires
            old(self).inv(),
            old(self).phase() is Copying,
        ensures
            final(self).inv(),
            final(self).verify_requested() == old(self).verify_requested(),
            final(self).total() == old(self).total(),
            final(self).written() == old(self).written(),
            final(self).checked() == old(self).checked(),
            r matches Err(m) ==> final(self).phase() is Terminal && ev == Some(
                BurnEvent::Error(m),
            ) && final(self).events() == old(self).events().push(BurnEvent::Error(m)),
            r is Ok && old(self).verify_requested() ==> final(self).phase() is VerifyOpening
                && ev is None && final(self).events() == old(self).events(),
            r is Ok && !old(self).verify_requested() ==> final(self).phase() is Terminal && ev
                == Some(BurnEvent::Finished) && final(self).events() == old(self).events().push(
                BurnEvent::Finished,
            ),
    {
        match r {
            Err(m) => Some(self.seal(BurnEvent::Error(m))),
            Ok(_) => {
                if self.verify {
                    self.phase = Phase::VerifyOpening;
                    None
                } else {
                    Some(self.seal(BurnEvent::Finished))
                }
            },
        }
    }

    /// Reports the outcome of re-opening source and destination for the
    /// verification pass (fresh handles, independent of those used while
    /// writing). Success enters the verification loop.
    pub fn on_verify_opened(&mut self, r: Result<(), String>) -> (ev: Option<BurnEvent>)
        requires
            old(self).inv(),
            old(self).phase() is VerifyOpening,
        ensures
            final(self).inv(),
            final(self).verify_requested() == old(self).verify_requested(),
            final(self).total() == old(self).total(),
            final(self).written() == old(self).written(),
            final(self).checked() == old(self).checked(),
            r is Ok ==> final(self).phase() is Verifying && ev is None && final(self).events()
                == old(self).events(),
            r matches Err(m) ==> final(self).phase() is Terminal && ev == Some(
                BurnEvent::Error(m),
            ) && final(self).events() == old(self).events().push(BurnEvent::Error(m)),
    {
        match r {
            Ok(_) => {
                self.phase = Phase::Verifying;
                None
            },
            Err(m) => Some(self.seal(BurnEvent::Error(m))),
        }
    }

    /// The cancellation check at the top of one verifier iteration.
    pub fn on_verify_iter(&mut self, cancelled: bool) -> (ev: Option<BurnEvent>)
        requires
            old(self).inv(),
            old(self).phase() is Verifying,
        ensures
            final(self).inv(),
            !cancelled ==> *final(self) == *old(self) && ev is None,
            cancelled ==> ev == Some(BurnEvent::Cancelled) && final(self).phase() is Terminal
                && final(self).events() == old(self).events().push(BurnEvent::Cancelled),
    {
        if cancelled {
            Some(self.seal(BurnEvent::Cancelled))
        } else {
            None
        }
    }

    /// An I/O failure while re-reading either side during verification is
    /// terminal.
    pub fn on_verify_read_error(&mut self, msg: String) -> (ev: BurnEvent)
        requires
            old(self).inv(),
            old(self).phase() is Verifying,
        ensures
            final(self).inv(),
            final(self).phase() is Terminal,
            ev == BurnEvent::Error(msg),
            final(self).events() == old(self).events().push(BurnEvent::Error(msg)),
            final(self).checked() == old(self).checked(),
    {
        self.seal(BurnEvent::Error(msg))
    }

    /// One verification step: the first `n1` bytes of `src` were read from
    /// the source and the first `n2` bytes of `dst` from the destination.
    /// A matching pair advances the checked counter and emits `Verifying`
    /// (one event per chunk, unthrottled — unlike write progress); any length
    /// or content mismatch is a verification failure and the operation ends
    /// at the first one.
    pub fn on_verify_data(&mut self, src: &Vec<u8>, n1: usize, dst: &Vec<u8>, n2: usize) -> (ev:
        BurnEvent)
        requires
            old(self).inv(),
            old(self).phase() is Verifying,
            n1 <= src.len(),
            n2 <= dst.len(),
            1 <= n1,
            old(self).checked() + n1 <= old(self).total(),
        ensures
            final(self).inv(),
            final(self).verify_requested() == old(self).verify_requested(),
            final(self).total() == old(self).total(),
            final(self).written() == old(self).written(),
            chunk_ok(src@, n1 as int, dst@, n2 as int) ==> final(self).phase() is Verifying
                && final(self).checked() == old(self).checked() + n1 && ev == (
            BurnEvent::Verifying {
                checked: (old(self).checked() + n1) as u64,
                total: old(self).total(),
            }) && final(self).events() == old(self).events().push(ev),
            !chunk_ok(src@, n1 as int, dst@, n2 as int) ==> final(self).phase() is Terminal && (
            ev matches BurnEvent::Error(m) && m@ == "Verification failed"@) && final(self).events() == old(self).events().push(ev) && final(self).checked() == old(self).checked(),
    {
        if chunks_match(src, n1, dst, n2) {
            self.checked = self.checked + n1 as u64;
            let e = BurnEvent::Verifying { checked: self.checked, total: self.total };
            let ghost ge: BurnEvent = e;
            proof {
                lemma_history_push(
                    self.history@,
                    ge,
                    self.total,
                    self.written,
                    old(self).checked,
                    self.written,
                    self.checked,
                );
            }
            self.history = Ghost(self.history@.push(ge));
            e
        } else {
            self.seal(BurnEvent::Error(String::from_str("Verification failed")))
        }
    }

    /// The verifier reached the end of the source with every chunk matching:
    /// the copy is verified and the operation ends with `Finished`.
    pub fn on_source_eof(&mut self) -> (ev: BurnEvent)
        requires
            old(self).inv(),
            old(self).phase() is Verifying,
        ensures
            final(self).inv(),
            final(self).phase() is Terminal,
            ev == BurnEvent::Finished,
            final(self).events() == old(self).events().push(BurnEvent::Finished),
            final(self).checked() == old(self).checked(),
    {
        self.seal(BurnEvent::Finished)
    }
}

} // verus!
