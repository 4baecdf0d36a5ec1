//! The per-request generation session.
//!
//! One session drives one bounded autoregressive decode against the shared
//! model resource. The collaborator calls themselves (encoding the input,
//! one decode step, sampling, incremental tokenizer decoding, the state
//! reset) happen outside the library; the session is the verified control
//! core that the surrounding task drives: it owns the token sequence,
//! chooses the decode context window, enforces the step cap and the
//! end-of-sequence exit, sequences the progress events, and refuses to
//! finish before the resource reset has been performed.
//!
//! The session moves through four phases. `Loading` covers input decoding
//! and the encode step; `Decoding` is the token loop; `Cleanup` is reached
//! on loop exit, on a collaborator failure, or on a client disconnect, and
//! ends with the mandatory resource reset; `Finished` is terminal.

use vstd::prelude::*;
use vstd::string::StringExecFns;
use crate::assets::spec_starts_with;
use crate::event::{EventView, GenerationEvent};

verus! {

/// Tuning of a generation session: the hard iteration cap and the two
/// designated token identifiers.
#[derive(Clone, Copy, Debug)]
pub struct GenConfig {
    /// Hard bound on the number of decode steps; must be positive and finite.
    pub max_steps: usize,
    /// The fixed start-of-sequence marker seeding the token sequence.
    pub start_token: u32,
    /// The end-of-sequence marker: sampling it ends the loop at once.
    pub eos_token: u32,
}

impl GenConfig {
    /// The cap must allow at least one step.
    pub open spec fn valid(self) -> bool {
        1 <= self.max_steps
    }
}

/// Where in its life a session stands.
#[derive(Clone, Copy, Debug, PartialEq, Eq, Structural)]
pub enum Phase {
    /// Input decoding and the encode step are in progress.
    Loading,
    /// The token loop is running.
    Decoding,
    /// The loop is over; the trailing flush and the resource reset remain.
    Cleanup,
    /// Terminal; no further transition exists.
    Finished,
}

/// The two fixed startup status events, in emission order.
pub open spec fn spec_startup_events() -> Seq<EventView> {
    seq![
        EventView::Status("Loading model..."@),
        EventView::Status("Loading image..."@),
    ]
}

/// A status event whose text carries the error prefix.
pub open spec fn is_error_status(e: EventView) -> bool {
    e matches EventView::Status(m) && spec_starts_with(m, "Error: "@)
}

/// An event after which the stream may close: the final success marker or
/// an error report.
pub open spec fn is_terminal_event(e: EventView) -> bool {
    e == EventView::Status("Done"@) || is_error_status(e)
}

/// Appending an event leaves the stream's opening untouched.
proof fn lemma_push_keeps_prefix(s: Seq<EventView>, e: EventView)
    requires
        s.len() >= 2,
    ensures
        s.push(e).subrange(0, 2) == s.subrange(0, 2),
{
    assert(s.push(e).subrange(0, 2) =~= s.subrange(0, 2));
}

/// The verified control state of one request's generation.
pub struct Session {
    /// The tuning this session runs under.
    pub config: GenConfig,
    /// Current phase.
    pub phase: Phase,
    /// The append-only token sequence, seeded with the start marker.
    pub token_ids: Vec<u32>,
    /// Decode steps performed so far.
    pub steps: usize,
    /// A collaborator failure ended the loop early.
    pub failed: bool,
    /// The client disconnected; no further event is delivered.
    pub aborted: bool,
    /// The trailing tokenizer flush has been performed.
    pub flushed: bool,
    /// The model resource's recurrent state has been reset.
    pub reset_done: bool,
    /// Everything emitted so far, in emission order.
    pub emitted: Ghost<Seq<EventView>>,
}

impl Session {
    /// A terminal status event has been emitted: the error report after a
    /// failure, or the success marker once a delivered run has finished.
    pub open spec fn has_terminal(self) -> bool {
        ||| ((self.phase == Phase::Cleanup || self.phase == Phase::Finished) && self.failed)
        ||| (self.phase == Phase::Finished && !self.failed && !self.aborted)
    }

    /// The shape of the emitted stream: the two startup status events
    /// first, then nothing but token events, save a single trailing
    /// terminal status once one is owed.
    pub open spec fn stream_wf(self) -> bool {
        &&& self.emitted@.len() >= 2
        &&& self.emitted@.subrange(0, 2) == spec_startup_events()
        &&& (forall|i: int|
            2 <= i < self.emitted@.len() - (if self.has_terminal() {
                1int
            } else {
                0int
            }) ==> self.emitted@[i] is Token)
    }

    /// The session invariant, established by `start` and preserved by every
    /// transition. It carries the step-cap bound, the token-sequence shape,
    /// the stream shape, and the guarantees that `Finished` is unreachable
    /// without the resource reset and that a delivered stream ends in a
    /// terminal event.
    pub open spec fn wf(self) -> bool {
        &&& self.stream_wf()
        &&& self.config.valid()
        &&& self.steps <= self.config.max_steps
        &&& !(self.failed && self.aborted)
        &&& (self.phase == Phase::Loading ==> {
            &&& self.steps == 0
            &&& self.token_ids@.len() == 0
            &&& !self.failed
            &&& !self.aborted
            &&& !self.flushed
            &&& !self.reset_done
            &&& self.emitted@ == spec_startup_events()
        })
        &&& (self.phase == Phase::Decoding ==> {
            &&& self.steps < self.config.max_steps
            &&& self.token_ids@.len() == self.steps + 1
            &&& self.token_ids@[0] == self.config.start_token
            &&& !self.failed
            &&& !self.aborted
            &&& !self.flushed
            &&& !self.reset_done
        })
        &&& (self.phase == Phase::Cleanup ==> !self.reset_done)
        &&& (self.phase == Phase::Finished ==> self.reset_done)
        &&& ((self.phase == Phase::Cleanup || self.phase == Phase::Finished) && self.failed ==> {
            &&& self.emitted@.len() > 0
            &&& is_error_status(self.emitted@.last())
        })
        &&& (self.phase == Phase::Finished && !self.failed && !self.aborted ==> {
            &&& self.emitted@.len() > 0
            &&& self.emitted@.last() == EventView::Status("Done"@)
        })
    }

    /// Open a session. Returns it together with the two startup status
    /// events the caller is to deliver before anything else.
    pub fn start(config: GenConfig) -> (r: (Session, Vec<GenerationEvent>))
        requires
            config.valid(),
        ensures
            r.0.wf(),
            r.0.phase == Phase::Loading,
            r.0.config == config,
            r.1@.len() == 2,
            r.1@[0]@ == EventView::Status("Loading model..."@),
            r.1@[1]@ == EventView::Status("Loading image..."@),
            r.0.emitted@ == spec_startup_events(),
    {
        let mut evs: Vec<GenerationEvent> = Vec::new();
        evs.push(GenerationEvent::Status(String::from_str("Loading model...")));
        evs.push(GenerationEvent::Status(String::from_str("Loading image...")));
        let s = Session {
            config,
            phase: Phase::Loading,
            token_ids: Vec::new(),
            steps: 0,
            failed: false,
            aborted: false,
            flushed: false,
            reset_done: false,
            emitted: Ghost(spec_startup_events()),
        };
        proof {
            assert(s.emitted@.subrange(0, 2) =~= spec_startup_events());
        }
        (s, evs)
    }

    /// The encode step succeeded: seed the token sequence with the start
    /// marker and enter the loop.
    pub fn on_encode_ok(&mut self)
        requires
            old(self).wf(),
            old(self).phase == Phase::Loading,
        ensures
            final(self).wf(),
            final(self).phase == Phase::Decoding,
            final(self).config == old(self).config,
            final(self).steps == 0,
            final(self).token_ids@ =~= seq![old(self).config.start_token],
            final(self).emitted == old(self).emitted,
            !final(self).failed && !final(self).aborted,
            !final(self).flushed && !final(self).reset_done,
    {
        self.token_ids.push(self.config.start_token);
        self.phase = Phase::Decoding;
    }

    /// The context window for the next decode step: on the first step the
    /// whole sequence so far, afterwards only the most recently appended
    /// token (the collaborator keeps cached state for the prefix).
    pub fn next_decode_start(&self) -> (start: usize)
        requires
            self.wf(),
            self.phase == Phase::Decoding,
        ensures
            start == if self.steps == 0 { 0int } else { self.token_ids@.len() - 1 },
            start < self.token_ids@.len(),
    {
        if self.steps == 0 {
            0
        } else {
            self.token_ids.len() - 1
        }
    }

    /// One decode step came back: record the sampled token and the
    /// tokenizer's ready fragment, if any. Returns the events to deliver
    /// and whether the loop is over — exactly when the sampled token is the
    /// end marker or the step cap is reached.
    pub fn on_token(&mut self, token: u32, fragment: Option<String>) -> (r: (
        Vec<GenerationEvent>,
        bool,
    ))
        requires
            old(self).wf(),
            old(self).phase == Phase::Decoding,
        ensures
            final(self).wf(),
            final(self).config == old(self).config,
            final(self).steps == old(self).steps + 1,
            final(self).token_ids@ =~= old(self).token_ids@.push(token),
            r.1 == (token == old(self).config.eos_token || old(self).steps + 1
                == old(self).config.max_steps),
            final(self).phase == if r.1 {
                Phase::Cleanup
            } else {
                Phase::Decoding
            },
            !final(self).failed && !final(self).aborted,
            !final(self).flushed && !final(self).reset_done,
            fragment matches Some(f) ==> r.0@.len() == 1 && r.0@[0]@ == EventView::Token(f@)
                && final(self).emitted@ == old(self).emitted@.push(EventView::Token(f@)),
            fragment is None ==> r.0@.len() == 0 && final(self).emitted@ == old(self).emitted@,
    {
        self.token_ids.push(token);
        self.steps = self.steps + 1;
        let done: bool = token == self.config.eos_token || self.steps == self.config.max_steps;
        if done {
            self.phase = Phase::Cleanup;
        }
        let mut evs: Vec<GenerationEvent> = Vec::new();
        match fragment {
            Some(f) => {
                let ghost fv = f@;
                evs.push(GenerationEvent::Token(f));
                self.emitted = Ghost(self.emitted@.push(EventView::Token(fv)));
                proof {
                    lemma_push_keeps_prefix(old(self).emitted@, EventView::Token(fv));
                    assert forall|i: int| 2 <= i < self.emitted@.len() implies self.emitted@[i]
                        is Token by {
                        if i < old(self).emitted@.len() {
                            assert(self.emitted@[i] == old(self).emitted@[i]);
                        } else {
                            assert(self.emitted@[i] == EventView::Token(fv));
                        }
                    }
                }
            },
            None => {},
        }
        (evs, done)
    }

    /// A collaborator call failed (malformed input, encode or decode
    /// error): report it as a status event carrying the error prefix and
    /// leave the loop; the resource reset is still owed.
    pub fn on_failure(&mut self, message: String) -> (ev: Vec<GenerationEvent>)
        requires
            old(self).wf(),
            old(self).phase == Phase::Loading || old(self).phase == Phase::Decoding,
        ensures
            final(self).wf(),
            final(self).phase == Phase::Cleanup,
            final(self).failed && !final(self).aborted,
            !final(self).flushed && !final(self).reset_done,
            final(self).config == old(self).config,
            final(self).steps == old(self).steps,
            final(self).token_ids == old(self).token_ids,
            ev@.len() == 1,
            ev@[0]@ == EventView::Status("Error: "@ + message@),
            final(self).emitted@ == old(self).emitted@.push(
                EventView::Status("Error: "@ + message@),
            ),
    {
        let mut text: String = String::from_str("Error: ");
        text.append(message.as_str());
        proof {
            assert(("Error: "@ + message@).subrange(0, "Error: "@.len() as int) =~= "Error: "@);
        }
        let ghost tv = text@;
        self.phase = Phase::Cleanup;
        self.failed = true;
        self.emitted = Ghost(self.emitted@.push(EventView::Status(tv)));
        proof {
            lemma_push_keeps_prefix(old(self).emitted@, EventView::Status(tv));
            assert forall|i: int| 2 <= i < self.emitted@.len() - 1 implies self.emitted@[i]
                is Token by {
                assert(self.emitted@[i] == old(self).emitted@[i]);
            }
        }
        let mut evs: Vec<GenerationEvent> = Vec::new();
        evs.push(GenerationEvent::Status(text));
        evs
    }

    /// The client is gone: no further event can be delivered. Leave the
    /// loop silently; the resource reset is still owed.
    pub fn abort(&mut self)
        requires
            old(self).wf(),
            old(self).phase == Phase::Loading || old(self).phase == Phase::Decoding,
        ensures
            final(self).wf(),
            final(self).phase == Phase::Cleanup,
            final(self).aborted && !final(self).failed,
            !final(self).flushed && !final(self).reset_done,
            final(self).config == old(self).config,
            final(self).steps == old(self).steps,
            final(self).token_ids == old(self).token_ids,
            final(self).emitted == old(self).emitted,
    {
        self.phase = Phase::Cleanup;
        self.aborted = true;
    }

    /// After a completed loop, record the tokenizer's trailing buffered
    /// output: one final token event if the collaborator reported content.
    pub fn on_flush(&mut self, rest: Option<String>) -> (ev: Vec<GenerationEvent>)
        requires
            old(self).wf(),
            old(self).phase == Phase::Cleanup,
            !old(self).flushed,
            !old(self).failed,
            !old(self).aborted,
        ensures
            final(self).wf(),
            final(self).phase == Phase::Cleanup,
            final(self).flushed,
            !final(self).failed && !final(self).aborted,
            !final(self).reset_done,
            final(self).config == old(self).config,
            final(self).steps == old(self).steps,
            final(self).token_ids == old(self).token_ids,
            rest matches Some(f) ==> ev@.len() == 1 && ev@[0]@ == EventView::Token(f@)
                && final(self).emitted@ == old(self).emitted@.push(EventView::Token(f@)),
            rest is None ==> ev@.len() == 0 && final(self).emitted@ == old(self).emitted@,
    {
        self.flushed = true;
        let mut evs: Vec<GenerationEvent> = Vec::new();
        match rest {
            Some(f) => {
                let ghost fv = f@;
                evs.push(GenerationEvent::Token(f));
                self.emitted = Ghost(self.emitted@.push(EventView::Token(fv)));
                proof {
                    lemma_push_keeps_prefix(old(self).emitted@, EventView::Token(fv));
                    assert forall|i: int| 2 <= i < self.emitted@.len() implies self.emitted@[i]
                        is Token by {
                        if i < old(self).emitted@.len() {
                            assert(self.emitted@[i] == old(self).emitted@[i]);
                        } else {
                            assert(self.emitted@[i] == EventView::Token(fv));
                        }
                    }
                }
            },
            None => {},
        }
        evs
    }

    /// The model resource's recurrent state has been reset. Only now may
    /// the session finish; on a delivered, successful run this also emits
    /// the final success marker.
    pub fn on_reset(&mut self) -> (ev: Vec<GenerationEvent>)
        requires
            old(self).wf(),
            old(self).phase == Phase::Cleanup,
            !old(self).failed && !old(self).aborted ==> old(self).flushed,
        ensures
            final(self).wf(),
            final(self).phase == Phase::Finished,
            final(self).reset_done,
            final(self).failed == old(self).failed,
            final(self).aborted == old(self).aborted,
            final(self).config == old(self).config,
            final(self).steps == old(self).steps,
            final(self).token_ids == old(self).token_ids,
            !old(self).failed && !old(self).aborted ==> ev@.len() == 1 && ev@[0]@
                == EventView::Status("Done"@) && final(self).emitted@ == old(self).emitted@.push(
                EventView::Status("Done"@),
            ),
            old(self).failed || old(self).aborted ==> ev@.len() == 0 && final(self).emitted@
                == old(self).emitted@,
    {
        self.reset_done = true;
        self.phase = Phase::Finished;
        let mut evs: Vec<GenerationEvent> = Vec::new();
        if !self.failed && !self.aborted {
            evs.push(GenerationEvent::Status(String::from_str("Done")));
            self.emitted = Ghost(self.emitted@.push(EventView::Status("Done"@)));
            proof {
                lemma_push_keeps_prefix(old(self).emitted@, EventView::Status("Done"@));
                assert forall|i: int| 2 <= i < self.emitted@.len() - 1 implies self.emitted@[i]
                    is Token by {
                    assert(self.emitted@[i] == old(self).emitted@[i]);
                }
            }
        }
        evs
    }
}

/// After every request — success, collaborator error, or client disconnect
/// — the model resource's recurrent state has been reset: the session
/// cannot reach its final phase without the reset transition.
pub proof fn lemma_finished_implies_reset(s: Session)
    requires
        s.wf(),
        s.phase == Phase::Finished,
    ensures
        s.reset_done,
{
}

/// A delivered stream ends with a terminal event: when a session finishes
/// without a client disconnect, the last emitted event is the final
/// success marker or an error status.
pub proof fn lemma_finished_stream_terminal(s: Session)
    requires
        s.wf(),
        s.phase == Phase::Finished,
        !s.aborted,
    ensures
        s.emitted@.len() > 0,
        is_terminal_event(s.emitted@.last()),
{
}

/// A delivered, successful run streams, in order: the loading-model
/// status, the loading-image status, zero or more token events, and the
/// final success marker.
pub proof fn lemma_success_stream_shape(s: Session)
    requires
        s.wf(),
        s.phase == Phase::Finished,
        !s.failed,
        !s.aborted,
    ensures
        s.emitted@.len() >= 3,
        s.emitted@.subrange(0, 2) == spec_startup_events(),
        forall|i: int| 2 <= i < s.emitted@.len() - 1 ==> s.emitted@[i] is Token,
        s.emitted@.last() == EventView::Status("Done"@),
{
    reveal_strlit("Loading image...");
    reveal_strlit("Done");
    if s.emitted@.len() == 2 {
        assert(s.emitted@.last() == s.emitted@.subrange(0, 2)[1]);
        assert("Loading image..."@.len() != "Done"@.len());
    }
}

/// The loop never exceeds the configured step cap, in any phase.
pub proof fn lemma_step_cap(s: Session)
    requires
        s.wf(),
    ensures
        s.steps <= s.config.max_steps,
{
}

/// Assemble the consolidated full-caption text: the decoded fragments
/// joined in order — the building block behind the optional consolidated
/// final message, kept beside the incremental stream.
pub fn join_fragments(parts: &Vec<String>) -> (r: String)
    ensures
        r@ == parts.deep_view().flatten(),
{
    let ghost dv = parts.deep_view();
    let mut out: String = String::new();
    let mut i: usize = 0;
    while i < parts.len()
        invariant
            i <= parts@.len(),
            dv == parts.deep_view(),
            dv.len() == parts@.len(),
            out@ == dv.take(i as int).flatten(),
        decreases parts@.len() - i,
    {
        out.append(parts[i].as_str());
        proof {
            assert(dv[i as int] == parts@[i as int]@);
            assert(dv.take(i as int).push(dv[i as int]) =~= dv.take(i + 1));
            dv.take(i as int).lemma_flatten_push(dv[i as int]);
        }
        i += 1;
    }
    proof {
        assert(dv.take(parts@.len() as int) =~= dv);
    }
    out
}

/// The number of decode steps a loop performs when, starting with
/// `steps0` steps already done, the sampler returns `samples` in order:
/// each sample costs one step, and the loop stops at the first end marker
/// or at the cap, whichever comes first. The stop condition is the one
/// `Session::on_token` reports.
pub open spec fn run_steps(samples: Seq<u32>, steps0: nat, cfg: GenConfig) -> nat
    decreases samples.len(),
{
    if samples.len() == 0 || steps0 >= cfg.max_steps {
        steps0
    } else if samples[0] == cfg.eos_token || steps0 + 1 == cfg.max_steps {
        (steps0 + 1) as nat
    } else {
        run_steps(samples.drop_first(), (steps0 + 1) as nat, cfg)
    }
}

/// One unfolding of `run_steps`, in the very terms of `on_token`'s
/// contract: consuming one sample costs one step, and the run goes on
/// exactly when `on_token` reports the loop not done.
pub proof fn lemma_run_unfold(samples: Seq<u32>, steps0: nat, cfg: GenConfig)
    requires
        samples.len() > 0,
        steps0 < cfg.max_steps,
    ensures
        run_steps(samples, steps0, cfg) == if samples[0] == cfg.eos_token || steps0 + 1
            == cfg.max_steps {
            (steps0 + 1) as nat
        } else {
            run_steps(samples.drop_first(), (steps0 + 1) as nat, cfg)
        },
{
}

/// However the sampler behaves, the loop never runs past the cap.
pub proof fn lemma_run_never_exceeds_cap(samples: Seq<u32>, steps0: nat, cfg: GenConfig)
    requires
        steps0 <= cfg.max_steps,
    ensures
        run_steps(samples, steps0, cfg) <= cfg.max_steps,
    decreases samples.len(),
{
    if samples.len() == 0 || steps0 >= cfg.max_steps {
    } else if samples[0] == cfg.eos_token || steps0 + 1 == cfg.max_steps {
    } else {
        lemma_run_never_exceeds_cap(samples.drop_first(), (steps0 + 1) as nat, cfg);
    }
}

/// Against a sampler that never returns the end marker, the loop
/// terminates exactly at the cap.
pub proof fn lemma_run_reaches_cap(samples: Seq<u32>, steps0: nat, cfg: GenConfig)
    requires
        steps0 <= cfg.max_steps,
        samples.len() >= cfg.max_steps - steps0,
        forall|i: int| 0 <= i < samples.len() ==> samples[i] != cfg.eos_token,
    ensures
        run_steps(samples, steps0, cfg) == cfg.max_steps,
    decreases samples.len(),
{
    if samples.len() == 0 || steps0 >= cfg.max_steps {
    } else if samples[0] == cfg.eos_token || steps0 + 1 == cfg.max_steps {
    } else {
        assert forall|i: int| 0 <= i < samples.drop_first().len() implies samples.drop_first()[i]
            != cfg.eos_token by {
            assert(samples.drop_first()[i] == samples[i + 1]);
        }
        lemma_run_reaches_cap(samples.drop_first(), (steps0 + 1) as nat, cfg);
    }
}

/// The loop stops immediately at the first end marker: if the sampler
/// first returns it as its `k`-th answer, within the cap, the loop
/// performs exactly `k + 1` decode steps.
pub proof fn lemma_run_stops_at_eos(samples: Seq<u32>, steps0: nat, cfg: GenConfig, k: int)
    requires
        0 <= k < samples.len(),
        samples[k] == cfg.eos_token,
        forall|i: int| 0 <= i < k ==> samples[i] != cfg.eos_token,
        steps0 + k + 1 <= cfg.max_steps,
    ensures
        run_steps(samples, steps0, cfg) == steps0 + k + 1,
    decreases k,
{
    if k == 0 {
    } else {
        assert(samples[0] != cfg.eos_token);
        assert forall|i: int| 0 <= i < k - 1 implies samples.drop_first()[i] != cfg.eos_token by {
            assert(samples.drop_first()[i] == samples[i + 1]);
        }
        assert(samples.drop_first()[k - 1] == samples[k]);
        lemma_run_stops_at_eos(samples.drop_first(), (steps0 + 1) as nat, cfg, k - 1);
    }
}

} // verus!
