//! The main control state machine: `Running` → `Stopping` → `Finalizing` →
//! `Done`.
//!
//! The session owns the timeline for the process lifetime and is the only
//! mutator of it. The caller polls the capture sources, runs the recognizer
//! and the model call, and feeds every observation in as plain values; each
//! record operation hands back the exact log text for the observation.

use crate::event::{Event, EventV};
use crate::render::{log_line, log_line_chars};
use crate::timeline::{prompt_chars, sorted_by_ts, stable_insert, Timeline};
use vstd::prelude::*;

verus! {

/// The control-loop phase.
#[derive(Clone, Copy, PartialEq, Eq, Structural, Debug)]
pub enum Phase {
    Running,
    Stopping,
    Finalizing,
    Done,
}

/// A keyboard observation as a timeline event.
pub open spec fn key_event(symbol: Seq<char>, timestamp_cs: u64) -> EventV {
    EventV::KeyPressed { symbol, timestamp_cs }
}

/// A transcribed segment as a timeline event.
pub open spec fn transcribed_event(text: Seq<char>, timestamp_cs: u64) -> EventV {
    EventV::Transcribed { text, timestamp_cs }
}

/// The character sequences of a batch of transcribed segments.
pub open spec fn text_views(texts: Seq<String>) -> Seq<Seq<char>> {
    texts.map_values(|t: String| t@)
}

/// The timeline contents after absorbing a transcription batch: every
/// segment becomes one event, inserted in emission order, and all of them
/// carry the same completion timestamp.
pub open spec fn absorb_batch(tl: Seq<EventV>, texts: Seq<Seq<char>>, timestamp_cs: u64) -> Seq<
    EventV,
>
    decreases texts.len(),
{
    if texts.len() == 0 {
        tl
    } else {
        stable_insert(
            absorb_batch(tl, texts.drop_last(), timestamp_cs),
            transcribed_event(texts.last(), timestamp_cs),
        )
    }
}

/// The dictation session: the control phase and the timeline it owns.
pub struct Session {
    phase: Phase,
    timeline: Timeline,
}

impl Session {
    /// The current control phase.
    pub closed spec fn spec_phase(&self) -> Phase {
        self.phase
    }

    /// The timeline contents.
    pub closed spec fn events(&self) -> Seq<EventV> {
        self.timeline@
    }

    /// A session is well-formed when its timeline is sorted by timestamp.
    pub open spec fn wf(&self) -> bool {
        sorted_by_ts(self.events())
    }

    /// A fresh session: running, with an empty timeline.
    pub fn new() -> (r: Self)
        ensures
            r.spec_phase() == Phase::Running,
            r.events() == Seq::<EventV>::empty(),
            r.wf(),
    {
        Session { phase: Phase::Running, timeline: Timeline::new() }
    }

    /// The current phase, for the caller's loop condition.
    pub fn phase(&self) -> (r: Phase)
        ensures
            r == self.spec_phase(),
    {
        self.phase
    }

    /// Records one keyboard observation: the symbol joins the timeline at its
    /// observation timestamp, and the exact log line for it is handed back.
    pub fn record_key(&mut self, symbol: String, timestamp_cs: u64) -> (line: String)
        requires
            old(self).wf(),
            old(self).spec_phase() == Phase::Running,
        ensures
            final(self).wf(),
            final(self).spec_phase() == Phase::Running,
            final(self).events() == stable_insert(old(self).events(), key_event(symbol@, timestamp_cs)),
            final(self).events().len() == old(self).events().len() + 1,
            line@ == log_line_chars(key_event(symbol@, timestamp_cs)),
    {
        let event = Event::KeyPressed { symbol, timestamp_cs };
        let line = log_line(&event);
        proof {
            crate::timeline::lemma_stable_insert_len(self.events(), event@);
        }
        self.timeline.add_event(event);
        line
    }

    /// Absorbs the outcome of one recognizer invocation.
    ///
    /// On success, every returned segment joins the timeline, in emission
    /// order, all carrying the given completion timestamp, and the exact log
    /// line of each is handed back. On failure the timeline is untouched and
    /// nothing is handed back: the batch is discarded, the phase is
    /// unchanged, and later batches proceed as if nothing happened.
    pub fn record_batch_outcome(
        &mut self,
        outcome: Result<Vec<String>, String>,
        timestamp_cs: u64,
    ) -> (lines: Vec<String>)
        requires
            old(self).wf(),
            old(self).spec_phase() == Phase::Running || old(self).spec_phase() == Phase::Finalizing,
        ensures
            final(self).wf(),
            final(self).spec_phase() == old(self).spec_phase(),
            outcome matches Err(_) ==> final(self).events() == old(self).events() && lines@
                == Seq::<String>::empty(),
            outcome matches Ok(texts) ==> final(self).events() == absorb_batch(
                old(self).events(),
                text_views(texts@),
                timestamp_cs,
            ) && final(self).events().len() == old(self).events().len() + texts@.len()
                && lines@.len() == texts@.len() && (forall|k: int|
                0 <= k < texts@.len() ==> (#[trigger] lines@[k])@ == log_line_chars(
                    transcribed_event(texts@[k]@, timestamp_cs),
                )),
    {
        match outcome {
            Err(_) => {
                let lines: Vec<String> = Vec::new();
                proof {
                    assert(lines@ =~= Seq::<String>::empty());
                }
                lines
            },
            Ok(texts) => {
                let ghost tl0 = self.events();
                let ghost tviews = text_views(texts@);
                let mut lines: Vec<String> = Vec::new();
                let mut i: usize = 0;
                while i < texts.len()
                    invariant
                        i <= texts@.len(),
                        tviews == text_views(texts@),
                        tviews.len() == texts@.len(),
                        forall|k: int| 0 <= k < texts@.len() ==> tviews[k] == (
                        #[trigger] texts@[k])@,
                        self.spec_phase() == old(self).spec_phase(),
                        self.wf(),
                        self.events() == absorb_batch(tl0, tviews.take(i as int), timestamp_cs),
                        self.events().len() == tl0.len() + i,
                        lines@.len() == i,
                        forall|k: int|
                            0 <= k < i ==> (#[trigger] lines@[k])@ == log_line_chars(
                                transcribed_event(tviews[k], timestamp_cs),
                            ),
                    decreases texts@.len() - i,
                {
                    let text = texts[i].clone();
                    let event = Event::Transcribed { text, timestamp_cs };
                    let line = log_line(&event);
                    proof {
                        crate::timeline::lemma_stable_insert_len(self.events(), event@);
                        assert(tviews.take(i + 1 as int).drop_last() =~= tviews.take(i as int));
                        assert(tviews.take(i + 1 as int).last() == tviews[i as int]);
                    }
                    lines.push(line);
                    self.timeline.add_event(event);
                    i = i + 1;
                }
                proof {
                    assert(tviews.take(texts@.len() as int) =~= tviews);
                }
                lines
            },
        }
    }

    /// Notes the external interrupt: the session stops taking new work.
    pub fn request_stop(&mut self)
        requires
            old(self).spec_phase() == Phase::Running,
        ensures
            final(self).spec_phase() == Phase::Stopping,
            final(self).events() == old(self).events(),
            final(self).wf() == old(self).wf(),
    {
        self.phase = Phase::Stopping;
    }

    /// Enters finalization: one last unconditional drain-and-transcribe
    /// happens in this phase, before the prompt is produced.
    pub fn begin_finalization(&mut self)
        requires
            old(self).spec_phase() == Phase::Stopping,
        ensures
            final(self).spec_phase() == Phase::Finalizing,
            final(self).events() == old(self).events(),
            final(self).wf() == old(self).wf(),
    {
        self.phase = Phase::Finalizing;
    }

    /// Ends the session: renders the prompt from the final timeline contents
    /// and moves to `Done`. Callable exactly once, after finalization.
    pub fn finish(&mut self) -> (prompt: String)
        requires
            old(self).wf(),
            old(self).spec_phase() == Phase::Finalizing,
        ensures
            final(self).spec_phase() == Phase::Done,
            final(self).events() == old(self).events(),
            final(self).wf(),
            prompt@ == prompt_chars(old(self).events()),
    {
        let prompt = self.timeline.generate_prompt();
        self.phase = Phase::Done;
        prompt
    }

    /// Read-only snapshot of the ordered events, for inspection and logging.
    pub fn timeline_events(&self) -> (r: &Vec<Event>)
        ensures
            r@.len() == self.events().len(),
            forall|i: int| 0 <= i < self.events().len() ==> (#[trigger] r@[i])@ == self.events()[i],
    {
        self.timeline.get_events()
    }
}

} // verus!
