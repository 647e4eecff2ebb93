//! The timeline: the always-sorted merge of all observed events, and the
//! prompt synthesizer that renders it for the LaTeX-producing model.
//!
//! Events are kept in ascending timestamp order; events with equal timestamps
//! keep their relative insertion order (stable insertion). The timeline only
//! ever grows: there is no deletion.

use crate::event::{ts_of, Event, EventV};
use crate::render::{prompt_line, prompt_line_chars};
use vstd::prelude::*;

verus! {

/// Non-decreasing in timestamp.
pub open spec fn sorted_by_ts(s: Seq<EventV>) -> bool {
    forall|i: int, j: int| 0 <= i < j < s.len() ==> ts_of(s[i]) <= ts_of(s[j])
}

/// Stable insertion: `e` ends up after every event whose timestamp is less
/// than or equal to its own, and before every event with a strictly greater
/// timestamp.
pub open spec fn stable_insert(s: Seq<EventV>, e: EventV) -> Seq<EventV>
    decreases s.len(),
{
    if s.len() == 0 {
        seq![e]
    } else if ts_of(s.last()) <= ts_of(e) {
        s.push(e)
    } else {
        stable_insert(s.drop_last(), e).push(s.last())
    }
}

/// The subsequence of events carrying timestamp `t`, in order.
pub open spec fn with_ts(s: Seq<EventV>, t: u64) -> Seq<EventV>
    decreases s.len(),
{
    if s.len() == 0 {
        Seq::<EventV>::empty()
    } else if ts_of(s.last()) == t {
        with_ts(s.drop_last(), t).push(s.last())
    } else {
        with_ts(s.drop_last(), t)
    }
}

/// The timeline contents after adding the events of `s`, one at a time and in
/// order, to an empty timeline.
pub open spec fn build(s: Seq<EventV>) -> Seq<EventV>
    decreases s.len(),
{
    if s.len() == 0 {
        Seq::<EventV>::empty()
    } else {
        stable_insert(build(s.drop_last()), s.last())
    }
}

/// Stable insertion adds exactly one event.
pub proof fn lemma_stable_insert_len(s: Seq<EventV>, e: EventV)
    ensures
        stable_insert(s, e).len() == s.len() + 1,
    decreases s.len(),
{
    if s.len() == 0 {
    } else if ts_of(s.last()) <= ts_of(e) {
    } else {
        lemma_stable_insert_len(s.drop_last(), e);
    }
}

/// Building a timeline preserves the number of events.
pub proof fn lemma_build_len(s: Seq<EventV>)
    ensures
        build(s).len() == s.len(),
    decreases s.len(),
{
    if s.len() == 0 {
    } else {
        lemma_build_len(s.drop_last());
        lemma_stable_insert_len(build(s.drop_last()), s.last());
    }
}

/// A timestamp bound on the inputs of a stable insertion bounds its result.
proof fn lemma_stable_insert_ts_bound(s: Seq<EventV>, e: EventV, b: u64)
    requires
        forall|i: int| 0 <= i < s.len() ==> ts_of(s[i]) <= b,
        ts_of(e) <= b,
    ensures
        forall|k: int|
            0 <= k < stable_insert(s, e).len() ==> ts_of(#[trigger] stable_insert(s, e)[k]) <= b,
    decreases s.len(),
{
    if s.len() == 0 {
    } else if ts_of(s.last()) <= ts_of(e) {
    } else {
        lemma_stable_insert_ts_bound(s.drop_last(), e, b);
        let r = stable_insert(s.drop_last(), e).push(s.last());
        assert forall|k: int| 0 <= k < r.len() implies ts_of(r[k]) <= b by {
            if k < r.len() - 1 {
                assert(r[k] == stable_insert(s.drop_last(), e)[k]);
            } else {
                assert(r[k] == s.last());
            }
        }
    }
}

/// Stable insertion into a sorted timeline leaves it sorted.
pub proof fn lemma_stable_insert_sorted(s: Seq<EventV>, e: EventV)
    requires
        sorted_by_ts(s),
    ensures
        sorted_by_ts(stable_insert(s, e)),
    decreases s.len(),
{
    if s.len() == 0 {
    } else if ts_of(s.last()) <= ts_of(e) {
        let r = s.push(e);
        assert forall|i: int, j: int| 0 <= i < j < r.len() implies ts_of(r[i]) <= ts_of(r[j]) by {
            if j < r.len() - 1 {
                assert(r[i] == s[i] && r[j] == s[j]);
            } else {
                assert(r[j] == e);
                if i < s.len() - 1 {
                    assert(ts_of(s[i]) <= ts_of(s.last()));
                }
            }
        }
    } else {
        assert(sorted_by_ts(s.drop_last())) by {
            assert forall|i: int, j: int|
                0 <= i < j < s.drop_last().len() implies ts_of(s.drop_last()[i]) <= ts_of(
                s.drop_last()[j],
            ) by {
                assert(s.drop_last()[i] == s[i] && s.drop_last()[j] == s[j]);
            }
        }
        lemma_stable_insert_sorted(s.drop_last(), e);
        let inner = stable_insert(s.drop_last(), e);
        assert forall|i: int| 0 <= i < s.drop_last().len() implies ts_of(s.drop_last()[i]) <= ts_of(
            s.last(),
        ) by {
            assert(s.drop_last()[i] == s[i]);
            assert(ts_of(s[i]) <= ts_of(s[s.len() - 1]));
        }
        lemma_stable_insert_ts_bound(s.drop_last(), e, ts_of(s.last()));
        let r = inner.push(s.last());
        assert forall|i: int, j: int| 0 <= i < j < r.len() implies ts_of(r[i]) <= ts_of(r[j]) by {
            if j < r.len() - 1 {
                assert(r[i] == inner[i] && r[j] == inner[j]);
            } else {
                assert(r[j] == s.last());
                assert(r[i] == inner[i]);
            }
        }
    }
}

/// How stable insertion acts on the events of one timestamp: the inserted
/// event is appended to its own timestamp class and every other class is
/// untouched.
pub proof fn lemma_stable_insert_with_ts(s: Seq<EventV>, e: EventV, t: u64)
    ensures
        with_ts(stable_insert(s, e), t) == if ts_of(e) == t {
            with_ts(s, t).push(e)
        } else {
            with_ts(s, t)
        },
    decreases s.len(),
{
    assert(with_ts(Seq::<EventV>::empty(), t) == Seq::<EventV>::empty());
    if s.len() == 0 {
        let r = seq![e];
        assert(stable_insert(s, e) == r);
        assert(r.last() == e);
        assert(r.drop_last() =~= Seq::<EventV>::empty());
        assert(with_ts(s, t) == Seq::<EventV>::empty());
        if ts_of(e) == t {
            assert(with_ts(r, t) == with_ts(r.drop_last(), t).push(e));
        } else {
            assert(with_ts(r, t) == with_ts(r.drop_last(), t));
        }
    } else if ts_of(s.last()) <= ts_of(e) {
        let r = s.push(e);
        assert(stable_insert(s, e) == r);
        assert(r.last() == e);
        assert(r.len() == s.len() + 1);
        assert(r.drop_last() =~= s);
        if ts_of(e) == t {
            assert(with_ts(r, t) == with_ts(s, t).push(e));
        } else {
            assert(with_ts(r, t) == with_ts(s, t));
        }
    } else {
        lemma_stable_insert_with_ts(s.drop_last(), e, t);
        let inner = stable_insert(s.drop_last(), e);
        let r = inner.push(s.last());
        assert(stable_insert(s, e) == r);
        assert(r.last() == s.last());
        assert(r.len() == inner.len() + 1);
        assert(r.drop_last() =~= inner);
        if ts_of(s.last()) == t {
            assert(with_ts(r, t) == with_ts(inner, t).push(s.last()));
            assert(with_ts(s, t) == with_ts(s.drop_last(), t).push(s.last()));
        } else {
            assert(with_ts(r, t) == with_ts(inner, t));
            assert(with_ts(s, t) == with_ts(s.drop_last(), t));
        }
    }
}

/// Building a timeline sorts it.
pub proof fn lemma_build_sorted(s: Seq<EventV>)
    ensures
        sorted_by_ts(build(s)),
    decreases s.len(),
{
    if s.len() == 0 {
    } else {
        lemma_build_sorted(s.drop_last());
        lemma_stable_insert_sorted(build(s.drop_last()), s.last());
    }
}

/// Building a timeline keeps, within each timestamp, the insertion order.
pub proof fn lemma_build_stable(s: Seq<EventV>, t: u64)
    ensures
        with_ts(build(s), t) == with_ts(s, t),
    decreases s.len(),
{
    if s.len() == 0 {
    } else {
        lemma_build_stable(s.drop_last(), t);
        lemma_stable_insert_with_ts(build(s.drop_last()), s.last(), t);
    }
}

/// The merging law: whatever interleaving of events is added to a timeline,
/// one at a time, the resulting contents are non-decreasing in timestamp,
/// events sharing a timestamp keep their relative insertion order, and no
/// event is dropped or duplicated.
pub proof fn lemma_insertion_order(s: Seq<EventV>)
    ensures
        sorted_by_ts(build(s)),
        forall|t: u64| with_ts(build(s), t) == with_ts(s, t),
        build(s).len() == s.len(),
{
    lemma_build_sorted(s);
    assert forall|t: u64| with_ts(build(s), t) == with_ts(s, t) by {
        lemma_build_stable(s, t);
    }
    lemma_build_len(s);
}

/// The fixed instructional preamble of every prompt.
pub open spec fn preamble_chars() -> Seq<char> {
    (
    "Convert the following sequence of transcribed speech and keyboard-inserted symbols into a clean LaTeX document with inline ($...$) and display ($$...$$) mathematics. The keyboard symbols like '(', ')', '[', ']', '{', '}', '^', '_', and '\\\\' were inserted manually by the user during dictation to clarify the structure. \nIMPORTANT: The '\\\\' symbol (inserted via the semicolon key) indicates a line break or alignment point. Please use an 'aligned' environment for multiline formulas if this symbol is present.\n\nTimeline of events:\n"
    )@
}

/// The fixed trailing instruction of every prompt.
pub open spec fn trailer_chars() -> Seq<char> {
    ("\nOutput only the final LaTeX code.")@
}

/// One prompt line per event, in timeline order; nothing dropped, merged or
/// reordered.
pub open spec fn prompt_lines(s: Seq<EventV>) -> Seq<char>
    decreases s.len(),
{
    if s.len() == 0 {
        Seq::<char>::empty()
    } else {
        prompt_lines(s.drop_last()) + prompt_line_chars(s.last())
    }
}

/// The whole prompt: preamble, one line per event in order, trailer. A pure
/// function of the timeline contents.
pub open spec fn prompt_chars(s: Seq<EventV>) -> Seq<char> {
    preamble_chars() + prompt_lines(s) + trailer_chars()
}

/// The ordered merge of all observed events.
pub struct Timeline {
    events: Vec<Event>,
}

impl View for Timeline {
    type V = Seq<EventV>;

    closed spec fn view(&self) -> Seq<EventV> {
        self.events@.map_values(|e: Event| e@)
    }
}

impl Timeline {
    /// A timeline is well-formed when its contents are sorted by timestamp.
    pub open spec fn wf(&self) -> bool {
        sorted_by_ts(self@)
    }

    /// Creates an empty timeline.
    pub fn new() -> (r: Self)
        ensures
            r@ == Seq::<EventV>::empty(),
            r.wf(),
    {
        let r = Timeline { events: Vec::new() };
        proof {
            assert(r@ =~= Seq::<EventV>::empty());
        }
        r
    }

    /// Inserts `event`, restoring sort order by timestamp; an event ties with
    /// already-present events of equal timestamp by going after them.
    pub fn add_event(&mut self, event: Event)
        requires
            old(self).wf(),
        ensures
            final(self)@ == stable_insert(old(self)@, event@),
            final(self).wf(),
    {
        let t = event.timestamp();
        let ghost s = self@;
        let mut pos: usize = 0;
        let mut i: usize = 0;
        while i < self.events.len()
            invariant
                self == old(self),
                s == self@,
                sorted_by_ts(s),
                self.events@.len() == s.len(),
                forall|j: int| 0 <= j < s.len() ==> (#[trigger] self.events@[j])@ == s[j],
                i <= self.events@.len(),
                pos <= i,
                forall|j: int| 0 <= j < pos ==> ts_of(s[j]) <= t,
                forall|j: int| pos <= j < i ==> ts_of(s[j]) > t,
            decreases self.events@.len() - i,
        {
            if self.events[i].timestamp() <= t {
                proof {
                    assert(self.events@[i as int]@ == s[i as int]);
                    assert forall|j: int| 0 <= j < i + 1 implies ts_of(s[j]) <= t by {
                        if pos <= j < i {
                            assert(ts_of(s[j]) <= ts_of(s[i as int]));
                        }
                    }
                }
                pos = i + 1;
            }
            i = i + 1;
        }
        self.events.insert(pos, event);
        proof {
            assert(self@ =~= s.insert(pos as int, event@));
            lemma_stable_insert_at(s, event@, pos as int);
            lemma_stable_insert_sorted(s, event@);
        }
    }

    /// Read-only snapshot of the ordered events.
    pub fn get_events(&self) -> (r: &Vec<Event>)
        ensures
            r@.len() == self@.len(),
            forall|i: int| 0 <= i < self@.len() ==> r@[i]@ == self@[i],
    {
        &self.events
    }

    /// Renders the timeline into the prompt: fixed preamble, one line per
    /// event in timeline order, fixed trailer.
    pub fn generate_prompt(&self) -> (r: String)
        ensures
            r@ == prompt_chars(self@),
    {
        let mut p = String::from_str(
            "Convert the following sequence of transcribed speech and keyboard-inserted symbols into a clean LaTeX document with inline ($...$) and display ($$...$$) mathematics. The keyboard symbols like '(', ')', '[', ']', '{', '}', '^', '_', and '\\\\' were inserted manually by the user during dictation to clarify the structure. \nIMPORTANT: The '\\\\' symbol (inserted via the semicolon key) indicates a line break or alignment point. Please use an 'aligned' environment for multiline formulas if this symbol is present.\n\nTimeline of events:\n",
        );
        proof {
            assert(p@ =~= preamble_chars() + prompt_lines(self@.take(0)));
        }
        let mut i: usize = 0;
        while i < self.events.len()
            invariant
                i <= self.events@.len(),
                self.events@.len() == self@.len(),
                forall|j: int| 0 <= j < self@.len() ==> self.events@[j]@ == self@[j],
                p@ == preamble_chars() + prompt_lines(self@.take(i as int)),
            decreases self.events@.len() - i,
        {
            let line = prompt_line(&self.events[i]);
            p.append(line.as_str());
            i = i + 1;
            proof {
                let s = self@;
                assert(s.take(i as int).drop_last() =~= s.take(i as int - 1));
                assert(s.take(i as int).last() == s[i as int - 1]);
                assert(p@ =~= preamble_chars() + prompt_lines(s.take(i as int)));
            }
        }
        proof {
            assert(self@.take(self@.len() as int) =~= self@);
        }
        p.append("\nOutput only the final LaTeX code.");
        proof {
            assert(p@ =~= prompt_chars(self@));
        }
        p
    }
}

/// Stable insertion lands exactly at the boundary between the events with a
/// timestamp at most `ts_of(e)` and those strictly beyond it.
proof fn lemma_stable_insert_at(s: Seq<EventV>, e: EventV, i: int)
    requires
        0 <= i <= s.len(),
        forall|j: int| 0 <= j < i ==> ts_of(s[j]) <= ts_of(e),
        forall|j: int| i <= j < s.len() ==> ts_of(s[j]) > ts_of(e),
    ensures
        stable_insert(s, e) == s.insert(i, e),
    decreases s.len(),
{
    if s.len() == 0 {
        assert(seq![e] =~= s.insert(0, e));
    } else if ts_of(s.last()) <= ts_of(e) {
        assert(i == s.len()) by {
            if i < s.len() {
                assert(ts_of(s[s.len() - 1]) > ts_of(e));
            }
        }
        assert(s.push(e) =~= s.insert(i, e));
    } else {
        assert(i < s.len()) by {
            if i == s.len() {
                assert(ts_of(s[s.len() - 1]) <= ts_of(e));
            }
        }
        assert forall|j: int| 0 <= j < i implies ts_of(s.drop_last()[j]) <= ts_of(e) by {
            assert(s.drop_last()[j] == s[j]);
        }
        assert forall|j: int| i <= j < s.drop_last().len() implies ts_of(s.drop_last()[j]) > ts_of(
            e,
        ) by {
            assert(s.drop_last()[j] == s[j]);
        }
        lemma_stable_insert_at(s.drop_last(), e, i);
        assert(s.drop_last().insert(i, e).push(s.last()) =~= s.insert(i, e));
    }
}

/// Prompt synthesis is deterministic: timelines with equal contents render to
/// byte-identical prompt text.
pub proof fn lemma_prompt_deterministic(a: Timeline, b: Timeline)
    requires
        a@ == b@,
    ensures
        prompt_chars(a@) == prompt_chars(b@),
{
}

} // verus!
