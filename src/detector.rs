//! The edge detector: a two-state machine over successive samples of a
//! binary input line.

use vstd::prelude::*;

verus! {

/// One sample of a binary input line.
#[derive(Clone, Copy, Debug, PartialEq, Eq, Structural)]
pub enum Level {
    Low,
    High,
}

/// A detected change of level.
#[derive(Clone, Copy, Debug, PartialEq, Eq, Structural)]
pub enum Transition {
    /// Low to High: a press started.
    Started,
    /// High to Low: a press ended.
    Ended,
}

/// The event (if any) that sample `s` raises after sample `prev`.
pub open spec fn step(prev: Level, s: Level) -> Option<Transition> {
    if prev == Level::Low && s == Level::High {
        Some(Transition::Started)
    } else if prev == Level::High && s == Level::Low {
        Some(Transition::Ended)
    } else {
        None
    }
}

/// The level that sample `i` of `samples` is compared with: the one before
/// it, or `Low` for the first.
pub open spec fn prev_at(samples: Seq<Level>, i: int) -> Level {
    if i == 0 {
        Level::Low
    } else {
        samples[i - 1]
    }
}

pub open spec fn opt_seq(t: Option<Transition>) -> Seq<Transition> {
    match t {
        Some(e) => seq![e],
        None => seq![],
    }
}

/// The events that a fresh detector raises on `samples`, in sample order.
pub open spec fn events(samples: Seq<Level>) -> Seq<Transition>
    decreases samples.len(),
{
    if samples.len() == 0 {
        seq![]
    } else {
        events(samples.drop_last()) + opt_seq(
            step(prev_at(samples, samples.len() - 1), samples.last()),
        )
    }
}

/// The state of an edge detector: the last level it has seen.
#[derive(Clone, Copy, Debug, PartialEq, Eq, Structural)]
pub struct EdgeDetector {
    pub last: Level,
}

impl EdgeDetector {
    /// A detector that has seen nothing yet; it takes the line to be `Low`.
    pub fn new() -> (r: EdgeDetector)
        ensures
            r.last == Level::Low,
    {
        EdgeDetector { last: Level::Low }
    }

    /// Feeds one sample: returns the event it raises and remembers it.
    pub fn observe(&mut self, s: Level) -> (r: Option<Transition>)
        ensures
            r == step(old(self).last, s),
            final(self).last == s,
    {
        let prev = self.last;
        self.last = s;
        match (prev, s) {
            (Level::Low, Level::High) => Some(Transition::Started),
            (Level::High, Level::Low) => Some(Transition::Ended),
            _ => None,
        }
    }
}

/// Runs a fresh detector over `samples` and collects the events it raises.
pub fn detect_all(samples: &Vec<Level>) -> (r: Vec<Transition>)
    ensures
        r@ == events(samples@),
{
    let mut d = EdgeDetector::new();
    let mut r: Vec<Transition> = Vec::new();
    let mut i: usize = 0;
    while i < samples.len()
        invariant
            i <= samples@.len(),
            d.last == prev_at(samples@, i as int),
            r@ == events(samples@.take(i as int)),
        decreases samples@.len() - i,
    {
        let ghost t = samples@.take(i + 1);
        assert(t.drop_last() =~= samples@.take(i as int));
        assert(prev_at(t, i as int) == prev_at(samples@, i as int));
        match d.observe(samples[i]) {
            Some(e) => r.push(e),
            None => {},
        }
        i = i + 1;
        assert(r@ =~= events(t));
    }
    assert(samples@.take(samples@.len() as int) =~= samples@);
    r
}

/// The level of the simulated input line at `secs` seconds since the Unix
/// epoch: `High` on even seconds, `Low` on odd ones.
pub fn simulated_level(secs: u64) -> (r: Level)
    ensures
        r == (if secs % 2 == 0 { Level::High } else { Level::Low }),
{
    if secs % 2 == 0 {
        Level::High
    } else {
        Level::Low
    }
}

/// A sample equal to the one before it raises no event.
pub proof fn lemma_repeat_is_silent(samples: Seq<Level>, i: int)
    requires
        0 < i < samples.len(),
        samples[i - 1] == samples[i],
    ensures
        step(prev_at(samples, i), samples[i]) is None,
{
}

/// Reading the last level once more adds no event.
pub proof fn lemma_repeat_adds_nothing(samples: Seq<Level>, s: Level)
    ensures
        events(samples.push(s).push(s)) == events(samples.push(s)),
{
    let t = samples.push(s);
    assert(t.push(s).drop_last() =~= t);
    assert(opt_seq(step(prev_at(t.push(s), t.len() as int), s)) =~= seq![]);
    assert(events(t.push(s)) =~= events(t) + seq![]);
}

} // verus!
