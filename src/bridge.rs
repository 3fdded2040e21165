use vstd::prelude::*;
use crate::events::{Event, Phase, is_terminal};

verus! {

/// What the interface knows of a run, built from the events it has drained.
#[derive(Debug)]
pub struct RunView {
    pub phase: Option<Phase>,
    pub progress: u32,
    pub current_item: String,
    pub logs: Vec<String>,
    pub applied: Vec<String>,
    pub skipped: Vec<(String, String)>,
    /// The program and elapsed seconds of a completed run.
    pub completed: Option<(String, u64)>,
    /// The message of a failed run.
    pub error: Option<String>,
}

/// Whether a run has ended: the interface knows it from the events alone.
pub open spec fn view_finished(v: RunView) -> bool {
    v.completed is Some || v.error is Some
}

/// Index of the first terminal event of a batch, or its length.
pub open spec fn first_terminal(b: Seq<Event>) -> int
    decreases b.len(),
{
    if b.len() == 0 {
        0
    } else {
        let p = first_terminal(b.drop_last());
        if p < b.len() - 1 {
            p
        } else if is_terminal(b.last()) {
            b.len() - 1
        } else {
            b.len() as int
        }
    }
}

/// The events of a batch the view takes in: up to and including the first
/// terminal one.
pub open spec fn live_part(b: Seq<Event>) -> Seq<Event> {
    let k = first_terminal(b);
    if k < b.len() { b.subrange(0, k + 1) } else { b }
}

/// The texts of the `Log` events, in order.
pub open spec fn log_texts(b: Seq<Event>) -> Seq<String>
    decreases b.len(),
{
    if b.len() == 0 {
        Seq::empty()
    } else {
        match b.last() {
            Event::Log(t) => log_texts(b.drop_last()).push(t),
            _ => log_texts(b.drop_last()),
        }
    }
}

/// The last progress value of a batch, or `d` if it has none.
pub open spec fn last_progress(b: Seq<Event>, d: u32) -> u32
    decreases b.len(),
{
    if b.len() == 0 {
        d
    } else {
        match b.last() {
            Event::Progress(p) => p,
            _ => last_progress(b.drop_last(), d),
        }
    }
}

/// The last phase of a batch, or `d` if it has none.
pub open spec fn last_phase(b: Seq<Event>, d: Option<Phase>) -> Option<Phase>
    decreases b.len(),
{
    if b.len() == 0 {
        d
    } else {
        match b.last() {
            Event::Phase(p) => Some(p),
            _ => last_phase(b.drop_last(), d),
        }
    }
}

proof fn lemma_first_terminal_bound(b: Seq<Event>)
    ensures
        0 <= first_terminal(b) <= b.len(),
        first_terminal(b) < b.len() ==> is_terminal(b[first_terminal(b)]),
        forall|j: int| 0 <= j < first_terminal(b) ==> !is_terminal(#[trigger] b[j]),
    decreases b.len(),
{
    if b.len() > 0 {
        let t = b.drop_last();
        lemma_first_terminal_bound(t);
        assert forall|j: int| 0 <= j < first_terminal(b) implies !is_terminal(#[trigger] b[j]) by {
            if j < t.len() {
                assert(b[j] == t[j]);
            }
        }
        if first_terminal(t) < t.len() {
            assert(b[first_terminal(t)] == t[first_terminal(t)]);
        }
    }
}

impl RunView {
    pub fn new() -> (r: Self)
        ensures
            !view_finished(r),
            r.phase is None,
            r.progress == 0,
            r.logs@.len() == 0,
    {
        RunView {
            phase: None,
            progress: 0,
            current_item: String::new(),
            logs: Vec::new(),
            applied: Vec::new(),
            skipped: Vec::new(),
            completed: None,
            error: None,
        }
    }

    pub fn is_finished(&self) -> (r: bool)
        ensures
            r == view_finished(*self),
    {
        self.completed.is_some() || self.error.is_some()
    }

    /// Takes in one event. Nothing changes once the run has ended.
    pub fn apply(&mut self, e: &Event)
        ensures
            view_finished(*old(self)) ==> *final(self) == *old(self),
            !view_finished(*old(self)) ==> (view_finished(*final(self)) <==> is_terminal(*e)),
            !view_finished(*old(self)) ==> (e matches Event::Progress(p) ==> final(self).progress == *p),
            !view_finished(*old(self)) ==> (e matches Event::Phase(p) ==> final(self).phase == Some(*p)),
            !view_finished(*old(self)) ==> (e matches Event::Log(t) ==> final(self).logs@ == old(self).logs@.push(*t)),
            !view_finished(*old(self)) ==> (e matches Event::Complete { binary_path, elapsed_secs } ==>
                final(self).completed == Some((*binary_path, *elapsed_secs))),
            !view_finished(*old(self)) ==> (e matches Event::Error { message } ==> final(self).error == Some(*message)),
            !view_finished(*old(self)) && !(*e is Log) ==> final(self).logs == old(self).logs,
            !view_finished(*old(self)) && !(*e is Progress) ==> final(self).progress == old(self).progress,
            !view_finished(*old(self)) && !(*e is Phase) ==> final(self).phase == old(self).phase,
    {
        if self.is_finished() {
            return;
        }
        match e {
            Event::Phase(p) => {
                self.phase = Some(*p);
            },
            Event::Progress(p) => {
                self.progress = *p;
            },
            Event::CurrentItem(t) => {
                self.current_item = t.clone();
            },
            Event::Log(t) => {
                self.logs.push(t.clone());
            },
            Event::PatchFileApplied(n) => {
                self.applied.push(n.clone());
            },
            Event::PatchFileSkipped { name, reason } => {
                self.skipped.push((name.clone(), reason.clone()));
            },
            Event::Complete { binary_path, elapsed_secs } => {
                self.completed = Some((binary_path.clone(), *elapsed_secs));
            },
            Event::Error { message } => {
                self.error = Some(message.clone());
            },
        }
    }

    /// Takes in every event drained in one interface tick, in order, and
    /// tells whether the run has ended.
    pub fn apply_batch(&mut self, batch: &Vec<Event>) -> (done: bool)
        ensures
            done == view_finished(*final(self)),
            done <==> (view_finished(*old(self)) || exists|i: int| 0 <= i < batch@.len() && is_terminal(#[trigger] batch@[i])),
            view_finished(*old(self)) ==> *final(self) == *old(self),
            !view_finished(*old(self)) ==> {
                &&& final(self).logs@ == old(self).logs@ + log_texts(live_part(batch@))
                &&& final(self).progress == last_progress(live_part(batch@), old(self).progress)
                &&& final(self).phase == last_phase(live_part(batch@), old(self).phase)
                &&& first_terminal(batch@) < batch@.len() ==> (batch@[first_terminal(batch@)] matches
                    Event::Complete { binary_path, elapsed_secs } ==> final(self).completed == Some((binary_path, elapsed_secs)))
                &&& first_terminal(batch@) < batch@.len() ==> (batch@[first_terminal(batch@)] matches
                    Event::Error { message } ==> final(self).error == Some(message))
            },
    {
        let ghost b = batch@;
        let mut i: usize = 0;
        proof {
            lemma_first_terminal_bound(b);
        }
        while i < batch.len()
            invariant
                i <= batch.len(),
                b == batch@,
                0 <= first_terminal(b) <= b.len(),
                first_terminal(b) < b.len() ==> is_terminal(b[first_terminal(b)]),
                forall|j: int| 0 <= j < first_terminal(b) ==> !is_terminal(#[trigger] b[j]),
                view_finished(*old(self)) ==> *self == *old(self),
                view_finished(*self) <==> (view_finished(*old(self))
                    || exists|k: int| 0 <= k < i && is_terminal(#[trigger] batch@[k])),
                !view_finished(*old(self)) ==> {
                    let lp = if i <= first_terminal(b) { b.subrange(0, i as int) } else { b.subrange(0, first_terminal(b) + 1) };
                    &&& self.logs@ == old(self).logs@ + log_texts(lp)
                    &&& self.progress == last_progress(lp, old(self).progress)
                    &&& self.phase == last_phase(lp, old(self).phase)
                    &&& (i > first_terminal(b) ==> (b[first_terminal(b)] matches Event::Complete { binary_path, elapsed_secs }
                        ==> self.completed == Some((binary_path, elapsed_secs))))
                    &&& (i > first_terminal(b) ==> (b[first_terminal(b)] matches Event::Error { message }
                        ==> self.error == Some(message)))
                },
            decreases batch.len() - i,
        {
            let ghost before = *self;
            self.apply(&batch[i]);
            proof {
                if is_terminal(batch@[i as int]) {
                    assert(exists|k: int| 0 <= k < i + 1 && is_terminal(#[trigger] batch@[k]));
                }
                if !view_finished(*old(self)) && i <= first_terminal(b) {
                    let lp = b.subrange(0, i + 1);
                    assert(lp.drop_last() =~= b.subrange(0, i as int));
                    assert(lp.last() == b[i as int]);
                    assert(log_texts(lp) == match b[i as int] { Event::Log(t) => log_texts(b.subrange(0, i as int)).push(t), _ => log_texts(b.subrange(0, i as int)) });
                    match b[i as int] {
                        Event::Log(t) => {
                            assert(old(self).logs@ + log_texts(lp) =~= (old(self).logs@ + log_texts(b.subrange(0, i as int))).push(t));
                        },
                        _ => {},
                    }
                    if i < first_terminal(b) {
                        assert(!is_terminal(b[i as int]));
                        assert(!view_finished(before));
                    } else {
                        assert(!view_finished(before)) by {
                            if view_finished(before) {
                                let k = choose|k: int| 0 <= k < i && is_terminal(#[trigger] batch@[k]);
                                assert(!is_terminal(b[k]));
                            }
                        }
                    }
                }
                if !view_finished(*old(self)) && i > first_terminal(b) {
                    assert(view_finished(before)) by {
                        assert(is_terminal(batch@[first_terminal(b)]));
                    }
                }
            }
            i = i + 1;
        }
        proof {
            if first_terminal(b) < b.len() {
                assert(i > first_terminal(b));
            } else {
                assert(b.subrange(0, i as int) =~= b);
            }
        }
        self.is_finished()
    }
}

} // verus!
