use vstd::prelude::*;

verus! {

/// Commits that could not be cherry-picked, in the order they were tried.
#[derive(Clone, Debug)]
pub struct CherryPickOutcome {
    pub skipped: Vec<String>,
}

/// The commits among `shas` whose pick failed, in order.
pub open spec fn failed_picks(shas: Seq<String>, picked: Seq<bool>) -> Seq<String>
    decreases shas.len(),
{
    if shas.len() == 0 || picked.len() < shas.len() {
        Seq::empty()
    } else {
        let rest = failed_picks(shas.drop_last(), picked.subrange(0, shas.len() - 1));
        if picked[shas.len() - 1] { rest } else { rest.push(shas.last()) }
    }
}

impl CherryPickOutcome {
    pub fn new() -> (r: Self)
        ensures
            r.skipped@.len() == 0,
    {
        CherryPickOutcome { skipped: Vec::new() }
    }

    /// Records the result of picking one commit: a conflicting commit is
    /// skipped, never fatal.
    pub fn record(&mut self, sha: &String, picked: bool)
        ensures
            picked ==> final(self).skipped@ == old(self).skipped@,
            !picked ==> final(self).skipped@ == old(self).skipped@.push(*sha),
    {
        if !picked {
            self.skipped.push(sha.clone());
        }
    }
}

/// The outcome of cherry-picking `shas` in order, where `picked[i]` tells
/// whether the pick of `shas[i]` applied cleanly.
pub fn cherry_pick_outcome(shas: &Vec<String>, picked: &Vec<bool>) -> (r: CherryPickOutcome)
    requires
        picked.len() == shas.len(),
    ensures
        r.skipped@ == failed_picks(shas@, picked@),
{
    let mut out = CherryPickOutcome::new();
    let mut i: usize = 0;
    while i < shas.len()
        invariant
            picked.len() == shas.len(),
            i <= shas.len(),
            out.skipped@ == failed_picks(shas@.subrange(0, i as int), picked@.subrange(0, i as int)),
        decreases shas.len() - i,
    {
        proof {
            let s = shas@.subrange(0, i + 1);
            let p = picked@.subrange(0, i + 1);
            assert(s.drop_last() =~= shas@.subrange(0, i as int));
            assert(p.subrange(0, i as int) =~= picked@.subrange(0, i as int));
        }
        out.record(&shas[i], picked[i]);
        i = i + 1;
    }
    assert(shas@.subrange(0, shas.len() as int) == shas@);
    assert(picked@.subrange(0, shas.len() as int) == picked@);
    out
}

} // verus!
