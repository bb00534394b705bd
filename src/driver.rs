//! The decisions of a verification run over a directory: which entries are
//! checked, in which order, and when the run stops.

use vstd::prelude::*;

verus! {

/// One entry of a directory listing, as the filesystem reported it.
#[derive(Debug, Clone)]
pub enum ListedEntry {
    /// A regular file at this path.
    File(String),
    /// A directory or another non-regular entry at this path.
    Other(String),
    /// An entry that could not be read.
    Unreadable,
}

/// The paths of the regular files among `entries`, in listing order.
pub open spec fn regular_files(entries: Seq<ListedEntry>) -> Seq<Seq<char>>
    decreases entries.len(),
{
    if entries.len() == 0 {
        seq![]
    } else {
        let rest = regular_files(entries.drop_last());
        match entries.last() {
            ListedEntry::File(p) => rest.push(p@),
            _ => rest,
        }
    }
}

/// The paths to verify: the regular files of the listing, in listing order;
/// directories and unreadable entries are skipped.
pub fn select_files(entries: &Vec<ListedEntry>) -> (r: Vec<String>)
    ensures
        r@.map_values(|p: String| p@) == regular_files(entries@),
{
    let mut out: Vec<String> = Vec::new();
    let mut i: usize = 0;
    while i < entries.len()
        invariant
            0 <= i <= entries@.len(),
            out@.map_values(|p: String| p@) == regular_files(entries@.subrange(0, i as int)),
        decreases entries@.len() - i,
    {
        assert(entries@.subrange(0, i + 1).drop_last() =~= entries@.subrange(0, i as int));
        let ghost before = out@;
        match &entries[i] {
            ListedEntry::File(p) => {
                out.push(p.clone());
                assert(out@.map_values(|p: String| p@) =~= before.map_values(|p: String| p@).push(
                    p@,
                ));
            },
            _ => {},
        }
        i = i + 1;
    }
    assert(entries@.subrange(0, entries@.len() as int) =~= entries@);
    out
}

/// What a run does next.
#[derive(Debug, Clone, Copy, PartialEq, Eq, Structural)]
pub enum Step {
    /// Verify the file at this position of the selected list.
    Verify(usize),
    /// Every file passed; the run is over.
    Done,
    /// A file failed; the run is over and no further file is looked at.
    Halted,
}

/// Progress of a run over `total` selected files, stopping at the first
/// failure.
#[derive(Debug, Clone, Copy, PartialEq, Eq, Structural)]
pub struct Run {
    /// Number of files selected for the run.
    pub total: usize,
    /// Number of files that have passed so far.
    pub passed: usize,
    /// Whether a file has failed.
    pub halted: bool,
}

impl Run {
    pub open spec fn wf(self) -> bool {
        self.passed <= self.total
    }

    /// The next step of the run.
    pub open spec fn step_spec(self) -> Step {
        if self.halted {
            Step::Halted
        } else if self.passed < self.total {
            Step::Verify(self.passed)
        } else {
            Step::Done
        }
    }

    /// The run after the current file passed, or failed.
    pub open spec fn after(self, passed: bool) -> Run {
        if passed {
            Run { passed: (self.passed + 1) as usize, ..self }
        } else {
            Run { halted: true, ..self }
        }
    }

    /// A run over `total` files that has looked at none yet.
    pub fn new(total: usize) -> (r: Run)
        ensures
            r.wf(),
            r == (Run { total, passed: 0, halted: false }),
    {
        Run { total, passed: 0, halted: false }
    }

    /// What the run does next.
    pub fn step(&self) -> (r: Step)
        requires
            self.wf(),
        ensures
            r == self.step_spec(),
    {
        if self.halted {
            Step::Halted
        } else if self.passed < self.total {
            Step::Verify(self.passed)
        } else {
            Step::Done
        }
    }

    /// Records whether the file that the run was verifying passed.
    pub fn record(&mut self, passed: bool)
        requires
            old(self).wf(),
            old(self).step_spec() is Verify,
        ensures
            final(self).wf(),
            *final(self) == old(self).after(passed),
    {
        if passed {
            self.passed = self.passed + 1;
        } else {
            self.halted = true;
        }
    }
}

/// A failure ends the run: after it the run only ever reports `Halted`, so no
/// later file is verified.
pub proof fn lemma_failure_halts(run: Run)
    requires
        run.wf(),
        run.step_spec() is Verify,
    ensures
        run.after(false).step_spec() == Step::Halted,
        run.after(false).wf(),
{
}

/// While no file fails, the run verifies the selected files one after the
/// other, in order, and then finishes.
pub proof fn lemma_passing_advances(run: Run)
    requires
        run.wf(),
        run.step_spec() is Verify,
    ensures
        run.step_spec() == Step::Verify(run.passed),
        run.after(true).wf(),
        run.after(true).passed == run.passed + 1,
        run.after(true).step_spec() == (if run.passed + 1 < run.total {
            Step::Verify((run.passed + 1) as usize)
        } else {
            Step::Done
        }),
{
}

} // verus!
