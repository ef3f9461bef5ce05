//! Bookkeeping of a batch run: the extraction counter checked against the
//! target before each file and each face, and the per-file outcome counters.
use vstd::prelude::*;
use crate::region::{Region, valid_faces, filter_valid_faces};

verus! {

/// The number of faces a file may still yield: what it offers, capped by the
/// room left under the target.
pub open spec fn room_for(offered: nat, extracted: nat, target: nat) -> nat {
    if extracted >= target {
        0
    } else if offered < target - extracted {
        offered
    } else {
        (target - extracted) as nat
    }
}

/// How the processing of one file ended.
#[derive(Clone, Copy, Debug, PartialEq, Eq)]
pub enum FileOutcome {
    /// The file was decoded and every crop taken from it was saved.
    Completed,
    /// Decoding the file, or saving one of its crops, failed.
    Failed,
}

/// The counters of a run, as numbers.
pub struct ProgressView {
    pub target: nat,
    pub extracted: nat,
    pub processed: nat,
    pub errors: nat,
}

/// Progress of one run. The extraction counter is shared by all the files of
/// the run, only grows, and never passes the target: it is checked before each
/// file and before each face.
pub struct BatchProgress {
    target: usize,
    extracted: usize,
    processed: usize,
    errors: usize,
}

impl View for BatchProgress {
    type V = ProgressView;

    closed spec fn view(&self) -> ProgressView {
        ProgressView {
            target: self.target as nat,
            extracted: self.extracted as nat,
            processed: self.processed as nat,
            errors: self.errors as nat,
        }
    }
}

impl BatchProgress {
    #[verifier::type_invariant]
    spec fn inv(&self) -> bool {
        self.extracted <= self.target
    }

    /// A run that has extracted nothing yet and stops at `target` faces.
    pub fn new(target: usize) -> (r: Self)
        ensures
            r@ == (ProgressView { target: target as nat, extracted: 0, processed: 0, errors: 0 }),
    {
        BatchProgress { target, extracted: 0, processed: 0, errors: 0 }
    }

    /// The number of faces to extract before stopping.
    pub fn target(&self) -> (r: usize)
        ensures
            r == self@.target,
    {
        self.target
    }

    /// The number of faces extracted so far; never above the target.
    pub fn extracted(&self) -> (r: usize)
        ensures
            r == self@.extracted,
            r <= self@.target,
    {
        proof {
            use_type_invariant(self);
        }
        self.extracted
    }

    /// The number of files processed without error.
    pub fn processed(&self) -> (r: usize)
        ensures
            r == self@.processed,
    {
        self.processed
    }

    /// The number of files that failed.
    pub fn errors(&self) -> (r: usize)
        ensures
            r == self@.errors,
    {
        self.errors
    }

    /// Whether the run must stop: the target has been reached. Checked before
    /// each file and before each face.
    pub fn target_reached(&self) -> (r: bool)
        ensures
            r == (self@.extracted >= self@.target),
    {
        self.extracted >= self.target
    }

    /// The faces of one decoded image that the run crops, in order: the
    /// regions the filter accepts, no more than the target still leaves room for.
    pub fn faces_to_extract(&self, regions: &Vec<Region>, image_width: u32, image_height: u32) -> (r: Vec<Region>)
        ensures
            r@ == valid_faces(regions@, image_width, image_height).take(
                room_for(
                    valid_faces(regions@, image_width, image_height).len(),
                    self@.extracted,
                    self@.target,
                ) as int,
            ),
            self@.extracted + r@.len() <= self@.target,
    {
        proof {
            use_type_invariant(self);
        }
        let valid = filter_valid_faces(regions, image_width, image_height);
        let room = self.target - self.extracted;
        let mut out: Vec<Region> = Vec::new();
        let mut i: usize = 0;
        while i < valid.len() && i < room
            invariant
                i <= valid@.len(),
                i <= room,
                out@ == valid@.take(i as int),
            decreases valid@.len() - i,
        {
            out.push(valid[i]);
            assert(valid@.take(i as int + 1) == valid@.take(i as int).push(valid@[i as int]));
            i = i + 1;
        }
        out
    }

    /// The sequence number that the next crop will carry.
    pub fn next_sequence(&self) -> (r: usize)
        requires
            self@.extracted < self@.target,
        ensures
            r == self@.extracted + 1,
    {
        self.extracted + 1
    }

    /// Records one saved crop; returns its sequence number in the run
    /// (the count before it plus one), from which its file name is made.
    pub fn record_extraction(&mut self) -> (sequence: usize)
        requires
            old(self)@.extracted < old(self)@.target,
        ensures
            final(self)@ == (ProgressView { extracted: old(self)@.extracted + 1, ..old(self)@ }),
            sequence == final(self)@.extracted,
            final(self)@.extracted <= final(self)@.target,
    {
        proof {
            use_type_invariant(&*self);
        }
        self.extracted = self.extracted + 1;
        self.extracted
    }

    /// Records how a file ended: a completed file counts as processed, a
    /// failed one as an error, and the run goes on either way: the extraction
    /// count and the target stay as they were. The file counters stop at the
    /// largest `usize` rather than wrap.
    pub fn finish_file(&mut self, outcome: FileOutcome)
        ensures
            final(self)@ == (match outcome {
                FileOutcome::Completed => ProgressView {
                    processed: count_one_more(old(self)@.processed),
                    ..old(self)@
                },
                FileOutcome::Failed => ProgressView {
                    errors: count_one_more(old(self)@.errors),
                    ..old(self)@
                },
            }),
    {
        proof {
            use_type_invariant(&*self);
        }
        match outcome {
            FileOutcome::Completed => self.processed = self.processed.saturating_add(1),
            FileOutcome::Failed => self.errors = self.errors.saturating_add(1),
        }
    }
}

/// A file counter after one more file: `n + 1`, held at the largest `usize`.
pub open spec fn count_one_more(n: nat) -> nat {
    if n < usize::MAX {
        n + 1
    } else {
        n
    }
}

/// Sum of a sequence of counts.
pub open spec fn total(counts: Seq<nat>) -> nat
    decreases counts.len(),
{
    if counts.len() == 0 {
        0
    } else {
        counts[0] + total(counts.drop_first())
    }
}

/// The extraction count after a run goes through files that offer
/// `offered[0]`, `offered[1]`, ... accepted faces, starting at `extracted`:
/// each file yields what `faces_to_extract` selects (`room_for`), and every
/// crop of it is saved. A file reached with the target met yields nothing.
pub open spec fn count_after_files(offered: Seq<nat>, extracted: nat, target: nat) -> nat
    decreases offered.len(),
{
    if offered.len() == 0 {
        extracted
    } else {
        count_after_files(
            offered.drop_first(),
            extracted + room_for(offered[0], extracted, target),
            target,
        )
    }
}

/// A whole run stops at the target: starting at or below it, the count after
/// any sequence of files is the smaller of the target and the count plus
/// every face the files offer, and it stays at or below the target after each file.
pub proof fn lemma_run_stops_at_target(offered: Seq<nat>, extracted: nat, target: nat)
    requires
        extracted <= target,
    ensures
        count_after_files(offered, extracted, target) == if extracted + total(offered) < target {
            extracted + total(offered)
        } else {
            target
        },
        forall|k: int|
            0 <= k <= offered.len() ==> #[trigger] count_after_files(offered.take(k), extracted, target)
                <= target,
    decreases offered.len(),
{
    if offered.len() > 0 {
        let next = extracted + room_for(offered[0], extracted, target);
        lemma_run_stops_at_target(offered.drop_first(), next, target);
        assert forall|k: int| 0 <= k <= offered.len() implies #[trigger] count_after_files(
            offered.take(k),
            extracted,
            target,
        ) <= target by {
            if k > 0 {
                assert(offered.take(k).drop_first() =~= offered.drop_first().take(k - 1));
                assert(count_after_files(offered.drop_first().take(k - 1), next, target) <= target);
            }
        }
    }
}

} // verus!
