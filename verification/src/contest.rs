//! A contest as the wait for its testcases sees it: when it starts, which
//! problems it has, and for which of them the testcases are in hand.

use vstd::prelude::*;
use crate::outcome::{ErrorKind, PollOutcome};

verus! {

/// One problem of a contest. Its testcases are `None` until a fetch for
/// them has gone through.
#[derive(Debug, PartialEq, Eq)]
pub struct ProblemSlot {
    /// The problem's label within the contest, such as "A".
    pub index: String,
    /// The inputs of the problem's testcases, in order.
    pub testcases: Option<Vec<String>>,
}

/// A contest and what is known of it.
#[derive(Debug, PartialEq, Eq)]
pub struct ContestWindow {
    pub contest_id: i64,
    /// Seconds until the contest starts; zero or less once it has started.
    pub relative_time_to_start: i64,
    pub problem_set: Vec<ProblemSlot>,
}

/// One line of the judge's list of contests.
#[derive(Clone, Copy, Debug, PartialEq, Eq, Structural)]
pub struct ContestEntry {
    pub id: i64,
    /// Seconds since the contest started, negative before the start, where
    /// the judge tells.
    pub relative_time_seconds: Option<i64>,
}

/// Seconds until the start, from seconds since the start.
pub open spec fn spec_until_start(seconds_since_start: i64) -> i64 {
    if seconds_since_start == i64::MIN {
        i64::MAX
    } else {
        (-seconds_since_start) as i64
    }
}

pub fn until_start(seconds_since_start: i64) -> (t: i64)
    ensures
        t == spec_until_start(seconds_since_start),
{
    if seconds_since_start == i64::MIN {
        i64::MAX
    } else {
        -seconds_since_start
    }
}

/// How many seconds to sleep before the first probe: the time until the
/// start, and nothing once the contest has started.
pub open spec fn spec_initial_sleep(relative_time_to_start: i64) -> u64 {
    if relative_time_to_start > 0 {
        relative_time_to_start as u64
    } else {
        0
    }
}

pub fn initial_sleep(relative_time_to_start: i64) -> (seconds: u64)
    ensures
        seconds == spec_initial_sleep(relative_time_to_start),
{
    if relative_time_to_start > 0 {
        relative_time_to_start as u64
    } else {
        0
    }
}

/// Seconds as milliseconds, or the greatest number of milliseconds there is
/// if the seconds are too many.
pub open spec fn spec_seconds_to_millis(seconds: u64) -> u64 {
    if seconds * 1000 <= u64::MAX {
        (seconds * 1000) as u64
    } else {
        u64::MAX
    }
}

pub fn seconds_to_millis(seconds: u64) -> (millis: u64)
    ensures
        millis == spec_seconds_to_millis(seconds),
{
    if seconds <= u64::MAX / 1000 {
        seconds * 1000
    } else {
        u64::MAX
    }
}

/// What a probe of the start time reports: ready once the contest has
/// started.
pub open spec fn spec_classify_start(relative_time_to_start: i64) -> PollOutcome<()> {
    if relative_time_to_start <= 0 {
        PollOutcome::Ready(())
    } else {
        PollOutcome::NotYetReady
    }
}

pub fn classify_start(relative_time_to_start: i64) -> (out: PollOutcome<()>)
    ensures
        out == spec_classify_start(relative_time_to_start),
{
    if relative_time_to_start <= 0 {
        PollOutcome::Ready(())
    } else {
        PollOutcome::NotYetReady
    }
}

/// The line of `list` that tells when contest `contest_id` starts.
pub open spec fn spec_tells_start(list: Seq<ContestEntry>, contest_id: i64, i: int) -> bool {
    0 <= i < list.len() && list[i].id == contest_id && list[i].relative_time_seconds is Some
}

/// Seconds until contest `contest_id` starts, by the first line of `list`
/// that is about this contest and tells its time; `None` if no line does.
pub open spec fn spec_time_to_start(list: Seq<ContestEntry>, contest_id: i64) -> Option<i64>
    decreases list.len(),
{
    if list.len() == 0 {
        None
    } else if list[0].id == contest_id && list[0].relative_time_seconds is Some {
        Some(spec_until_start(list[0].relative_time_seconds->Some_0))
    } else {
        spec_time_to_start(list.drop_first(), contest_id)
    }
}

/// `spec_time_to_start` gives `None` exactly if no line tells, and else the
/// time that the first telling line gives.
pub proof fn lemma_time_to_start_is_first(list: Seq<ContestEntry>, contest_id: i64)
    ensures
        spec_time_to_start(list, contest_id) is None <==> forall|i: int|
            !spec_tells_start(list, contest_id, i),
        spec_time_to_start(list, contest_id) matches Some(seconds) ==> exists|i: int|
            {
                &&& #[trigger] spec_tells_start(list, contest_id, i)
                &&& forall|j: int| 0 <= j < i ==> !spec_tells_start(list, contest_id, j)
                &&& seconds == spec_until_start(list[i].relative_time_seconds->Some_0)
            },
    decreases list.len(),
{
    if list.len() == 0 {
    } else if list[0].id == contest_id && list[0].relative_time_seconds is Some {
        assert(spec_tells_start(list, contest_id, 0));
    } else {
        let rest = list.drop_first();
        lemma_time_to_start_is_first(rest, contest_id);
        assert forall|i: int| spec_tells_start(list, contest_id, i) implies spec_tells_start(
            rest,
            contest_id,
            i - 1,
        ) by {
            assert(rest[i - 1] == list[i]);
        }
        assert forall|i: int| spec_tells_start(rest, contest_id, i) implies spec_tells_start(
            list,
            contest_id,
            i + 1,
        ) by {
            assert(rest[i] == list[i + 1]);
        }
        if spec_time_to_start(list, contest_id) is Some {
            let i = choose|i: int|
                {
                    &&& #[trigger] spec_tells_start(rest, contest_id, i)
                    &&& forall|j: int| 0 <= j < i ==> !spec_tells_start(rest, contest_id, j)
                    &&& spec_time_to_start(rest, contest_id)->Some_0 == spec_until_start(
                        rest[i].relative_time_seconds->Some_0,
                    )
                };
            assert(spec_tells_start(list, contest_id, i + 1));
            assert forall|j: int| 0 <= j < i + 1 implies !spec_tells_start(list, contest_id, j) by {
                if j > 0 && spec_tells_start(list, contest_id, j) {
                    assert(spec_tells_start(rest, contest_id, j - 1));
                }
            }
        }
    }
}

pub fn time_to_start(list: &Vec<ContestEntry>, contest_id: i64) -> (t: Option<i64>)
    ensures
        t == spec_time_to_start(list@, contest_id),
{
    let mut i: usize = 0;
    assert(list@.skip(0) =~= list@);
    while i < list.len()
        invariant
            i <= list.len(),
            spec_time_to_start(list@, contest_id) == spec_time_to_start(
                list@.skip(i as int),
                contest_id,
            ),
        decreases list.len() - i,
    {
        let entry = list[i];
        proof {
            assert(list@.skip(i as int)[0] == list@[i as int]);
            assert(list@.skip(i as int).drop_first() =~= list@.skip(i + 1));
        }
        if entry.id == contest_id {
            if let Some(since) = entry.relative_time_seconds {
                return Some(until_start(since));
            }
        }
        i = i + 1;
    }
    None
}

/// What a probe of the start time reports on what the fetch of the judge's
/// list of contests gave: the error if the fetch failed; ready with the time
/// to the start once that is zero or less; ready with zero if the list does
/// not tell, since there is then nothing to wait for; not yet ready else.
pub open spec fn spec_start_outcome(
    listed: Result<Vec<ContestEntry>, ErrorKind>,
    contest_id: i64,
) -> PollOutcome<i64> {
    match listed {
        Err(error) => PollOutcome::Failed(error),
        Ok(list) => match spec_time_to_start(list@, contest_id) {
            None => PollOutcome::Ready(0),
            Some(seconds) => match spec_classify_start(seconds) {
                PollOutcome::Ready(_) => PollOutcome::Ready(seconds),
                PollOutcome::NotYetReady => PollOutcome::NotYetReady,
                PollOutcome::Failed(error) => PollOutcome::Failed(error),
            },
        },
    }
}

pub fn start_outcome(listed: Result<Vec<ContestEntry>, ErrorKind>, contest_id: i64) -> (out:
    PollOutcome<i64>)
    ensures
        out == spec_start_outcome(listed, contest_id),
{
    match listed {
        Err(error) => PollOutcome::Failed(error),
        Ok(list) => match time_to_start(&list, contest_id) {
            None => PollOutcome::Ready(0),
            Some(seconds) => match classify_start(seconds) {
                PollOutcome::Ready(_) => PollOutcome::Ready(seconds),
                PollOutcome::NotYetReady => PollOutcome::NotYetReady,
                PollOutcome::Failed(error) => PollOutcome::Failed(error),
            },
        },
    }
}

/// A contest that has started needs no sleep before the first probe, and the
/// first probe of its start time is ready.
pub proof fn lemma_started_contest_is_ready(relative_time_to_start: i64)
    requires
        relative_time_to_start <= 0,
    ensures
        spec_initial_sleep(relative_time_to_start) == 0,
        spec_classify_start(relative_time_to_start) == PollOutcome::Ready(()),
{
}

/// What a fetch gave for one slot: nothing was asked for a slot that had its
/// testcases already.
pub type Answer = Option<Result<Vec<String>, ErrorKind>>;

/// `after` is `before` with every missing slot filled by what `fetch` gave
/// for its index, as listed in `answers`: the testcases where the fetch went
/// through, still nothing where it failed. Slots that had their testcases
/// keep them, and no fetch was made for them.
pub open spec fn spec_filled<F: Fn(&String) -> Result<Vec<String>, ErrorKind>>(
    before: Seq<ProblemSlot>,
    after: Seq<ProblemSlot>,
    fetch: F,
    answers: Seq<Answer>,
) -> bool {
    &&& after.len() == before.len()
    &&& answers.len() == before.len()
    &&& forall|i: int|
        0 <= i < before.len() ==> {
            &&& (#[trigger] after[i]).index == before[i].index
            &&& match before[i].testcases {
                Some(_) => answers[i] is None && after[i].testcases == before[i].testcases,
                None => {
                    &&& answers[i] matches Some(answer)
                    &&& call_ensures(fetch, (&before[i].index,), answer)
                    &&& after[i].testcases == match answer {
                        Ok(testcases) => Some(testcases),
                        Err(_) => None::<Vec<String>>,
                    }
                },
            }
        }
}

/// `missing` lists, in rising order, exactly the slots of `slots` that have
/// no testcases.
pub open spec fn spec_lists_missing(slots: Seq<ProblemSlot>, missing: Seq<usize>) -> bool {
    &&& forall|k: int|
        0 <= k < missing.len() ==> (#[trigger] missing[k]) < slots.len()
            && slots[missing[k] as int].testcases is None
    &&& forall|k: int, l: int| 0 <= k < l < missing.len() ==> missing[k] < missing[l]
    &&& forall|i: int|
        0 <= i < slots.len() && (#[trigger] slots[i]).testcases is None ==> missing.contains(
            i as usize,
        )
}

/// The slots that a window holds once it has taken in the list `indices`:
/// the slots it had, if they carry these labels in this order, and else
/// one slot for each label, with the label that `after` shows for it and no
/// testcases.
pub open spec fn spec_refreshed(
    before: Seq<ProblemSlot>,
    after: Seq<ProblemSlot>,
    indices: Seq<String>,
) -> Seq<ProblemSlot> {
    if before.len() == indices.len() && (forall|i: int|
        0 <= i < indices.len() ==> (#[trigger] before[i]).index@ == indices[i]@) {
        before
    } else {
        Seq::new(
            indices.len(),
            |i: int| ProblemSlot { index: after[i].index, testcases: None },
        )
    }
}

impl ContestWindow {
    /// Every problem has its testcases.
    pub open spec fn spec_all_populated(self) -> bool {
        forall|i: int|
            0 <= i < self.problem_set@.len() ==> (#[trigger] self.problem_set@[i]).testcases is Some
    }

    /// The window's problems carry exactly the labels `indices`, in order.
    pub open spec fn spec_has_indices(self, indices: Seq<String>) -> bool {
        &&& self.problem_set@.len() == indices.len()
        &&& forall|i: int|
            0 <= i < indices.len() ==> (#[trigger] self.problem_set@[i]).index@ == indices[i]@
    }

    /// Every set of testcases in the window is one that `fetch` gave for the
    /// label of its problem.
    pub open spec fn spec_fetched_by<F: Fn(&String) -> Result<Vec<String>, ErrorKind>>(
        self,
        fetch: F,
    ) -> bool {
        forall|i: int|
            0 <= i < self.problem_set@.len() ==> ((#[trigger] self.problem_set@[i]).testcases matches Some(
                testcases,
            ) ==> call_ensures(
                fetch,
                (&self.problem_set@[i].index,),
                Ok::<Vec<String>, ErrorKind>(testcases),
            ))
    }

    /// What a probe of the testcases reports for this window: ready once
    /// every problem has its testcases, and at once if the caller does not
    /// wait, since a single attempt takes what it got.
    pub open spec fn spec_testcase_outcome(self, wait: bool) -> PollOutcome<()> {
        if !wait || self.spec_all_populated() {
            PollOutcome::Ready(())
        } else {
            PollOutcome::NotYetReady
        }
    }

    /// A window on a contest of which no problem is known yet.
    pub fn new(contest_id: i64, relative_time_to_start: i64) -> (w: ContestWindow)
        ensures
            w.contest_id == contest_id,
            w.relative_time_to_start == relative_time_to_start,
            w.problem_set@.len() == 0,
    {
        ContestWindow { contest_id, relative_time_to_start, problem_set: Vec::new() }
    }

    pub fn all_populated(&self) -> (b: bool)
        ensures
            b == self.spec_all_populated(),
    {
        let mut i: usize = 0;
        while i < self.problem_set.len()
            invariant
                i <= self.problem_set@.len(),
                forall|j: int| 0 <= j < i ==> (#[trigger] self.problem_set@[j]).testcases is Some,
            decreases self.problem_set@.len() - i,
        {
            if self.problem_set[i].testcases.is_none() {
                return false;
            }
            i = i + 1;
        }
        true
    }

    pub fn has_indices(&self, indices: &Vec<String>) -> (b: bool)
        ensures
            b == self.spec_has_indices(indices@),
    {
        if self.problem_set.len() != indices.len() {
            return false;
        }
        let mut i: usize = 0;
        while i < indices.len()
            invariant
                i <= indices@.len(),
                self.problem_set@.len() == indices@.len(),
                forall|j: int| 0 <= j < i ==> (#[trigger] self.problem_set@[j]).index@ == indices@[j]@,
            decreases indices@.len() - i,
        {
            if self.problem_set[i].index != indices[i] {
                return false;
            }
            i = i + 1;
        }
        true
    }

    /// Takes in a freshly fetched list of problem labels. A list that names
    /// the window's problems as they stand changes nothing, so that testcases
    /// in hand are kept. Any other list replaces the problems by new ones
    /// that carry the listed labels and have no testcases yet.
    pub fn refresh(&mut self, indices: &Vec<String>)
        ensures
            final(self).contest_id == old(self).contest_id,
            final(self).relative_time_to_start == old(self).relative_time_to_start,
            final(self).spec_has_indices(indices@),
            old(self).spec_has_indices(indices@) ==> final(self).problem_set == old(self).problem_set,
            !old(self).spec_has_indices(indices@) ==> forall|i: int|
                0 <= i < indices@.len() ==> (#[trigger] final(self).problem_set@[i]).testcases is None,
    {
        if self.has_indices(indices) {
            return ;
        }
        let mut slots: Vec<ProblemSlot> = Vec::new();
        let mut i: usize = 0;
        while i < indices.len()
            invariant
                i <= indices@.len(),
                slots@.len() == i,
                forall|j: int| 0 <= j < i ==> (#[trigger] slots@[j]).index@ == indices@[j]@,
                forall|j: int| 0 <= j < i ==> (#[trigger] slots@[j]).testcases is None,
            decreases indices@.len() - i,
        {
            slots.push(ProblemSlot { index: indices[i].clone(), testcases: None });
            i = i + 1;
        }
        self.problem_set = slots;
    }

    /// Asks `fetch` once for the testcases of each problem that has none,
    /// in order, and keeps what it gives. A fetch that fails leaves its slot
    /// as it was and stops nothing: the slots after it are still tried.
    /// Returns the positions of the slots that are still missing.
    pub fn fill_missing<F>(&mut self, fetch: &F) -> (missing: Vec<usize>) where
        F: Fn(&String) -> Result<Vec<String>, ErrorKind>,

        requires
            forall|index: &String| call_requires(*fetch, (index,)),
        ensures
            final(self).contest_id == old(self).contest_id,
            final(self).relative_time_to_start == old(self).relative_time_to_start,
            exists|answers: Seq<Answer>| #[trigger]
                spec_filled(old(self).problem_set@, final(self).problem_set@, *fetch, answers),
            spec_lists_missing(final(self).problem_set@, missing@),
    {
        let mut missing: Vec<usize> = Vec::new();
        let ghost before = self.problem_set@;
        let ghost id = self.contest_id;
        let ghost start = self.relative_time_to_start;
        let ghost mut answers: Seq<Answer> = Seq::empty();
        let mut i: usize = 0;
        while i < self.problem_set.len()
            invariant
                forall|index: &String| call_requires(*fetch, (index,)),
                self.contest_id == id,
                self.relative_time_to_start == start,
                self.problem_set@.len() == before.len(),
                i <= before.len(),
                answers.len() == i,
                forall|j: int| i <= j < before.len() ==> (#[trigger] self.problem_set@[j]) == before[j],
                forall|j: int|
                    0 <= j < i ==> {
                        &&& (#[trigger] self.problem_set@[j]).index == before[j].index
                        &&& match before[j].testcases {
                            Some(_) => answers[j] is None && self.problem_set@[j].testcases
                                == before[j].testcases,
                            None => {
                                &&& answers[j] matches Some(answer)
                                &&& call_ensures(*fetch, (&before[j].index,), answer)
                                &&& self.problem_set@[j].testcases == match answer {
                                    Ok(testcases) => Some(testcases),
                                    Err(_) => None::<Vec<String>>,
                                }
                            },
                        }
                    },
                forall|k: int|
                    0 <= k < missing@.len() ==> (#[trigger] missing@[k]) < i
                        && self.problem_set@[missing@[k] as int].testcases is None,
                forall|k: int, l: int| 0 <= k < l < missing@.len() ==> missing@[k] < missing@[l],
                forall|j: int|
                    0 <= j < i && (#[trigger] self.problem_set@[j]).testcases is None
                        ==> missing@.contains(j as usize),
            decreases before.len() - i,
        {
            let ghost slots = self.problem_set@;
            let ghost listed = missing@;
            if self.problem_set[i].testcases.is_none() {
                let answer = fetch(&self.problem_set[i].index);
                proof {
                    answers = answers.push(Some(answer));
                }
                match answer {
                    Ok(testcases) => {
                        self.problem_set[i].testcases = Some(testcases);
                    },
                    Err(_) => {
                        missing.push(i);
                        proof {
                            assert(missing@[listed.len() as int] == i);
                        }
                    },
                }
            } else {
                proof {
                    answers = answers.push(None);
                }
            }
            proof {
                assert forall|j: int| 0 <= j < i + 1 && (#[trigger] self.problem_set@[j]).testcases is None implies missing@.contains(
                    j as usize,
                ) by {
                    if j < i {
                        assert(slots[j].testcases is None);
                        let k = choose|k: int| 0 <= k < listed.len() && listed[k] == j as usize;
                        assert(missing@[k] == j as usize);
                    }
                }
            }
            i = i + 1;
        }
        proof {
            assert(spec_filled(before, self.problem_set@, *fetch, answers));
        }
        missing
    }

    /// `after` and `out` are what one probe makes of this window when the
    /// fetch of the problem list gave `listed`. If that fetch failed, the
    /// probe fails with its error and the window stays as it is. Otherwise
    /// the window takes in the list, every missing slot is filled by what
    /// `fetch` gave for its label, and `out` says whether the wait is over.
    pub open spec fn spec_probed<F: Fn(&String) -> Result<Vec<String>, ErrorKind>>(
        self,
        wait: bool,
        listed: Result<Vec<String>, ErrorKind>,
        fetch: F,
        after: ContestWindow,
        out: PollOutcome<()>,
    ) -> bool {
        &&& after.contest_id == self.contest_id
        &&& after.relative_time_to_start == self.relative_time_to_start
        &&& match listed {
            Err(error) => out == PollOutcome::<()>::Failed(error) && after.problem_set
                == self.problem_set,
            Ok(indices) => {
                &&& out == after.spec_testcase_outcome(wait)
                &&& after.spec_has_indices(indices@)
                &&& exists|answers: Seq<Answer>| #[trigger]
                    spec_filled(
                        spec_refreshed(self.problem_set@, after.problem_set@, indices@),
                        after.problem_set@,
                        fetch,
                        answers,
                    )
            },
        }
    }

    /// One probe of the testcase wait. `listed` is what the fetch of the
    /// contest's problem list gave. If that fetch failed, the probe fails
    /// with its error and the window stays as it is. Otherwise the window
    /// takes in the list, asks `fetch` for what is missing, and reports
    /// whether the wait is over.
    pub fn probe_testcases<F>(
        &mut self,
        wait: bool,
        listed: Result<Vec<String>, ErrorKind>,
        fetch: &F,
    ) -> (out: (PollOutcome<()>, Vec<usize>)) where F: Fn(&String) -> Result<Vec<String>, ErrorKind>
        requires
            forall|index: &String| call_requires(*fetch, (index,)),
        ensures
            old(self).spec_probed(wait, listed, *fetch, *final(self), out.0),
            match listed {
                Err(_) => out.1@.len() == 0,
                Ok(_) => spec_lists_missing(final(self).problem_set@, out.1@),
            },
    {
        match listed {
            Err(error) => (PollOutcome::Failed(error), Vec::new()),
            Ok(indices) => {
                self.refresh(&indices);
                let ghost refreshed = self.problem_set@;
                let missing = self.fill_missing(fetch);
                proof {
                    let answers = choose|answers: Seq<Answer>| #[trigger]
                        spec_filled(refreshed, self.problem_set@, *fetch, answers);
                    assert(refreshed =~= spec_refreshed(
                        old(self).problem_set@,
                        self.problem_set@,
                        indices@,
                    ));
                    assert forall|i: int| 0 <= i < indices@.len() implies (#[trigger] self.problem_set@[i]).index@
                        == indices@[i]@ by {
                        assert(self.problem_set@[i].index == refreshed[i].index);
                    }
                }
                (self.testcase_outcome(wait), missing)
            },
        }
    }

    pub fn testcase_outcome(&self, wait: bool) -> (out: PollOutcome<()>)
        ensures
            out == self.spec_testcase_outcome(wait),
    {
        if !wait || self.all_populated() {
            PollOutcome::Ready(())
        } else {
            PollOutcome::NotYetReady
        }
    }
}

} // verus!
