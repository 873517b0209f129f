//! The record of what failed in a run: one entry for each source that
//! failed, and none for a source that did not.

use vstd::prelude::*;
use vstd::string::StringExecFns;
use crate::fetch::FetchError;
use crate::text::numbers::{decimal_of, push_decimal};

verus! {

/// What is said of each kind of failure.
pub open spec fn wording(error: FetchError) -> Seq<char> {
    match error {
        FetchError::DirectoryCreate => "could not make the folder for"@,
        FetchError::Clone => "could not clone"@,
        FetchError::CloneTimeout => "timed out cloning"@,
        FetchError::HttpTransport => "could not reach"@,
        FetchError::HttpStatus(status) => "status "@ + decimal_of(status as nat) + " from"@,
        FetchError::ReadBody => "could not read the answer of"@,
        FetchError::Write => "could not write the file of"@,
    }
}

/// The line that records a failure: what failed, a blank, and the source.
pub open spec fn record_of(source: Seq<char>, error: FetchError) -> Seq<char> {
    wording(error) + seq![' '] + source
}

/// Writes the line that records the failure of `source`.
pub fn failure_record(source: &str, error: FetchError) -> (line: String)
    ensures
        line@ == record_of(source@, error),
{
    let mut line = match error {
        FetchError::DirectoryCreate => String::from_str("could not make the folder for"),
        FetchError::Clone => String::from_str("could not clone"),
        FetchError::CloneTimeout => String::from_str("timed out cloning"),
        FetchError::HttpTransport => String::from_str("could not reach"),
        FetchError::HttpStatus(status) => {
            let mut text = String::from_str("status ");
            push_decimal(&mut text, status as u64);
            text.append(" from");
            text
        },
        FetchError::ReadBody => String::from_str("could not read the answer of"),
        FetchError::Write => String::from_str("could not write the file of"),
    };
    line.push(' ');
    line.append(source);
    line
}

/// The failures among the first `n` reports of a run, in their order. A
/// report names a source and says what failed, if anything.
pub open spec fn failures_in(reports: Seq<(Seq<char>, Option<FetchError>)>, n: nat) -> Seq<
    (Seq<char>, FetchError),
>
    decreases n,
{
    if n == 0 {
        seq![]
    } else {
        let before = failures_in(reports, (n - 1) as nat);
        match reports[n - 1].1 {
            Some(error) => before.push((reports[n - 1].0, error)),
            None => before,
        }
    }
}

/// The failures of a run, in the order in which they came.
#[derive(Debug)]
pub struct RunLog {
    failures: Vec<(String, FetchError)>,
}

impl View for RunLog {
    type V = Seq<(Seq<char>, FetchError)>;

    closed spec fn view(&self) -> Seq<(Seq<char>, FetchError)> {
        Seq::new(self.failures@.len(), |i: int| (self.failures@[i].0@, self.failures@[i].1))
    }
}

impl RunLog {
    /// The log of a run in which nothing has failed yet.
    pub fn new() -> (log: Self)
        ensures
            log@ == Seq::<(Seq<char>, FetchError)>::empty(),
    {
        let log = RunLog { failures: Vec::new() };
        assert(log@ =~= Seq::<(Seq<char>, FetchError)>::empty());
        log
    }

    /// Takes the report on one source and hands back the line to put out for
    /// it: a failure is recorded under the source's name, and a source that
    /// did not fail leaves the log as it is and gives no line.
    pub fn note(&mut self, source: &str, failed: Option<FetchError>) -> (line: Option<String>)
        ensures
            final(self)@ == match failed {
                Some(error) => old(self)@.push((source@, error)),
                None => old(self)@,
            },
            match failed {
                Some(error) => line matches Some(text) && text@ == record_of(source@, error),
                None => line is None,
            },
    {
        match failed {
            Some(error) => {
                let ghost before = self@;
                self.failures.push((String::from_str(source), error));
                assert(self@ =~= before.push((source@, error)));
                Some(failure_record(source, error))
            },
            None => None,
        }
    }

    /// How many sources have failed.
    pub fn len(&self) -> (n: usize)
        ensures
            n == self@.len(),
    {
        self.failures.len()
    }

    /// The lines of the log, one for each failure, in order.
    pub fn lines(&self) -> (out: Vec<String>)
        ensures
            out@.len() == self@.len(),
            forall|i: int|
                0 <= i < out@.len() ==> #[trigger] out@[i]@ == record_of(self@[i].0, self@[i].1),
    {
        let mut out: Vec<String> = Vec::new();
        let mut i: usize = 0;
        while i < self.failures.len()
            invariant
                i <= self.failures.len(),
                out@.len() == i,
                forall|j: int|
                    0 <= j < i ==> #[trigger] out@[j]@ == record_of(self@[j].0, self@[j].1),
            decreases self.failures.len() - i,
        {
            let entry = &self.failures[i];
            assert(self@[i as int] == (entry.0@, entry.1));
            out.push(failure_record(entry.0.as_str(), entry.1));
            i += 1;
        }
        out
    }
}

/// Where one source alone fails, the log of the run holds one entry: it
/// names that source and says what failed. In particular a run in which one
/// clone ran out of time, and nothing else went wrong, records that one
/// timeout under that repository and nothing for the sources that succeeded.
pub proof fn lemma_one_failure_one_record(
    reports: Seq<(Seq<char>, Option<FetchError>)>,
    k: int,
    error: FetchError,
    n: nat,
)
    requires
        0 <= k < reports.len(),
        n <= reports.len(),
        reports[k].1 == Some(error),
        forall|i: int| 0 <= i < reports.len() && i != k ==> (#[trigger] reports[i]).1 is None,
    ensures
        failures_in(reports, n) == if k < n {
            seq![(reports[k].0, error)]
        } else {
            seq![]
        },
    decreases n,
{
    if n > 0 {
        lemma_one_failure_one_record(reports, k, error, (n - 1) as nat);
        if n - 1 != k {
            assert(reports[n - 1].1 is None);
        } else {
            assert(Seq::<(Seq<char>, FetchError)>::empty().push((reports[k].0, error)) =~= seq![
                (reports[k].0, error),
            ]);
        }
    }
}

} // verus!
