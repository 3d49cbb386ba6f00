//! The outcome of a run over several novels: what became of each identifier,
//! and what the run as a whole reports.
//!
//! Every identifier is worked on by itself. Whatever happens to one of them
//! is recorded under that identifier and touches no other record.

use crate::extract::ParseError;
use vstd::prelude::*;
use vstd::string::*;

verus! {

/// Why the work on one novel ended without an artifact.
#[derive(Debug, PartialEq, Eq)]
pub enum Failure {
    /// A page could not be had: the transport failed, or the site answered
    /// with a status other than success.
    Fetch { url: String, cause: String },
    /// A location rule is malformed.
    Parse { rule: String },
    /// A working directory could not be made, or a file not written.
    Io { cause: String },
    /// The converter could not be started, or did not end with success.
    Conversion { cause: String },
}

/// A `Failure` as mathematical text.
pub enum FailureView {
    Fetch { url: Seq<char>, cause: Seq<char> },
    Parse { rule: Seq<char> },
    Io { cause: Seq<char> },
    Conversion { cause: Seq<char> },
}

impl View for Failure {
    type V = FailureView;

    open spec fn view(&self) -> FailureView {
        match self {
            Failure::Fetch { url, cause } => FailureView::Fetch { url: url@, cause: cause@ },
            Failure::Parse { rule } => FailureView::Parse { rule: rule@ },
            Failure::Io { cause } => FailureView::Io { cause: cause@ },
            Failure::Conversion { cause } => FailureView::Conversion { cause: cause@ },
        }
    }
}

/// The kind of a failure and its cause, as one line of text.
pub open spec fn spec_describe(failure: FailureView) -> Seq<char> {
    match failure {
        FailureView::Fetch { url, cause } => "FetchError: "@ + url + ": "@ + cause,
        FailureView::Parse { rule } => "ParseError: "@ + rule,
        FailureView::Io { cause } => "IoError: "@ + cause,
        FailureView::Conversion { cause } => "ConversionError: "@ + cause,
    }
}

impl Failure {
    /// The failure that a malformed rule is.
    pub fn from_parse(error: ParseError) -> (failure: Failure)
        ensures
            failure@ == (FailureView::Parse { rule: error@ }),
    {
        Failure::Parse { rule: error.rule }
    }

    /// Names the kind of the failure and gives its cause, the address first
    /// where a page could not be had.
    pub fn describe(&self) -> (text: String)
        ensures
            text@ == spec_describe(self@),
    {
        match self {
            Failure::Fetch { url, cause } => {
                let mut text = String::from_str("FetchError: ");
                text.append(url.as_str());
                text.append(": ");
                text.append(cause.as_str());
                text
            },
            Failure::Parse { rule } => {
                let mut text = String::from_str("ParseError: ");
                text.append(rule.as_str());
                text
            },
            Failure::Io { cause } => {
                let mut text = String::from_str("IoError: ");
                text.append(cause.as_str());
                text
            },
            Failure::Conversion { cause } => {
                let mut text = String::from_str("ConversionError: ");
                text.append(cause.as_str());
                text
            },
        }
    }
}

/// What became of one identifier: the path of its artifact, or the failure
/// that ended the work on it.
#[derive(Debug, PartialEq, Eq)]
pub struct Outcome {
    pub identifier: String,
    pub result: Result<String, Failure>,
}

/// An `Outcome` as mathematical text.
pub struct OutcomeView {
    pub identifier: Seq<char>,
    pub result: Result<Seq<char>, FailureView>,
}

impl View for Outcome {
    type V = OutcomeView;

    open spec fn view(&self) -> OutcomeView {
        OutcomeView {
            identifier: self.identifier@,
            result: match self.result {
                Ok(path) => Ok(path@),
                Err(failure) => Err(failure@),
            },
        }
    }
}

/// The line that reports one outcome: the identifier, then the path of the
/// artifact or the description of the failure.
pub open spec fn spec_line(outcome: OutcomeView) -> Seq<char> {
    match outcome.result {
        Ok(path) => outcome.identifier + ": "@ + path,
        Err(failure) => outcome.identifier + ": "@ + spec_describe(failure),
    }
}

/// The views of a list of outcomes, in order.
pub open spec fn outcomes_view(outcomes: Seq<Outcome>) -> Seq<OutcomeView> {
    Seq::new(outcomes.len(), |at: int| outcomes[at]@)
}

/// How many of the outcomes are failures.
pub open spec fn spec_failures(outcomes: Seq<OutcomeView>) -> nat
    decreases outcomes.len(),
{
    if outcomes.len() == 0 {
        0
    } else if outcomes.last().result is Err {
        spec_failures(outcomes.drop_last()) + 1
    } else {
        spec_failures(outcomes.drop_last())
    }
}

/// The exit status of a run: zero where no identifier failed, one otherwise.
pub open spec fn spec_exit_code(outcomes: Seq<OutcomeView>) -> int {
    if spec_failures(outcomes) == 0 {
        0
    } else {
        1
    }
}

/// The outcomes of a run, in the order in which they were recorded.
#[derive(Debug, PartialEq, Eq)]
pub struct RunReport {
    outcomes: Vec<Outcome>,
}

impl View for RunReport {
    type V = Seq<OutcomeView>;

    closed spec fn view(&self) -> Seq<OutcomeView> {
        outcomes_view(self.outcomes@)
    }
}

impl RunReport {
    /// The report of a run in which nothing has ended yet.
    pub fn new() -> (report: RunReport)
        ensures
            report@ == Seq::<OutcomeView>::empty(),
    {
        RunReport { outcomes: Vec::new() }
    }

    /// Records what became of `identifier`. Every earlier record stays as it
    /// is.
    pub fn record(&mut self, identifier: String, result: Result<String, Failure>)
        ensures
            final(self)@ == old(self)@.push(
                (Outcome { identifier, result })@,
            ),
    {
        let outcome = Outcome { identifier, result };
        self.outcomes.push(outcome);
        assert(self@ == old(self)@.push(outcome@));
    }

    /// The number of outcomes recorded.
    pub fn len(&self) -> (count: usize)
        ensures
            count == self@.len(),
    {
        self.outcomes.len()
    }

    /// The line that reports the outcome at `index`, counted from zero.
    pub fn line(&self, index: usize) -> (text: String)
        requires
            index < self@.len(),
        ensures
            text@ == spec_line(self@[index as int]),
    {
        let outcome = &self.outcomes[index];
        let mut text = String::from_str(outcome.identifier.as_str());
        text.append(": ");
        match &outcome.result {
            Ok(path) => {
                text.append(path.as_str());
            },
            Err(failure) => {
                let cause = failure.describe();
                text.append(cause.as_str());
            },
        }
        text
    }

    /// Counts the identifiers that failed.
    pub fn failures(&self) -> (count: usize)
        ensures
            count == spec_failures(self@),
    {
        let mut count: usize = 0;
        let mut at: usize = 0;
        while at < self.outcomes.len()
            invariant
                at <= self.outcomes.len(),
                count == spec_failures(self@.take(at as int)),
                count <= at,
            decreases self.outcomes.len() - at,
        {
            proof {
                assert(self@.take(at + 1).drop_last() == self@.take(at as int));
                assert(self@.take(at + 1).last() == self.outcomes[at as int]@);
            }
            if self.outcomes[at].result.is_err() {
                count = count + 1;
            }
            at = at + 1;
        }
        assert(self@.take(at as int) == self@);
        count
    }

    /// The exit status of the run: zero where no identifier failed, one
    /// otherwise.
    pub fn exit_code(&self) -> (code: i32)
        ensures
            code == spec_exit_code(self@),
    {
        if self.failures() == 0 {
            0
        } else {
            1
        }
    }
}

/// One identifier's failure leaves every other identifier's record as it
/// was: a report in which the outcome at `failed` is replaced by a failure
/// reports the same line for every other position, and a success elsewhere
/// still shows the path of its artifact.
pub proof fn lemma_failure_leaves_other_records(
    outcomes: Seq<OutcomeView>,
    failed: int,
    failure: FailureView,
    other: int,
)
    requires
        0 <= failed < outcomes.len(),
        0 <= other < outcomes.len(),
        other != failed,
    ensures
        ({
            let after = outcomes.update(
                failed,
                OutcomeView { identifier: outcomes[failed].identifier, result: Err(failure) },
            );
            &&& after.len() == outcomes.len()
            &&& after[other] == outcomes[other]
            &&& spec_line(after[other]) == spec_line(outcomes[other])
            &&& spec_exit_code(after) == 1
        }),
{
    let after = outcomes.update(
        failed,
        OutcomeView { identifier: outcomes[failed].identifier, result: Err(failure) },
    );
    lemma_a_failure_is_counted(after, failed);
}

/// A report that holds a failure counts at least one.
proof fn lemma_a_failure_is_counted(outcomes: Seq<OutcomeView>, failed: int)
    requires
        0 <= failed < outcomes.len(),
        outcomes[failed].result is Err,
    ensures
        spec_failures(outcomes) >= 1,
    decreases outcomes.len(),
{
    if failed < outcomes.len() - 1 {
        lemma_a_failure_is_counted(outcomes.drop_last(), failed);
    }
}

} // verus!
