//! Test metadata, failures, and the direct dispatch of outcomes.

use vstd::prelude::*;
use crate::registry::OnceSlot;

verus! {

/// The identity a test reports: the target under test and, optionally, the
/// feature of it that is exercised.
#[derive(Debug)]
pub struct Metadata {
    pub target: String,
    pub feature: Option<String>,
}

/// The mathematical value of a `Metadata`.
pub struct MetadataView {
    pub target: Seq<char>,
    pub feature: Option<Seq<char>>,
}

pub open spec fn opt_view(o: Option<String>) -> Option<Seq<char>> {
    match o {
        Some(s) => Some(s@),
        None => None,
    }
}

impl View for Metadata {
    type V = MetadataView;

    open spec fn view(&self) -> MetadataView {
        MetadataView { target: self.target@, feature: opt_view(self.feature) }
    }
}

/// How metadata reads: `target (feature)`, or the target alone.
pub open spec fn metadata_text(m: MetadataView) -> Seq<char> {
    match m.feature {
        Some(f) => m.target + " ("@ + f + ")"@,
        None => m.target,
    }
}

fn copy_text(o: &Option<String>) -> (r: Option<String>)
    ensures
        opt_view(r) == opt_view(*o),
{
    match o {
        Some(s) => Some(s.clone()),
        None => None,
    }
}

impl Metadata {
    /// Metadata with an empty target and no feature.
    pub fn new() -> (r: Self)
        ensures
            r@.target == Seq::<char>::empty(),
            r@.feature is None,
    {
        Metadata { target: String::new(), feature: None }
    }

    /// An equal copy.
    pub fn duplicate(&self) -> (r: Self)
        ensures
            r@ == self@,
    {
        Metadata { target: self.target.clone(), feature: copy_text(&self.feature) }
    }

    /// The text of the metadata, as `metadata_text` says.
    pub fn to_text(&self) -> (r: String)
        ensures
            r@ == metadata_text(self@),
    {
        let mut text = self.target.clone();
        match &self.feature {
            Some(f) => {
                text.append(" (");
                text.append(f.as_str());
                text.append(")");
            },
            None => {},
        }
        text
    }
}

/// Why a check failed: the rendered message and where the check stands.
#[derive(Debug)]
pub struct FailureCause {
    pub message: String,
    pub location: String,
}

/// A failed test: its metadata and the cause of the failure.
#[derive(Debug)]
pub struct Error {
    pub metadata: Metadata,
    pub cause: FailureCause,
}

/// The mathematical value of an `Error`.
pub struct ErrorView {
    pub metadata: MetadataView,
    pub message: Seq<char>,
    pub location: Seq<char>,
}

impl View for Error {
    type V = ErrorView;

    open spec fn view(&self) -> ErrorView {
        ErrorView {
            metadata: self.metadata@,
            message: self.cause.message@,
            location: self.cause.location@,
        }
    }
}

/// How a failure reads: `<metadata> test failed at '<message>'`.
pub open spec fn error_text(e: ErrorView) -> Seq<char> {
    metadata_text(e.metadata) + " test failed at '"@ + e.message + "'"@
}

impl Error {
    /// An equal copy.
    pub fn duplicate(&self) -> (r: Self)
        ensures
            r@ == self@,
    {
        Error {
            metadata: self.metadata.duplicate(),
            cause: FailureCause {
                message: self.cause.message.clone(),
                location: self.cause.location.clone(),
            },
        }
    }

    /// The text of the failure, as `error_text` says.
    pub fn to_text(&self) -> (r: String)
        ensures
            r@ == error_text(self@),
    {
        let mut text = self.metadata.to_text();
        text.append(" test failed at '");
        text.append(self.cause.message.as_str());
        text.append("'");
        text
    }
}

/// The outcome of one test: its metadata, or the failure.
pub type TestResult = Result<Metadata, Error>;

/// Registers the function that receives test outcomes in the direct
/// dispatch configuration, whatever was registered before.
pub fn set_result_processor<P>(slot: &mut OnceSlot<P>, processor: P)
    ensures
        final(slot)@ == Some(processor),
{
    slot.replace(processor)
}

/// Hands `result` to the registered result processor.
pub fn process_result<P: Fn(TestResult)>(slot: &OnceSlot<P>, result: TestResult)
    requires
        slot@ matches Some(p) && call_requires(p, (result,)),
    ensures
        call_ensures(slot@->0, (result,), ()),
{
    let processor = slot.get();
    processor(result);
}

/// The failure that merging reports when no result was given.
pub open spec fn empty_merge_error(e: ErrorView) -> bool {
    &&& e.metadata.target == "TestResult"@
    &&& e.metadata.feature == Some("merge"@)
    &&& e.message == "Error getting test metadata"@
}

/// Combines the outcomes of several checks into one: the first failure
/// wins; if none failed, the metadata of the first outcome stands for all.
/// An empty list has no metadata to give and is a failure of its own.
pub fn merge(results: &Vec<TestResult>) -> (r: TestResult)
    ensures
        forall|i: int|
            0 <= i < results.len() && results[i] is Err && (forall|j: int|
                0 <= j < i ==> #[trigger] results[j] is Ok) ==> (r matches Err(e) && e@
                == results[i]->Err_0@),
        (forall|i: int| 0 <= i < results.len() ==> #[trigger] results[i] is Ok) && results.len() > 0
            ==> (r matches Ok(m) && m@ == results[0]->Ok_0@),
        results.len() == 0 ==> (r matches Err(e) && empty_merge_error(e@)),
{
    let mut i: usize = 0;
    while i < results.len()
        invariant
            i <= results.len(),
            forall|j: int| 0 <= j < i ==> #[trigger] results[j] is Ok,
        decreases results.len() - i,
    {
        match &results[i] {
            Ok(_) => {},
            Err(e) => {
                return Err(e.duplicate());
            },
        }
        i = i + 1;
    }
    if results.len() > 0 {
        match &results[0] {
            Ok(m) => Ok(m.duplicate()),
            Err(e) => Err(e.duplicate()),
        }
    } else {
        Err(
            Error {
                metadata: Metadata {
                    target: "TestResult".to_string(),
                    feature: Some("merge".to_string()),
                },
                cause: FailureCause {
                    message: "Error getting test metadata".to_string(),
                    location: String::new(),
                },
            },
        )
    }
}

} // verus!
