//! Plans: the steps that an operation asks the file system to take.

use crate::cargo_toml::CargoToml;
use vstd::prelude::*;

verus! {

/// Why a step on the file system did not succeed.
#[derive(Clone, Copy, Debug, PartialEq, Eq, Structural)]
pub enum Fault {
    /// A file was to be created where one already lies.
    AlreadyExists,
    /// A file was to be opened or removed where none lies.
    NotFound,
    /// The file system denied access.
    PermissionDenied,
    /// Any other fault, such as a full disk.
    Other,
}

/// The operations of a manifest.
#[derive(Clone, Copy, Debug, PartialEq, Eq, Structural)]
pub enum Operation {
    Init,
    AppendFeatures,
    Remove,
}

/// One call on the file system. `CreateNew` and `OpenAppend` open a buffered
/// handle on the manifest; `Write` and `Flush` act on the handle opened last,
/// and fail where none was opened.
#[derive(Debug, PartialEq, Eq)]
pub enum Step {
    /// Create the file for writing; fail if one already lies there.
    CreateNew,
    /// Open the file that lies there for appending; never truncate it.
    OpenAppend,
    /// Write all of these bytes.
    Write(Vec<u8>),
    /// Push everything written so far out to the file.
    Flush,
    /// Delete the file.
    Remove,
}

/// A step as a mathematical value.
pub enum Action {
    CreateNew,
    OpenAppend,
    Write(Seq<u8>),
    Flush,
    Remove,
}

impl View for Step {
    type V = Action;

    open spec fn view(&self) -> Action {
        match self {
            Step::CreateNew => Action::CreateNew,
            Step::OpenAppend => Action::OpenAppend,
            Step::Write(bytes) => Action::Write(bytes@),
            Step::Flush => Action::Flush,
            Step::Remove => Action::Remove,
        }
    }
}

/// The steps of one operation on one manifest, to be taken in order up to the
/// first that fails.
#[derive(Debug)]
pub struct Plan<'a> {
    pub target: &'a CargoToml,
    pub operation: Operation,
    pub steps: Vec<Step>,
}

/// A fault together with the manifest and the operation it stopped.
#[derive(Clone, Copy, Debug, PartialEq, Eq)]
pub struct Failure<'a> {
    pub target: &'a CargoToml,
    pub operation: Operation,
    pub fault: Fault,
}

impl<'a> Plan<'a> {
    /// The steps as mathematical values.
    pub open spec fn actions(&self) -> Seq<Action> {
        self.steps@.map_values(|step: Step| step@)
    }

    /// What the operation reports when one of its steps fails with `fault`.
    pub open spec fn failed(&self, fault: Fault) -> Failure<'a> {
        Failure { target: self.target, operation: self.operation, fault }
    }

    /// Wraps the fault of a failed step with the manifest and the operation of
    /// this plan. The fault itself is handed on as it came.
    pub fn failure(&self, fault: Fault) -> (failure: Failure<'a>)
        ensures
            failure == self.failed(fault),
    {
        Failure { target: self.target, operation: self.operation, fault }
    }
}

} // verus!
