//! The manifest of the generated library: its fixed header, and the plans of
//! the three operations on its file.

use crate::feature::{line_chunks, names_of, Feature};
use crate::plan::{Action, Operation, Plan, Step};
use std::path::PathBuf;
use vstd::prelude::*;
use vstd::utf8::encode_utf8;

verus! {

/// What a fresh manifest holds before any feature is appended: a notice, the
/// package, its dependencies, and the opening of the features section, under
/// which the features' lines are to follow.
pub const BASE_CARGO_TOML: &'static str = "# ------------------------------------------------------------------------------------------
# THIS FILE WAS GENERATED BY THE \"BUILD\" CRATE.
# ------------------------------------------------------------------------------------------

[package]
name = \"leptos-icons\"
version = \"0.0.1\"
authors = [\"Charles Edward Gagnon\"]
edition = \"2021\"
description = \"Icons library for the leptos web framework\"
readme = \"./README.md\"
repository = \"https://github.com/Carlosted/leptos-icons\"
license = \"MIT\"
keywords = [\"leptos\", \"icons\"]
categories = [\"web-programming\"]

[dependencies]
leptos = { version = \"0.2\", default-features = false }

[features]
";

/// `std::path::PathBuf`, as an opaque type. Nothing is claimed of a path: it
/// is held and handed on, and never looked into.
#[verifier::external_type_specification]
#[verifier::external_body]
pub struct ExPathBuf(PathBuf);

/// The manifest of the generated library, known by where it lies. The
/// operations on it only plan: they say which steps are to be taken on the
/// file system, and leave the taking to the caller.
#[derive(Debug, PartialEq, Eq)]
pub struct CargoToml {
    /// Path to the library's manifest.
    pub path: PathBuf,
}

/// The header as text.
pub open spec fn header_text() -> Seq<char> {
    BASE_CARGO_TOML@
}

/// The header as the bytes that a fresh manifest holds.
pub open spec fn header_bytes() -> Seq<u8> {
    encode_utf8(header_text())
}

/// What `init` asks of the file system: create the file, refusing to replace
/// one, write the header, and flush.
pub open spec fn init_actions() -> Seq<Action> {
    seq![Action::CreateNew, Action::Write(header_bytes()), Action::Flush]
}

/// What `append_features` asks of the file system for features called
/// `names`: open the file for appending, write one line per name in the order
/// of `names`, and flush.
pub open spec fn append_actions(names: Seq<Seq<char>>) -> Seq<Action> {
    seq![Action::OpenAppend] + line_chunks(names).map_values(
        |bytes: Seq<u8>| Action::Write(bytes),
    ) + seq![Action::Flush]
}

/// What `remove` asks of the file system: delete the file.
pub open spec fn remove_actions() -> Seq<Action> {
    seq![Action::Remove]
}

impl CargoToml {
    /// Plans the removal of the manifest, so that it can be written afresh:
    /// the one step is to delete the file.
    pub fn remove(&self) -> (plan: Plan<'_>)
        ensures
            plan.target == self,
            plan.operation == Operation::Remove,
            plan.actions() == remove_actions(),
    {
        let mut steps: Vec<Step> = Vec::new();
        steps.push(Step::Remove);
        Plan { target: self, operation: Operation::Remove, steps }
    }

    /// Plans the creation of the manifest with the header as its whole
    /// content. The file is created exclusively: where one already lies, the
    /// first step fails, so that nothing is opened, written or replaced.
    pub fn init(&self) -> (plan: Plan<'_>)
        ensures
            plan.target == self,
            plan.operation == Operation::Init,
            plan.actions() == init_actions(),
    {
        let mut steps: Vec<Step> = Vec::new();
        steps.push(Step::CreateNew);
        steps.push(Step::Write(BASE_CARGO_TOML.as_bytes_vec()));
        steps.push(Step::Flush);
        Plan { target: self, operation: Operation::Init, steps }
    }

    /// Plans the appending of one line per feature to the manifest, in the
    /// order of `features`, each of the form `<name> = []`. The name is taken
    /// as it is, whatever characters it holds. With no feature the file is
    /// still opened and flushed.
    pub fn append_features(&self, features: Vec<Feature>) -> (plan: Plan<'_>)
        ensures
            plan.target == self,
            plan.operation == Operation::AppendFeatures,
            plan.actions() == append_actions(names_of(features@)),
    {
        let ghost names = names_of(features@);
        let ghost writes = line_chunks(names).map_values(|bytes: Seq<u8>| Action::Write(bytes));
        let mut steps: Vec<Step> = Vec::new();
        steps.push(Step::OpenAppend);
        let mut i: usize = 0;
        while i < features.len()
            invariant
                i <= features.len(),
                names == names_of(features@),
                writes == line_chunks(names).map_values(|bytes: Seq<u8>| Action::Write(bytes)),
                steps@.map_values(|step: Step| step@) == seq![Action::OpenAppend] + writes.take(
                    i as int,
                ),
            decreases features.len() - i,
        {
            let line = features[i].line();
            let ghost taken = steps@;
            steps.push(Step::Write(line.as_str().as_bytes_vec()));
            assert(steps@.map_values(|step: Step| step@) =~= taken.map_values(
                |step: Step| step@,
            ).push(writes[i as int]));
            i += 1;
        }
        let ghost taken = steps@;
        steps.push(Step::Flush);
        assert(steps@.map_values(|step: Step| step@) =~= taken.map_values(
            |step: Step| step@,
        ).push(Action::Flush));
        Plan { target: self, operation: Operation::AppendFeatures, steps }
    }
}

} // verus!
