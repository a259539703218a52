//! A file in memory against which plans can be carried out.

use crate::file_state::{carry_out, FileState};
use crate::plan::{Action, Failure, Fault, Plan, Step};
use vstd::prelude::*;

verus! {

/// A file kept in memory, which stands in for the file system where a plan is
/// to be tried without touching a disk. It behaves as `FileState` says.
#[derive(Debug, PartialEq, Eq)]
pub struct MemoryFile {
    /// The bytes of the file, or `None` where no file lies.
    pub content: Option<Vec<u8>>,
}

/// The bytes held, if any, as a mathematical value.
pub open spec fn bytes_of(held: Option<Vec<u8>>) -> Option<Seq<u8>> {
    match held {
        Some(bytes) => Some(bytes@),
        None => None,
    }
}

impl View for MemoryFile {
    type V = Option<Seq<u8>>;

    open spec fn view(&self) -> Option<Seq<u8>> {
        bytes_of(self.content)
    }
}

impl MemoryFile {
    /// Takes one step, with `pending` as the handle.
    fn step(&mut self, pending: &mut Option<Vec<u8>>, step: &Step) -> (done: Result<(), Fault>)
        ensures
            (FileState { file: final(self)@, pending: bytes_of(*final(pending)) }, done)
                == (FileState { file: old(self)@, pending: bytes_of(*old(pending)) }).step(step@),
    {
        match step {
            Step::CreateNew => {
                if self.content.is_some() {
                    Err(Fault::AlreadyExists)
                } else {
                    self.content = Some(Vec::new());
                    *pending = Some(Vec::new());
                    Ok(())
                }
            },
            Step::OpenAppend => {
                if self.content.is_some() {
                    *pending = Some(Vec::new());
                    Ok(())
                } else {
                    Err(Fault::NotFound)
                }
            },
            Step::Write(bytes) => {
                match pending {
                    Some(waiting) => {
                        let ghost before = waiting@;
                        waiting.extend_from_slice(bytes.as_slice());
                        assert(waiting@ =~= before + bytes@);
                        Ok(())
                    },
                    None => Err(Fault::Other),
                }
            },
            Step::Flush => {
                match pending {
                    Some(waiting) => {
                        match &mut self.content {
                            Some(content) => {
                                content.append(waiting);
                            },
                            None => {
                                waiting.clear();
                            },
                        }
                        Ok(())
                    },
                    None => Err(Fault::Other),
                }
            },
            Step::Remove => {
                if self.content.is_some() {
                    self.content = None;
                    Ok(())
                } else {
                    Err(Fault::NotFound)
                }
            },
        }
    }

    /// Carries the plan out against this file: takes its steps in order and
    /// stops at the first that fails. Bytes that were written and not flushed
    /// are lost.
    pub fn perform<'a>(&mut self, plan: &Plan<'a>) -> (done: Result<(), Failure<'a>>)
        ensures
            final(self)@ == carry_out(old(self)@, plan.actions()).file,
            done == match carry_out(old(self)@, plan.actions()).result {
                Ok(_) => Ok::<(), Failure<'a>>(()),
                Err(fault) => Err(plan.failed(fault)),
            },
    {
        let ghost start = FileState::closed(self@);
        let ghost actions = plan.actions();
        let mut pending: Option<Vec<u8>> = None;
        let mut i: usize = 0;
        assert(actions.skip(0) =~= actions);
        while i < plan.steps.len()
            invariant
                i <= plan.steps.len(),
                actions == plan.actions(),
                start == FileState::closed(old(self)@),
                start.run(actions) == (FileState { file: self@, pending: bytes_of(pending) }).run(
                    actions.skip(i as int),
                ),
            decreases plan.steps.len() - i,
        {
            assert(actions.skip(i as int).drop_first() =~= actions.skip(i + 1));
            match self.step(&mut pending, &plan.steps[i]) {
                Ok(_) => {},
                Err(fault) => {
                    return Err(plan.failure(fault));
                },
            }
            i += 1;
        }
        Ok(())
    }
}

} // verus!
