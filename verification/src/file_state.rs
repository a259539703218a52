//! The file system as the manifest sees it: one path, and what the steps of
//! a plan do to it.

use crate::plan::{Action, Fault};
use vstd::prelude::*;

verus! {

/// What one path of the file system holds while a plan is carried out against
/// it, as far as the manifest is concerned.
///
/// The handle is buffered, and the state counts on nothing that was not
/// flushed: written bytes wait in `pending` and reach the file only when the
/// handle is flushed, and a handle that is dropped takes its pending bytes
/// with it. The only faults of this file system are those that the state
/// itself calls for; it never runs out of space and never denies access.
pub struct FileState {
    /// The bytes of the file, or `None` where no file lies.
    pub file: Option<Seq<u8>>,
    /// The bytes written through the open handle and not yet flushed, or
    /// `None` where no handle is open.
    pub pending: Option<Seq<u8>>,
}

impl FileState {
    /// The path with `file` on it and no handle open.
    pub open spec fn closed(file: Option<Seq<u8>>) -> FileState {
        FileState { file, pending: None }
    }

    /// The state after `action`, and whether the action succeeded. A failed
    /// action changes nothing.
    pub open spec fn step(self, action: Action) -> (FileState, Result<(), Fault>) {
        match action {
            Action::CreateNew => match self.file {
                Some(_) => (self, Err(Fault::AlreadyExists)),
                None => (
                    FileState { file: Some(Seq::empty()), pending: Some(Seq::empty()) },
                    Ok(()),
                ),
            },
            Action::OpenAppend => match self.file {
                Some(_) => (FileState { file: self.file, pending: Some(Seq::empty()) }, Ok(())),
                None => (self, Err(Fault::NotFound)),
            },
            Action::Write(bytes) => match self.pending {
                Some(waiting) => (
                    FileState { file: self.file, pending: Some(waiting + bytes) },
                    Ok(()),
                ),
                None => (self, Err(Fault::Other)),
            },
            Action::Flush => match self.pending {
                Some(waiting) => (
                    FileState {
                        file: match self.file {
                            Some(content) => Some(content + waiting),
                            None => None,
                        },
                        pending: Some(Seq::empty()),
                    },
                    Ok(()),
                ),
                None => (self, Err(Fault::Other)),
            },
            Action::Remove => match self.file {
                Some(_) => (FileState { file: None, pending: self.pending }, Ok(())),
                None => (self, Err(Fault::NotFound)),
            },
        }
    }

    /// The state after `actions` were taken in order up to the first that
    /// failed, and the fault of that one, if any.
    pub open spec fn run(self, actions: Seq<Action>) -> (FileState, Result<(), Fault>)
        decreases actions.len(),
    {
        if actions.len() == 0 {
            (self, Ok(()))
        } else {
            let (next, done) = self.step(actions.first());
            match done {
                Ok(_) => next.run(actions.drop_first()),
                Err(_) => (next, done),
            }
        }
    }

    /// Taking a single action is taking that step.
    pub proof fn run_single(self, action: Action)
        ensures
            self.run(seq![action]) == self.step(action),
    {
        let next = self.step(action).0;
        assert(seq![action].drop_first() =~= Seq::<Action>::empty());
        assert(next.run(Seq::<Action>::empty()) == (next, Ok::<(), Fault>(())));
    }

    /// Taking `first` and then `second` is taking `first + second`, unless
    /// `first` fails.
    pub proof fn run_concat(self, first: Seq<Action>, second: Seq<Action>)
        ensures
            self.run(first + second) == match self.run(first).1 {
                Ok(_) => self.run(first).0.run(second),
                Err(_) => self.run(first),
            },
        decreases first.len(),
    {
        if first.len() > 0 {
            assert((first + second).drop_first() =~= first.drop_first() + second);
            let (next, done) = self.step(first.first());
            if done is Ok {
                next.run_concat(first.drop_first(), second);
            }
        }
    }

    /// Writes through an open handle never fail, and leave the chunks waiting
    /// in the order in which they were written.
    pub proof fn run_writes(self, chunks: Seq<Seq<u8>>)
        requires
            self.pending is Some,
        ensures
            self.run(chunks.map_values(|bytes: Seq<u8>| Action::Write(bytes))) == (
                FileState { file: self.file, pending: Some(self.pending->0 + chunks.flatten()) },
                Ok::<(), Fault>(()),
            ),
        decreases chunks.len(),
    {
        let writes = chunks.map_values(|bytes: Seq<u8>| Action::Write(bytes));
        if chunks.len() > 0 {
            let next = self.step(writes.first()).0;
            assert(writes.drop_first() =~= chunks.drop_first().map_values(
                |bytes: Seq<u8>| Action::Write(bytes),
            ));
            next.run_writes(chunks.drop_first());
            assert((self.pending->0 + chunks.first()) + chunks.drop_first().flatten()
                =~= self.pending->0 + chunks.flatten());
        }
    }
}

/// How an operation ended: what the path holds afterwards, and what the
/// operation reports.
pub struct Outcome {
    pub file: Option<Seq<u8>>,
    pub result: Result<(), Fault>,
}

impl Outcome {
    /// The operation succeeded and left `file`.
    pub open spec fn done(file: Option<Seq<u8>>) -> Outcome {
        Outcome { file, result: Ok(()) }
    }

    /// The operation failed with `fault` and left `file`.
    pub open spec fn failed(file: Option<Seq<u8>>, fault: Fault) -> Outcome {
        Outcome { file, result: Err(fault) }
    }
}

/// What becomes of a path that holds `file` when a plan with these actions is
/// carried out against it. No handle is open before the first step, and the
/// handle is dropped after the last.
pub open spec fn carry_out(file: Option<Seq<u8>>, actions: Seq<Action>) -> Outcome {
    let (state, result) = FileState::closed(file).run(actions);
    Outcome { file: state.file, result }
}

} // verus!
