//! Renaming a batch of files, one after the other, until one fails. The batch decides what is
//! to be done next; the caller does it on the file system and reports back.

use crate::failure::Failure;
use crate::paths::{destination, destination_path};
use vstd::prelude::*;
use vstd::string::StringExecFns;

verus! {

/// One rename that is asked for: the file at `old_path` gets the base name `new_name`. Its
/// directory and its extension stay.
#[derive(Debug)]
pub struct RenameOperation {
    /// Where the file lies now.
    pub old_path: String,
    /// The base name it is to get, without extension.
    pub new_name: String,
}

/// A rename as plain values.
pub struct RenameOperationView {
    pub old_path: Seq<char>,
    pub new_name: Seq<char>,
}

impl View for RenameOperation {
    type V = RenameOperationView;

    open spec fn view(&self) -> RenameOperationView {
        RenameOperationView { old_path: self.old_path@, new_name: self.new_name@ }
    }
}

impl RenameOperation {
    /// The path that the file gets.
    pub open spec fn target(self) -> Seq<char> {
        destination(self.old_path@, self.new_name@)
    }

    /// The path that the file gets.
    pub fn destination(&self) -> (path: String)
        ensures
            path@ == self.target(),
    {
        destination_path(self.old_path.as_str(), self.new_name.as_str())
    }
}

/// Why a rename fails whose destination `to` is taken by another file.
pub open spec fn collision_cause(to: Seq<char>) -> Seq<char> {
    "目标文件已存在："@ + to
}

/// What a batch waits for.
#[derive(Clone, Copy, Debug, PartialEq, Eq, Structural)]
pub enum RenameStage {
    /// To hear whether the file of the current rename exists.
    ConfirmingFile,
    /// To hear whether the path that the file is to get is still free.
    ConfirmingVacancy,
    /// To hear what came of the current rename.
    Renaming,
    /// Nothing: the batch has ended.
    Finished,
}

/// What the caller of a batch is to do next.
#[derive(Debug)]
pub enum RenameAction {
    /// Find out whether a file lies at `path`, and report it with `on_exists`.
    CheckExists { path: String },
    /// Find out whether nothing lies at `path` yet, and report it with `on_vacant`.
    CheckVacant { path: String },
    /// Rename the file at `from` to `to`, and report what came of it with `on_renamed`.
    Rename { from: String, to: String },
    /// Nothing more: the batch has ended with `outcome`.
    Finish { outcome: Result<(), Failure> },
}

/// A batch of renames in progress. The renames before `position` have been made; none after it
/// has been touched.
#[derive(Debug)]
pub struct RenameBatch {
    operations: Vec<RenameOperation>,
    position: usize,
    stage: RenameStage,
}

impl RenameBatch {
    #[verifier::type_invariant]
    spec fn in_bounds(self) -> bool {
        &&& self.position <= self.operations@.len()
        &&& self.stage != RenameStage::Finished ==> self.position < self.operations@.len()
    }

    /// The renames of the batch, in the order in which they are made.
    pub closed spec fn operations(self) -> Seq<RenameOperation> {
        self.operations@
    }

    /// How many renames have been made.
    pub closed spec fn position(self) -> int {
        self.position as int
    }

    /// What the batch waits for.
    pub closed spec fn stage(self) -> RenameStage {
        self.stage
    }

    /// The rename that is being made. It is there as long as the batch has not ended.
    pub open spec fn current(self) -> RenameOperation {
        self.operations()[self.position()]
    }

    /// Whether the batch is consistent: no more renames are made than it holds, and as long as
    /// it has not ended it has a current rename. Every batch is.
    pub open spec fn has_current(self) -> bool {
        &&& 0 <= self.position() <= self.operations().len()
        &&& self.stage() != RenameStage::Finished ==> self.position() < self.operations().len()
    }

    /// What the batch waits for.
    pub fn current_stage(&self) -> (stage: RenameStage)
        ensures
            stage == self.stage(),
    {
        self.stage
    }

    /// How many renames have been made.
    pub fn completed(&self) -> (count: usize)
        ensures
            count == self.position(),
    {
        self.position
    }

    /// Begins the batch. An empty batch has ended with success at once; else the first thing to
    /// do is to look for the file of the first rename.
    pub fn start(operations: Vec<RenameOperation>) -> (begun: (RenameBatch, RenameAction))
        ensures
            begun.0.operations() == operations@,
            begun.0.position() == 0,
            begun.0.has_current(),
            operations@.len() == 0 ==> {
                &&& begun.0.stage() == RenameStage::Finished
                &&& begun.1 matches RenameAction::Finish { outcome: Ok(()) }
            },
            operations@.len() > 0 ==> {
                &&& begun.0.stage() == RenameStage::ConfirmingFile
                &&& begun.1 matches RenameAction::CheckExists { path }
                &&& path@ == operations@[0].old_path@
            },
    {
        if operations.len() == 0 {
            (
                RenameBatch { operations, position: 0, stage: RenameStage::Finished },
                RenameAction::Finish { outcome: Ok(()) },
            )
        } else {
            let path = operations[0].old_path.clone();
            (
                RenameBatch { operations, position: 0, stage: RenameStage::ConfirmingFile },
                RenameAction::CheckExists { path },
            )
        }
    }

    /// Takes the answer to `CheckExists`. For a file that is there, the path it is to get is
    /// looked at next, whether it is still free; where that path is the path the file has, the
    /// file is renamed at once. A file that is not there ends the batch, and what was renamed
    /// before stays renamed. Where no such answer is awaited, nothing changes and there is
    /// nothing to do.
    pub fn on_exists(&mut self, exists: bool) -> (next: Option<RenameAction>)
        ensures
            final(self).operations() == old(self).operations(),
            final(self).position() == old(self).position(),
            old(self).has_current(),
            final(self).has_current(),
            old(self).stage() != RenameStage::ConfirmingFile ==> {
                &&& next is None
                &&& final(self).stage() == old(self).stage()
            },
            old(self).stage() == RenameStage::ConfirmingFile && exists && old(
                self,
            ).current().target() != old(self).current().old_path@ ==> {
                &&& final(self).stage() == RenameStage::ConfirmingVacancy
                &&& next matches Some(RenameAction::CheckVacant { path })
                &&& path@ == old(self).current().target()
            },
            old(self).stage() == RenameStage::ConfirmingFile && exists && old(
                self,
            ).current().target() == old(self).current().old_path@ ==> {
                &&& final(self).stage() == RenameStage::Renaming
                &&& next matches Some(RenameAction::Rename { from, to })
                &&& from@ == old(self).current().old_path@
                &&& to@ == old(self).current().target()
            },
            old(self).stage() == RenameStage::ConfirmingFile && !exists ==> {
                &&& final(self).stage() == RenameStage::Finished
                &&& next matches Some(
                    RenameAction::Finish { outcome: Err(Failure::FileNotFound { path }) },
                )
                &&& path@ == old(self).current().old_path@
            },
    {
        proof {
            use_type_invariant(&*self);
        }
        if self.stage != RenameStage::ConfirmingFile {
            return None;
        }
        let operation = &self.operations[self.position];
        let from = operation.old_path.clone();
        if exists {
            let to = operation.destination();
            if to == from {
                self.stage = RenameStage::Renaming;
                Some(RenameAction::Rename { from, to })
            } else {
                self.stage = RenameStage::ConfirmingVacancy;
                Some(RenameAction::CheckVacant { path: to })
            }
        } else {
            self.stage = RenameStage::Finished;
            Some(RenameAction::Finish { outcome: Err(Failure::FileNotFound { path: from }) })
        }
    }

    /// Takes the answer to `CheckVacant`. Where the path is free, the file is renamed next, to
    /// the path that keeps its directory and its extension. Where another file lies there, the
    /// rename fails as a collision and the batch ends; that file is left as it is, and what
    /// was renamed before stays renamed. Where no such answer is awaited, nothing changes and
    /// there is nothing to do.
    pub fn on_vacant(&mut self, vacant: bool) -> (next: Option<RenameAction>)
        ensures
            final(self).operations() == old(self).operations(),
            final(self).position() == old(self).position(),
            old(self).has_current(),
            final(self).has_current(),
            old(self).stage() != RenameStage::ConfirmingVacancy ==> {
                &&& next is None
                &&& final(self).stage() == old(self).stage()
            },
            old(self).stage() == RenameStage::ConfirmingVacancy && vacant ==> {
                &&& final(self).stage() == RenameStage::Renaming
                &&& next matches Some(RenameAction::Rename { from, to })
                &&& from@ == old(self).current().old_path@
                &&& to@ == old(self).current().target()
            },
            old(self).stage() == RenameStage::ConfirmingVacancy && !vacant ==> {
                &&& final(self).stage() == RenameStage::Finished
                &&& next matches Some(
                    RenameAction::Finish { outcome: Err(Failure::RenameFailed { path, cause }) },
                )
                &&& path@ == old(self).current().old_path@
                &&& cause@ == collision_cause(old(self).current().target())
            },
    {
        proof {
            use_type_invariant(&*self);
        }
        if self.stage != RenameStage::ConfirmingVacancy {
            return None;
        }
        let operation = &self.operations[self.position];
        let from = operation.old_path.clone();
        let to = operation.destination();
        if vacant {
            self.stage = RenameStage::Renaming;
            Some(RenameAction::Rename { from, to })
        } else {
            let cause = String::from_str("目标文件已存在：").concat(to.as_str());
            self.stage = RenameStage::Finished;
            Some(RenameAction::Finish { outcome: Err(Failure::RenameFailed { path: from, cause }) })
        }
    }

    /// Takes the answer to `Rename`. After a rename that worked the batch goes on to the next
    /// one, or ends with success where it was the last; one that failed ends the batch, and
    /// what was renamed before stays renamed. Where no such answer is awaited, nothing changes
    /// and there is nothing to do.
    pub fn on_renamed(&mut self, renamed: Result<(), String>) -> (next: Option<RenameAction>)
        ensures
            final(self).operations() == old(self).operations(),
            old(self).has_current(),
            final(self).has_current(),
            old(self).stage() != RenameStage::Renaming ==> {
                &&& next is None
                &&& final(self).stage() == old(self).stage()
                &&& final(self).position() == old(self).position()
            },
            old(self).stage() == RenameStage::Renaming ==> match renamed {
                Ok(()) => {
                    &&& final(self).position() == old(self).position() + 1
                    &&& if final(self).position() < old(self).operations().len() {
                        &&& final(self).stage() == RenameStage::ConfirmingFile
                        &&& next matches Some(RenameAction::CheckExists { path })
                        &&& path@ == final(self).current().old_path@
                    } else {
                        &&& final(self).stage() == RenameStage::Finished
                        &&& next matches Some(RenameAction::Finish { outcome: Ok(()) })
                    }
                },
                Err(cause) => {
                    &&& final(self).position() == old(self).position()
                    &&& final(self).stage() == RenameStage::Finished
                    &&& next matches Some(
                        RenameAction::Finish {
                            outcome: Err(Failure::RenameFailed { path, cause: told }),
                        },
                    )
                    &&& path@ == old(self).current().old_path@
                    &&& told == cause
                },
            },
    {
        proof {
            use_type_invariant(&*self);
        }
        if self.stage != RenameStage::Renaming {
            return None;
        }
        match renamed {
            Ok(()) => {
                let count = self.operations.len();
                let done = self.position + 1;
                self.stage = RenameStage::Finished;
                self.position = done;
                if done < count {
                    self.stage = RenameStage::ConfirmingFile;
                    let path = self.operations[self.position].old_path.clone();
                    Some(RenameAction::CheckExists { path })
                } else {
                    Some(RenameAction::Finish { outcome: Ok(()) })
                }
            },
            Err(cause) => {
                let path = self.operations[self.position].old_path.clone();
                self.stage = RenameStage::Finished;
                Some(RenameAction::Finish { outcome: Err(Failure::RenameFailed { path, cause }) })
            },
        }
    }
}

} // verus!
