//! Committing the entry for a date to the diary's git repository.
use vstd::prelude::*;

use crate::config::optional_text;
use crate::errors::DiaryError;
use crate::content::same_text;
use crate::ops::{Action, Event, StagedTree};
use crate::utils::date::EntryDate;
use crate::Diary;

verus! {

/// The path that leads from the folder `base` to `path`, if there is one,
/// as pathdiff's `diff_paths` gives it.
pub uninterp spec fn relative_path_of(path: Seq<char>, base: Seq<char>) -> Option<Seq<char>>;

/// Relies on pathdiff's `diff_paths`, which compares the two paths component
/// by component and does not look at the disk: its result depends on the two
/// paths alone.
#[verifier::external_body]
fn diff_paths(path: &str, base: &str) -> (r: Option<String>)
    ensures
        optional_text(r) == relative_path_of(path@, base@),
{
    pathdiff::diff_paths(path, base).and_then(|p| p.to_str().map(|s| s.to_owned()))
}

/// How the staged tree is to be committed.
pub enum CommitStep {
    /// The tree is the one `HEAD` already has: there is nothing to commit.
    Skip,
    /// Commit the tree with the commit of `HEAD` as its parent.
    CommitOnHead,
    /// Commit the tree as the first commit, without parents.
    CommitRoot,
}

/// Decides how to commit the tree `new_tree`, given the tree of `HEAD`'s
/// commit, if the repository has one.
pub fn commit_step(head_tree: Option<&str>, new_tree: &str) -> (r: CommitStep)
    ensures
        head_tree is None ==> r is CommitRoot,
        head_tree matches Some(h) && h@ == new_tree@ ==> r is Skip,
        head_tree matches Some(h) && h@ != new_tree@ ==> r is CommitOnHead,
{
    match head_tree {
        None => CommitStep::CommitRoot,
        Some(h) => {
            if same_text(h, new_tree) {
                CommitStep::Skip
            } else {
                CommitStep::CommitOnHead
            }
        },
    }
}

/// The options of `commit`.
pub struct CommitOptions {
    /// The date of the entry to commit.
    pub entry_date: EntryDate,
    pub message: String,
    /// Whether to push the commit to the remote `origin`.
    pub push: bool,
}

/// What `commit` waits for.
pub enum CommitStage {
    EntryChecked,
    Staged,
    Committed,
    Pushed,
    Finished,
}

/// The commit of one entry, and its push if asked. A tree that `HEAD`
/// already has is not committed again.
pub struct CommitEntry {
    pub stage: CommitStage,
    pub push: bool,
    /// The diary's folder, which holds the repository.
    pub repository: String,
    pub entry_path: String,
    /// The entry's path inside the diary's folder.
    pub relative_path: String,
    pub message: String,
}

/// The head tree's characters, if any.
pub open spec fn head_tree_text(staged: StagedTree) -> Option<Seq<char>> {
    match staged.head_tree {
        Some(h) => Some(h@),
        None => None,
    }
}

/// Starts `commit`: first, whether the entry exists. There is nothing to
/// start when the entry's path cannot be written relative to the diary's
/// folder.
pub fn commit(opts: &CommitOptions, diary: &Diary) -> (r: Option<(CommitEntry, Action)>)
    ensures
        r is Some <==> relative_path_of(
            diary.spec_entry_path(opts.entry_date@),
            diary.spec_diary_path(),
        ) is Some,
        r matches Some(started) ==> {
            &&& started.0.stage is EntryChecked
            &&& started.0.push == opts.push
            &&& started.0.repository@ == diary.spec_diary_path()
            &&& started.0.entry_path@ == diary.spec_entry_path(opts.entry_date@)
            &&& Some(started.0.relative_path@) == relative_path_of(
                diary.spec_entry_path(opts.entry_date@),
                diary.spec_diary_path(),
            )
            &&& started.0.message@ == opts.message@
            &&& started.1 matches Action::CheckExists(p) && p@ == diary.spec_entry_path(
                opts.entry_date@,
            )
        },
{
    let entry_path = diary.get_entry_path(&opts.entry_date);
    let relative_path = match diff_paths(entry_path.as_str(), diary.diary_path().as_str()) {
        Some(p) => p,
        None => return None,
    };
    let check = Action::CheckExists(entry_path.clone());
    let entry = CommitEntry {
        stage: CommitStage::EntryChecked,
        push: opts.push,
        repository: diary.diary_path().clone(),
        entry_path,
        relative_path,
        message: opts.message.clone(),
    };
    Some((entry, check))
}

impl CommitEntry {
    /// Whether `event` is the kind of answer the current stage waits for.
    pub open spec fn awaits(&self, event: Event) -> bool {
        match self.stage {
            CommitStage::EntryChecked => event is Exists,
            CommitStage::Staged => event is Staged,
            CommitStage::Committed | CommitStage::Pushed => event is Git,
            CommitStage::Finished => false,
        }
    }

    pub fn accepts(&self, event: &Event) -> (r: bool)
        ensures
            r == self.awaits(*event),
    {
        match self.stage {
            CommitStage::EntryChecked => matches!(event, Event::Exists(_)),
            CommitStage::Staged => matches!(event, Event::Staged(_)),
            CommitStage::Committed | CommitStage::Pushed => matches!(event, Event::Git(_)),
            CommitStage::Finished => false,
        }
    }

    /// What follows a commit, or a commit found unneeded: the push if asked.
    fn after_commit(&mut self) -> (r: Action)
        ensures
            final(self).push == old(self).push,
            final(self).repository == old(self).repository,
            final(self).entry_path == old(self).entry_path,
            final(self).relative_path == old(self).relative_path,
            final(self).message == old(self).message,
            old(self).push ==> final(self).stage is Pushed && (r matches Action::Push(p) && p
                == old(self).repository),
            !old(self).push ==> final(self).stage is Finished && (r matches Action::Finish(
                Ok(_),
            )),
    {
        if self.push {
            self.stage = CommitStage::Pushed;
            Action::Push(self.repository.clone())
        } else {
            self.stage = CommitStage::Finished;
            Action::Finish(Ok(()))
        }
    }

    /// Takes what came of the last action and names the next one.
    pub fn resume(&mut self, event: Event) -> (r: Action)
        requires
            old(self).awaits(event),
        ensures
            final(self).push == old(self).push,
            final(self).repository == old(self).repository,
            final(self).entry_path == old(self).entry_path,
            final(self).relative_path == old(self).relative_path,
            final(self).message == old(self).message,
            final(self).stage is Finished <==> r is Finish,
            // A missing entry is not committed.
            old(self).stage is EntryChecked ==> (event matches Event::Exists(false) ==> (r
                matches Action::Finish(Err(DiaryError::NoEntry { source: None })))),
            old(self).stage is EntryChecked ==> (event matches Event::Exists(true) ==> {
                &&& final(self).stage is Staged
                &&& r matches Action::Stage { repository, path } && repository == old(
                    self,
                ).repository && path == old(self).relative_path
            }),
            // The staged tree is committed on HEAD, as the first commit, or not at all.
            old(self).stage is Staged ==> (event matches Event::Staged(Ok(staged)) ==> {
                &&& head_tree_text(staged) is None ==> final(self).stage is Committed && (r
                    matches Action::Commit { repository, tree, message, on_head } && repository
                    == old(self).repository && tree == staged.tree && message
                    == old(self).message && !on_head)
                &&& (head_tree_text(staged) is Some && head_tree_text(staged) != Some(
                    staged.tree@,
                )) ==> final(self).stage is Committed && (r matches Action::Commit {
                    repository,
                    tree,
                    message,
                    on_head,
                } && repository == old(self).repository && tree == staged.tree && message
                    == old(self).message && on_head)
                &&& head_tree_text(staged) == Some(staged.tree@) ==> {
                    &&& old(self).push ==> final(self).stage is Pushed && (r matches Action::Push(
                        p,
                    ) && p == old(self).repository)
                    &&& !old(self).push ==> (r matches Action::Finish(Ok(_)))
                }
            }),
            old(self).stage is Committed ==> (event matches Event::Git(Ok(_)) ==> {
                &&& old(self).push ==> final(self).stage is Pushed && (r matches Action::Push(p)
                    && p == old(self).repository)
                &&& !old(self).push ==> (r matches Action::Finish(Ok(_)))
            }),
            old(self).stage is Pushed ==> (event matches Event::Git(Ok(_)) ==> (r
                matches Action::Finish(Ok(_)))),
            // A failure of git ends the operation with git's error.
            event matches Event::Staged(Err(g)) ==> (r matches Action::Finish(
                Err(DiaryError::GitError(e)),
            ) && e == g),
            event matches Event::Git(Err(g)) ==> (r matches Action::Finish(
                Err(DiaryError::GitError(e)),
            ) && e == g),
    {
        match (&self.stage, event) {
            (CommitStage::EntryChecked, Event::Exists(true)) => {
                self.stage = CommitStage::Staged;
                Action::Stage {
                    repository: self.repository.clone(),
                    path: self.relative_path.clone(),
                }
            },
            (CommitStage::EntryChecked, _) => {
                self.stage = CommitStage::Finished;
                Action::Finish(Err(DiaryError::NoEntry { source: None }))
            },
            (CommitStage::Staged, Event::Staged(Ok(staged))) => {
                let step = match &staged.head_tree {
                    Some(h) => commit_step(Some(h.as_str()), staged.tree.as_str()),
                    None => commit_step(None, staged.tree.as_str()),
                };
                match step {
                    CommitStep::Skip => self.after_commit(),
                    CommitStep::CommitOnHead => {
                        self.stage = CommitStage::Committed;
                        Action::Commit {
                            repository: self.repository.clone(),
                            tree: staged.tree,
                            message: self.message.clone(),
                            on_head: true,
                        }
                    },
                    CommitStep::CommitRoot => {
                        self.stage = CommitStage::Committed;
                        Action::Commit {
                            repository: self.repository.clone(),
                            tree: staged.tree,
                            message: self.message.clone(),
                            on_head: false,
                        }
                    },
                }
            },
            (CommitStage::Committed, Event::Git(Ok(_))) => self.after_commit(),
            (_, Event::Staged(Err(e))) => {
                self.stage = CommitStage::Finished;
                Action::Finish(Err(DiaryError::GitError(e)))
            },
            (_, Event::Git(Err(e))) => {
                self.stage = CommitStage::Finished;
                Action::Finish(Err(DiaryError::GitError(e)))
            },
            (_, _) => {
                self.stage = CommitStage::Finished;
                Action::Finish(Ok(()))
            },
        }
    }
}

} // verus!
