//! Opening the entry for a date in the editor.
use vstd::prelude::*;

use crate::errors::DiaryError;
use crate::ops::{Action, Event};
use crate::utils::date::EntryDate;
use crate::Diary;

verus! {

/// The options of `open`.
pub struct OpenFileOptions {
    /// The date of the entry to open.
    pub entry_date: EntryDate,
}

/// What `open` waits for.
pub enum OpenStage {
    EntryChecked,
    Edited,
    Finished,
}

/// The editing of an existing entry in the editor.
pub struct OpenEntry {
    pub stage: OpenStage,
    pub entry_path: String,
}

/// Starts `open`: first, whether the entry exists.
pub fn open(opts: &OpenFileOptions, diary: &Diary) -> (r: (OpenEntry, Action))
    ensures
        r.0.stage is EntryChecked,
        r.0.entry_path@ == diary.spec_entry_path(opts.entry_date@),
        r.1 matches Action::CheckExists(p) && p@ == diary.spec_entry_path(opts.entry_date@),
{
    let entry_path = diary.get_entry_path(&opts.entry_date);
    let check = Action::CheckExists(entry_path.clone());
    (OpenEntry { stage: OpenStage::EntryChecked, entry_path }, check)
}

impl OpenEntry {
    /// Whether `event` is the kind of answer the current stage waits for.
    pub open spec fn awaits(&self, event: Event) -> bool {
        match self.stage {
            OpenStage::EntryChecked => event is Exists,
            OpenStage::Edited => event is Done,
            OpenStage::Finished => false,
        }
    }

    pub fn accepts(&self, event: &Event) -> (r: bool)
        ensures
            r == self.awaits(*event),
    {
        match self.stage {
            OpenStage::EntryChecked => matches!(event, Event::Exists(_)),
            OpenStage::Edited => matches!(event, Event::Done(_)),
            OpenStage::Finished => false,
        }
    }

    /// Takes what came of the last action and names the next one.
    pub fn resume(&mut self, event: Event) -> (r: Action)
        requires
            old(self).awaits(event),
        ensures
            final(self).entry_path == old(self).entry_path,
            final(self).stage is Finished <==> r is Finish,
            old(self).stage is EntryChecked ==> (event matches Event::Exists(true) ==> {
                &&& final(self).stage is Edited
                &&& r matches Action::EditFile(p) && p == old(self).entry_path
            }),
            old(self).stage is EntryChecked ==> (event matches Event::Exists(false) ==> (r
                matches Action::Finish(Err(DiaryError::NoEntry { source: None })))),
            old(self).stage is Edited ==> (event matches Event::Done(Ok(_)) ==> (r
                matches Action::Finish(Ok(_)))),
            // What the editor reports as a failure is passed on.
            old(self).stage is Edited ==> (event matches Event::Done(Err(f)) ==> (r
                matches Action::Finish(Err(DiaryError::IOError(e))) && e == f.error)),
    {
        match (&self.stage, event) {
            (OpenStage::EntryChecked, Event::Exists(true)) => {
                self.stage = OpenStage::Edited;
                Action::EditFile(self.entry_path.clone())
            },
            (OpenStage::EntryChecked, _) => {
                self.stage = OpenStage::Finished;
                Action::Finish(Err(DiaryError::NoEntry { source: None }))
            },
            (_, Event::Done(Err(f))) => {
                self.stage = OpenStage::Finished;
                Action::Finish(Err(DiaryError::IOError(f.error)))
            },
            (_, _) => {
                self.stage = OpenStage::Finished;
                Action::Finish(Ok(()))
            },
        }
    }
}

} // verus!
