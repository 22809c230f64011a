//! Creating the entry for a date.
use vstd::prelude::*;

use crate::errors::DiaryError;
use crate::ops::{add_newline, folder_error, with_newline, Action, Event, IoErrorKind};
use crate::utils::date::EntryDate;
use crate::Diary;

verus! {

/// The options of `new`.
pub struct NewOptions {
    /// Whether to ask the editor for a first text once the entry exists.
    pub open: bool,
}

/// What `new` waits for.
pub enum NewStage {
    FolderChecked,
    FolderCreated,
    FileCreated,
    TitleWritten,
    TextReceived,
    TextWritten,
    Finished,
}

/// The creation of one entry: the month's folder is made if it is missing,
/// the entry file is created (never overwritten), the title is written, and,
/// if asked, a first text from the editor.
pub struct NewEntry {
    pub stage: NewStage,
    pub open: bool,
    pub month_folder: String,
    pub entry_path: String,
    pub title: String,
    /// The text from the editor, once it has come.
    pub content: String,
    /// Everything that this operation has asked to write, in order.
    pub written: Ghost<Seq<char>>,
}

/// What a successful `new` writes: the title and a newline, then, if the
/// editor was asked, its text and a newline.
pub open spec fn created_text(title: Seq<char>, open: bool, content: Seq<char>) -> Seq<char> {
    if open {
        with_newline(title) + with_newline(content)
    } else {
        with_newline(title)
    }
}

/// Starts creating the entry for `date`: first, whether the month's folder
/// exists.
pub fn new(opts: &NewOptions, diary: &Diary, date: &EntryDate) -> (r: (NewEntry, Action))
    ensures
        r.0.stage is FolderChecked,
        r.0.open == opts.open,
        r.0.month_folder@ == diary.spec_month_folder(date@),
        r.0.entry_path@ == diary.spec_entry_path(date@),
        r.0.title@ == diary.spec_file_type().title_spec(date@),
        r.0.written@ == Seq::<char>::empty(),
        r.0.wf(),
        r.1 matches Action::CheckExists(p) && p@ == diary.spec_month_folder(date@),
{
    let month_folder = diary.month_folder(date);
    let entry_path = diary.get_entry_path(date);
    let title = diary.file_type().title(date);
    let check = Action::CheckExists(month_folder.clone());
    let entry = NewEntry {
        stage: NewStage::FolderChecked,
        open: opts.open,
        month_folder,
        entry_path,
        title,
        content: String::new(),
        written: Ghost(Seq::empty()),
    };
    (entry, check)
}

impl NewEntry {
    /// What has been written so far matches the stage: nothing before the
    /// entry file has been created.
    pub open spec fn wf(&self) -> bool {
        match self.stage {
            NewStage::FolderChecked | NewStage::FolderCreated | NewStage::FileCreated => self.written@.len()
                == 0,
            NewStage::TitleWritten => self.written@ == with_newline(self.title@),
            NewStage::TextReceived => self.open && self.written@ == with_newline(self.title@),
            NewStage::TextWritten => self.open && self.written@ == with_newline(self.title@)
                + with_newline(self.content@),
            NewStage::Finished => true,
        }
    }

    /// Whether `event` is the kind of answer the current stage waits for.
    pub open spec fn awaits(&self, event: Event) -> bool {
        match self.stage {
            NewStage::FolderChecked => event is Exists,
            NewStage::TextReceived => event is Text,
            NewStage::Finished => false,
            _ => event is Done,
        }
    }

    pub fn accepts(&self, event: &Event) -> (r: bool)
        ensures
            r == self.awaits(*event),
    {
        match self.stage {
            NewStage::FolderChecked => matches!(event, Event::Exists(_)),
            NewStage::TextReceived => matches!(event, Event::Text(_)),
            NewStage::Finished => false,
            _ => matches!(event, Event::Done(_)),
        }
    }

    /// Takes what came of the last action and names the next one.
    pub fn resume(&mut self, event: Event) -> (r: Action)
        requires
            old(self).awaits(event),
        ensures
            old(self).wf() ==> final(self).wf(),
            final(self).open == old(self).open,
            final(self).month_folder == old(self).month_folder,
            final(self).entry_path == old(self).entry_path,
            final(self).title == old(self).title,
            final(self).stage is Finished <==> r is Finish,
            r matches Action::Write(w) ==> final(self).written@ == old(self).written@ + w@,
            !(r is Write) ==> final(self).written == old(self).written,
            // The month's folder is created only where it is missing.
            old(self).stage is FolderChecked ==> (event matches Event::Exists(true) ==> {
                &&& final(self).stage is FileCreated
                &&& r matches Action::CreateNewFile(p) && p == old(self).entry_path
            }),
            old(self).stage is FolderChecked ==> (event matches Event::Exists(false) ==> {
                &&& final(self).stage is FolderCreated
                &&& r matches Action::CreateDir(p) && p == old(self).month_folder
            }),
            old(self).stage is FolderCreated ==> (event matches Event::Done(Ok(_)) ==> {
                &&& final(self).stage is FileCreated
                &&& r matches Action::CreateNewFile(p) && p == old(self).entry_path
            }),
            // A folder that cannot be made for want of a parent means the diary is gone.
            old(self).stage is FolderCreated ==> (event matches Event::Done(Err(f)) ==> {
                &&& f.kind is NotFound ==> (r matches Action::Finish(
                    Err(DiaryError::UnInitialised { source: Some(e) }),
                ) && e == f.error)
                &&& !(f.kind is NotFound) ==> (r matches Action::Finish(Err(DiaryError::IOError(e)))
                    && e == f.error)
            }),
            // The title is the first thing written to the new file.
            old(self).stage is FileCreated ==> (event matches Event::Done(Ok(_)) ==> {
                &&& final(self).stage is TitleWritten
                &&& r matches Action::Write(t) && t@ == with_newline(old(self).title@)
            }),
            // On success exactly the title, and the editor's text if asked, were written.
            old(self).wf() && r is Finish && r->Finish_0 is Ok ==> final(self).written@ == created_text(
                final(self).title@,
                final(self).open,
                final(self).content@,
            ),
            // An entry that exists already is left as it is: nothing is written.
            old(self).wf() ==> (r matches Action::Finish(Err(DiaryError::EntryAlreadyExists { .. }))
                ==> final(self).written@.len() == 0),
            old(self).stage is FileCreated ==> (event matches Event::Done(Err(f)) ==> {
                &&& f.kind is AlreadyExists ==> (r matches Action::Finish(
                    Err(DiaryError::EntryAlreadyExists { source: Some(e) }),
                ) && e == f.error)
                &&& f.kind is NotFound ==> (r matches Action::Finish(
                    Err(DiaryError::UnInitialised { source: Some(e) }),
                ) && e == f.error)
                &&& f.kind is Other ==> (r matches Action::Finish(Err(DiaryError::IOError(e))) && e
                    == f.error)
            }),
            old(self).stage is TitleWritten ==> (event matches Event::Done(Ok(_)) ==> {
                &&& old(self).open ==> final(self).stage is TextReceived && (r
                    matches Action::SolicitText(s) && s@.len() == 0)
                &&& !old(self).open ==> (r matches Action::Finish(Ok(_)))
            }),
            old(self).stage is TextReceived ==> (event matches Event::Text(Ok(t)) ==> {
                &&& final(self).stage is TextWritten
                &&& final(self).content == t
                &&& r matches Action::Write(w) && w@ == with_newline(t@)
            }),
            old(self).stage is TextWritten ==> (event matches Event::Done(Ok(_)) ==> r matches Action::Finish(
                Ok(_),
            )),
            // Any other failure ends the operation as an I/O error, with the error reported.
            old(self).stage is TitleWritten || old(self).stage is TextWritten ==> (event matches Event::Done(
                Err(f),
            ) ==> (r matches Action::Finish(Err(DiaryError::IOError(e))) && e == f.error)),
            old(self).stage is TextReceived ==> (event matches Event::Text(Err(f)) ==> (r
                matches Action::Finish(Err(DiaryError::IOError(e))) && e == f)),
    {
        match (&self.stage, event) {
            (NewStage::FolderChecked, Event::Exists(true)) => {
                self.stage = NewStage::FileCreated;
                Action::CreateNewFile(self.entry_path.clone())
            },
            (NewStage::FolderChecked, _) => {
                self.stage = NewStage::FolderCreated;
                Action::CreateDir(self.month_folder.clone())
            },
            (NewStage::FolderCreated, Event::Done(Ok(_))) => {
                self.stage = NewStage::FileCreated;
                Action::CreateNewFile(self.entry_path.clone())
            },
            (NewStage::FolderCreated, Event::Done(Err(f))) => {
                self.stage = NewStage::Finished;
                Action::Finish(Err(folder_error(f)))
            },
            (NewStage::FileCreated, Event::Done(Ok(_))) => {
                self.stage = NewStage::TitleWritten;
                let text = add_newline(self.title.clone());
                self.written = Ghost(self.written@ + text@);
                Action::Write(text)
            },
            (NewStage::FileCreated, Event::Done(Err(f))) => {
                self.stage = NewStage::Finished;
                let error = match f.kind {
                    IoErrorKind::AlreadyExists => DiaryError::EntryAlreadyExists {
                        source: Some(f.error),
                    },
                    IoErrorKind::NotFound => DiaryError::UnInitialised { source: Some(f.error) },
                    IoErrorKind::Other => DiaryError::IOError(f.error),
                };
                Action::Finish(Err(error))
            },
            (NewStage::TitleWritten, Event::Done(Ok(_))) => {
                if self.open {
                    self.stage = NewStage::TextReceived;
                    Action::SolicitText(String::new())
                } else {
                    self.stage = NewStage::Finished;
                    Action::Finish(Ok(()))
                }
            },
            (NewStage::TextReceived, Event::Text(Ok(text))) => {
                self.stage = NewStage::TextWritten;
                self.content = text;
                let text = add_newline(self.content.clone());
                self.written = Ghost(self.written@ + text@);
                Action::Write(text)
            },
            (NewStage::TextReceived, Event::Text(Err(e))) => {
                self.stage = NewStage::Finished;
                Action::Finish(Err(DiaryError::IOError(e)))
            },
            (NewStage::TextWritten, Event::Done(Ok(_))) => {
                self.stage = NewStage::Finished;
                Action::Finish(Ok(()))
            },
            (_, Event::Done(Err(f))) => {
                self.stage = NewStage::Finished;
                Action::Finish(Err(DiaryError::IOError(f.error)))
            },
            (_, _) => {
                self.stage = NewStage::Finished;
                Action::Finish(Ok(()))
            },
        }
    }
}

} // verus!
