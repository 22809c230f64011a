//! Adding text to the entry for a date.
use vstd::prelude::*;

use crate::content::markdown_tag;
use crate::errors::DiaryError;
use crate::ops::{add_newline, with_newline, Action, Event, IoErrorKind};
use crate::utils::date::EntryDate;
use crate::Diary;

verus! {

/// The options of `add`.
pub struct AddOptions<'a> {
    /// A heading to write above the text.
    pub tag: Option<&'a str>,
}

/// What `add` waits for.
pub enum AddStage {
    FileOpened,
    TextReceived,
    TagWritten,
    TextWritten,
    Finished,
}

/// An addition to an existing entry: the entry is opened for appending, the
/// editor is asked for text, and the tag heading, if any, and the text with a
/// newline are appended in that order.
pub struct AddEntry {
    pub stage: AddStage,
    pub entry_path: String,
    /// The tag heading in the diary's format, when a tag was given.
    pub tag: Option<String>,
    /// The text from the editor, once it has come.
    pub content: String,
    /// Everything that this operation has asked to append, in order.
    pub written: Ghost<Seq<char>>,
}

/// What a successful addition appends: the tag heading, if any, then the text
/// and a newline.
pub open spec fn added_text(tag: Option<Seq<char>>, content: Seq<char>) -> Seq<char> {
    match tag {
        Some(heading) => heading + with_newline(content),
        None => with_newline(content),
    }
}

/// In a Markdown diary, adding text under the tag `Meeting` appends
/// `## Meeting`, a blank line, the text and a newline, in that order.
pub proof fn lemma_markdown_meeting_addition(content: Seq<char>)
    ensures
        added_text(Some(markdown_tag("Meeting"@)), content) == "## Meeting\n\n"@ + content + "\n"@,
{
    reveal_strlit("## ");
    reveal_strlit("Meeting");
    reveal_strlit("\n\n");
    reveal_strlit("## Meeting\n\n");
    assert(markdown_tag("Meeting"@) =~= "## Meeting\n\n"@);
    assert(added_text(Some(markdown_tag("Meeting"@)), content) =~= "## Meeting\n\n"@ + content
        + "\n"@);
}

/// Starts adding to the entry for `date`: first, the entry is opened.
pub fn add(opts: &AddOptions, diary: &Diary, date: &EntryDate) -> (r: (AddEntry, Action))
    ensures
        r.0.stage is FileOpened,
        r.0.entry_path@ == diary.spec_entry_path(date@),
        opts.tag is None ==> r.0.tag is None,
        opts.tag matches Some(t) ==> (r.0.tag matches Some(h) && h@ == diary.spec_file_type().tag_spec(
            t@,
        )),
        r.0.written@ == Seq::<char>::empty(),
        r.0.wf(),
        r.1 matches Action::OpenForAppend(p) && p@ == diary.spec_entry_path(date@),
{
    let entry_path = diary.get_entry_path(date);
    let tag = match opts.tag {
        Some(name) => Some(diary.file_type().tag(name.to_owned())),
        None => None,
    };
    let open = Action::OpenForAppend(entry_path.clone());
    let entry = AddEntry {
        stage: AddStage::FileOpened,
        entry_path,
        tag,
        content: String::new(),
        written: Ghost(Seq::empty()),
    };
    (entry, open)
}

impl AddEntry {
    /// The tag heading's characters, when there is one.
    pub open spec fn tag_text(&self) -> Option<Seq<char>> {
        match self.tag {
            Some(h) => Some(h@),
            None => None,
        }
    }

    /// What has been appended so far matches the stage.
    pub open spec fn wf(&self) -> bool {
        match self.stage {
            AddStage::FileOpened | AddStage::TextReceived => self.written@.len() == 0,
            AddStage::TagWritten => self.tag_text() == Some(self.written@),
            AddStage::TextWritten => self.written@ == added_text(self.tag_text(), self.content@),
            AddStage::Finished => true,
        }
    }

    /// Whether `event` is the kind of answer the current stage waits for.
    pub open spec fn awaits(&self, event: Event) -> bool {
        match self.stage {
            AddStage::TextReceived => event is Text,
            AddStage::Finished => false,
            _ => event is Done,
        }
    }

    pub fn accepts(&self, event: &Event) -> (r: bool)
        ensures
            r == self.awaits(*event),
    {
        match self.stage {
            AddStage::TextReceived => matches!(event, Event::Text(_)),
            AddStage::Finished => false,
            _ => matches!(event, Event::Done(_)),
        }
    }

    /// Takes what came of the last action and names the next one.
    pub fn resume(&mut self, event: Event) -> (r: Action)
        requires
            old(self).awaits(event),
        ensures
            final(self).entry_path == old(self).entry_path,
            final(self).tag == old(self).tag,
            final(self).stage is Finished <==> r is Finish,
            r matches Action::Write(w) ==> final(self).written@ == old(self).written@ + w@,
            !(r is Write) ==> final(self).written == old(self).written,
            // On success exactly the heading, the text and a newline were appended.
            old(self).wf() && r is Finish && r->Finish_0 is Ok ==> final(self).written@ == added_text(
                final(self).tag_text(),
                final(self).content@,
            ),
            old(self).wf() ==> final(self).wf(),
            // The entry must exist: `add` never creates it, and writes nothing without it.
            old(self).wf() ==> (r matches Action::Finish(Err(DiaryError::NoEntry { .. }))
                ==> final(self).written@.len() == 0),
            old(self).stage is FileOpened ==> (event matches Event::Done(Ok(_)) ==> {
                &&& final(self).stage is TextReceived
                &&& r matches Action::SolicitText(s) && s@.len() == 0
            }),
            old(self).stage is FileOpened ==> (event matches Event::Done(Err(f)) ==> {
                &&& f.kind is NotFound ==> (r matches Action::Finish(
                    Err(DiaryError::NoEntry { source: Some(e) }),
                ) && e == f.error)
                &&& !(f.kind is NotFound) ==> (r matches Action::Finish(Err(DiaryError::IOError(e)))
                    && e == f.error)
            }),
            // Empty text is refused before anything is written.
            old(self).stage is TextReceived ==> (event matches Event::Text(Ok(t)) ==> {
                &&& t@.len() == 0 <==> (r matches Action::Finish(Err(DiaryError::NoContent)))
                &&& t@.len() != 0 ==> final(self).content == t
                &&& t@.len() != 0 && old(self).tag is Some ==> final(self).stage is TagWritten
                    && (r matches Action::Write(w) && w == old(self).tag->0)
                &&& t@.len() != 0 && old(self).tag is None ==> final(self).stage is TextWritten
                    && (r matches Action::Write(w) && w@ == with_newline(t@))
            }),
            old(self).stage is TagWritten ==> (event matches Event::Done(Ok(_)) ==> {
                &&& final(self).stage is TextWritten
                &&& final(self).content == old(self).content
                &&& r matches Action::Write(w) && w@ == with_newline(old(self).content@)
            }),
            old(self).stage is TextWritten ==> (event matches Event::Done(Ok(_)) ==> (r
                matches Action::Finish(Ok(_)))),
            old(self).stage is TagWritten || old(self).stage is TextWritten ==> (event matches Event::Done(
                Err(f),
            ) ==> (r matches Action::Finish(Err(DiaryError::IOError(e))) && e == f.error)),
            old(self).stage is TextReceived ==> (event matches Event::Text(Err(f)) ==> (r
                matches Action::Finish(Err(DiaryError::IOError(e))) && e == f)),
    {
        match (&self.stage, event) {
            (AddStage::FileOpened, Event::Done(Ok(_))) => {
                self.stage = AddStage::TextReceived;
                Action::SolicitText(String::new())
            },
            (AddStage::FileOpened, Event::Done(Err(f))) => {
                self.stage = AddStage::Finished;
                let error = match f.kind {
                    IoErrorKind::NotFound => DiaryError::NoEntry { source: Some(f.error) },
                    _ => DiaryError::IOError(f.error),
                };
                Action::Finish(Err(error))
            },
            (AddStage::TextReceived, Event::Text(Ok(text))) => {
                if text.as_str().unicode_len() == 0 {
                    self.stage = AddStage::Finished;
                    return Action::Finish(Err(DiaryError::NoContent));
                }
                self.content = text;
                match &self.tag {
                    Some(heading) => {
                        self.stage = AddStage::TagWritten;
                        let heading = heading.clone();
                        self.written = Ghost(self.written@ + heading@);
                        Action::Write(heading)
                    },
                    None => {
                        self.stage = AddStage::TextWritten;
                        let line = add_newline(self.content.clone());
                        self.written = Ghost(self.written@ + line@);
                        Action::Write(line)
                    },
                }
            },
            (AddStage::TextReceived, Event::Text(Err(e))) => {
                self.stage = AddStage::Finished;
                Action::Finish(Err(DiaryError::IOError(e)))
            },
            (AddStage::TagWritten, Event::Done(Ok(_))) => {
                self.stage = AddStage::TextWritten;
                let line = add_newline(self.content.clone());
                self.written = Ghost(self.written@ + line@);
                Action::Write(line)
            },
            (AddStage::TextWritten, Event::Done(Ok(_))) => {
                self.stage = AddStage::Finished;
                Action::Finish(Ok(()))
            },
            (_, Event::Done(Err(f))) => {
                self.stage = AddStage::Finished;
                Action::Finish(Err(DiaryError::IOError(f.error)))
            },
            (_, _) => {
                self.stage = AddStage::Finished;
                Action::Finish(Ok(()))
            },
        }
    }
}

} // verus!
