use vstd::prelude::*;

use crate::config::Config;
use crate::content::{entry_file_type_from_string, is_file_type_code, EntryFileType};
use crate::errors::DiaryError;
use crate::utils::date::{
    iso_date_text, lemma_iso_date_round_trip, parse_iso_date, valid_date, CalendarDate, EntryDate,
};
use crate::utils::file_system::{join, join_path, month_folder, month_folder_path};

verus! {

/// `<prefix>_YYYY-MM-DD.<extension>`, the name of the entry file for a date.
pub open spec fn entry_file_name(prefix: Seq<char>, d: CalendarDate, extension: Seq<char>) -> Seq<
    char,
> {
    prefix + seq!['_'] + iso_date_text(d) + seq!['.'] + extension
}

/// `<root>/YYYY-MM/<prefix>_YYYY-MM-DD.<extension>`, where the entry for a
/// date is kept.
pub open spec fn entry_path(
    root: Seq<char>,
    prefix: Seq<char>,
    d: CalendarDate,
    extension: Seq<char>,
) -> Seq<char> {
    join_path(month_folder_path(root, d), entry_file_name(prefix, d, extension))
}

/// The date that an entry file's name holds, for a diary with the given
/// prefix and extension: the text between `<prefix>_` and `.<extension>`,
/// read as `YYYY-MM-DD`.
pub open spec fn entry_name_date(name: Seq<char>, prefix: Seq<char>, extension: Seq<char>) -> Option<
    CalendarDate,
> {
    if name.len() >= prefix.len() + extension.len() + 2 {
        parse_iso_date(name.subrange(prefix.len() + 1int, name.len() - extension.len() - 1))
    } else {
        None
    }
}

/// The name of the entry file for a date gives that date back.
pub proof fn lemma_entry_file_name_round_trip(
    prefix: Seq<char>,
    d: CalendarDate,
    extension: Seq<char>,
)
    requires
        valid_date(d),
    ensures
        entry_name_date(entry_file_name(prefix, d, extension), prefix, extension) == Some(d),
{
    lemma_iso_date_round_trip(d);
    let name = entry_file_name(prefix, d, extension);
    let date_text = iso_date_text(d);
    assert(name.subrange(prefix.len() + 1int, name.len() - extension.len() - 1) =~= date_text);
}

/// An initialised diary: its folder, the prefix of its file names and the
/// format of its entries.
pub struct Diary {
    prefix: String,
    diary_path: String,
    file_type: EntryFileType,
}

impl Diary {
    pub closed spec fn spec_prefix(&self) -> Seq<char> {
        self.prefix@
    }

    pub closed spec fn spec_diary_path(&self) -> Seq<char> {
        self.diary_path@
    }

    pub closed spec fn spec_file_type(&self) -> EntryFileType {
        self.file_type
    }

    /// The extension of the diary's entry files.
    pub open spec fn spec_extension(&self) -> Seq<char> {
        self.spec_file_type().extension_spec()
    }

    /// Where the entry for `d` is kept.
    pub open spec fn spec_entry_path(&self, d: CalendarDate) -> Seq<char> {
        entry_path(self.spec_diary_path(), self.spec_prefix(), d, self.spec_extension())
    }

    /// The folder for the entries of the month of `d`.
    pub open spec fn spec_month_folder(&self, d: CalendarDate) -> Seq<char> {
        month_folder_path(self.spec_diary_path(), d)
    }

    /// The diary kept in `diary_path`, which the caller has found to exist on
    /// disk (`path_exists`) or not.
    pub fn new(prefix: &str, diary_path: &str, path_exists: bool, file_type: &str) -> (r: Result<
        Diary,
        DiaryError,
    >)
        ensures
            !path_exists ==> r matches Err(DiaryError::UnInitialised { source: None }),
            path_exists && !is_file_type_code(file_type@) ==> r matches Err(
                DiaryError::BadFileType,
            ),
            path_exists && is_file_type_code(file_type@) ==> r is Ok,
            r matches Ok(d) ==> {
                &&& d.spec_prefix() == prefix@
                &&& d.spec_diary_path() == diary_path@
                &&& d.spec_extension() == file_type@
            },
    {
        if !path_exists {
            return Err(DiaryError::UnInitialised { source: None });
        }
        let entry_file_type = entry_file_type_from_string(file_type)?;
        Ok(
            Diary {
                prefix: prefix.to_owned(),
                diary_path: diary_path.to_owned(),
                file_type: entry_file_type,
            },
        )
    }

    /// The diary that `cfg` describes. A configuration without a diary folder,
    /// or one whose folder the caller has not found on disk (`path_exists`),
    /// describes no diary yet.
    pub fn from_config(cfg: &Config, path_exists: bool) -> (r: Result<Diary, DiaryError>)
        ensures
            cfg.spec_diary_path() is None || !path_exists ==> r matches Err(
                DiaryError::UnInitialised { source: None },
            ),
            cfg.spec_diary_path() is Some && path_exists && !is_file_type_code(
                cfg.spec_file_type(),
            ) ==> r matches Err(DiaryError::BadFileType),
            cfg.spec_diary_path() is Some && path_exists && is_file_type_code(cfg.spec_file_type())
                ==> r is Ok,
            r matches Ok(d) ==> {
                &&& Some(d.spec_diary_path()) == cfg.spec_diary_path()
                &&& d.spec_prefix() == cfg.spec_prefix()
                &&& d.spec_extension() == cfg.spec_file_type()
            },
    {
        match cfg.diary_path() {
            None => Err(DiaryError::UnInitialised { source: None }),
            Some(path) => Self::new(
                cfg.prefix().as_str(),
                path.as_str(),
                path_exists,
                cfg.file_type().as_str(),
            ),
        }
    }

    pub fn prefix(&self) -> (r: &String)
        ensures
            r@ == self.spec_prefix(),
    {
        &self.prefix
    }

    pub fn diary_path(&self) -> (r: &String)
        ensures
            r@ == self.spec_diary_path(),
    {
        &self.diary_path
    }

    pub fn file_type(&self) -> (r: &EntryFileType)
        ensures
            *r == self.spec_file_type(),
    {
        &self.file_type
    }

    /// `<prefix>_YYYY-MM-DD.<extension>`.
    pub fn file_name(&self, date: &EntryDate) -> (r: String)
        ensures
            r@ == entry_file_name(self.spec_prefix(), date@, self.spec_extension()),
    {
        let entry_suffix = date.iso_text();
        let mut file_name = self.prefix.clone();
        proof {
            reveal_strlit("_");
            reveal_strlit(".");
        }
        file_name.append("_");
        file_name.append(entry_suffix.as_str());
        file_name.append(".");
        file_name.append(self.file_type.extension());
        file_name
    }

    /// The folder that holds the entries of the month of `date`.
    pub fn month_folder(&self, date: &EntryDate) -> (r: String)
        ensures
            r@ == self.spec_month_folder(date@),
    {
        month_folder(self.diary_path.as_str(), date)
    }

    /// Where the entry for `date` is kept.
    pub fn get_entry_path(&self, date: &EntryDate) -> (r: String)
        ensures
            r@ == self.spec_entry_path(date@),
    {
        let folder = self.month_folder(date);
        let entry_name = self.file_name(date);
        join(folder.as_str(), entry_name.as_str())
    }
}

} // verus!
