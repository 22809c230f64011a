use vstd::prelude::*;

use crate::errors::DiaryError;
use crate::utils::date::{
    date_superscript, decimal, month_name, month_year_text, ordinal_suffix, weekday_day_text,
    weekday_from_sunday, weekday_name, year_text, CalendarDate, EntryDate,
};

verus! {

/// `count` copies of one character.
pub open spec fn underline(c: char, count: nat) -> Seq<char> {
    Seq::new(count, |i: int| c)
}

pub open spec fn markdown_title(d: CalendarDate) -> Seq<char> {
    "# "@ + weekday_day_text(d) + "<sup>"@ + ordinal_suffix(d.day) + "</sup> "@ + month_year_text(
        d,
    ) + "\n\n"@
}

pub open spec fn markdown_tag(tag_name: Seq<char>) -> Seq<char> {
    "## "@ + tag_name + "\n\n"@
}

/// The header line of a reStructuredText title, as in
/// ``Saturday 6\ :sup:`th` November 2021``.
pub open spec fn rst_header(d: CalendarDate) -> Seq<char> {
    weekday_day_text(d) + "\\ :sup:`"@ + ordinal_suffix(d.day) + "` "@ + month_year_text(d)
}

/// The header, a line of `=` as long as the header in characters, and a
/// blank line.
pub open spec fn rst_title(d: CalendarDate) -> Seq<char> {
    rst_header(d) + "\n"@ + underline('=', rst_header(d).len()) + "\n\n"@
}

/// A reStructuredText title is the header line
/// ``<Weekday> <day>\ :sup:`<suffix>` <Month> <Year>``, a newline, a line of
/// `=` with one for each character of the header, a newline and a blank line.
pub proof fn lemma_rst_title_layout(d: CalendarDate)
    ensures
        rst_header(d) == weekday_name(weekday_from_sunday(d)) + seq![' '] + decimal(d.day as nat)
            + "\\ :sup:`"@ + ordinal_suffix(d.day) + "` "@ + month_name(d.month) + seq![' ']
            + year_text(d.year),
        rst_title(d) == rst_header(d) + seq!['\n'] + underline('=', rst_header(d).len()) + seq![
            '\n',
            '\n',
        ],
        rst_title(d).len() == 2 * rst_header(d).len() + 3,
        forall|i: int|
            rst_header(d).len() < i <= 2 * rst_header(d).len() ==> #[trigger] rst_title(d)[i]
                == '=',
{
    reveal_strlit("\n");
    reveal_strlit("\n\n");
    let h = rst_header(d);
    assert(rst_header(d) =~= weekday_name(weekday_from_sunday(d)) + seq![' '] + decimal(
        d.day as nat,
    ) + "\\ :sup:`"@ + ordinal_suffix(d.day) + "` "@ + month_name(d.month) + seq![' '] + year_text(
        d.year,
    ));
    assert(rst_title(d) =~= h + seq!['\n'] + underline('=', h.len()) + seq!['\n', '\n']);
    assert forall|i: int| h.len() < i <= 2 * h.len() implies #[trigger] rst_title(d)[i] == '=' by {
        assert(rst_title(d)[i] == underline('=', h.len())[i - h.len() - 1]);
    }
}

/// The tag, a line of `^` as long as the tag in characters, and a blank line.
pub open spec fn rst_tag(tag_name: Seq<char>) -> Seq<char> {
    tag_name + "\n"@ + underline('^', tag_name.len()) + "\n\n"@
}

/// The codes of the two file types.
pub open spec fn is_file_type_code(code: Seq<char>) -> bool {
    code == "md"@ || code == "rst"@
}

/// Whether two strings hold the same characters.
pub fn same_text(a: &str, b: &str) -> (r: bool)
    ensures
        r == (a@ == b@),
{
    a.to_owned() == b.to_owned()
}

/// `count` copies of the one character of `unit`.
fn repeated(unit: &str, count: usize) -> (r: String)
    requires
        unit@.len() == 1,
    ensures
        r@ == underline(unit@[0], count as nat),
{
    let mut line = String::new();
    let mut i: usize = 0;
    while i < count
        invariant
            i <= count,
            unit@.len() == 1,
            line@ == underline(unit@[0], i as nat),
        decreases count - i,
    {
        line.append(unit);
        i = i + 1;
        assert(line@ =~= underline(unit@[0], i as nat));
    }
    line
}

/// The three parts of a title: weekday and day, the day's ordinal suffix,
/// month and year.
fn title_elements(date: &EntryDate) -> (r: (String, String, String))
    ensures
        r.0@ == weekday_day_text(date@),
        r.1@ == ordinal_suffix(date@.day),
        r.2@ == month_year_text(date@),
{
    let start_title = date.weekday_day_text();
    let superscript = date_superscript(date.day()).to_owned();
    let end_title = date.month_year_text();
    (start_title, superscript, end_title)
}

/// Entries written in Markdown.
pub struct MarkdownDiary {}

impl MarkdownDiary {
    pub fn extension(&self) -> (r: &'static str)
        ensures
            r@ == "md"@,
    {
        "md"
    }

    /// `# <Weekday> <Day><sup><suffix></sup> <Month> <Year>` and a blank line.
    pub fn title(&self, date: &EntryDate) -> (r: String)
        ensures
            r@ == markdown_title(date@),
    {
        let (start_title, superscript, end_title) = title_elements(date);
        let mut title = String::from_str("# ");
        title.append(start_title.as_str());
        title.append("<sup>");
        title.append(superscript.as_str());
        title.append("</sup> ");
        title.append(end_title.as_str());
        title.append("\n\n");
        title
    }

    /// `## <tag>` and a blank line.
    pub fn tag(&self, tag_name: String) -> (r: String)
        ensures
            r@ == markdown_tag(tag_name@),
    {
        let mut tag = String::from_str("## ");
        tag.append(tag_name.as_str());
        tag.append("\n\n");
        tag
    }
}

/// Entries written in reStructuredText.
pub struct RstDiary {}

impl RstDiary {
    pub fn extension(&self) -> (r: &'static str)
        ensures
            r@ == "rst"@,
    {
        "rst"
    }

    /// The header line, a line of `=` under it, and a blank line.
    pub fn title(&self, date: &EntryDate) -> (r: String)
        ensures
            r@ == rst_title(date@),
    {
        let (start_title, superscript, end_title) = title_elements(date);
        let mut first_line = start_title;
        first_line.append("\\ :sup:`");
        first_line.append(superscript.as_str());
        first_line.append("` ");
        first_line.append(end_title.as_str());
        let first_line_len = first_line.as_str().unicode_len();
        proof {
            reveal_strlit("=");
        }
        let second_line = repeated("=", first_line_len);
        let mut title = first_line;
        title.append("\n");
        title.append(second_line.as_str());
        title.append("\n\n");
        title
    }

    /// The tag, a line of `^` under it, and a blank line.
    pub fn tag(&self, tag_name: String) -> (r: String)
        ensures
            r@ == rst_tag(tag_name@),
    {
        let first_line_len = tag_name.as_str().unicode_len();
        proof {
            reveal_strlit("^");
        }
        let second_line = repeated("^", first_line_len);
        let mut tag = tag_name;
        tag.append("\n");
        tag.append(second_line.as_str());
        tag.append("\n\n");
        tag
    }
}

/// The format that a diary writes its entries in.
pub enum EntryFileType {
    MarkdownDiary(MarkdownDiary),
    RstDiary(RstDiary),
}

impl EntryFileType {
    pub open spec fn extension_spec(&self) -> Seq<char> {
        match self {
            EntryFileType::MarkdownDiary(_) => "md"@,
            EntryFileType::RstDiary(_) => "rst"@,
        }
    }

    pub open spec fn title_spec(&self, d: CalendarDate) -> Seq<char> {
        match self {
            EntryFileType::MarkdownDiary(_) => markdown_title(d),
            EntryFileType::RstDiary(_) => rst_title(d),
        }
    }

    pub open spec fn tag_spec(&self, tag_name: Seq<char>) -> Seq<char> {
        match self {
            EntryFileType::MarkdownDiary(_) => markdown_tag(tag_name),
            EntryFileType::RstDiary(_) => rst_tag(tag_name),
        }
    }

    /// The extension of the entry files, without the dot.
    pub fn extension(&self) -> (r: &'static str)
        ensures
            r@ == self.extension_spec(),
    {
        match self {
            EntryFileType::MarkdownDiary(f) => f.extension(),
            EntryFileType::RstDiary(f) => f.extension(),
        }
    }

    /// The title block that a new entry for `date` starts with.
    pub fn title(&self, date: &EntryDate) -> (r: String)
        ensures
            r@ == self.title_spec(date@),
    {
        match self {
            EntryFileType::MarkdownDiary(f) => f.title(date),
            EntryFileType::RstDiary(f) => f.title(date),
        }
    }

    /// The heading written above a tagged addition.
    pub fn tag(&self, tag_name: String) -> (r: String)
        ensures
            r@ == self.tag_spec(tag_name@),
    {
        match self {
            EntryFileType::MarkdownDiary(f) => f.tag(tag_name),
            EntryFileType::RstDiary(f) => f.tag(tag_name),
        }
    }
}

proof fn lemma_file_type_codes_differ()
    ensures
        "md"@ != "rst"@,
{
    reveal_strlit("md");
    reveal_strlit("rst");
    assert("md"@.len() != "rst"@.len());
}

/// The file type with the code `md` or `rst`.
pub fn entry_file_type_from_string(file_type: &str) -> (r: Result<EntryFileType, DiaryError>)
    ensures
        file_type@ == "md"@ <==> r matches Ok(EntryFileType::MarkdownDiary(_)),
        file_type@ == "rst"@ <==> r matches Ok(EntryFileType::RstDiary(_)),
        !is_file_type_code(file_type@) <==> r matches Err(DiaryError::BadFileType),
        r matches Ok(t) ==> t.extension_spec() == file_type@,
{
    proof {
        lemma_file_type_codes_differ();
    }
    if same_text(file_type, "md") {
        Ok(EntryFileType::MarkdownDiary(MarkdownDiary {  }))
    } else if same_text(file_type, "rst") {
        Ok(EntryFileType::RstDiary(RstDiary {  }))
    } else {
        Err(DiaryError::BadFileType)
    }
}

impl std::str::FromStr for EntryFileType {
    type Err = DiaryError;

    fn from_str(s: &str) -> Result<Self, Self::Err> {
        entry_file_type_from_string(s)
    }
}

/// Checks a file type code that may have been given: none is fine, and one
/// that is given must be `md` or `rst`.
pub fn process_file_type<'a>(potential_file_type: Option<&'a str>) -> (r: Result<
    Option<&'a str>,
    DiaryError,
>)
    ensures
        potential_file_type is None ==> r matches Ok(None),
        potential_file_type matches Some(code) ==> {
            &&& is_file_type_code(code@) ==> r == Ok::<Option<&'a str>, DiaryError>(
                Some(code),
            )
            &&& !is_file_type_code(code@) ==> r matches Err(DiaryError::BadFileType)
        },
{
    match potential_file_type {
        None => Ok(None),
        Some(file_type) => match entry_file_type_from_string(file_type) {
            Err(_) => Err(DiaryError::BadFileType),
            Ok(_) => Ok(Some(file_type)),
        },
    }
}

} // verus!
