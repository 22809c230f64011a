use vstd::prelude::*;

use crate::utils::date::{year_month_text, CalendarDate, EntryDate};

verus! {

/// `name` inside the folder `base`: with a `/` between them unless `base` is
/// empty or already ends with one.
pub open spec fn join_path(base: Seq<char>, name: Seq<char>) -> Seq<char> {
    if base.len() == 0 {
        name
    } else if base.last() == '/' {
        base + name
    } else {
        base + seq!['/'] + name
    }
}

/// The folder of a month's entries, `<root>/YYYY-MM`.
pub open spec fn month_folder_path(root: Seq<char>, d: CalendarDate) -> Seq<char> {
    join_path(root, year_month_text(d))
}

/// The path of `name` inside the folder `base`.
pub fn join(base: &str, name: &str) -> (r: String)
    ensures
        r@ == join_path(base@, name@),
{
    let len = base.unicode_len();
    let mut path = base.to_owned();
    if len == 0 {
        return name.to_owned();
    }
    if base.get_char(len - 1) != '/' {
        proof {
            reveal_strlit("/");
        }
        path.append("/");
    }
    path.append(name);
    path
}

/// The folder that holds the entries of the month of `date`.
pub fn month_folder(path_root: &str, date: &EntryDate) -> (r: String)
    ensures
        r@ == month_folder_path(path_root@, date@),
{
    let month = date.year_month_text();
    join(path_root, month.as_str())
}

} // verus!
