//! Names of dated log files: an optional directory, the UTC date and a base
//! name.

use crate::calendar::{Moment, UtcInstant};
use crate::stamp::{date_stamp, date_text};
use vstd::prelude::*;
use vstd::string::*;

verus! {

/// The character that closes a directory name.
pub const SEPARATOR: char = '/';

/// Whether `path` ends in the separator.
pub open spec fn ends_in_separator(path: Seq<char>) -> bool {
    path.len() > 0 && path.last() == SEPARATOR
}

/// What stands in front of the file's name: nothing where no directory is
/// given, else the directory, closed by exactly one separator of its own or
/// one that is added.
pub open spec fn directory_text(directory: Option<Seq<char>>) -> Seq<char> {
    match directory {
        None => Seq::empty(),
        Some(d) => if ends_in_separator(d) {
            d
        } else {
            d.push(SEPARATOR)
        },
    }
}

/// The characters of an optional string.
pub open spec fn optional_text(s: Option<&str>) -> Option<Seq<char>> {
    match s {
        None => None,
        Some(t) => Some(t@),
    }
}

/// Tells whether `path` ends in the separator.
pub fn has_trailing_separator(path: &str) -> (b: bool)
    ensures
        b == ends_in_separator(path@),
{
    let n: usize = path.unicode_len();
    n > 0 && path.get_char(n - 1) == SEPARATOR
}

/// The directory part of a log file's name.
pub fn directory_prefix(file_path: Option<&str>) -> (r: String)
    ensures
        r@ == directory_text(optional_text(file_path)),
{
    match file_path {
        None => String::new(),
        Some(path) => {
            let mut prefix = String::from_str(path);
            if !has_trailing_separator(path) {
                proof {
                    reveal_strlit("/");
                }
                prefix.append("/");
                assert(prefix@ =~= path@.push(SEPARATOR));
            }
            prefix
        },
    }
}

/// The name of a dated file: the directory part, the date, a hyphen and the
/// base name, with nothing between the directory part and the date.
pub open spec fn path_text(directory: Option<Seq<char>>, date: Seq<char>, name: Seq<char>) -> Seq<
    char,
> {
    directory_text(directory) + date + seq!['-'] + name
}

/// The name of the file that holds the log of `date`.
pub fn resolve_path(file_path: Option<&str>, date: &str, file_name: &str) -> (r: String)
    ensures
        r@ == path_text(optional_text(file_path), date@, file_name@),
{
    proof {
        reveal_strlit("-");
    }
    let mut path = directory_prefix(file_path);
    path.append(date);
    path.append("-");
    path.append(file_name);
    assert(path@ =~= path_text(optional_text(file_path), date@, file_name@));
    path
}

/// The name of the file that holds the log of the day of `t`.
pub fn dated_path(t: &UtcInstant, file_path: Option<&str>, file_name: &str) -> (r: String)
    ensures
        r@ == path_text(optional_text(file_path), date_text(t@), file_name@),
{
    let date = date_stamp(t);
    resolve_path(file_path, date.as_str(), file_name)
}

/// The name of the file that holds the log of the day that the clock shows:
/// the name for some moment that exists.
pub fn dyn_file_path(file_path: Option<&str>, file_name: &str) -> (r: String)
    ensures
        exists|m: Moment|
            m.valid() && r@ == path_text(
                optional_text(file_path),
                #[trigger] date_text(m),
                file_name@,
            ),
{
    let t = UtcInstant::now();
    dated_path(&t, file_path, file_name)
}

/// The directory part of a name ends in a separator; a directory that has
/// one gets no second one, so closing a directory twice changes nothing; and
/// a directory given without its closing separator names the same file as
/// with it.
pub proof fn lemma_one_separator(directory: Seq<char>, date: Seq<char>, name: Seq<char>)
    ensures
        ends_in_separator(directory_text(Some(directory))),
        ends_in_separator(directory) ==> directory_text(Some(directory)) == directory,
        directory_text(Some(directory_text(Some(directory)))) == directory_text(Some(directory)),
        !ends_in_separator(directory) ==> path_text(Some(directory), date, name) == path_text(
            Some(directory.push(SEPARATOR)),
            date,
            name,
        ),
{
}

/// The date stands in the name right behind the directory part, and the
/// base name closes the name, a hyphen in front of it.
pub proof fn lemma_path_parts(directory: Option<Seq<char>>, date: Seq<char>, name: Seq<char>)
    ensures
        path_text(directory, date, name).len() == directory_text(directory).len() + date.len() + 1
            + name.len(),
        path_text(directory, date, name).subrange(
            directory_text(directory).len() as int,
            (directory_text(directory).len() + date.len()) as int,
        ) == date,
        path_text(directory, date, name).subrange(
            (directory_text(directory).len() + date.len()) as int,
            path_text(directory, date, name).len() as int,
        ) == seq!['-'] + name,
{
    let path = path_text(directory, date, name);
    let from = directory_text(directory).len() as int;
    let to = from + date.len();
    assert(path.subrange(from, to) =~= date);
    assert(path.subrange(to, path.len() as int) =~= seq!['-'] + name);
}

} // verus!
