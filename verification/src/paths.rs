//! File paths: an image that came from a file remembers where, and takes its
//! display name from the last segment of the path.

use std::path::PathBuf;
use vstd::prelude::*;
use vstd::string::StrSliceExecFns;

verus! {

/// `std::path::PathBuf`: a path as the platform spells it. An image keeps
/// the path it was read from; the library looks at nothing inside.
#[verifier::external_type_specification]
#[verifier::external_body]
pub struct ExPathBuf(PathBuf);

/// What `Path::file_name` returns for a path: its final component, as a path
/// of its own, or `None` where the path has none.
pub uninterp spec fn final_part(path: PathBuf) -> Option<PathBuf>;

/// What `Path::to_str` returns for a path: its text where it is valid Unicode,
/// `None` where it is not.
pub uninterp spec fn text_of(path: PathBuf) -> Option<Seq<char>>;

/// The display name that a path gives an image: the text of its final
/// component. There is none where the path has no final component, and none
/// where that component is not valid text.
pub open spec fn name_of(path: PathBuf) -> Option<Seq<char>> {
    match final_part(path) {
        Some(component) => text_of(component),
        None => None,
    }
}

/// `name`, taken by its view.
pub open spec fn name_view(name: Option<String>) -> Option<Seq<char>> {
    match name {
        Some(n) => Some(n@),
        None => None,
    }
}

/// Calls `Path::file_name` and copies the component it returns into a path
/// of its own. Not proved: that the outcome is a function of the path alone,
/// which is what naming it [`final_part`] claims, and nothing more. The
/// method parses the path it is given and looks at nothing else: no file
/// system, no working directory. Which component is the final one is the
/// platform's convention, so nothing is said of what the name is on any
/// given path.
#[verifier::external_body]
fn final_component(path: &PathBuf) -> (component: Option<PathBuf>)
    ensures
        component == final_part(*path),
{
    path.file_name().map(PathBuf::from)
}

/// Calls `Path::to_str`, which yields the path as text where it is valid
/// Unicode and `None` where it is not, and copies the text. Not proved: that
/// the outcome is a function of the path alone, which is what naming it
/// [`text_of`] claims, and nothing more.
#[verifier::external_body]
fn as_text(path: &PathBuf) -> (text: Option<String>)
    ensures
        name_view(text) == text_of(*path),
{
    path.to_str().map(String::from)
}

/// The display name that a path gives an image: its final segment, where it
/// has one and that segment is valid text.
pub fn display_name(path: &PathBuf) -> (name: Option<String>)
    ensures
        name_view(name) == name_of(*path),
{
    match final_component(path) {
        Some(component) => as_text(&component),
        None => None,
    }
}

/// The name ends in ".png", in lower case.
pub open spec fn ends_in_png(name: Seq<char>) -> bool {
    name.len() >= 4 && name.subrange(name.len() - 4, name.len() as int) == seq!['.', 'p', 'n', 'g']
}

/// Whether a file of this name is taken for an image when it is dropped on
/// the window: only names that end in ".png" are.
pub fn has_png_suffix(name: &str) -> (b: bool)
    ensures
        b == ends_in_png(name@),
{
    let n = name.unicode_len();
    if n < 4 {
        return false;
    }
    let ghost tail = name@.subrange(n - 4, n as int);
    let found = name.get_char(n - 4) == '.' && name.get_char(n - 3) == 'p' && name.get_char(n - 2)
        == 'n' && name.get_char(n - 1) == 'g';
    proof {
        let suffix = seq!['.', 'p', 'n', 'g'];
        assert(tail[0] == name@[n - 4] && tail[1] == name@[n - 3] && tail[2] == name@[n - 2]
            && tail[3] == name@[n - 1]);
        if found {
            assert(tail =~= suffix);
        } else {
            assert(suffix[0] == '.' && suffix[1] == 'p' && suffix[2] == 'n' && suffix[3] == 'g');
        }
    }
    found
}

} // verus!
