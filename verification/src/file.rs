//! Names and paths of the files that a capture writes.

use vstd::prelude::*;
use vstd::string::*;

verus! {

/// The pattern of a time stamp: date, then time of day down to the millisecond.
pub open spec fn stamp_pattern() -> Seq<char> {
    "%Y-%m-%d_%H-%M-%S.%3f"@
}

/// A file name: the time stamp, a dot, the extension.
pub open spec fn name_of(stamp: Seq<char>, extension: Seq<char>) -> Seq<char> {
    stamp + "."@ + extension
}

/// A path: the directory, a slash, the file name.
pub open spec fn path_of(dir: Seq<char>, name: Seq<char>) -> Seq<char> {
    dir + "/"@ + name
}

/// Calls chrono's `Local::now` and renders the moment with `DateTime::format`.
/// Only the stamp pattern is admitted, which chrono accepts; nothing is
/// claimed of the text, since it depends on the clock and the time zone.
#[verifier::external_body]
fn local_time_text(pattern: &str) -> (text: String)
    requires
        pattern@ == stamp_pattern(),
{
    chrono::Local::now().format(pattern).to_string()
}

/// Names a file after a given time stamp.
pub fn stamped_name(stamp: &str, extension: &str) -> (name: String)
    ensures
        name@ == name_of(stamp@, extension@),
{
    String::from_str(stamp).concat(".").concat(extension)
}

/// Names a file after the present local time.
pub fn get_name(extension: &str) -> (name: String)
    ensures
        exists|stamp: Seq<char>| name@ == #[trigger] name_of(stamp, extension@),
{
    let stamp: String = local_time_text("%Y-%m-%d_%H-%M-%S.%3f");
    let name: String = stamped_name(stamp.as_str(), extension);
    assert(name@ == name_of(stamp@, extension@));
    name
}

/// Places a file name in a directory.
pub fn path_in(dir: &str, name: &str) -> (path: String)
    ensures
        path@ == path_of(dir@, name@),
{
    String::from_str(dir).concat("/").concat(name)
}

} // verus!
