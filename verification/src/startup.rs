//! What the bar decides before it is drawn.

use vstd::prelude::*;
use crate::text::{contains, occurs};

verus! {

/// Where the window manager's memory is shared: the argument, else the environment's
/// word, else that of the first monitor.
pub open spec fn path_of(argument: Option<Seq<char>>, environment: Option<Seq<char>>) -> Seq<char> {
    match argument {
        Some(path) => path,
        None => match environment {
            Some(path) => path,
            None => "/dev/shm/monitor_0"@,
        },
    }
}

/// The text of an optional string.
pub open spec fn text_of(s: Option<String>) -> Option<Seq<char>> {
    match s {
        Some(s) => Some(s@),
        None => None,
    }
}

/// Where the window manager's memory is shared.
pub fn shared_path(argument: Option<String>, environment: Option<String>) -> (path: String)
    ensures
        path@ == path_of(text_of(argument), text_of(environment)),
{
    match argument {
        Some(path) => path,
        None => match environment {
            Some(path) => path,
            None => "/dev/shm/monitor_0".to_owned(),
        },
    }
}

/// Whether a line names the primary screen or marks a mode as current.
pub open spec fn speaks_of_screen(line: Seq<char>) -> bool {
    occurs(line, "primary"@) || occurs(line, "*"@)
}

/// Whether a line of the display server's report speaks of a screen in use: of the
/// primary one, or of a mode marked as current.
pub fn is_screen_line(line: &str) -> (r: bool)
    ensures
        r == (occurs(line@, "primary"@) || occurs(line@, "*"@)),
        r == speaks_of_screen(line@),
{
    contains(line, "primary") || contains(line, "*")
}

} // verus!
