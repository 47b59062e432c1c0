//! The program-launch decision: whether a program string is already an
//! absolute path or must first be resolved on the search path, and the
//! exact shell command line used to start it. The filesystem lookup and
//! the spawn itself are the surrounding program's job.

use vstd::prelude::*;

verus! {

/// A path separator as Windows accepts it.
pub open spec fn is_path_sep(c: char) -> bool {
    c == '\\' || c == '/'
}

/// An ASCII letter, as allowed for a drive designator.
pub open spec fn is_ascii_letter(c: char) -> bool {
    (65 <= c as u32 && c as u32 <= 90) || (97 <= c as u32 && c as u32 <= 122)
}

/// Whether `s` is an absolute Windows path: either a UNC or verbatim
/// path starting with two separators, or a drive letter followed by a
/// colon and a separator.
pub open spec fn spec_is_absolute_path(s: Seq<char>) -> bool {
    ||| (s.len() >= 2 && is_path_sep(s[0]) && is_path_sep(s[1]))
    ||| (s.len() >= 3 && is_ascii_letter(s[0]) && s[1] == ':' && is_path_sep(s[2]))
}

/// How a program string is to be started.
#[derive(Debug, Clone)]
pub enum LaunchPlan {
    /// The string is an absolute path; start it directly.
    Direct { path: String },
    /// The string must first be resolved to an executable on the search
    /// path; start what the lookup finds.
    Lookup { name: String },
}

fn exec_is_sep(c: char) -> (r: bool)
    ensures
        r == is_path_sep(c),
{
    c == '\\' || c == '/'
}

/// Whether `p` is an absolute Windows path.
pub fn path_is_absolute(p: &str) -> (r: bool)
    ensures
        r == spec_is_absolute_path(p@),
{
    let n: usize = p.unicode_len();
    if n >= 2 && exec_is_sep(p.get_char(0)) && exec_is_sep(p.get_char(1)) {
        return true;
    }
    if n >= 3 {
        let c0 = p.get_char(0) as u32;
        let letter = (65 <= c0 && c0 <= 90) || (97 <= c0 && c0 <= 122);
        if letter && p.get_char(1) == ':' && exec_is_sep(p.get_char(2)) {
            return true;
        }
    }
    false
}

/// Decides how to start `program`: directly when it is already an
/// absolute path, after a search-path lookup otherwise.
pub fn open_program(program: &str) -> (plan: LaunchPlan)
    ensures
        spec_is_absolute_path(program@) ==> (plan matches LaunchPlan::Direct { path } && path@
            == program@),
        !spec_is_absolute_path(program@) ==> (plan matches LaunchPlan::Lookup { name } && name@
            == program@),
{
    if path_is_absolute(program) {
        LaunchPlan::Direct { path: program.to_owned() }
    } else {
        LaunchPlan::Lookup { name: program.to_owned() }
    }
}

/// The argument list handed to the command shell to start `path`
/// detached: `/C start "" <path>`.
pub fn launch_args(path: &str) -> (r: Vec<String>)
    ensures
        r@.len() == 4,
        r@[0]@ == "/C"@,
        r@[1]@ == "start"@,
        r@[2]@ == ""@,
        r@[3]@ == path@,
{
    let mut r: Vec<String> = Vec::new();
    r.push("/C".to_owned());
    r.push("start".to_owned());
    r.push("".to_owned());
    r.push(path.to_owned());
    r
}

} // verus!
