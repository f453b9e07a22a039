//! Where the file that records the running process's id goes.

use vstd::prelude::*;

verus! {

/// The name of the file that holds the process id.
pub const PID_FILE_NAME: &'static str = "haridokei.pid";

/// The directory used when no runtime directory is configured.
pub const FALLBACK_DIR: &'static str = "/tmp/";

/// The characters with the Unicode `White_Space` property, those that
/// `str::trim` removes.
pub open spec fn is_white_space(c: char) -> bool {
    let v = c as u32;
    ||| 0x09 <= v <= 0x0d
    ||| v == 0x20
    ||| v == 0x85
    ||| v == 0xa0
    ||| v == 0x1680
    ||| 0x2000 <= v <= 0x200a
    ||| v == 0x2028
    ||| v == 0x2029
    ||| v == 0x202f
    ||| v == 0x205f
    ||| v == 0x3000
}

/// A text that is empty once trimmed: nothing but white space.
pub open spec fn is_blank(s: Seq<char>) -> bool {
    forall|i: int| 0 <= i < s.len() ==> is_white_space(#[trigger] s[i])
}

/// `name` placed in directory `dir`, with a `/` between them unless `dir`
/// already ends in one.
pub open spec fn join_path(dir: Seq<char>, name: Seq<char>) -> Seq<char> {
    if dir.len() > 0 && dir.last() == '/' {
        dir + name
    } else {
        dir + seq!['/'] + name
    }
}

/// The path of the process-id file: in the runtime directory when one is
/// configured and not blank, in `/tmp` otherwise.
pub open spec fn pid_file_path_spec(runtime_dir: Option<Seq<char>>) -> Seq<char> {
    match runtime_dir {
        Some(dir) if !is_blank(dir) => join_path(dir, PID_FILE_NAME@),
        _ => FALLBACK_DIR@ + PID_FILE_NAME@,
    }
}

/// The process-id file is `haridokei.pid` directly inside a configured
/// runtime directory `dir` that is not blank: `dir`, then a `/` unless `dir`
/// already ends in one, then the name; whatever the directory's length.
/// Without a runtime directory, or with a blank one, it is
/// `/tmp/haridokei.pid`.
pub proof fn lemma_pid_file_location(dir: Seq<char>)
    ensures
        !is_blank(dir) && dir.last() != '/' ==> pid_file_path_spec(Some(dir)) == dir + seq!['/']
            + "haridokei.pid"@,
        !is_blank(dir) && dir.last() == '/' ==> pid_file_path_spec(Some(dir)) == dir
            + "haridokei.pid"@,
        is_blank(dir) ==> pid_file_path_spec(Some(dir)) == "/tmp/haridokei.pid"@,
        pid_file_path_spec(None) == "/tmp/haridokei.pid"@,
{
    reveal_strlit("haridokei.pid");
    reveal_strlit("/tmp/");
    reveal_strlit("/tmp/haridokei.pid");
    assert(PID_FILE_NAME@ == "haridokei.pid"@);
    assert(FALLBACK_DIR@ + PID_FILE_NAME@ =~= "/tmp/haridokei.pid"@);
    if !is_blank(dir) {
        assert(dir.len() > 0);
    }
}

/// Whether `c` has the Unicode `White_Space` property.
pub fn is_white_space_char(c: char) -> (white: bool)
    ensures
        white == is_white_space(c),
{
    let v: u32 = c as u32;
    (0x09 <= v && v <= 0x0d) || v == 0x20 || v == 0x85 || v == 0xa0 || v == 0x1680 || (0x2000
        <= v && v <= 0x200a) || v == 0x2028 || v == 0x2029 || v == 0x202f || v == 0x205f || v
        == 0x3000
}

/// Whether `s` is empty once trimmed.
pub fn is_blank_str(s: &str) -> (blank: bool)
    ensures
        blank == is_blank(s@),
{
    let n: usize = s.unicode_len();
    let mut i: usize = 0;
    while i < n
        invariant
            n == s@.len(),
            i <= n,
            forall|j: int| 0 <= j < i ==> is_white_space(#[trigger] s@[j]),
        decreases n - i,
    {
        if !is_white_space_char(s.get_char(i)) {
            return false;
        }
        i = i + 1;
    }
    true
}

/// The path of the process-id file, given the value of the runtime
/// directory setting (`XDG_RUNTIME_DIR`) when it is set and readable.
pub fn pid_file_path(runtime_dir: Option<&str>) -> (path: String)
    ensures
        path@ == pid_file_path_spec(
            match runtime_dir {
                Some(dir) => Some(dir@),
                None => None,
            },
        ),
{
    match runtime_dir {
        Some(dir) => {
            if !is_blank_str(dir) {
                let mut path = String::from_str(dir);
                let n: usize = dir.unicode_len();
                if dir.get_char(n - 1) != '/' {
                    let separator = "/";
                    proof {
                        reveal_strlit("/");
                    }
                    path.append(separator);
                }
                path.append(PID_FILE_NAME);
                return path;
            }
        },
        None => {},
    }
    let mut path = String::from_str(FALLBACK_DIR);
    path.append(PID_FILE_NAME);
    path
}

} // verus!
