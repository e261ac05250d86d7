use crate::bot::reader::ReaderError;
use crate::utils::text::lowercase;
use crate::utils::text::to_lowercase;
use crate::utils::text::trim_end;
use crate::utils::text::trim_end_matches;
use vstd::prelude::*;

verus! {

/// One running process, as a process listing shows it: its id, and the name
/// of its executable, which the listing may pad with NUL characters.
#[derive(Debug, Clone)]
pub struct ProcessEntry {
    pub pid: u32,
    pub exe_file: String,
}

/// The form in which names of executables are compared: padding removed,
/// lower case.
pub open spec fn comparable_name(exe_file: Seq<char>) -> Seq<char> {
    lowercase(trim_end(exe_file, '\0'))
}

/// Whether the entry is a process whose executable is called `name`, case
/// ignored.
pub open spec fn entry_matches(entry: ProcessEntry, name: Seq<char>) -> bool {
    comparable_name(entry.exe_file@) == lowercase(name)
}

/// The position of the first of `names` that equals `wanted`, character for
/// character.
pub fn first_equal(names: &Vec<String>, wanted: &String) -> (r: Option<usize>)
    ensures
        r matches Some(i) ==> i < names@.len() && names@[i as int]@ == wanted@ && forall|k: int|
            0 <= k < i ==> (#[trigger] names@[k])@ != wanted@,
        r is None ==> forall|k: int| 0 <= k < names@.len() ==> (#[trigger] names@[k])@ != wanted@,
{
    let mut i: usize = 0;
    while i < names.len()
        invariant
            i <= names.len(),
            forall|k: int| 0 <= k < i ==> (#[trigger] names@[k])@ != wanted@,
        decreases names.len() - i,
    {
        if names[i] == *wanted {
            return Some(i);
        }
        i += 1;
    }
    None
}

/// The names of the entries in the form in which they are compared.
fn comparable_names(entries: &Vec<ProcessEntry>) -> (r: Vec<String>)
    ensures
        r@.len() == entries@.len(),
        forall|i: int|
            0 <= i < entries@.len() ==> (#[trigger] r@[i])@ == comparable_name(
                entries@[i].exe_file@,
            ),
{
    let mut out: Vec<String> = Vec::new();
    let mut i: usize = 0;
    while i < entries.len()
        invariant
            i <= entries.len(),
            out@.len() == i,
            forall|k: int|
                0 <= k < i ==> (#[trigger] out@[k])@ == comparable_name(entries@[k].exe_file@),
        decreases entries.len() - i,
    {
        let trimmed = trim_end_matches(entries[i].exe_file.as_str(), '\0');
        out.push(to_lowercase(trimmed));
        i += 1;
    }
    out
}

/// The id of the first listed process whose executable is called `name`,
/// case ignored; `ProcessNotFound` where the listing holds none.
pub fn find_process_by_name(entries: &Vec<ProcessEntry>, name: &str) -> (r: Result<
    u32,
    ReaderError,
>)
    ensures
        r matches Ok(pid) ==> exists|i: int|
            0 <= i < entries@.len() && entry_matches(#[trigger] entries@[i], name@)
                && entries@[i].pid == pid && forall|k: int|
                0 <= k < i ==> !entry_matches(#[trigger] entries@[k], name@),
        r is Err ==> r == Err::<u32, ReaderError>(ReaderError::ProcessNotFound),
        r is Err <==> forall|i: int|
            0 <= i < entries@.len() ==> !entry_matches(#[trigger] entries@[i], name@),
{
    let names = comparable_names(entries);
    let wanted = to_lowercase(name);
    match first_equal(&names, &wanted) {
        Some(i) => {
            assert(entry_matches(entries@[i as int], name@));
            assert forall|k: int| 0 <= k < i implies !entry_matches(
                #[trigger] entries@[k],
                name@,
            ) by {
                assert(names@[k]@ != wanted@);
            }
            Ok(entries[i].pid)
        },
        None => {
            assert forall|k: int| 0 <= k < entries@.len() implies !entry_matches(
                #[trigger] entries@[k],
                name@,
            ) by {
                assert(names@[k]@ != wanted@);
            }
            Err(ReaderError::ProcessNotFound)
        },
    }
}

} // verus!
