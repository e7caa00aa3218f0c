//! Command-line options of the form `--name value`.

use vstd::prelude::*;
use vstd::string::StringExecFns;

verus! {

/// `i` is the first position of `args` that holds exactly `name`.
pub open spec fn is_first_match(args: Seq<String>, name: Seq<char>, i: int) -> bool {
    &&& 0 <= i < args.len()
    &&& args[i]@ == name
    &&& forall|j: int| 0 <= j < i ==> (#[trigger] args[j])@ != name
}

/// The value of option `name`: the argument that follows its first occurrence.
///
/// Only the first occurrence counts. When it is the last argument there is no
/// value, even if `name` occurs again later.
pub fn find_argument<'a>(args: &'a Vec<String>, name: &'a str) -> (value: Option<&'a str>)
    ensures
        match value {
            Some(v) => exists|i: int|
                is_first_match(args@, name@, i) && i + 1 < args.len() && v@ == (#[trigger] args[i + 1])@,
            None => forall|i: int| is_first_match(args@, name@, i) ==> i + 1 >= args.len(),
        },
{
    let mut i: usize = 0;
    while i < args.len()
        invariant
            i <= args.len(),
            forall|j: int| 0 <= j < i ==> (#[trigger] args@[j])@ != name@,
        decreases args.len() - i,
    {
        if *args[i].as_str() == *name {
            if i + 1 < args.len() {
                assert(is_first_match(args@, name@, i as int));
                return Some(args[i + 1].as_str());
            } else {
                return None;
            }
        }
        i += 1;
    }
    None
}

/// Whether `name` stands among the arguments.
pub fn has_argument(args: &Vec<String>, name: &str) -> (found: bool)
    ensures
        found <==> exists|i: int| 0 <= i < args.len() && (#[trigger] args[i])@ == name@,
{
    let mut i: usize = 0;
    while i < args.len()
        invariant
            i <= args.len(),
            forall|j: int| 0 <= j < i ==> (#[trigger] args@[j])@ != name@,
        decreases args.len() - i,
    {
        if *args[i].as_str() == *name {
            return true;
        }
        i += 1;
    }
    false
}

/// What the usage message says before the program's name.
pub const USAGE_HEAD: &'static str = "Usage: ";

/// What the usage message says after the program's name.
pub const USAGE_TAIL: &'static str = " [OPTIONS]

Options:
    --help            Print this help message
    --db-file <path>  Specify the database file path (optional, runs in memory by default)
";

/// The usage message for the program called `program`.
pub fn usage(program: &str) -> (text: String)
    ensures
        text@ == USAGE_HEAD@ + program@ + USAGE_TAIL@,
{
    let mut text = USAGE_HEAD.to_owned();
    text.append(program);
    text.append(USAGE_TAIL);
    text
}

} // verus!
