//! What a capture program settles before the first frame: which interface to
//! listen on, and the banner that names it.

use vstd::prelude::*;
use vstd::string::*;

verus! {

/// The line written once the interface is found: `Interface name: <name> `,
/// with a space behind the name.
pub open spec fn banner(interface_name: Seq<char>) -> Seq<char> {
    "Interface name: "@ + interface_name + " "@
}

/// Whether no name among the first `upto` is `wanted`.
pub open spec fn absent_before(names: Seq<String>, wanted: Seq<char>, upto: int) -> bool {
    forall|j: int| 0 <= j < upto ==> (#[trigger] names[j])@ != wanted
}

/// Renders the banner for the interface that was found.
pub fn startup_banner(interface_name: &str) -> (text: String)
    ensures
        text@ == banner(interface_name@),
{
    let mut text: String = String::from_str("Interface name: ");
    text.append(interface_name);
    text.append(" ");
    text
}

/// Finds the interface to listen on: the first in `names` whose name is
/// exactly `wanted`. Returns its index, or nothing where no name matches.
pub fn find_interface(names: &Vec<String>, wanted: &str) -> (found: Option<usize>)
    ensures
        found matches Some(i) ==> i < names@.len() && names@[i as int]@ == wanted@
            && absent_before(names@, wanted@, i as int),
        found is None ==> absent_before(names@, wanted@, names@.len() as int),
{
    let wanted_name: String = String::from_str(wanted);
    let mut i: usize = 0;
    while i < names.len()
        invariant
            i <= names@.len(),
            wanted_name@ == wanted@,
            absent_before(names@, wanted@, i as int),
        decreases names@.len() - i,
    {
        if names[i] == wanted_name {
            return Some(i);
        }
        i += 1;
    }
    None
}

} // verus!
