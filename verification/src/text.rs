//! Small verified helpers on strings.

use vstd::prelude::*;

verus! {

use vstd::string::StringExecFns;

/// Whether two string slices hold the same characters.
pub fn str_eq(a: &str, b: &str) -> (equal: bool)
    ensures
        equal == (a@ == b@),
{
    let a_owned: String = String::from_str(a);
    let b_owned: String = String::from_str(b);
    a_owned == b_owned
}

/// Whether one of the names holds the same characters as the target.
pub fn contains_str(names: &Vec<String>, target: &str) -> (found: bool)
    ensures
        found == (exists|i: int| 0 <= i < names@.len() && (#[trigger] names@[i])@ == target@),
{
    let n = names.len();
    let mut i: usize = 0;
    while i < n
        invariant
            n == names@.len(),
            i <= n,
            forall|j: int| 0 <= j < i ==> (#[trigger] names@[j])@ != target@,
        decreases n - i,
    {
        if str_eq(names[i].as_str(), target) {
            return true;
        }
        i += 1;
    }
    false
}

} // verus!
