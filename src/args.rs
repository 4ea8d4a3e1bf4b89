//! Command-line arguments of the form `-name=value`.

use vstd::prelude::*;
use vstd::string::*;

use crate::path::{find, find_char, lemma_find};

verus! {

/// A named command-line value.
#[derive(Clone, Debug)]
pub struct Arg {
    pub name: String,
    pub value: String,
}

/// An argument starts with `-` and holds an `=`.
pub open spec fn arg_valid(s: Seq<char>) -> bool {
    s.len() > 0 && s[0] == '-' && find(s, '=') < s.len()
}

/// The name (between `-` and the first `=`) and the value (after it).
pub open spec fn arg_parts(s: Seq<char>) -> (Seq<char>, Seq<char>) {
    (s.subrange(1, find(s, '=') as int), s.skip(find(s, '=') as int + 1))
}

/// Reads the arguments that follow the program name. None when one of them
/// does not start with `-` or holds no `=`.
pub fn args_impl(input: &Vec<String>) -> (r: Option<Vec<Arg>>)
    ensures
        (forall|i: int| 1 <= i < input@.len() ==> arg_valid(#[trigger] input@[i]@)) ==> (r matches Some(v)
            && v@.len() == if input@.len() == 0 { 0 } else { input@.len() - 1 } && forall|k: int|
            0 <= k < v@.len() ==> (#[trigger] v@[k]).name@ == arg_parts(input@[k + 1]@).0
            && v@[k].value@ == arg_parts(input@[k + 1]@).1),
        !(forall|i: int| 1 <= i < input@.len() ==> arg_valid(#[trigger] input@[i]@)) ==> r is None,
{
    let mut out: Vec<Arg> = Vec::new();
    if input.len() == 0 {
        return Some(out);
    }
    let mut i: usize = 1;
    while i < input.len()
        invariant
            1 <= i <= input@.len(),
            out@.len() == i - 1,
            forall|j: int| 1 <= j < i ==> arg_valid(#[trigger] input@[j]@),
            forall|k: int|
                0 <= k < out@.len() ==> (#[trigger] out@[k]).name@ == arg_parts(input@[k + 1]@).0
                    && out@[k].value@ == arg_parts(input@[k + 1]@).1,
        decreases input@.len() - i,
    {
        let s = input[i].as_str();
        let n = s.unicode_len();
        let pos = find_char(s, '=');
        proof {
            lemma_find(s@, '=');
        }
        if n == 0 || s.get_char(0) != '-' || pos == n {
            return None;
        }
        let name = s.substring_char(1, pos).to_owned();
        let value = s.substring_char(pos + 1, n).to_owned();
        out.push(Arg { name, value });
        i = i + 1;
    }
    Some(out)
}

} // verus!
