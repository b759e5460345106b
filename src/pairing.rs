//! Pairing each input with an output by position, reusing the last output
//! once the outputs run out.
use vstd::prelude::*;
use crate::naming::opt_view;

verus! {

/// The views of a sequence of strings.
pub open spec fn views(s: Seq<String>) -> Seq<Seq<char>> {
    s.map_values(|x: String| x@)
}

/// The output that the input at index `i` is paired with.
pub open spec fn partner(outputs: Seq<Seq<char>>, i: int) -> Option<Seq<char>> {
    if outputs.len() == 0 {
        None
    } else if i < outputs.len() {
        Some(outputs[i])
    } else {
        Some(outputs.last())
    }
}

/// Pairs `inputs[i]` with `outputs[i]`, with the last output once `outputs`
/// is exhausted, and with nothing when `outputs` is empty.
pub fn pair(inputs: &Vec<String>, outputs: &Vec<String>) -> (r: Vec<(String, Option<String>)>)
    ensures
        r.len() == inputs.len(),
        forall|i: int|
            0 <= i < r.len() ==> {
                &&& (#[trigger] r[i]).0@ == inputs[i]@
                &&& opt_view(r[i].1) == partner(views(outputs@), i)
            },
{
    let mut r: Vec<(String, Option<String>)> = Vec::new();
    let n = outputs.len();
    let mut i: usize = 0;
    while i < inputs.len()
        invariant
            i <= inputs.len(),
            n == outputs.len(),
            r.len() == i,
            forall|j: int|
                0 <= j < i ==> {
                    &&& (#[trigger] r[j]).0@ == inputs[j]@
                    &&& opt_view(r[j].1) == partner(views(outputs@), j)
                },
        decreases inputs.len() - i,
    {
        let partner = if n == 0 {
            None
        } else if i < n {
            Some(outputs[i].clone())
        } else {
            Some(outputs[n - 1].clone())
        };
        r.push((inputs[i].clone(), partner));
        i = i + 1;
    }
    r
}

/// Pairing is total: every input gets a decision, which is nothing exactly
/// when there are no outputs, and otherwise one of the outputs.
pub proof fn lemma_pairing_total(outputs: Seq<Seq<char>>, i: int)
    requires
        0 <= i,
    ensures
        partner(outputs, i) is None <==> outputs.len() == 0,
        partner(outputs, i) is Some ==> outputs.contains(partner(outputs, i)->0),
{
    if outputs.len() > 0 {
        if i < outputs.len() {
            assert(outputs[i] == partner(outputs, i)->0);
        } else {
            assert(outputs[outputs.len() - 1] == partner(outputs, i)->0);
        }
    }
}

} // verus!
