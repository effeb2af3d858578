//! Transaction inputs, each counted once.

use vstd::prelude::*;
use crate::bytes::{bytes_equal, copy_bytes};

verus! {

/// A reference to an output of an earlier transaction.
#[derive(Debug)]
pub struct TransactionInput {
    /// Id of the transaction that made the output.
    pub id: Vec<u8>,
    /// Position of the output in that transaction.
    pub index: u64,
}

impl View for TransactionInput {
    type V = (Seq<u8>, u64);

    open spec fn view(&self) -> (Seq<u8>, u64) {
        (self.id@, self.index)
    }
}

/// The references that a list of inputs makes, in order.
pub open spec fn refs(inputs: Seq<TransactionInput>) -> Seq<(Seq<u8>, u64)> {
    inputs.map_values(|i: TransactionInput| i@)
}

/// A list with every repetition removed: each element stays where it
/// first stood.
pub open spec fn unique(s: Seq<(Seq<u8>, u64)>) -> Seq<(Seq<u8>, u64)>
    decreases s.len(),
{
    if s.len() == 0 {
        Seq::empty()
    } else {
        let front = unique(s.drop_last());
        if front.contains(s.last()) {
            front
        } else {
            front.push(s.last())
        }
    }
}

/// Removing repetitions leaves no element twice, loses none and adds none.
pub proof fn lemma_unique(s: Seq<(Seq<u8>, u64)>)
    ensures
        unique(s).no_duplicates(),
        forall|x: (Seq<u8>, u64)| #[trigger] unique(s).contains(x) <==> s.contains(x),
        unique(s).len() <= s.len(),
    decreases s.len(),
{
    if s.len() > 0 {
        let rest = s.drop_last();
        let front = unique(rest);
        lemma_unique(rest);
        assert forall|x: (Seq<u8>, u64)| #[trigger] unique(s).contains(x) <==> s.contains(x) by {
            if s.contains(x) {
                let i = choose|i: int| 0 <= i < s.len() && s[i] == x;
                if i < s.len() - 1 {
                    assert(rest[i] == x);
                    assert(rest.contains(x));
                    assert(front.contains(x));
                }
                if !front.contains(s.last()) {
                    assert(front.push(s.last())[front.len() as int] == s.last());
                    if front.contains(x) {
                        let j = choose|j: int| 0 <= j < front.len() && front[j] == x;
                        assert(front.push(s.last())[j] == x);
                    }
                }
            }
            if unique(s).contains(x) {
                let j = choose|j: int| 0 <= j < unique(s).len() && unique(s)[j] == x;
                if front.contains(s.last()) || j < front.len() {
                    assert(front[j] == x);
                    assert(front.contains(x));
                    assert(rest.contains(x));
                    let i = choose|i: int| 0 <= i < rest.len() && rest[i] == x;
                    assert(s[i] == x);
                } else {
                    assert(x == s.last());
                    assert(s[s.len() - 1] == x);
                }
            }
        }
    }
}

impl TransactionInput {
    /// Tells whether two inputs refer to the same output.
    pub fn same(&self, other: &TransactionInput) -> (same: bool)
        ensures
            same == (self@ == other@),
    {
        self.index == other.index && bytes_equal(&self.id, &other.id)
    }

    /// An independent copy of this input.
    pub fn duplicate(&self) -> (copy: TransactionInput)
        ensures
            copy@ == self@,
    {
        TransactionInput { id: copy_bytes(&self.id), index: self.index }
    }
}

/// Tells whether a list of inputs holds a reference.
pub fn holds(inputs: &Vec<TransactionInput>, wanted: &TransactionInput) -> (found: bool)
    ensures
        found == refs(inputs@).contains(wanted@),
{
    let mut i: usize = 0;
    while i < inputs.len()
        invariant
            i <= inputs.len(),
            forall|j: int| 0 <= j < i ==> refs(inputs@)[j] != wanted@,
        decreases inputs.len() - i,
    {
        if inputs[i].same(wanted) {
            proof {
                assert(refs(inputs@)[i as int] == wanted@);
            }
            return true;
        }
        i += 1;
    }
    false
}

/// Removes repeated references from a list of inputs. Each input stays
/// where it first stood.
pub fn dedup_inputs(inputs: &Vec<TransactionInput>) -> (kept: Vec<TransactionInput>)
    ensures
        refs(kept@) == unique(refs(inputs@)),
        refs(kept@).no_duplicates(),
        forall|x: (Seq<u8>, u64)| #[trigger] refs(kept@).contains(x) <==> refs(inputs@).contains(x),
{
    let mut kept: Vec<TransactionInput> = Vec::new();
    let mut i: usize = 0;
    proof {
        assert(refs(kept@) =~= unique(refs(inputs@).take(0)));
    }
    while i < inputs.len()
        invariant
            i <= inputs.len(),
            refs(kept@) == unique(refs(inputs@).take(i as int)),
        decreases inputs.len() - i,
    {
        let ghost before = kept@;
        let ghost next = refs(inputs@).take(i + 1);
        proof {
            assert(next.drop_last() =~= refs(inputs@).take(i as int));
            assert(next.last() == inputs@[i as int]@);
        }
        if !holds(&kept, &inputs[i]) {
            let copy = inputs[i].duplicate();
            kept.push(copy);
            proof {
                assert(refs(kept@) =~= refs(before).push(copy@));
            }
        }
        i += 1;
    }
    proof {
        assert(refs(inputs@).take(inputs.len() as int) =~= refs(inputs@));
        lemma_unique(refs(inputs@));
    }
    kept
}

} // verus!
