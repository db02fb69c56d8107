use vstd::prelude::*;

use crate::operand::{Operand, OperandModel};

verus! {

/// The working memory of a run: a last-in, first-out store of operands.
///
/// Its view is the sequence of operand models, oldest first; push and pop
/// work at the tail end.
#[derive(Debug)]
pub struct Stack {
    data: Vec<Operand>,
}

impl View for Stack {
    type V = Seq<OperandModel>;

    closed spec fn view(&self) -> Seq<OperandModel> {
        self.data@.map_values(|o: Operand| o@)
    }
}

impl Stack {
    /// An empty stack.
    pub fn new() -> (r: Self)
        ensures
            r@ == Seq::<OperandModel>::empty(),
    {
        let r = Stack { data: Vec::new() };
        proof {
            assert(r@ =~= Seq::<OperandModel>::empty());
        }
        r
    }

    /// Pushes an operand on top of the stack.
    pub fn push(&mut self, operand: Operand)
        ensures
            final(self)@ == old(self)@.push(operand@),
    {
        self.data.push(operand);
        proof {
            assert(self@ =~= old(self)@.push(self.data@.last()@));
        }
    }

    /// Pops the top operand, or nothing when the stack is empty.
    pub fn pop(&mut self) -> (r: Option<Operand>)
        ensures
            old(self)@.len() > 0 ==> (r matches Some(o) && o@ == old(self)@.last() && final(self)@
                == old(self)@.drop_last()),
            old(self)@.len() == 0 ==> r is None && final(self)@ == old(self)@,
    {
        let r = self.data.pop();
        proof {
            if old(self)@.len() > 0 {
                assert(self@ =~= old(self)@.drop_last());
            } else {
                assert(self@ =~= old(self)@);
            }
        }
        r
    }

    /// The top operand, without removing it.
    pub fn get_last(&self) -> (r: Option<&Operand>)
        ensures
            self@.len() > 0 ==> (r matches Some(o) && o@ == self@.last()),
            self@.len() == 0 ==> r is None,
    {
        self.data.last()
    }

    /// The operands, oldest first.
    pub fn iter(&self) -> (r: &Vec<Operand>)
        ensures
            r@.map_values(|o: Operand| o@) == self@,
    {
        &self.data
    }
}

impl Default for Stack {
    /// An empty stack.
    fn default() -> (r: Self)
        ensures
            r@ == Seq::<OperandModel>::empty(),
    {
        Stack::new()
    }
}

} // verus!
