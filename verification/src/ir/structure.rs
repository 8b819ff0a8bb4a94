//! Named aggregate layouts: a structure and its fields.

use crate::ir::IRVisitorImpl;
use crate::ir::base::IRNode;
use crate::ir::sequence::{chain, chain_prefix, lemma_chain_len, total_len};
use crate::ir::text::{join, join_strings, views};
use crate::ir::types::IRType;
use crate::ir::visit::{lemma_walk_concat, lemma_walk_none, lemma_walk_one, lemma_walk_step, walk};
use vstd::prelude::*;
use vstd::string::*;

verus! {

/// A named slot of a structure or of a function's frame.
#[derive(Debug, Clone, PartialEq, Eq)]
pub struct IRField {
    pub name: String,
    pub _type: Box<IRType>,
}

impl IRField {
    pub fn new(name: String, _type: Box<IRType>) -> (f: Self)
        ensures
            f == (IRField { name, _type }),
    {
        Self { name, _type }
    }

    pub open spec fn render(&self) -> Seq<char> {
        "IRField{name="@ + self.name@ + ", type="@ + self._type.render() + "}"@
    }

    pub fn to_string(&self) -> (s: String)
        ensures
            s@ == self.render(),
    {
        let mut s = String::from_str("IRField{name=");
        s.append(self.name.as_str());
        s.append(", type=");
        s.append(self._type.to_string().as_str());
        s.append("}");
        s
    }

    /// The node itself, then its type.
    pub open spec fn trace<'a>(&'a self) -> Seq<IRNode<'a>> {
        seq![IRNode::Field(self)] + self._type.trace()
    }

    /// Lets the visitor enter this node, then its type.
    pub fn accept<V: IRVisitorImpl>(&self, visitor: &mut V)
        ensures
            final(visitor).state() == walk::<V>(old(visitor).state(), self.trace()),
    {
        broadcast use {lemma_walk_one, lemma_walk_none, lemma_walk_concat};

        visitor.enter(IRNode::Field(self));
        self._type.accept(visitor);
    }

    /// A field is one node more than its type.
    pub proof fn lemma_trace_len(&self)
        ensures
            self.trace().len() == 1 + self._type.trace().len(),
    {
    }
}

/// A named aggregate. The order of the fields is the order of the layout in
/// memory.
#[derive(Debug, Clone, PartialEq, Eq)]
pub struct IRStructure {
    pub name: String,
    pub fields: Vec<IRField>,
}

impl IRStructure {
    pub fn new(name: String, fields: Vec<IRField>) -> (s: Self)
        ensures
            s == (IRStructure { name, fields }),
    {
        Self { name, fields }
    }

    /// The text of each field, in layout order.
    pub open spec fn field_texts(&self) -> Seq<Seq<char>> {
        Seq::new(self.fields@.len(), |i: int| self.fields@[i].render())
    }

    pub open spec fn render(&self) -> Seq<char> {
        "IRStructure{name="@ + self.name@ + ", fields={"@ + join(self.field_texts(), ", "@)
            + "}}"@
    }

    pub fn to_string(&self) -> (s: String)
        ensures
            s@ == self.render(),
    {
        let mut parts: Vec<String> = Vec::new();
        let mut i: usize = 0;
        while i < self.fields.len()
            invariant
                i <= self.fields.len(),
                parts@.len() == i,
                forall|j: int| 0 <= j < i ==> (#[trigger] parts@[j])@ == self.fields@[j].render(),
            decreases self.fields.len() - i,
        {
            parts.push(self.fields[i].to_string());
            i = i + 1;
        }
        assert(views(parts@) =~= self.field_texts());
        let mut s = String::from_str("IRStructure{name=");
        s.append(self.name.as_str());
        s.append(", fields={");
        s.append(join_strings(&parts, ", ").as_str());
        s.append("}}");
        s
    }

    /// The trace of each field, in layout order.
    pub open spec fn field_traces<'a>(&'a self) -> Seq<Seq<IRNode<'a>>> {
        Seq::new(self.fields@.len(), |i: int| self.fields@[i].trace())
    }

    /// The node itself, then each field with its type, in layout order.
    pub open spec fn trace<'a>(&'a self) -> Seq<IRNode<'a>> {
        seq![IRNode::Structure(self)] + chain(self.field_traces())
    }

    /// Lets the visitor enter this node, then its fields in layout order.
    pub fn accept<V: IRVisitorImpl>(&self, visitor: &mut V)
        ensures
            final(visitor).state() == walk::<V>(old(visitor).state(), self.trace()),
    {
        broadcast use {lemma_walk_one, lemma_walk_none, lemma_walk_concat};

        visitor.enter(IRNode::Structure(self));
        let ghost start = visitor.state();
        let mut i: usize = 0;
        while i < self.fields.len()
            invariant
                i <= self.fields.len(),
                visitor.state() == walk::<V>(start, chain_prefix(self.field_traces(), i as nat)),
            decreases self.fields.len() - i,
        {
            let ghost before = visitor.state();
            self.fields[i].accept(visitor);
            proof {
                lemma_walk_step::<V>(start, self.field_traces(), i as nat, before, visitor.state());
            }
            i = i + 1;
        }
    }

    /// A structure is one node more than its fields together.
    pub proof fn lemma_trace_len(&self)
        ensures
            self.trace().len() == 1 + total_len(self.field_traces(), self.fields@.len()),
    {
        lemma_chain_len(self.field_traces(), self.fields@.len());
    }
}

} // verus!
