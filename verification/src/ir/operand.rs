//! Operands: what an instruction reads and writes.

use crate::ir::IRVisitorImpl;
use crate::ir::base::IRNode;
use crate::ir::sequence::{chain, chain_prefix};
use crate::ir::text::{i32_to_string, int_decimal, join, join_strings, views};
use crate::ir::types::IRType;
use crate::ir::visit::{lemma_walk_concat, lemma_walk_none, lemma_walk_one, lemma_walk_step, walk};
use vstd::prelude::*;
use vstd::string::*;

verus! {

/// A virtual register, named within its function.
#[derive(Debug, Clone, PartialEq, Eq)]
pub struct IRVirtualRegister {
    pub name: String,
}

impl IRVirtualRegister {
    pub fn new(name: String) -> (r: Self)
        ensures
            r == (IRVirtualRegister { name }),
    {
        Self { name }
    }

    /// `%` followed by the register's name.
    pub open spec fn render(&self) -> Seq<char> {
        "%"@ + self.name@
    }

    pub fn to_string(&self) -> (s: String)
        ensures
            s@ == self.render(),
    {
        let mut s = String::from_str("%");
        s.append(self.name.as_str());
        s
    }

    /// The node itself: it has no parts.
    pub open spec fn trace<'a>(&'a self) -> Seq<IRNode<'a>> {
        seq![IRNode::VirtualRegister(self)]
    }

    /// Lets the visitor enter this node.
    pub fn accept<V: IRVisitorImpl>(&self, visitor: &mut V)
        ensures
            final(visitor).state() == walk::<V>(old(visitor).state(), self.trace()),
    {
        broadcast use lemma_walk_one;

        visitor.enter(IRNode::VirtualRegister(self));
    }
}

/// A reference to an entry of the module's constant pool, by index.
#[derive(Debug, Clone, Copy, PartialEq, Eq)]
pub struct IRConstant {
    pub index: i32,
}

impl IRConstant {
    pub fn new(index: i32) -> (c: Self)
        ensures
            c == (IRConstant { index }),
    {
        Self { index }
    }

    /// `$` followed by the index in decimal.
    pub open spec fn render(&self) -> Seq<char> {
        "$"@ + int_decimal(self.index as int)
    }

    pub fn to_string(&self) -> (s: String)
        ensures
            s@ == self.render(),
    {
        let mut s = String::from_str("$");
        s.append(i32_to_string(self.index).as_str());
        s
    }

    /// The node itself: it has no parts.
    pub open spec fn trace<'a>(&'a self) -> Seq<IRNode<'a>> {
        seq![IRNode::Constant(self)]
    }

    /// Lets the visitor enter this node.
    pub fn accept<V: IRVisitorImpl>(&self, visitor: &mut V)
        ensures
            final(visitor).state() == walk::<V>(old(visitor).state(), self.trace()),
    {
        broadcast use lemma_walk_one;

        visitor.enter(IRNode::Constant(self));
    }
}

/// A placeholder that a later pass expands: a name, literal arguments and
/// operands of its own.
#[derive(Debug, PartialEq, Eq)]
pub struct IRMacro {
    pub name: String,
    pub args: Vec<String>,
    pub additional_operands: Vec<Box<IROperand>>,
}

/// The texts of the given operands, in order.
pub open spec fn operand_texts(operands: Seq<Box<IROperand>>) -> Seq<Seq<char>>
    decreases operands,
{
    Seq::new(
        operands.len(),
        |i: int|
            if 0 <= i < operands.len() {
                operands[i].render()
            } else {
                Seq::empty()
            },
    )
}

impl IRMacro {
    pub fn new(name: String, args: Vec<String>, additional_operands: Vec<Box<IROperand>>) -> (m:
        Self)
        ensures
            m == (IRMacro { name, args, additional_operands }),
    {
        Self { name, args, additional_operands }
    }

    /// A backquote, the name, then the bracketed argument list and the
    /// bracketed operand list, both comma-separated, in parentheses.
    pub open spec fn render(&self) -> Seq<char>
        decreases self,
    {
        "`"@ + self.name@ + "(["@ + join(views(self.args@), ", "@) + "], ["@ + join(
            operand_texts(self.additional_operands@),
            ", "@,
        ) + "])"@
    }

    pub fn to_string(&self) -> (s: String)
        ensures
            s@ == self.render(),
        decreases self,
    {
        let mut parts: Vec<String> = Vec::new();
        let mut i: usize = 0;
        while i < self.additional_operands.len()
            invariant
                i <= self.additional_operands.len(),
                parts@.len() == i,
                forall|j: int|
                    0 <= j < i ==> (#[trigger] parts@[j])@ == self.additional_operands@[j].render(),
            decreases self.additional_operands.len() - i,
        {
            parts.push(self.additional_operands[i].to_string());
            i = i + 1;
        }
        assert(views(parts@) =~= operand_texts(self.additional_operands@));
        let mut s = String::from_str("`");
        s.append(self.name.as_str());
        s.append("([");
        s.append(join_strings(&self.args, ", ").as_str());
        s.append("], [");
        s.append(join_strings(&parts, ", ").as_str());
        s.append("])");
        s
    }

    /// The node itself, then each of its operands with all that is below
    /// it.
    pub open spec fn trace<'a>(&'a self) -> Seq<IRNode<'a>>
        decreases self,
    {
        seq![IRNode::Macro(self)] + chain(operand_traces(self.additional_operands@))
    }

    /// Lets the visitor enter this node, then its operands in order.
    pub fn accept<V: IRVisitorImpl>(&self, visitor: &mut V)
        ensures
            final(visitor).state() == walk::<V>(old(visitor).state(), self.trace()),
        decreases self, 1nat,
    {
        broadcast use {lemma_walk_one, lemma_walk_concat};

        visitor.enter(IRNode::Macro(self));
        accept_operands(&self.additional_operands, visitor);
    }
}

impl Clone for IRMacro {
    fn clone(&self) -> Self {
        IRMacro {
            name: self.name.clone(),
            args: self.args.clone(),
            additional_operands: clone_operands(&self.additional_operands),
        }
    }
}

/// An SSA phi: for each predecessor label the operand that flows in from it.
#[derive(Debug, PartialEq, Eq)]
pub struct IRPhi {
    pub _type: Box<IRType>,
    pub labels: Vec<String>,
    pub operands: Vec<Box<IROperand>>,
}

impl IRPhi {
    pub fn new(_type: Box<IRType>, labels: Vec<String>, operands: Vec<Box<IROperand>>) -> (p: Self)
        ensures
            p == (IRPhi { _type, labels, operands }),
    {
        Self { _type, labels, operands }
    }

    /// The number of label and operand pairs: the shorter of the two lists.
    pub open spec fn arm_count(&self) -> nat {
        if self.labels@.len() <= self.operands@.len() {
            self.labels@.len()
        } else {
            self.operands@.len()
        }
    }

    /// Labels and operands are parallel lists.
    pub open spec fn well_formed(&self) -> bool {
        self.labels@.len() == self.operands@.len()
    }

    /// The text of each arm: `[label, operand]`.
    pub open spec fn arm_texts(&self) -> Seq<Seq<char>>
        decreases self, 0nat,
    {
        Seq::new(
            self.arm_count(),
            |i: int|
                if 0 <= i < self.operands@.len() {
                    "["@ + self.labels@[i]@ + ", "@ + self.operands@[i].render() + "]"@
                } else {
                    Seq::empty()
                },
        )
    }

    /// `phi`, the type, then the comma-separated arms.
    pub open spec fn render(&self) -> Seq<char>
        decreases self, 1nat,
    {
        "phi "@ + self._type.render() + " "@ + join(self.arm_texts(), ", "@)
    }

    pub fn to_string(&self) -> (s: String)
        ensures
            s@ == self.render(),
        decreases self,
    {
        let count = if self.labels.len() <= self.operands.len() {
            self.labels.len()
        } else {
            self.operands.len()
        };
        let mut parts: Vec<String> = Vec::new();
        let mut i: usize = 0;
        while i < count
            invariant
                i <= count,
                count == self.arm_count(),
                parts@.len() == i,
                forall|j: int| 0 <= j < i ==> (#[trigger] parts@[j])@ == self.arm_texts()[j],
            decreases count - i,
        {
            let mut arm = String::from_str("[");
            arm.append(self.labels[i].as_str());
            arm.append(", ");
            arm.append(self.operands[i].to_string().as_str());
            arm.append("]");
            parts.push(arm);
            i = i + 1;
        }
        assert(views(parts@) =~= self.arm_texts());
        let mut s = String::from_str("phi ");
        s.append(self._type.to_string().as_str());
        s.append(" ");
        s.append(join_strings(&parts, ", ").as_str());
        s
    }

    /// The node itself, then its type, then each of its operands with all
    /// that is below it.
    pub open spec fn trace<'a>(&'a self) -> Seq<IRNode<'a>>
        decreases self,
    {
        seq![IRNode::Phi(self)] + self._type.trace() + chain(operand_traces(self.operands@))
    }

    /// Lets the visitor enter this node, then its type, then its operands in
    /// order.
    pub fn accept<V: IRVisitorImpl>(&self, visitor: &mut V)
        ensures
            final(visitor).state() == walk::<V>(old(visitor).state(), self.trace()),
        decreases self, 1nat,
    {
        broadcast use {lemma_walk_one, lemma_walk_concat};

        visitor.enter(IRNode::Phi(self));
        self._type.accept(visitor);
        accept_operands(&self.operands, visitor);
    }
}

impl Clone for IRPhi {
    fn clone(&self) -> Self {
        IRPhi {
            _type: self._type.clone(),
            labels: self.labels.clone(),
            operands: clone_operands(&self.operands),
        }
    }
}

/// The virtual dispatch table of a structure: function names in
/// dispatch-offset order.
#[derive(Debug, Clone, PartialEq, Eq)]
pub struct IRVirtualTable {
    pub functions: Vec<String>,
}

impl IRVirtualTable {
    pub fn new(functions: Vec<String>) -> (t: Self)
        ensures
            t == (IRVirtualTable { functions }),
    {
        Self { functions }
    }

    pub open spec fn render(&self) -> Seq<char> {
        "IRVirtualTable{functions={"@ + join(views(self.functions@), ", "@) + "}}"@
    }

    pub fn to_string(&self) -> (s: String)
        ensures
            s@ == self.render(),
    {
        let mut s = String::from_str("IRVirtualTable{functions={");
        s.append(join_strings(&self.functions, ", ").as_str());
        s.append("}}");
        s
    }

    /// The node itself: it has no parts.
    pub open spec fn trace<'a>(&'a self) -> Seq<IRNode<'a>> {
        seq![IRNode::VirtualTable(self)]
    }

    /// Lets the visitor enter this node.
    pub fn accept<V: IRVisitorImpl>(&self, visitor: &mut V)
        ensures
            final(visitor).state() == walk::<V>(old(visitor).state(), self.trace()),
    {
        broadcast use lemma_walk_one;

        visitor.enter(IRNode::VirtualTable(self));
    }
}

/// One interface of an interface table: its name and its function names in
/// dispatch-offset order.
#[derive(Debug, Clone, PartialEq, Eq)]
pub struct IRInterfaceTableEntry {
    pub name: String,
    pub functions: Vec<String>,
}

impl IRInterfaceTableEntry {
    pub fn new(name: String, functions: Vec<String>) -> (e: Self)
        ensures
            e == (IRInterfaceTableEntry { name, functions }),
    {
        Self { name, functions }
    }

    pub open spec fn render(&self) -> Seq<char> {
        "Entry[name="@ + self.name@ + ", functions={"@ + join(views(self.functions@), ", "@)
            + "}]"@
    }

    pub fn to_string(&self) -> (s: String)
        ensures
            s@ == self.render(),
    {
        let mut s = String::from_str("Entry[name=");
        s.append(self.name.as_str());
        s.append(", functions={");
        s.append(join_strings(&self.functions, ", ").as_str());
        s.append("}]");
        s
    }
}

/// The interface dispatch tables of a structure, in order.
#[derive(Debug, Clone, PartialEq, Eq)]
pub struct IRInterfaceTable {
    pub entries: Vec<IRInterfaceTableEntry>,
}

impl IRInterfaceTable {
    pub fn new(entries: Vec<IRInterfaceTableEntry>) -> (t: Self)
        ensures
            t == (IRInterfaceTable { entries }),
    {
        Self { entries }
    }

    /// The text of each entry, in order.
    pub open spec fn entry_texts(&self) -> Seq<Seq<char>> {
        Seq::new(self.entries@.len(), |i: int| self.entries@[i].render())
    }

    pub open spec fn render(&self) -> Seq<char> {
        "IRInterfaceTable{entries={"@ + join(self.entry_texts(), ", "@) + "}}"@
    }

    pub fn to_string(&self) -> (s: String)
        ensures
            s@ == self.render(),
    {
        let mut parts: Vec<String> = Vec::new();
        let mut i: usize = 0;
        while i < self.entries.len()
            invariant
                i <= self.entries.len(),
                parts@.len() == i,
                forall|j: int| 0 <= j < i ==> (#[trigger] parts@[j])@ == self.entries@[j].render(),
            decreases self.entries.len() - i,
        {
            parts.push(self.entries[i].to_string());
            i = i + 1;
        }
        assert(views(parts@) =~= self.entry_texts());
        let mut s = String::from_str("IRInterfaceTable{entries={");
        s.append(join_strings(&parts, ", ").as_str());
        s.append("}}");
        s
    }

    /// The node itself: it has no parts.
    pub open spec fn trace<'a>(&'a self) -> Seq<IRNode<'a>> {
        seq![IRNode::InterfaceTable(self)]
    }

    /// Lets the visitor enter this node.
    pub fn accept<V: IRVisitorImpl>(&self, visitor: &mut V)
        ensures
            final(visitor).state() == walk::<V>(old(visitor).state(), self.trace()),
    {
        broadcast use lemma_walk_one;

        visitor.enter(IRNode::InterfaceTable(self));
    }
}

/// A value producer or consumer.
#[derive(Debug, PartialEq, Eq)]
pub enum IROperand {
    VirtualRegister(IRVirtualRegister),
    Constant(IRConstant),
    Macro(IRMacro),
    Phi(IRPhi),
    VirtualTable(IRVirtualTable),
    InterfaceTable(IRInterfaceTable),
}

impl IROperand {
    /// The canonical text of the operand, by kind.
    pub open spec fn render(&self) -> Seq<char>
        decreases self,
    {
        match self {
            IROperand::VirtualRegister(o) => o.render(),
            IROperand::Constant(o) => o.render(),
            IROperand::Macro(o) => o.render(),
            IROperand::Phi(o) => o.render(),
            IROperand::VirtualTable(o) => o.render(),
            IROperand::InterfaceTable(o) => o.render(),
        }
    }

    pub fn to_string(&self) -> (s: String)
        ensures
            s@ == self.render(),
        decreases self,
    {
        match self {
            IROperand::VirtualRegister(o) => o.to_string(),
            IROperand::Constant(o) => o.to_string(),
            IROperand::Macro(o) => o.to_string(),
            IROperand::Phi(o) => o.to_string(),
            IROperand::VirtualTable(o) => o.to_string(),
            IROperand::InterfaceTable(o) => o.to_string(),
        }
    }

    /// The nodes that a traversal of the operand enters, in order.
    pub open spec fn trace<'a>(&'a self) -> Seq<IRNode<'a>>
        decreases self,
    {
        match self {
            IROperand::VirtualRegister(o) => o.trace(),
            IROperand::Constant(o) => o.trace(),
            IROperand::Macro(o) => o.trace(),
            IROperand::Phi(o) => o.trace(),
            IROperand::VirtualTable(o) => o.trace(),
            IROperand::InterfaceTable(o) => o.trace(),
        }
    }

    /// Hands the visitor to the operand of this kind.
    pub fn accept<V: IRVisitorImpl>(&self, visitor: &mut V)
        ensures
            final(visitor).state() == walk::<V>(old(visitor).state(), self.trace()),
        decreases self, 2nat,
    {
        match self {
            IROperand::VirtualRegister(o) => o.accept(visitor),
            IROperand::Constant(o) => o.accept(visitor),
            IROperand::Macro(o) => o.accept(visitor),
            IROperand::Phi(o) => o.accept(visitor),
            IROperand::VirtualTable(o) => o.accept(visitor),
            IROperand::InterfaceTable(o) => o.accept(visitor),
        }
    }
}

/// The trace of each of the given operands, in order.
pub open spec fn operand_traces<'a>(operands: Seq<Box<IROperand>>) -> Seq<Seq<IRNode<'a>>>
    decreases operands,
{
    Seq::new(
        operands.len(),
        |i: int|
            if 0 <= i < operands.len() {
                operands[i].trace()
            } else {
                Seq::empty()
            },
    )
}

/// Lets the visitor traverse each of the operands, in order.
pub fn accept_operands<V: IRVisitorImpl>(operands: &Vec<Box<IROperand>>, visitor: &mut V)
    ensures
        final(visitor).state() == walk::<V>(
            old(visitor).state(),
            chain(operand_traces(operands@)),
        ),
    decreases operands, 0nat,
{
    broadcast use lemma_walk_none;

    let mut i: usize = 0;
    while i < operands.len()
        invariant
            i <= operands.len(),
            visitor.state() == walk::<V>(
                old(visitor).state(),
                chain_prefix(operand_traces(operands@), i as nat),
            ),
        decreases operands.len() - i,
    {
        let ghost before = visitor.state();
        operands[i].accept(visitor);
        proof {
            lemma_walk_step::<V>(
                old(visitor).state(),
                operand_traces(operands@),
                i as nat,
                before,
                visitor.state(),
            );
        }
        i = i + 1;
    }
}

/// Whether the two lists hold the same operands, place for place.
pub open spec fn same_operands(first: Seq<Box<IROperand>>, second: Seq<Box<IROperand>>) -> bool
    decreases first,
{
    &&& first.len() == second.len()
    &&& forall|i: int| 0 <= i < first.len() ==> (#[trigger] first[i]).same_as(&*second[i])
}

/// Whether the two lists hold the same interface entries, place for place.
pub open spec fn same_entries(
    first: Seq<IRInterfaceTableEntry>,
    second: Seq<IRInterfaceTableEntry>,
) -> bool {
    &&& first.len() == second.len()
    &&& forall|i: int| 0 <= i < first.len() ==> (#[trigger] first[i]).same_as(&second[i])
}

impl IRInterfaceTableEntry {
    /// Whether `other` has the same name and the same functions in the same
    /// order.
    pub open spec fn same_as(&self, other: &IRInterfaceTableEntry) -> bool {
        self.name@ == other.name@ && views(self.functions@) == views(other.functions@)
    }
}

impl IROperand {
    /// Whether `other` is the same operand: of the same kind, and equal to
    /// this one in every part, down to the characters of the names and the
    /// operands nested below.
    pub open spec fn same_as(&self, other: &IROperand) -> bool
        decreases self,
    {
        match (self, other) {
            (IROperand::VirtualRegister(a), IROperand::VirtualRegister(b)) => a.name@ == b.name@,
            (IROperand::Constant(a), IROperand::Constant(b)) => a.index == b.index,
            (IROperand::Macro(a), IROperand::Macro(b)) => {
                &&& a.name@ == b.name@
                &&& views(a.args@) == views(b.args@)
                &&& same_operands(a.additional_operands@, b.additional_operands@)
            },
            (IROperand::Phi(a), IROperand::Phi(b)) => {
                &&& *a._type == *b._type
                &&& views(a.labels@) == views(b.labels@)
                &&& same_operands(a.operands@, b.operands@)
            },
            (IROperand::VirtualTable(a), IROperand::VirtualTable(b)) => views(a.functions@)
                == views(b.functions@),
            (IROperand::InterfaceTable(a), IROperand::InterfaceTable(b)) => same_entries(
                a.entries@,
                b.entries@,
            ),
            _ => false,
        }
    }

    /// Operands that are the same have the same text.
    pub proof fn lemma_same_renders(&self, other: &IROperand)
        requires
            self.same_as(other),
        ensures
            self.render() == other.render(),
        decreases self,
    {
        match (self, other) {
            (IROperand::Macro(a), IROperand::Macro(b)) => {
                lemma_same_texts(a.additional_operands@, b.additional_operands@);
            },
            (IROperand::Phi(a), IROperand::Phi(b)) => {
                lemma_same_texts(a.operands@, b.operands@);
                assert(views(a.labels@).len() == a.labels@.len());
                assert(views(b.labels@).len() == b.labels@.len());
                assert(a.arm_count() == b.arm_count());
                assert forall|i: int| 0 <= i < a.arm_count() implies a.arm_texts()[i]
                    == b.arm_texts()[i] by {
                    assert(operand_texts(a.operands@)[i] == operand_texts(b.operands@)[i]);
                    assert(views(a.labels@)[i] == views(b.labels@)[i]);
                }
                assert(a.arm_texts() =~= b.arm_texts());
            },
            (IROperand::InterfaceTable(a), IROperand::InterfaceTable(b)) => {
                assert forall|i: int| 0 <= i < a.entries@.len() implies a.entry_texts()[i]
                    == b.entry_texts()[i] by {
                    assert(a.entries@[i].same_as(&b.entries@[i]));
                }
                assert(a.entry_texts() =~= b.entry_texts());
            },
            _ => {},
        }
    }
}

/// Lists that hold the same operands have the same texts.
pub proof fn lemma_same_texts(first: Seq<Box<IROperand>>, second: Seq<Box<IROperand>>)
    requires
        same_operands(first, second),
    ensures
        operand_texts(first) == operand_texts(second),
    decreases first,
{
    assert forall|i: int| 0 <= i < first.len() implies operand_texts(first)[i] == operand_texts(
        second,
    )[i] by {
        assert(first[i].same_as(&*second[i]));
        first[i].lemma_same_renders(&*second[i]);
    }
    assert(operand_texts(first) =~= operand_texts(second));
}

fn clone_strings(strings: &Vec<String>) -> (copies: Vec<String>)
    ensures
        views(copies@) == views(strings@),
{
    let mut copies: Vec<String> = Vec::new();
    let mut i: usize = 0;
    while i < strings.len()
        invariant
            i <= strings.len(),
            copies@.len() == i,
            forall|j: int| 0 <= j < i ==> #[trigger] copies@[j] == strings@[j],
        decreases strings.len() - i,
    {
        copies.push(strings[i].clone());
        i = i + 1;
    }
    assert(views(copies@) =~= views(strings@));
    copies
}

fn clone_entries(entries: &Vec<IRInterfaceTableEntry>) -> (copies: Vec<IRInterfaceTableEntry>)
    ensures
        same_entries(copies@, entries@),
{
    let mut copies: Vec<IRInterfaceTableEntry> = Vec::new();
    let mut i: usize = 0;
    while i < entries.len()
        invariant
            i <= entries.len(),
            copies@.len() == i,
            forall|j: int| 0 <= j < i ==> (#[trigger] copies@[j]).same_as(&entries@[j]),
        decreases entries.len() - i,
    {
        let entry = &entries[i];
        copies.push(
            IRInterfaceTableEntry {
                name: entry.name.clone(),
                functions: clone_strings(&entry.functions),
            },
        );
        i = i + 1;
    }
    copies
}

fn clone_operand(operand: &IROperand) -> (copy: IROperand)
    ensures
        copy.same_as(operand),
    decreases operand,
{
    match operand {
        IROperand::VirtualRegister(o) => IROperand::VirtualRegister(
            IRVirtualRegister { name: o.name.clone() },
        ),
        IROperand::Constant(o) => IROperand::Constant(IRConstant { index: o.index }),
        IROperand::Macro(o) => IROperand::Macro(
            IRMacro {
                name: o.name.clone(),
                args: clone_strings(&o.args),
                additional_operands: clone_operands(&o.additional_operands),
            },
        ),
        IROperand::Phi(o) => IROperand::Phi(
            IRPhi {
                _type: Box::new((*o._type).clone()),
                labels: clone_strings(&o.labels),
                operands: clone_operands(&o.operands),
            },
        ),
        IROperand::VirtualTable(o) => IROperand::VirtualTable(
            IRVirtualTable { functions: clone_strings(&o.functions) },
        ),
        IROperand::InterfaceTable(o) => IROperand::InterfaceTable(
            IRInterfaceTable { entries: clone_entries(&o.entries) },
        ),
    }
}

fn clone_operands(operands: &Vec<Box<IROperand>>) -> (copies: Vec<Box<IROperand>>)
    ensures
        same_operands(copies@, operands@),
    decreases operands,
{
    let mut copies: Vec<Box<IROperand>> = Vec::new();
    let mut i: usize = 0;
    while i < operands.len()
        invariant
            i <= operands.len(),
            copies@.len() == i,
            forall|j: int| 0 <= j < i ==> (#[trigger] copies@[j]).same_as(&*operands@[j]),
        decreases operands.len() - i,
    {
        copies.push(Box::new(clone_operand(&operands[i])));
        i = i + 1;
    }
    copies
}

impl Clone for IROperand {
    fn clone(&self) -> (copy: Self)
        ensures
            copy.same_as(self),
    {
        clone_operand(self)
    }
}

} // verus!
