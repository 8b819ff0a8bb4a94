//! The structural containers of the IR and the node type that the traversal
//! speaks of.

use crate::ir::{IRConstantPool, IRConstantPoolEntry, IRModule, IRVisitorImpl};
use crate::ir::instruction::{
    IRAsm, IRCalculate, IRConditionalJump, IRDecrease, IRFree, IRGet, IRGoto, IRIncrease,
    IRInstruction, IRInvoke, IRMalloc, IRNegate, IRNoOperate, IRNot, IRRealloc, IRReturn, IRSet,
    IRSetVirtualRegister, IRStackAllocate, IRTypeCast,
};
use crate::ir::operand::{
    accept_operands, operand_texts, operand_traces, IRConstant, IRInterfaceTable, IRMacro,
    IROperand, IRPhi, IRVirtualRegister, IRVirtualTable,
};
use crate::ir::ordered::{
    block_entries, blocks_get_index, blocks_get_index_of, blocks_insert, blocks_len, blocks_new,
    lemma_position_of_none, lemma_position_of_only, names_only, position_of, put,
};
use crate::ir::sequence::{chain, chain_prefix, lemma_chain_len, total_len};
use crate::ir::structure::{IRField, IRStructure};
use crate::ir::text::{join, join_strings, nat_decimal, usize_to_string, views};
use crate::ir::types::{
    IRDoubleType, IRFloatType, IRIntegerType, IRPointerType, IRType, IRVoidType,
};
use crate::ir::visit::{lemma_walk_concat, lemma_walk_none, lemma_walk_one, lemma_walk_step, walk};
use indexmap::IndexMap;
use vstd::prelude::*;
use vstd::string::*;

verus! {

/// Any node of the IR, by reference: what a traversal enters and a pass
/// observes.
#[derive(Debug, Clone, Copy)]
pub enum IRNode<'a> {
    Module(&'a IRModule),
    Structure(&'a IRStructure),
    Field(&'a IRField),
    ConstantPool(&'a IRConstantPool),
    ConstantPoolEntry(&'a IRConstantPoolEntry),
    GlobalDataSection(&'a IRGlobalDataSection),
    GlobalData(&'a IRGlobalData),
    Function(&'a IRFunction),
    IntegerType(&'a IRIntegerType),
    FloatType(&'a IRFloatType),
    DoubleType(&'a IRDoubleType),
    VoidType(&'a IRVoidType),
    PointerType(&'a IRPointerType),
    VirtualRegister(&'a IRVirtualRegister),
    Constant(&'a IRConstant),
    Macro(&'a IRMacro),
    Phi(&'a IRPhi),
    VirtualTable(&'a IRVirtualTable),
    InterfaceTable(&'a IRInterfaceTable),
    Goto(&'a IRGoto),
    ConditionalJump(&'a IRConditionalJump),
    NoOperate(&'a IRNoOperate),
    Return(&'a IRReturn),
    Malloc(&'a IRMalloc),
    Free(&'a IRFree),
    Realloc(&'a IRRealloc),
    Store(&'a IRSet),
    Load(&'a IRGet),
    SetVirtualRegister(&'a IRSetVirtualRegister),
    TypeCast(&'a IRTypeCast),
    StackAllocate(&'a IRStackAllocate),
    Calculate(&'a IRCalculate),
    Increase(&'a IRIncrease),
    Decrease(&'a IRDecrease),
    Not(&'a IRNot),
    Negate(&'a IRNegate),
    Invoke(&'a IRInvoke),
    Asm(&'a IRAsm),
}

impl<'a> IRNode<'a> {
    /// The nodes that a traversal from this node enters, in order: the node
    /// itself first, then its parts, each with all that is below it.
    pub open spec fn trace(self) -> Seq<IRNode<'a>> {
        match self {
            IRNode::Module(n) => n.trace(),
            IRNode::Structure(n) => n.trace(),
            IRNode::Field(n) => n.trace(),
            IRNode::ConstantPool(n) => n.trace(),
            IRNode::ConstantPoolEntry(n) => n.trace(),
            IRNode::GlobalDataSection(n) => n.trace(),
            IRNode::GlobalData(n) => n.trace(),
            IRNode::Function(n) => n.trace(),
            IRNode::IntegerType(n) => n.trace(),
            IRNode::FloatType(n) => n.trace(),
            IRNode::DoubleType(n) => n.trace(),
            IRNode::VoidType(n) => n.trace(),
            IRNode::PointerType(n) => n.trace(),
            IRNode::VirtualRegister(n) => n.trace(),
            IRNode::Constant(n) => n.trace(),
            IRNode::Macro(n) => n.trace(),
            IRNode::Phi(n) => n.trace(),
            IRNode::VirtualTable(n) => n.trace(),
            IRNode::InterfaceTable(n) => n.trace(),
            IRNode::Goto(n) => n.trace(),
            IRNode::ConditionalJump(n) => n.trace(),
            IRNode::NoOperate(n) => n.trace(),
            IRNode::Return(n) => n.trace(),
            IRNode::Malloc(n) => n.trace(),
            IRNode::Free(n) => n.trace(),
            IRNode::Realloc(n) => n.trace(),
            IRNode::Store(n) => n.trace(),
            IRNode::Load(n) => n.trace(),
            IRNode::SetVirtualRegister(n) => n.trace(),
            IRNode::TypeCast(n) => n.trace(),
            IRNode::StackAllocate(n) => n.trace(),
            IRNode::Calculate(n) => n.trace(),
            IRNode::Increase(n) => n.trace(),
            IRNode::Decrease(n) => n.trace(),
            IRNode::Not(n) => n.trace(),
            IRNode::Negate(n) => n.trace(),
            IRNode::Invoke(n) => n.trace(),
            IRNode::Asm(n) => n.trace(),
        }
    }

    /// Hands the visitor to the node of this kind, which lets it enter the
    /// node and then traverse its parts.
    pub fn accept<V: IRVisitorImpl>(self, visitor: &mut V)
        ensures
            final(visitor).state() == walk::<V>(old(visitor).state(), self.trace()),
    {
        match self {
            IRNode::Module(n) => n.accept(visitor),
            IRNode::Structure(n) => n.accept(visitor),
            IRNode::Field(n) => n.accept(visitor),
            IRNode::ConstantPool(n) => n.accept(visitor),
            IRNode::ConstantPoolEntry(n) => n.accept(visitor),
            IRNode::GlobalDataSection(n) => n.accept(visitor),
            IRNode::GlobalData(n) => n.accept(visitor),
            IRNode::Function(n) => n.accept(visitor),
            IRNode::IntegerType(n) => n.accept(visitor),
            IRNode::FloatType(n) => n.accept(visitor),
            IRNode::DoubleType(n) => n.accept(visitor),
            IRNode::VoidType(n) => n.accept(visitor),
            IRNode::PointerType(n) => n.accept(visitor),
            IRNode::VirtualRegister(n) => n.accept(visitor),
            IRNode::Constant(n) => n.accept(visitor),
            IRNode::Macro(n) => n.accept(visitor),
            IRNode::Phi(n) => n.accept(visitor),
            IRNode::VirtualTable(n) => n.accept(visitor),
            IRNode::InterfaceTable(n) => n.accept(visitor),
            IRNode::Goto(n) => n.accept(visitor),
            IRNode::ConditionalJump(n) => n.accept(visitor),
            IRNode::NoOperate(n) => n.accept(visitor),
            IRNode::Return(n) => n.accept(visitor),
            IRNode::Malloc(n) => n.accept(visitor),
            IRNode::Free(n) => n.accept(visitor),
            IRNode::Realloc(n) => n.accept(visitor),
            IRNode::Store(n) => n.accept(visitor),
            IRNode::Load(n) => n.accept(visitor),
            IRNode::SetVirtualRegister(n) => n.accept(visitor),
            IRNode::TypeCast(n) => n.accept(visitor),
            IRNode::StackAllocate(n) => n.accept(visitor),
            IRNode::Calculate(n) => n.accept(visitor),
            IRNode::Increase(n) => n.accept(visitor),
            IRNode::Decrease(n) => n.accept(visitor),
            IRNode::Not(n) => n.accept(visitor),
            IRNode::Negate(n) => n.accept(visitor),
            IRNode::Invoke(n) => n.accept(visitor),
            IRNode::Asm(n) => n.accept(visitor),
        }
    }

    /// The canonical text of the node.
    pub open spec fn render(self) -> Seq<char> {
        match self {
            IRNode::Module(n) => n.render(),
            IRNode::Structure(n) => n.render(),
            IRNode::Field(n) => n.render(),
            IRNode::ConstantPool(n) => n.render(),
            IRNode::ConstantPoolEntry(n) => n.render(),
            IRNode::GlobalDataSection(n) => n.render(),
            IRNode::GlobalData(n) => n.render(),
            IRNode::Function(n) => n.render(),
            IRNode::IntegerType(n) => n.render(),
            IRNode::FloatType(n) => n.render(),
            IRNode::DoubleType(n) => n.render(),
            IRNode::VoidType(n) => n.render(),
            IRNode::PointerType(n) => n.render(),
            IRNode::VirtualRegister(n) => n.render(),
            IRNode::Constant(n) => n.render(),
            IRNode::Macro(n) => n.render(),
            IRNode::Phi(n) => n.render(),
            IRNode::VirtualTable(n) => n.render(),
            IRNode::InterfaceTable(n) => n.render(),
            IRNode::Goto(n) => n.render(),
            IRNode::ConditionalJump(n) => n.render(),
            IRNode::NoOperate(n) => n.render(),
            IRNode::Return(n) => n.render(),
            IRNode::Malloc(n) => n.render(),
            IRNode::Free(n) => n.render(),
            IRNode::Realloc(n) => n.render(),
            IRNode::Store(n) => n.render(),
            IRNode::Load(n) => n.render(),
            IRNode::SetVirtualRegister(n) => n.render(),
            IRNode::TypeCast(n) => n.render(),
            IRNode::StackAllocate(n) => n.render(),
            IRNode::Calculate(n) => n.render(),
            IRNode::Increase(n) => n.render(),
            IRNode::Decrease(n) => n.render(),
            IRNode::Not(n) => n.render(),
            IRNode::Negate(n) => n.render(),
            IRNode::Invoke(n) => n.render(),
            IRNode::Asm(n) => n.render(),
        }
    }

    pub fn to_string(self) -> (s: String)
        ensures
            s@ == self.render(),
    {
        match self {
            IRNode::Module(n) => n.to_string(),
            IRNode::Structure(n) => n.to_string(),
            IRNode::Field(n) => n.to_string(),
            IRNode::ConstantPool(n) => n.to_string(),
            IRNode::ConstantPoolEntry(n) => n.to_string(),
            IRNode::GlobalDataSection(n) => n.to_string(),
            IRNode::GlobalData(n) => n.to_string(),
            IRNode::Function(n) => n.to_string(),
            IRNode::IntegerType(n) => n.to_string(),
            IRNode::FloatType(n) => n.to_string(),
            IRNode::DoubleType(n) => n.to_string(),
            IRNode::VoidType(n) => n.to_string(),
            IRNode::PointerType(n) => n.to_string(),
            IRNode::VirtualRegister(n) => n.to_string(),
            IRNode::Constant(n) => n.to_string(),
            IRNode::Macro(n) => n.to_string(),
            IRNode::Phi(n) => n.to_string(),
            IRNode::VirtualTable(n) => n.to_string(),
            IRNode::InterfaceTable(n) => n.to_string(),
            IRNode::Goto(n) => n.to_string(),
            IRNode::ConditionalJump(n) => n.to_string(),
            IRNode::NoOperate(n) => n.to_string(),
            IRNode::Return(n) => n.to_string(),
            IRNode::Malloc(n) => n.to_string(),
            IRNode::Free(n) => n.to_string(),
            IRNode::Realloc(n) => n.to_string(),
            IRNode::Store(n) => n.to_string(),
            IRNode::Load(n) => n.to_string(),
            IRNode::SetVirtualRegister(n) => n.to_string(),
            IRNode::TypeCast(n) => n.to_string(),
            IRNode::StackAllocate(n) => n.to_string(),
            IRNode::Calculate(n) => n.to_string(),
            IRNode::Increase(n) => n.to_string(),
            IRNode::Decrease(n) => n.to_string(),
            IRNode::Not(n) => n.to_string(),
            IRNode::Negate(n) => n.to_string(),
            IRNode::Invoke(n) => n.to_string(),
            IRNode::Asm(n) => n.to_string(),
        }
    }

    /// Whether the node is an instruction.
    pub open spec fn spec_is_instruction(self) -> bool {
        match self {
            IRNode::Goto(_) => true,
            IRNode::ConditionalJump(_) => true,
            IRNode::NoOperate(_) => true,
            IRNode::Return(_) => true,
            IRNode::Malloc(_) => true,
            IRNode::Free(_) => true,
            IRNode::Realloc(_) => true,
            IRNode::Store(_) => true,
            IRNode::Load(_) => true,
            IRNode::SetVirtualRegister(_) => true,
            IRNode::TypeCast(_) => true,
            IRNode::StackAllocate(_) => true,
            IRNode::Calculate(_) => true,
            IRNode::Increase(_) => true,
            IRNode::Decrease(_) => true,
            IRNode::Not(_) => true,
            IRNode::Negate(_) => true,
            IRNode::Invoke(_) => true,
            IRNode::Asm(_) => true,
            _ => false,
        }
    }

    #[verifier::when_used_as_spec(spec_is_instruction)]
    pub fn is_instruction(self) -> (b: bool)
        ensures
            b == self.spec_is_instruction(),
    {
        match self {
            IRNode::Goto(_) => true,
            IRNode::ConditionalJump(_) => true,
            IRNode::NoOperate(_) => true,
            IRNode::Return(_) => true,
            IRNode::Malloc(_) => true,
            IRNode::Free(_) => true,
            IRNode::Realloc(_) => true,
            IRNode::Store(_) => true,
            IRNode::Load(_) => true,
            IRNode::SetVirtualRegister(_) => true,
            IRNode::TypeCast(_) => true,
            IRNode::StackAllocate(_) => true,
            IRNode::Calculate(_) => true,
            IRNode::Increase(_) => true,
            IRNode::Decrease(_) => true,
            IRNode::Not(_) => true,
            IRNode::Negate(_) => true,
            IRNode::Invoke(_) => true,
            IRNode::Asm(_) => true,
            _ => false,
        }
    }
}

/// The comparison that a conditional jump tests.
#[derive(Debug, Clone, Copy, PartialEq, Eq)]
pub enum IRCondition {
    Equal,
    NotEqual,
    Less,
    LessEqual,
    Greater,
    GreaterEqual,
    IfTrue,
    IfFalse,
}

impl IRCondition {
    /// The mnemonic of the condition.
    pub open spec fn render(&self) -> Seq<char> {
        match self {
            IRCondition::Equal => "eq"@,
            IRCondition::NotEqual => "ne"@,
            IRCondition::Less => "lt"@,
            IRCondition::LessEqual => "le"@,
            IRCondition::Greater => "gt"@,
            IRCondition::GreaterEqual => "ge"@,
            IRCondition::IfTrue => "if_true"@,
            IRCondition::IfFalse => "if_false"@,
        }
    }

    pub fn to_string(&self) -> (s: String)
        ensures
            s@ == self.render(),
    {
        match self {
            IRCondition::Equal => String::from_str("eq"),
            IRCondition::NotEqual => String::from_str("ne"),
            IRCondition::Less => String::from_str("lt"),
            IRCondition::LessEqual => String::from_str("le"),
            IRCondition::Greater => String::from_str("gt"),
            IRCondition::GreaterEqual => String::from_str("ge"),
            IRCondition::IfTrue => String::from_str("if_true"),
            IRCondition::IfFalse => String::from_str("if_false"),
        }
    }
}

/// One statically allocated datum: a name, and a size, initial values, both
/// or neither.
#[derive(Debug, Clone, PartialEq, Eq)]
pub struct IRGlobalData {
    pub name: String,
    pub size: Option<Box<IROperand>>,
    pub values: Option<Vec<Box<IROperand>>>,
}

impl IRGlobalData {
    pub fn new(
        name: String,
        size: Option<Box<IROperand>>,
        values: Option<Vec<Box<IROperand>>>,
    ) -> (d: Self)
        ensures
            d == (IRGlobalData { name, size, values }),
    {
        IRGlobalData { name, size, values }
    }

    /// `, size=` and the size, where there is one.
    pub open spec fn size_text(&self) -> Seq<char> {
        match self.size {
            Some(size) => ", size="@ + size.render(),
            None => Seq::empty(),
        }
    }

    /// `, values=` and the bracketed, comma-separated values, where there
    /// are any.
    pub open spec fn values_text(&self) -> Seq<char> {
        match self.values {
            Some(values) => ", values=["@ + join(operand_texts(values@), ", "@) + "]"@,
            None => Seq::empty(),
        }
    }

    /// The name, then the size and the values as far as they are present.
    pub open spec fn render(&self) -> Seq<char> {
        self.name@ + self.size_text() + self.values_text()
    }

    pub fn to_string(&self) -> (s: String)
        ensures
            s@ == self.render(),
    {
        let mut s = self.name.clone();
        match &self.size {
            Some(size) => {
                s.append(", size=");
                s.append(size.to_string().as_str());
                assert(s@ == self.name@ + (", size="@ + size.render()));
            },
            None => {
                assert(s@ == self.name@ + Seq::<char>::empty());
            },
        }
        let ghost head = s@;
        match &self.values {
            Some(values) => {
                let mut parts: Vec<String> = Vec::new();
                let mut i: usize = 0;
                while i < values.len()
                    invariant
                        i <= values.len(),
                        parts@.len() == i,
                        forall|j: int|
                            0 <= j < i ==> (#[trigger] parts@[j])@ == values@[j].render(),
                    decreases values.len() - i,
                {
                    parts.push(values[i].to_string());
                    i = i + 1;
                }
                assert(views(parts@) =~= operand_texts(values@));
                s.append(", values=[");
                s.append(join_strings(&parts, ", ").as_str());
                s.append("]");
                assert(s@ == head + (", values=["@ + join(operand_texts(values@), ", "@) + "]"@));
            },
            None => {
                assert(s@ == head + Seq::<char>::empty());
            },
        }
        s
    }

    /// The trace of the size, where there is one.
    pub open spec fn size_trace<'a>(&'a self) -> Seq<IRNode<'a>> {
        match self.size {
            Some(size) => size.trace(),
            None => Seq::empty(),
        }
    }

    /// The traces of the values in order, where there are values.
    pub open spec fn values_trace<'a>(&'a self) -> Seq<IRNode<'a>> {
        match self.values {
            Some(values) => chain(operand_traces(values@)),
            None => Seq::empty(),
        }
    }

    /// The node itself, then the size and the values as far as they are
    /// present.
    pub open spec fn trace<'a>(&'a self) -> Seq<IRNode<'a>> {
        seq![IRNode::GlobalData(self)] + self.size_trace() + self.values_trace()
    }

    /// Lets the visitor enter this node, then the size, then the values in
    /// order.
    pub fn accept<V: IRVisitorImpl>(&self, visitor: &mut V)
        ensures
            final(visitor).state() == walk::<V>(old(visitor).state(), self.trace()),
    {
        broadcast use {lemma_walk_one, lemma_walk_none, lemma_walk_concat};

        visitor.enter(IRNode::GlobalData(self));
        match &self.size {
            Some(size) => {
                size.accept(visitor);
            },
            None => {},
        }
        match &self.values {
            Some(values) => {
                accept_operands(values, visitor);
            },
            None => {},
        }
    }
}

/// The statically allocated data of a module, in order of declaration.
#[derive(Debug, Clone, PartialEq, Eq)]
pub struct IRGlobalDataSection {
    pub data: Vec<IRGlobalData>,
}

impl IRGlobalDataSection {
    pub fn new() -> (s: Self)
        ensures
            s.data@ == Seq::<IRGlobalData>::empty(),
    {
        Self { data: Vec::new() }
    }

    /// The text of each datum, in order.
    pub open spec fn data_texts(&self) -> Seq<Seq<char>> {
        Seq::new(self.data@.len(), |i: int| self.data@[i].render())
    }

    pub open spec fn render(&self) -> Seq<char> {
        "IRGlobalDataSection{data=["@ + join(self.data_texts(), ", "@) + "]}"@
    }

    pub fn to_string(&self) -> (s: String)
        ensures
            s@ == self.render(),
    {
        let mut parts: Vec<String> = Vec::new();
        let mut i: usize = 0;
        while i < self.data.len()
            invariant
                i <= self.data.len(),
                parts@.len() == i,
                forall|j: int| 0 <= j < i ==> (#[trigger] parts@[j])@ == self.data@[j].render(),
            decreases self.data.len() - i,
        {
            parts.push(self.data[i].to_string());
            i = i + 1;
        }
        assert(views(parts@) =~= self.data_texts());
        let mut s = String::from_str("IRGlobalDataSection{data=[");
        s.append(join_strings(&parts, ", ").as_str());
        s.append("]}");
        s
    }

    /// The trace of each datum, in order.
    pub open spec fn data_traces<'a>(&'a self) -> Seq<Seq<IRNode<'a>>> {
        Seq::new(self.data@.len(), |i: int| self.data@[i].trace())
    }

    /// The node itself, then each datum with all that is below it.
    pub open spec fn trace<'a>(&'a self) -> Seq<IRNode<'a>> {
        seq![IRNode::GlobalDataSection(self)] + chain(self.data_traces())
    }

    /// Lets the visitor enter this node, then the data in order.
    pub fn accept<V: IRVisitorImpl>(&self, visitor: &mut V)
        ensures
            final(visitor).state() == walk::<V>(old(visitor).state(), self.trace()),
    {
        broadcast use {lemma_walk_one, lemma_walk_none, lemma_walk_concat};

        visitor.enter(IRNode::GlobalDataSection(self));
        let ghost start = visitor.state();
        let mut i: usize = 0;
        while i < self.data.len()
            invariant
                i <= self.data.len(),
                visitor.state() == walk::<V>(start, chain_prefix(self.data_traces(), i as nat)),
            decreases self.data.len() - i,
        {
            let ghost before = visitor.state();
            self.data[i].accept(visitor);
            proof {
                lemma_walk_step::<V>(start, self.data_traces(), i as nat, before, visitor.state());
            }
            i = i + 1;
        }
    }

    /// The section is one node more than its data together.
    pub proof fn lemma_trace_len(&self)
        ensures
            self.trace().len() == 1 + total_len(self.data_traces(), self.data@.len()),
    {
        lemma_chain_len(self.data_traces(), self.data@.len());
    }
}

/// A straight-line sequence of instructions, named within its graph.
#[derive(Debug, Clone, PartialEq, Eq)]
pub struct IRBasicBlock {
    pub name: String,
    pub instructions: Vec<Box<IRInstruction>>,
}

impl IRBasicBlock {
    pub fn new(name: String) -> (b: Self)
        ensures
            b.name == name,
            b.instructions@ == Seq::<Box<IRInstruction>>::empty(),
    {
        Self { name, instructions: Vec::new() }
    }

    /// The text of each instruction, in order.
    pub open spec fn instruction_texts(&self) -> Seq<Seq<char>> {
        Seq::new(self.instructions@.len(), |i: int| self.instructions@[i].render())
    }

    pub open spec fn render(&self) -> Seq<char> {
        "IRBasicBlock[name="@ + self.name@ + ", instructions=["@ + join(
            self.instruction_texts(),
            ", "@,
        ) + "]]"@
    }

    pub fn to_string(&self) -> (s: String)
        ensures
            s@ == self.render(),
    {
        let mut parts: Vec<String> = Vec::new();
        let mut i: usize = 0;
        while i < self.instructions.len()
            invariant
                i <= self.instructions.len(),
                parts@.len() == i,
                forall|j: int|
                    0 <= j < i ==> (#[trigger] parts@[j])@ == self.instructions@[j].render(),
            decreases self.instructions.len() - i,
        {
            parts.push(self.instructions[i].to_string());
            i = i + 1;
        }
        assert(views(parts@) =~= self.instruction_texts());
        let mut s = String::from_str("IRBasicBlock[name=");
        s.append(self.name.as_str());
        s.append(", instructions=[");
        s.append(join_strings(&parts, ", ").as_str());
        s.append("]]");
        s
    }

    /// The trace of each instruction, in order.
    pub open spec fn instruction_traces<'a>(&'a self) -> Seq<Seq<IRNode<'a>>> {
        Seq::new(self.instructions@.len(), |i: int| self.instructions@[i].trace())
    }

    /// The instructions in order, each with all that is below it. The block
    /// itself is no node of the traversal.
    pub open spec fn trace<'a>(&'a self) -> Seq<IRNode<'a>> {
        chain(self.instruction_traces())
    }

    /// Lets the visitor traverse the instructions in order.
    pub fn accept<V: IRVisitorImpl>(&self, visitor: &mut V)
        ensures
            final(visitor).state() == walk::<V>(old(visitor).state(), self.trace()),
    {
        broadcast use {lemma_walk_one, lemma_walk_none, lemma_walk_concat};

        let ghost start = visitor.state();
        let mut i: usize = 0;
        while i < self.instructions.len()
            invariant
                i <= self.instructions.len(),
                visitor.state() == walk::<V>(
                    start,
                    chain_prefix(self.instruction_traces(), i as nat),
                ),
            decreases self.instructions.len() - i,
        {
            let ghost before = visitor.state();
            self.instructions[i].accept(visitor);
            proof {
                lemma_walk_step::<V>(
                    start,
                    self.instruction_traces(),
                    i as nat,
                    before,
                    visitor.state(),
                );
            }
            i = i + 1;
        }
    }

    /// A block contributes the nodes of its instructions and none of its own.
    pub proof fn lemma_trace_len(&self)
        ensures
            self.trace().len() == total_len(self.instruction_traces(), self.instructions@.len()),
    {
        lemma_chain_len(self.instruction_traces(), self.instructions@.len());
    }
}

/// Whether `row` holds `id`.
fn row_contains(row: &Vec<usize>, id: usize) -> (found: bool)
    ensures
        found == row@.contains(id),
{
    let mut i: usize = 0;
    while i < row.len()
        invariant
            i <= row.len(),
            forall|j: int| 0 <= j < i ==> row@[j] != id,
        decreases row.len() - i,
    {
        if row[i] == id {
            return true;
        }
        i = i + 1;
    }
    false
}

/// Whether every id in the rows is below `n`.
pub open spec fn rows_below(rows: Seq<Vec<usize>>, n: nat) -> bool {
    forall|a: int, k: int|
        0 <= a < rows.len() && 0 <= k < rows[a]@.len() ==> #[trigger] rows[a]@[k] < n
}

/// Whether no row holds an id twice.
pub open spec fn rows_without_duplicates(rows: Seq<Vec<usize>>) -> bool {
    forall|a: int| 0 <= a < rows.len() ==> (#[trigger] rows[a])@.no_duplicates()
}

/// Whether each id `b` in row `a` of `rows` finds `a` in row `b` of `other`.
pub open spec fn rows_mirrored(rows: Seq<Vec<usize>>, other: Seq<Vec<usize>>) -> bool {
    forall|a: int, k: int|
        0 <= a < rows.len() && 0 <= k < rows[a]@.len() ==> {
            &&& (#[trigger] rows[a]@[k]) < other.len()
            &&& other[rows[a]@[k] as int]@.contains(a as usize)
        }
}

fn check_rows_below(rows: &Vec<Vec<usize>>, n: usize) -> (ok: bool)
    ensures
        ok == rows_below(rows@, n as nat),
{
    let mut a: usize = 0;
    while a < rows.len()
        invariant
            a <= rows.len(),
            forall|x: int, k: int|
                0 <= x < a && 0 <= k < rows@[x]@.len() ==> #[trigger] rows@[x]@[k] < n,
        decreases rows.len() - a,
    {
        let row = &rows[a];
        let mut k: usize = 0;
        while k < row.len()
            invariant
                k <= row.len(),
                a < rows.len(),
                *row == rows@[a as int],
                forall|j: int| 0 <= j < k ==> #[trigger] row@[j] < n,
            decreases row.len() - k,
        {
            if row[k] >= n {
                assert(!(rows@[a as int]@[k as int] < n));
                return false;
            }
            k = k + 1;
        }
        a = a + 1;
    }
    true
}

fn check_row_without_duplicates(row: &Vec<usize>) -> (ok: bool)
    ensures
        ok == row@.no_duplicates(),
{
    let mut k: usize = 0;
    while k < row.len()
        invariant
            k <= row.len(),
            forall|i: int, j: int| 0 <= i < j < k ==> row@[i] != row@[j],
        decreases row.len() - k,
    {
        let mut j: usize = 0;
        while j < k
            invariant
                j <= k,
                k < row.len(),
                forall|i: int| 0 <= i < j ==> row@[i] != row@[k as int],
            decreases k - j,
        {
            if row[j] == row[k] {
                return false;
            }
            j = j + 1;
        }
        k = k + 1;
    }
    assert forall|i: int, j: int|
        0 <= i < row@.len() && 0 <= j < row@.len() && i != j implies row@[i] != row@[j] by {
        if i < j {
        } else {
            assert(row@[j] != row@[i]);
        }
    }
    true
}

fn check_rows_without_duplicates(rows: &Vec<Vec<usize>>) -> (ok: bool)
    ensures
        ok == rows_without_duplicates(rows@),
{
    let mut a: usize = 0;
    while a < rows.len()
        invariant
            a <= rows.len(),
            forall|x: int| 0 <= x < a ==> (#[trigger] rows@[x])@.no_duplicates(),
        decreases rows.len() - a,
    {
        if !check_row_without_duplicates(&rows[a]) {
            return false;
        }
        a = a + 1;
    }
    true
}

fn check_rows_mirrored(rows: &Vec<Vec<usize>>, other: &Vec<Vec<usize>>) -> (ok: bool)
    ensures
        ok == rows_mirrored(rows@, other@),
{
    let mut a: usize = 0;
    while a < rows.len()
        invariant
            a <= rows.len(),
            forall|x: int, k: int|
                0 <= x < a && 0 <= k < rows@[x]@.len() ==> {
                    &&& (#[trigger] rows@[x]@[k]) < other@.len()
                    &&& other@[rows@[x]@[k] as int]@.contains(x as usize)
                },
        decreases rows.len() - a,
    {
        let row = &rows[a];
        let mut k: usize = 0;
        while k < row.len()
            invariant
                k <= row.len(),
                a < rows.len(),
                *row == rows@[a as int],
                forall|j: int|
                    0 <= j < k ==> {
                        &&& (#[trigger] row@[j]) < other@.len()
                        &&& other@[row@[j] as int]@.contains(a)
                    },
            decreases row.len() - k,
        {
            let b = row[k];
            if b >= other.len() {
                assert(!(rows@[a as int]@[k as int] < other@.len()));
                return false;
            }
            if !row_contains(&other[b], a) {
                assert(!other@[rows@[a as int]@[k as int] as int]@.contains(a as usize));
                return false;
            }
            k = k + 1;
        }
        a = a + 1;
    }
    true
}

/// The flow graph of a function or of the global initialisation: named basic
/// blocks in insertion order, and the transfers between them.
///
/// A block is known to the edge relation by its position in the insertion
/// order. `out_edges[a]` lists the successors of block `a`, `in_edges[b]` the
/// predecessors of block `b`.
#[derive(Debug, Clone, PartialEq, Eq)]
pub struct IRControlFlowGraph {
    pub basic_blocks: IndexMap<String, Box<IRBasicBlock>>,
    pub out_edges: Vec<Vec<usize>>,
    pub in_edges: Vec<Vec<usize>>,
}

impl IRControlFlowGraph {
    /// The blocks of the graph, each with the name it is kept under, in
    /// insertion order.
    pub open spec fn blocks(&self) -> Seq<(Seq<char>, IRBasicBlock)> {
        block_entries(self.basic_blocks)
    }

    /// Whether control may pass from block `a` to block `b`.
    pub open spec fn has_edge(&self, a: int, b: int) -> bool {
        0 <= a < self.out_edges@.len() && 0 <= b <= usize::MAX && self.out_edges@[a]@.contains(
            b as usize,
        )
    }

    /// Whether block `b` lists block `a` among its predecessors.
    pub open spec fn has_back_edge(&self, b: int, a: int) -> bool {
        0 <= b < self.in_edges@.len() && 0 <= a <= usize::MAX && self.in_edges@[b]@.contains(
            a as usize,
        )
    }

    /// The number of predecessors that block `b` lists.
    pub open spec fn in_degree(&self, b: int) -> nat {
        if 0 <= b < self.in_edges@.len() {
            self.in_edges@[b]@.len()
        } else {
            0
        }
    }

    /// The edge relation fits the blocks: every block has a row of
    /// successors and a row of predecessors, the rows name blocks of the
    /// graph, none of them twice, and `b` is a successor of `a` exactly when
    /// `a` is a predecessor of `b`.
    pub open spec fn edges_consistent(&self) -> bool {
        &&& self.out_edges@.len() == self.blocks().len()
        &&& self.in_edges@.len() == self.blocks().len()
        &&& forall|a: int, k: int|
            0 <= a < self.out_edges@.len() && 0 <= k < self.out_edges@[a]@.len()
                ==> #[trigger] self.out_edges@[a]@[k] < self.blocks().len()
        &&& forall|b: int, k: int|
            0 <= b < self.in_edges@.len() && 0 <= k < self.in_edges@[b]@.len()
                ==> #[trigger] self.in_edges@[b]@[k] < self.blocks().len()
        &&& rows_without_duplicates(self.out_edges@)
        &&& rows_without_duplicates(self.in_edges@)
        &&& forall|a: int, b: int| #[trigger]
            self.has_edge(a, b) <==> #[trigger] self.has_back_edge(b, a)
    }

    /// A graph without blocks and without edges.
    pub fn new() -> (g: Self)
        ensures
            g.blocks() == Seq::<(Seq<char>, IRBasicBlock)>::empty(),
            g.out_edges@ == Seq::<Vec<usize>>::empty(),
            g.in_edges@ == Seq::<Vec<usize>>::empty(),
            g.edges_consistent(),
    {
        Self { basic_blocks: blocks_new(), out_edges: Vec::new(), in_edges: Vec::new() }
    }

    /// Puts the block under its own name. A block of that name already in
    /// the graph is replaced where it stands, and keeps its edges; a block
    /// of a new name goes last, without edges.
    pub fn add_basic_block(&mut self, basic_block: Box<IRBasicBlock>)
        ensures
            final(self).blocks() == put(old(self).blocks(), basic_block.name@, *basic_block),
            position_of(old(self).blocks(), basic_block.name@) is Some ==> {
                &&& final(self).out_edges == old(self).out_edges
                &&& final(self).in_edges == old(self).in_edges
            },
            position_of(old(self).blocks(), basic_block.name@) is None ==> {
                &&& final(self).out_edges@.len() == old(self).out_edges@.len() + 1
                &&& final(self).in_edges@.len() == old(self).in_edges@.len() + 1
                &&& final(self).out_edges@.drop_last() == old(self).out_edges@
                &&& final(self).in_edges@.drop_last() == old(self).in_edges@
                &&& final(self).out_edges@.last()@ == Seq::<usize>::empty()
                &&& final(self).in_edges@.last()@ == Seq::<usize>::empty()
            },
            old(self).edges_consistent() ==> final(self).edges_consistent(),
    {
        let name = basic_block.name.clone();
        let ghost before = self.blocks();
        let ghost key = basic_block.name@;
        let replaced = blocks_insert(&mut self.basic_blocks, name, basic_block);
        match replaced {
            Some(previous) => {
                proof {
                    let i = choose|i: int|
                        {
                            &&& names_only(before, key, i)
                            &&& #[trigger] before[i].1 == *previous
                            &&& self.blocks() == before.update(i, (key, *basic_block))
                        };
                    lemma_position_of_only(before, key, i);
                    if old(self).edges_consistent() {
                        assert(self.blocks().len() == before.len());
                        assert forall|a: int, b: int| #[trigger]
                            self.has_edge(a, b) <==> #[trigger] self.has_back_edge(b, a) by {
                            assert(old(self).has_edge(a, b) <==> old(self).has_back_edge(b, a));
                        }
                    }
                }
            },
            None => {
                proof {
                    lemma_position_of_none(before, key);
                }
                self.out_edges.push(Vec::new());
                self.in_edges.push(Vec::new());
                proof {
                    assert(final(self).out_edges@.drop_last() =~= old(self).out_edges@);
                    assert(final(self).in_edges@.drop_last() =~= old(self).in_edges@);
                    if old(self).edges_consistent() {
                        let n = before.len() as int;
                        assert forall|a: int, b: int| #[trigger]
                            self.has_edge(a, b) <==> #[trigger] self.has_back_edge(b, a) by {
                            if 0 <= a < n {
                                assert(self.out_edges@[a] == old(self).out_edges@[a]);
                            }
                            if 0 <= b < n {
                                assert(self.in_edges@[b] == old(self).in_edges@[b]);
                            }
                            assert(old(self).has_edge(a, b) <==> old(self).has_back_edge(b, a));
                            if self.has_edge(a, b) {
                                assert(a < n);
                                let k = choose|k: int|
                                    0 <= k < old(self).out_edges@[a]@.len() && old(
                                        self,
                                    ).out_edges@[a]@[k] == b as usize;
                                assert(old(self).out_edges@[a]@[k] < n);
                            }
                            if self.has_back_edge(b, a) {
                                assert(b < n);
                                let k = choose|k: int|
                                    0 <= k < old(self).in_edges@[b]@.len() && old(
                                        self,
                                    ).in_edges@[b]@[k] == a as usize;
                                assert(old(self).in_edges@[b]@[k] < n);
                            }
                        }
                        assert forall|a: int, k: int|
                            0 <= a < self.out_edges@.len() && 0 <= k < self.out_edges@[a]@.len()
                            implies #[trigger] self.out_edges@[a]@[k] < self.blocks().len() by {
                            assert(self.out_edges@[a] == old(self).out_edges@[a]);
                        }
                        assert forall|b: int, k: int|
                            0 <= b < self.in_edges@.len() && 0 <= k < self.in_edges@[b]@.len()
                            implies #[trigger] self.in_edges@[b]@[k] < self.blocks().len() by {
                            assert(self.in_edges@[b] == old(self).in_edges@[b]);
                        }
                    }
                }
            },
        }
    }

    /// The rows of an edge list after `id` was entered in row `row`, unless
    /// it stood there already.
    pub open spec fn with_entry(
        rows: Seq<Vec<usize>>,
        after: Seq<Vec<usize>>,
        row: int,
        id: usize,
    ) -> bool {
        &&& after.len() == rows.len()
        &&& forall|r: int| 0 <= r < rows.len() && r != row ==> #[trigger] after[r] == rows[r]
        &&& 0 <= row < rows.len()
        &&& after[row]@ == if rows[row]@.contains(id) {
            rows[row]@
        } else {
            rows[row]@.push(id)
        }
    }

    /// Records that control may pass from the block named `from` to the
    /// block named `to`: `to` becomes a successor of `from`, and `from` a
    /// predecessor of `to`. An edge that is already there is not entered
    /// twice.
    ///
    /// Returns whether the edge is now in the graph. It is not where one of
    /// the names is no block of the graph, or where the block has no row in
    /// the edge lists, and then nothing changes.
    pub fn add_edge(&mut self, from: &str, to: &str) -> (added: bool)
        ensures
            final(self).basic_blocks == old(self).basic_blocks,
            added <==> {
                &&& position_of(old(self).blocks(), from@) matches Some(a)
                &&& position_of(old(self).blocks(), to@) matches Some(b)
                &&& a < old(self).out_edges@.len()
                &&& b < old(self).in_edges@.len()
            },
            added ==> {
                &&& position_of(old(self).blocks(), from@) matches Some(a)
                &&& position_of(old(self).blocks(), to@) matches Some(b)
                &&& Self::with_entry(old(self).out_edges@, final(self).out_edges@, a, b as usize)
                &&& Self::with_entry(old(self).in_edges@, final(self).in_edges@, b, a as usize)
                &&& final(self).has_edge(a, b)
                &&& final(self).has_back_edge(b, a)
            },
            !added ==> *final(self) == *old(self),
            old(self).edges_consistent() ==> final(self).edges_consistent(),
    {
        let a = match blocks_get_index_of(&self.basic_blocks, from) {
            Some(a) => a,
            None => {
                proof {
                    lemma_position_of_none(self.blocks(), from@);
                }
                return false;
            },
        };
        let b = match blocks_get_index_of(&self.basic_blocks, to) {
            Some(b) => b,
            None => {
                proof {
                    lemma_position_of_none(self.blocks(), to@);
                }
                return false;
            },
        };
        proof {
            lemma_position_of_only(self.blocks(), from@, a as int);
            lemma_position_of_only(self.blocks(), to@, b as int);
        }
        if a >= self.out_edges.len() || b >= self.in_edges.len() {
            return false;
        }
        if !row_contains(&self.out_edges[a], b) {
            self.out_edges[a].push(b);
        }
        if !row_contains(&self.in_edges[b], a) {
            self.in_edges[b].push(a);
        }
        proof {
            assert(Self::with_entry(old(self).out_edges@, self.out_edges@, a as int, b));
            assert(Self::with_entry(old(self).in_edges@, self.in_edges@, b as int, a));
            Self::lemma_entry_holds(old(self).out_edges@, self.out_edges@, a as int, b);
            Self::lemma_entry_holds(old(self).in_edges@, self.in_edges@, b as int, a);
            if old(self).edges_consistent() {
                Self::lemma_add_edge_consistent(*old(self), *self, a, b);
            }
        }
        true
    }

    /// After an entry the row holds what it held before, and the new id.
    pub proof fn lemma_entry_holds(
        rows: Seq<Vec<usize>>,
        after: Seq<Vec<usize>>,
        row: int,
        id: usize,
    )
        requires
            Self::with_entry(rows, after, row, id),
        ensures
            forall|x: usize| #[trigger]
                after[row]@.contains(x) <==> rows[row]@.contains(x) || x == id,
            rows[row]@.no_duplicates() ==> after[row]@.no_duplicates(),
    {
        let before = rows[row]@;
        if before.contains(id) {
        } else {
            let grown = before.push(id);
            assert forall|x: usize| #[trigger]
                grown.contains(x) <==> before.contains(x) || x == id by {
                if grown.contains(x) {
                    let k = choose|k: int| 0 <= k < grown.len() && grown[k] == x;
                    if k < before.len() {
                        assert(before[k] == x);
                    }
                }
                if before.contains(x) {
                    let k = choose|k: int| 0 <= k < before.len() && before[k] == x;
                    assert(grown[k] == x);
                }
                if x == id {
                    assert(grown[before.len() as int] == x);
                }
            }
            if before.no_duplicates() {
                assert forall|i: int, j: int|
                    0 <= i < grown.len() && 0 <= j < grown.len() && i != j implies grown[i]
                    != grown[j] by {
                    if i < before.len() && j < before.len() {
                    } else if i < before.len() {
                        assert(before.contains(grown[i]));
                    } else {
                        assert(before.contains(grown[j]));
                    }
                }
            }
        }
    }

    /// Entering the edge from `a` to `b` in both lists keeps a consistent
    /// edge relation consistent.
    pub proof fn lemma_add_edge_consistent(before: Self, after: Self, a: usize, b: usize)
        requires
            before.edges_consistent(),
            after.blocks() == before.blocks(),
            a < before.blocks().len(),
            b < before.blocks().len(),
            Self::with_entry(before.out_edges@, after.out_edges@, a as int, b),
            Self::with_entry(before.in_edges@, after.in_edges@, b as int, a),
        ensures
            after.edges_consistent(),
            forall|x: int, y: int| #[trigger]
                after.has_edge(x, y) <==> before.has_edge(x, y) || (x == a && y == b),
    {
        Self::lemma_entry_holds(before.out_edges@, after.out_edges@, a as int, b);
        Self::lemma_entry_holds(before.in_edges@, after.in_edges@, b as int, a);
        let n = before.blocks().len() as int;
        assert forall|x: int, y: int| #[trigger]
            after.has_edge(x, y) <==> before.has_edge(x, y) || (x == a && y == b) by {
            if 0 <= x < n && 0 <= y <= usize::MAX {
                if x == a {
                    let id = y as usize;
                    assert(after.out_edges@[a as int]@.contains(id)
                        <==> before.out_edges@[a as int]@.contains(id) || id == b);
                } else {
                    assert(after.out_edges@[x] == before.out_edges@[x]);
                }
            }
        }
        assert forall|y: int, x: int| #[trigger]
            after.has_back_edge(y, x) <==> before.has_back_edge(y, x) || (x == a && y == b) by {
            if 0 <= y < n && 0 <= x <= usize::MAX {
                if y == b {
                    let id = x as usize;
                    assert(after.in_edges@[b as int]@.contains(id)
                        <==> before.in_edges@[b as int]@.contains(id) || id == a);
                } else {
                    assert(after.in_edges@[y] == before.in_edges@[y]);
                }
            }
        }
        assert forall|x: int, y: int| #[trigger]
            after.has_edge(x, y) <==> #[trigger] after.has_back_edge(y, x) by {
            assert(before.has_edge(x, y) <==> before.has_back_edge(y, x));
        }
        assert forall|x: int, k: int|
            0 <= x < after.out_edges@.len() && 0 <= k < after.out_edges@[x]@.len()
            implies #[trigger] after.out_edges@[x]@[k] < after.blocks().len() by {
            if x == a {
                let v = after.out_edges@[x]@[k];
                assert(after.out_edges@[a as int]@.contains(v));
                if before.out_edges@[a as int]@.contains(v) {
                    let row = before.out_edges@[a as int]@;
                    let j = choose|j: int| 0 <= j < row.len() && row[j] == v;
                    assert(before.out_edges@[a as int]@[j] < n);
                }
            } else {
                assert(after.out_edges@[x] == before.out_edges@[x]);
            }
        }
        assert forall|y: int, k: int|
            0 <= y < after.in_edges@.len() && 0 <= k < after.in_edges@[y]@.len()
            implies #[trigger] after.in_edges@[y]@[k] < after.blocks().len() by {
            if y == b {
                let v = after.in_edges@[y]@[k];
                assert(after.in_edges@[b as int]@.contains(v));
                if before.in_edges@[b as int]@.contains(v) {
                    let row = before.in_edges@[b as int]@;
                    let j = choose|j: int| 0 <= j < row.len() && row[j] == v;
                    assert(before.in_edges@[b as int]@[j] < n);
                }
            } else {
                assert(after.in_edges@[y] == before.in_edges@[y]);
            }
        }
        assert forall|x: int| 0 <= x < after.out_edges@.len() implies (#[trigger]
            after.out_edges@[x])@.no_duplicates() by {
            if x != a {
                assert(after.out_edges@[x] == before.out_edges@[x]);
            }
        }
        assert forall|y: int| 0 <= y < after.in_edges@.len() implies (#[trigger]
            after.in_edges@[y])@.no_duplicates() by {
            if y != b {
                assert(after.in_edges@[y] == before.in_edges@[y]);
            }
        }
    }

    /// The text of each block, in insertion order.
    pub open spec fn block_texts(&self) -> Seq<Seq<char>> {
        Seq::new(self.blocks().len(), |i: int| self.blocks()[i].1.render())
    }

    /// The blocks in insertion order. The edge lists are not part of the
    /// text: their place in it is always empty.
    pub open spec fn render(&self) -> Seq<char> {
        "IRControlFlowGraph{basicBlocks=["@ + join(self.block_texts(), ", "@)
            + "], outEdges=[], inEdges=[]}"@
    }

    pub fn to_string(&self) -> (s: String)
        ensures
            s@ == self.render(),
    {
        let n = blocks_len(&self.basic_blocks);
        let mut parts: Vec<String> = Vec::new();
        let mut i: usize = 0;
        while i < n
            invariant
                i <= n,
                n == self.blocks().len(),
                parts@.len() == i,
                forall|j: int|
                    0 <= j < i ==> (#[trigger] parts@[j])@ == self.blocks()[j].1.render(),
            decreases n - i,
        {
            match blocks_get_index(&self.basic_blocks, i) {
                Some((_, block)) => {
                    parts.push(block.to_string());
                },
                None => vstd::pervasive::unreached(),
            }
            i = i + 1;
        }
        assert(views(parts@) =~= self.block_texts());
        let mut s = String::from_str("IRControlFlowGraph{basicBlocks=[");
        s.append(join_strings(&parts, ", ").as_str());
        s.append("], outEdges=[], inEdges=[]}");
        s
    }

    /// The trace of each block, in insertion order.
    pub open spec fn block_traces<'a>(&'a self) -> Seq<Seq<IRNode<'a>>> {
        Seq::new(self.blocks().len(), |i: int| self.blocks()[i].1.trace())
    }

    /// The instructions of the blocks, block by block in insertion order.
    /// Neither the graph nor a block is a node of the traversal, and the
    /// edges play no part in it.
    pub open spec fn trace<'a>(&'a self) -> Seq<IRNode<'a>> {
        chain(self.block_traces())
    }

    /// Lets the visitor traverse the blocks in insertion order.
    pub fn accept<V: IRVisitorImpl>(&self, visitor: &mut V)
        ensures
            final(visitor).state() == walk::<V>(old(visitor).state(), self.trace()),
    {
        broadcast use {lemma_walk_one, lemma_walk_none, lemma_walk_concat};

        let ghost start = visitor.state();
        let n = blocks_len(&self.basic_blocks);
        let mut i: usize = 0;
        while i < n
            invariant
                i <= n,
                n == self.blocks().len(),
                visitor.state() == walk::<V>(start, chain_prefix(self.block_traces(), i as nat)),
            decreases n - i,
        {
            let ghost before = visitor.state();
            match blocks_get_index(&self.basic_blocks, i) {
                Some((_, block)) => {
                    block.accept(visitor);
                },
                None => vstd::pervasive::unreached(),
            }
            proof {
                lemma_walk_step::<V>(start, self.block_traces(), i as nat, before, visitor.state());
            }
            i = i + 1;
        }
    }

    /// A graph contributes the nodes of its blocks and none of its own.
    pub proof fn lemma_trace_len(&self)
        ensures
            self.trace().len() == total_len(self.block_traces(), self.blocks().len()),
    {
        lemma_chain_len(self.block_traces(), self.blocks().len());
    }

    /// In a graph whose edge relation is consistent, `b` is a successor of
    /// `a` exactly when `a` is a predecessor of `b`.
    pub proof fn lemma_edges_symmetric(&self, a: int, b: int)
        requires
            self.edges_consistent(),
        ensures
            self.has_edge(a, b) <==> self.has_back_edge(b, a),
    {
    }

    /// Where the rows are as many as the blocks and name blocks only, the
    /// two edge lists mirror each other exactly when `b` is a successor of
    /// `a` whenever `a` is a predecessor of `b`, and the other way round.
    pub proof fn lemma_mirrored_is_symmetric(&self)
        requires
            self.out_edges@.len() == self.blocks().len(),
            self.in_edges@.len() == self.blocks().len(),
            rows_below(self.out_edges@, self.blocks().len()),
            rows_below(self.in_edges@, self.blocks().len()),
        ensures
            (rows_mirrored(self.out_edges@, self.in_edges@) && rows_mirrored(
                self.in_edges@,
                self.out_edges@,
            )) <==> (forall|a: int, b: int| #[trigger]
                self.has_edge(a, b) <==> #[trigger] self.has_back_edge(b, a)),
    {
        assert(self.out_edges@.len() == self.out_edges.len());
        assert(self.in_edges@.len() == self.in_edges.len());
        if rows_mirrored(self.out_edges@, self.in_edges@) && rows_mirrored(
            self.in_edges@,
            self.out_edges@,
        ) {
            assert forall|a: int, b: int| #[trigger]
                self.has_edge(a, b) <==> #[trigger] self.has_back_edge(b, a) by {
                if self.has_edge(a, b) {
                    let row = self.out_edges@[a]@;
                    let k = choose|k: int| 0 <= k < row.len() && row[k] == b as usize;
                    assert(self.out_edges@[a]@[k] < self.in_edges@.len());
                    assert(self.in_edges@[self.out_edges@[a]@[k] as int]@.contains(a as usize));
                    assert(self.has_back_edge(b, a));
                }
                if self.has_back_edge(b, a) {
                    let row = self.in_edges@[b]@;
                    let k = choose|k: int| 0 <= k < row.len() && row[k] == a as usize;
                    assert(self.in_edges@[b]@[k] < self.out_edges@.len());
                    assert(self.out_edges@[self.in_edges@[b]@[k] as int]@.contains(b as usize));
                    assert(self.has_edge(a, b));
                }
            }
        }
        if forall|a: int, b: int| #[trigger]
            self.has_edge(a, b) <==> #[trigger] self.has_back_edge(b, a) {
            assert forall|a: int, k: int|
                0 <= a < self.out_edges@.len() && 0 <= k < self.out_edges@[a]@.len() implies {
                &&& (#[trigger] self.out_edges@[a]@[k]) < self.in_edges@.len()
                &&& self.in_edges@[self.out_edges@[a]@[k] as int]@.contains(a as usize)
            } by {
                let b = self.out_edges@[a]@[k];
                assert(self.out_edges@[a]@.contains(b));
                assert(self.has_edge(a, b as int));
                assert(self.has_back_edge(b as int, a));
            }
            assert forall|b: int, k: int|
                0 <= b < self.in_edges@.len() && 0 <= k < self.in_edges@[b]@.len() implies {
                &&& (#[trigger] self.in_edges@[b]@[k]) < self.out_edges@.len()
                &&& self.out_edges@[self.in_edges@[b]@[k] as int]@.contains(b as usize)
            } by {
                let a = self.in_edges@[b]@[k];
                assert(self.in_edges@[b]@.contains(a));
                assert(self.has_back_edge(b, a as int));
                assert(self.has_edge(a as int, b));
            }
        }
    }

    /// Decides whether the edge relation is consistent.
    pub fn edges_are_consistent(&self) -> (ok: bool)
        ensures
            ok == self.edges_consistent(),
    {
        let n = blocks_len(&self.basic_blocks);
        if self.out_edges.len() != n || self.in_edges.len() != n {
            return false;
        }
        if !check_rows_below(&self.out_edges, n) || !check_rows_below(&self.in_edges, n) {
            return false;
        }
        if !check_rows_without_duplicates(&self.out_edges) || !check_rows_without_duplicates(
            &self.in_edges,
        ) {
            return false;
        }
        proof {
            self.lemma_mirrored_is_symmetric();
        }
        check_rows_mirrored(&self.out_edges, &self.in_edges) && check_rows_mirrored(
            &self.in_edges,
            &self.out_edges,
        )
    }
}

/// A callable unit: its signature, its frame and its flow graph.
///
/// The first `arguments_count` fields are the parameters; the others are
/// locals.
#[derive(Debug, Clone, PartialEq, Eq)]
pub struct IRFunction {
    pub return_type: Box<IRType>,
    pub name: String,
    pub arguments_count: usize,
    pub fields: Vec<Box<IRField>>,
    pub control_flow_graph: Box<IRControlFlowGraph>,
}

impl IRFunction {
    pub fn new(
        return_type: Box<IRType>,
        name: String,
        arguments_count: usize,
        fields: Vec<Box<IRField>>,
        control_flow_graph: Box<IRControlFlowGraph>,
    ) -> (f: Self)
        ensures
            f == (IRFunction { return_type, name, arguments_count, fields, control_flow_graph }),
    {
        IRFunction { return_type, name, arguments_count, fields, control_flow_graph }
    }

    /// The text of each field, parameters first.
    pub open spec fn field_texts(&self) -> Seq<Seq<char>> {
        Seq::new(self.fields@.len(), |i: int| self.fields@[i].render())
    }

    pub open spec fn render(&self) -> Seq<char> {
        "IRFunction{returnType="@ + self.return_type.render() + ", name='"@ + self.name@
            + "', argumentsCount="@ + nat_decimal(self.arguments_count as nat) + ", fields=["@
            + join(self.field_texts(), ", "@) + "], controlFlowGraph="@
            + self.control_flow_graph.render() + "}"@
    }

    pub fn to_string(&self) -> (s: String)
        ensures
            s@ == self.render(),
    {
        let mut parts: Vec<String> = Vec::new();
        let mut i: usize = 0;
        while i < self.fields.len()
            invariant
                i <= self.fields.len(),
                parts@.len() == i,
                forall|j: int| 0 <= j < i ==> (#[trigger] parts@[j])@ == self.fields@[j].render(),
            decreases self.fields.len() - i,
        {
            parts.push(self.fields[i].to_string());
            i = i + 1;
        }
        assert(views(parts@) =~= self.field_texts());
        let mut s = String::from_str("IRFunction{returnType=");
        s.append(self.return_type.to_string().as_str());
        s.append(", name='");
        s.append(self.name.as_str());
        s.append("', argumentsCount=");
        s.append(usize_to_string(self.arguments_count).as_str());
        s.append(", fields=[");
        s.append(join_strings(&parts, ", ").as_str());
        s.append("], controlFlowGraph=");
        s.append(self.control_flow_graph.to_string().as_str());
        s.append("}");
        s
    }

    /// The trace of each field, parameters first.
    pub open spec fn field_traces<'a>(&'a self) -> Seq<Seq<IRNode<'a>>> {
        Seq::new(self.fields@.len(), |i: int| self.fields@[i].trace())
    }

    /// The node itself, then the return type, the fields in order, and the
    /// instructions block by block.
    pub open spec fn trace<'a>(&'a self) -> Seq<IRNode<'a>> {
        seq![IRNode::Function(self)] + self.return_type.trace() + chain(self.field_traces())
            + self.control_flow_graph.trace()
    }

    /// Lets the visitor enter this node, then the return type, the fields
    /// and the instructions.
    pub fn accept<V: IRVisitorImpl>(&self, visitor: &mut V)
        ensures
            final(visitor).state() == walk::<V>(old(visitor).state(), self.trace()),
    {
        broadcast use {lemma_walk_one, lemma_walk_none, lemma_walk_concat};

        visitor.enter(IRNode::Function(self));
        self.return_type.accept(visitor);
        let ghost start = visitor.state();
        let mut i: usize = 0;
        while i < self.fields.len()
            invariant
                i <= self.fields.len(),
                visitor.state() == walk::<V>(start, chain_prefix(self.field_traces(), i as nat)),
            decreases self.fields.len() - i,
        {
            let ghost before = visitor.state();
            self.fields[i].accept(visitor);
            proof {
                lemma_walk_step::<V>(start, self.field_traces(), i as nat, before, visitor.state());
            }
            i = i + 1;
        }
        self.control_flow_graph.accept(visitor);
    }

    /// A function is one node more than its return type, its fields and the
    /// instructions of its graph together.
    pub proof fn lemma_trace_len(&self)
        ensures
            self.trace().len() == 1 + self.return_type.trace().len() + total_len(
                self.field_traces(),
                self.fields@.len(),
            ) + self.control_flow_graph.trace().len(),
    {
        lemma_chain_len(self.field_traces(), self.fields@.len());
    }
}

} // verus!
