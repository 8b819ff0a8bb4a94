//! The instruction set: control flow, memory, arithmetic, register and type
//! operations, calls, inline assembly and the no-op.

use crate::ir::IRVisitorImpl;
use crate::ir::base::{IRCondition, IRNode};
use crate::ir::operand::{IROperand, IRVirtualRegister};
use crate::ir::sequence::{chain, chain_prefix};
use crate::ir::text::{concat_strings, nat_decimal, usize_to_string, views};
use crate::ir::types::IRType;
use crate::ir::visit::{lemma_walk_concat, lemma_walk_none, lemma_walk_one, lemma_walk_step, walk};
use vstd::prelude::*;
use vstd::string::*;

verus! {

/// `atomic_` for the atomic form of an instruction, nothing otherwise.
pub open spec fn atomic_prefix(is_atomic: bool) -> Seq<char> {
    if is_atomic {
        "atomic_"@
    } else {
        ""@
    }
}

fn atomic_prefix_text(is_atomic: bool) -> (s: &'static str)
    ensures
        s@ == atomic_prefix(is_atomic),
{
    if is_atomic {
        "atomic_"
    } else {
        ""
    }
}

/// An unconditional transfer to the block named `target`.
#[derive(Debug, Clone, PartialEq, Eq)]
pub struct IRGoto {
    pub target: String,
}

impl IRGoto {
    pub fn new(target: String) -> (g: Self)
        ensures
            g == (IRGoto { target }),
    {
        Self { target }
    }

    /// `goto`, then the target label.
    pub open spec fn render(&self) -> Seq<char> {
        "goto "@ + self.target@
    }

    pub fn to_string(&self) -> (s: String)
        ensures
            s@ == self.render(),
    {
        let mut s = String::from_str("goto ");
        s.append(self.target.as_str());
        s
    }

    /// The node itself: it has no parts.
    pub open spec fn trace<'a>(&'a self) -> Seq<IRNode<'a>> {
        seq![IRNode::Goto(self)]
    }

    /// Lets the visitor enter this node.
    pub fn accept<V: IRVisitorImpl>(&self, visitor: &mut V)
        ensures
            final(visitor).state() == walk::<V>(old(visitor).state(), self.trace()),
    {
        broadcast use lemma_walk_one;

        visitor.enter(IRNode::Goto(self));
    }
}

/// A transfer to `target` when `condition` holds of the operands under
/// `_type`; otherwise control falls through.
#[derive(Debug, Clone, PartialEq, Eq)]
pub struct IRConditionalJump {
    pub is_atomic: bool,
    pub _type: Box<IRType>,
    pub condition: IRCondition,
    pub operand1: Box<IROperand>,
    pub operand2: Box<IROperand>,
    pub target: String,
}

impl IRConditionalJump {
    pub fn new(
        is_atomic: bool,
        _type: Box<IRType>,
        condition: IRCondition,
        operand1: Box<IROperand>,
        operand2: Box<IROperand>,
        target: String,
    ) -> (j: Self)
        ensures
            j == (IRConditionalJump { is_atomic, _type, condition, operand1, operand2, target }),
    {
        Self { is_atomic, _type, condition, operand1, operand2, target }
    }

    /// `conditional_jump`, prefixed by `atomic_` for the atomic form, then the
    /// type, the condition, both operands and `#` with the target label.
    pub open spec fn render(&self) -> Seq<char> {
        atomic_prefix(self.is_atomic) + "conditional_jump "@ + self._type.render() + " "@
            + self.condition.render() + ", "@ + self.operand1.render() + ", "@
            + self.operand2.render() + ", #"@ + self.target@
    }

    pub fn to_string(&self) -> (s: String)
        ensures
            s@ == self.render(),
    {
        let mut s = String::from_str(atomic_prefix_text(self.is_atomic));
        s.append("conditional_jump ");
        s.append(self._type.to_string().as_str());
        s.append(" ");
        s.append(self.condition.to_string().as_str());
        s.append(", ");
        s.append(self.operand1.to_string().as_str());
        s.append(", ");
        s.append(self.operand2.to_string().as_str());
        s.append(", #");
        s.append(self.target.as_str());
        s
    }

    /// The node itself, then its type, its operand1 and its operand2.
    pub open spec fn trace<'a>(&'a self) -> Seq<IRNode<'a>> {
        seq![IRNode::ConditionalJump(self)] + self._type.trace() + self.operand1.trace()
            + self.operand2.trace()
    }

    /// Lets the visitor enter this node, then its parts in that order.
    pub fn accept<V: IRVisitorImpl>(&self, visitor: &mut V)
        ensures
            final(visitor).state() == walk::<V>(old(visitor).state(), self.trace()),
    {
        broadcast use {lemma_walk_one, lemma_walk_concat};

        visitor.enter(IRNode::ConditionalJump(self));
        self._type.accept(visitor);
        self.operand1.accept(visitor);
        self.operand2.accept(visitor);
    }
}

/// The instruction without effect.
#[derive(Debug, Clone, PartialEq, Eq)]
pub struct IRNoOperate {}

impl IRNoOperate {
    pub fn new() -> (n: Self)
        ensures
            n == (IRNoOperate {  }),
    {
        Self {  }
    }

    pub open spec fn render(&self) -> Seq<char> {
        "nop"@
    }

    pub fn to_string(&self) -> (s: String)
        ensures
            s@ == self.render(),
    {
        String::from_str("nop")
    }

    /// The node itself: it has no parts.
    pub open spec fn trace<'a>(&'a self) -> Seq<IRNode<'a>> {
        seq![IRNode::NoOperate(self)]
    }

    /// Lets the visitor enter this node.
    pub fn accept<V: IRVisitorImpl>(&self, visitor: &mut V)
        ensures
            final(visitor).state() == walk::<V>(old(visitor).state(), self.trace()),
    {
        broadcast use lemma_walk_one;

        visitor.enter(IRNode::NoOperate(self));
    }
}

/// The end of the function's execution, with the value it produces, if any.
#[derive(Debug, Clone, PartialEq, Eq)]
pub struct IRReturn {
    pub operand: Option<Box<IROperand>>,
}

impl IRReturn {
    pub fn new(operand: Option<Box<IROperand>>) -> (r: Self)
        ensures
            r == (IRReturn { operand }),
    {
        IRReturn { operand }
    }

    /// `return`, followed by the operand when there is one.
    pub open spec fn render(&self) -> Seq<char> {
        match self.operand {
            Some(operand) => "return "@ + operand.render(),
            None => "return"@,
        }
    }

    pub fn to_string(&self) -> (s: String)
        ensures
            s@ == self.render(),
    {
        match &self.operand {
            Some(operand) => {
                let mut s = String::from_str("return ");
                s.append(operand.to_string().as_str());
                s
            },
            None => String::from_str("return"),
        }
    }

    /// The node itself, then its operand where it has one.
    pub open spec fn trace<'a>(&'a self) -> Seq<IRNode<'a>> {
        match self.operand {
            Some(operand) => seq![IRNode::Return(self)] + operand.trace(),
            None => seq![IRNode::Return(self)],
        }
    }

    /// Lets the visitor enter this node, then its operand where it has one.
    pub fn accept<V: IRVisitorImpl>(&self, visitor: &mut V)
        ensures
            final(visitor).state() == walk::<V>(old(visitor).state(), self.trace()),
    {
        broadcast use {lemma_walk_one, lemma_walk_concat};

        visitor.enter(IRNode::Return(self));
        match &self.operand {
            Some(operand) => {
                operand.accept(visitor);
            },
            None => {},
        }
    }
}

/// A heap allocation of `size` bytes; `target` receives the address.
#[derive(Debug, Clone, PartialEq, Eq)]
pub struct IRMalloc {
    pub size: Box<IROperand>,
    pub target: Box<IRVirtualRegister>,
}

impl IRMalloc {
    pub fn new(size: Box<IROperand>, target: Box<IRVirtualRegister>) -> (m: Self)
        ensures
            m == (IRMalloc { size, target }),
    {
        Self { size, target }
    }

    pub open spec fn render(&self) -> Seq<char> {
        self.target.render() + " = malloc "@ + self.size.render()
    }

    pub fn to_string(&self) -> (s: String)
        ensures
            s@ == self.render(),
    {
        let mut s = self.target.to_string();
        s.append(" = malloc ");
        s.append(self.size.to_string().as_str());
        s
    }

    /// The node itself, then its size and its target.
    pub open spec fn trace<'a>(&'a self) -> Seq<IRNode<'a>> {
        seq![IRNode::Malloc(self)] + self.size.trace() + self.target.trace()
    }

    /// Lets the visitor enter this node, then its parts in that order.
    pub fn accept<V: IRVisitorImpl>(&self, visitor: &mut V)
        ensures
            final(visitor).state() == walk::<V>(old(visitor).state(), self.trace()),
    {
        broadcast use {lemma_walk_one, lemma_walk_concat};

        visitor.enter(IRNode::Malloc(self));
        self.size.accept(visitor);
        self.target.accept(visitor);
    }
}

/// The release of the heap block at `ptr`.
#[derive(Debug, Clone, PartialEq, Eq)]
pub struct IRFree {
    pub ptr: Box<IROperand>,
}

impl IRFree {
    pub fn new(ptr: Box<IROperand>) -> (f: Self)
        ensures
            f == (IRFree { ptr }),
    {
        Self { ptr }
    }

    pub open spec fn render(&self) -> Seq<char> {
        "free "@ + self.ptr.render()
    }

    pub fn to_string(&self) -> (s: String)
        ensures
            s@ == self.render(),
    {
        let mut s = String::from_str("free ");
        s.append(self.ptr.to_string().as_str());
        s
    }

    /// The node itself, then its ptr.
    pub open spec fn trace<'a>(&'a self) -> Seq<IRNode<'a>> {
        seq![IRNode::Free(self)] + self.ptr.trace()
    }

    /// Lets the visitor enter this node, then its parts in that order.
    pub fn accept<V: IRVisitorImpl>(&self, visitor: &mut V)
        ensures
            final(visitor).state() == walk::<V>(old(visitor).state(), self.trace()),
    {
        broadcast use {lemma_walk_one, lemma_walk_concat};

        visitor.enter(IRNode::Free(self));
        self.ptr.accept(visitor);
    }
}

/// A resize of the heap block at `ptr` to `size` bytes; `target` receives the
/// new address.
#[derive(Debug, Clone, PartialEq, Eq)]
pub struct IRRealloc {
    pub ptr: Box<IROperand>,
    pub size: Box<IROperand>,
    pub target: Box<IRVirtualRegister>,
}

impl IRRealloc {
    pub fn new(
        ptr: Box<IROperand>,
        size: Box<IROperand>,
        target: Box<IRVirtualRegister>,
    ) -> (r: Self)
        ensures
            r == (IRRealloc { ptr, size, target }),
    {
        Self { ptr, size, target }
    }

    pub open spec fn render(&self) -> Seq<char> {
        self.target.render() + " = realloc "@ + self.ptr.render() + ", "@
            + self.size.render()
    }

    pub fn to_string(&self) -> (s: String)
        ensures
            s@ == self.render(),
    {
        let mut s = self.target.to_string();
        s.append(" = realloc ");
        s.append(self.ptr.to_string().as_str());
        s.append(", ");
        s.append(self.size.to_string().as_str());
        s
    }

    /// The node itself, then its ptr, its size and its target.
    pub open spec fn trace<'a>(&'a self) -> Seq<IRNode<'a>> {
        seq![IRNode::Realloc(self)] + self.ptr.trace() + self.size.trace()
            + self.target.trace()
    }

    /// Lets the visitor enter this node, then its parts in that order.
    pub fn accept<V: IRVisitorImpl>(&self, visitor: &mut V)
        ensures
            final(visitor).state() == walk::<V>(old(visitor).state(), self.trace()),
    {
        broadcast use {lemma_walk_one, lemma_walk_concat};

        visitor.enter(IRNode::Realloc(self));
        self.ptr.accept(visitor);
        self.size.accept(visitor);
        self.target.accept(visitor);
    }
}

/// A store of `value`, of type `_type`, to `address`.
#[derive(Debug, Clone, PartialEq, Eq)]
pub struct IRSet {
    pub _type: Box<IRType>,
    pub address: Box<IROperand>,
    pub value: Box<IROperand>,
}

impl IRSet {
    pub fn new(_type: Box<IRType>, address: Box<IROperand>, value: Box<IROperand>) -> (i: Self)
        ensures
            i == (IRSet { _type, address, value }),
    {
        Self { _type, address, value }
    }

    pub open spec fn render(&self) -> Seq<char> {
        "set "@ + self._type.render() + ", "@ + self.address.render() + ", "@
            + self.value.render()
    }

    pub fn to_string(&self) -> (s: String)
        ensures
            s@ == self.render(),
    {
        let mut s = String::from_str("set ");
        s.append(self._type.to_string().as_str());
        s.append(", ");
        s.append(self.address.to_string().as_str());
        s.append(", ");
        s.append(self.value.to_string().as_str());
        s
    }

    /// The node itself, then its type, its address and its value.
    pub open spec fn trace<'a>(&'a self) -> Seq<IRNode<'a>> {
        seq![IRNode::Store(self)] + self._type.trace() + self.address.trace()
            + self.value.trace()
    }

    /// Lets the visitor enter this node, then its parts in that order.
    pub fn accept<V: IRVisitorImpl>(&self, visitor: &mut V)
        ensures
            final(visitor).state() == walk::<V>(old(visitor).state(), self.trace()),
    {
        broadcast use {lemma_walk_one, lemma_walk_concat};

        visitor.enter(IRNode::Store(self));
        self._type.accept(visitor);
        self.address.accept(visitor);
        self.value.accept(visitor);
    }
}

/// A load of a value of type `_type` from `address` into `target`.
#[derive(Debug, Clone, PartialEq, Eq)]
pub struct IRGet {
    pub _type: Box<IRType>,
    pub address: Box<IROperand>,
    pub target: Box<IRVirtualRegister>,
}

impl IRGet {
    pub fn new(
        _type: Box<IRType>,
        address: Box<IROperand>,
        target: Box<IRVirtualRegister>,
    ) -> (i: Self)
        ensures
            i == (IRGet { _type, address, target }),
    {
        Self { _type, address, target }
    }

    pub open spec fn render(&self) -> Seq<char> {
        self.target.render() + " = get "@ + self._type.render() + ", "@
            + self.address.render()
    }

    pub fn to_string(&self) -> (s: String)
        ensures
            s@ == self.render(),
    {
        let mut s = self.target.to_string();
        s.append(" = get ");
        s.append(self._type.to_string().as_str());
        s.append(", ");
        s.append(self.address.to_string().as_str());
        s
    }

    /// The node itself, then its type, its address and its target.
    pub open spec fn trace<'a>(&'a self) -> Seq<IRNode<'a>> {
        seq![IRNode::Load(self)] + self._type.trace() + self.address.trace()
            + self.target.trace()
    }

    /// Lets the visitor enter this node, then its parts in that order.
    pub fn accept<V: IRVisitorImpl>(&self, visitor: &mut V)
        ensures
            final(visitor).state() == walk::<V>(old(visitor).state(), self.trace()),
    {
        broadcast use {lemma_walk_one, lemma_walk_concat};

        visitor.enter(IRNode::Load(self));
        self._type.accept(visitor);
        self.address.accept(visitor);
        self.target.accept(visitor);
    }
}

/// A copy of `source` into the register `target`.
#[derive(Debug, Clone, PartialEq, Eq)]
pub struct IRSetVirtualRegister {
    pub source: Box<IROperand>,
    pub target: Box<IRVirtualRegister>,
}

impl IRSetVirtualRegister {
    pub fn new(source: Box<IROperand>, target: Box<IRVirtualRegister>) -> (i: Self)
        ensures
            i == (IRSetVirtualRegister { source, target }),
    {
        Self { source, target }
    }

    pub open spec fn render(&self) -> Seq<char> {
        self.target.render() + " = "@ + self.source.render()
    }

    pub fn to_string(&self) -> (s: String)
        ensures
            s@ == self.render(),
    {
        let mut s = self.target.to_string();
        s.append(" = ");
        s.append(self.source.to_string().as_str());
        s
    }

    /// The node itself, then its source and its target.
    pub open spec fn trace<'a>(&'a self) -> Seq<IRNode<'a>> {
        seq![IRNode::SetVirtualRegister(self)] + self.source.trace() + self.target.trace()
    }

    /// Lets the visitor enter this node, then its parts in that order.
    pub fn accept<V: IRVisitorImpl>(&self, visitor: &mut V)
        ensures
            final(visitor).state() == walk::<V>(old(visitor).state(), self.trace()),
    {
        broadcast use {lemma_walk_one, lemma_walk_concat};

        visitor.enter(IRNode::SetVirtualRegister(self));
        self.source.accept(visitor);
        self.target.accept(visitor);
    }
}

/// The kind of a type cast.
#[derive(Debug, Clone, Copy, PartialEq, Eq)]
pub enum IRTypeCastKind {
    ZeroExtend,
    SignExtend,
    Truncate,
    IntToFloat,
    FloatToInt,
    FloatExtend,
    FloatTruncate,
}

impl IRTypeCastKind {
    /// The mnemonic of the cast.
    pub open spec fn render(&self) -> Seq<char> {
        match self {
            IRTypeCastKind::ZeroExtend => "zext"@,
            IRTypeCastKind::SignExtend => "sext"@,
            IRTypeCastKind::Truncate => "trunc"@,
            IRTypeCastKind::IntToFloat => "itof"@,
            IRTypeCastKind::FloatToInt => "ftoi"@,
            IRTypeCastKind::FloatExtend => "fext"@,
            IRTypeCastKind::FloatTruncate => "ftrunc"@,
        }
    }

    pub fn to_string(&self) -> (s: String)
        ensures
            s@ == self.render(),
    {
        match self {
            IRTypeCastKind::ZeroExtend => String::from_str("zext"),
            IRTypeCastKind::SignExtend => String::from_str("sext"),
            IRTypeCastKind::Truncate => String::from_str("trunc"),
            IRTypeCastKind::IntToFloat => String::from_str("itof"),
            IRTypeCastKind::FloatToInt => String::from_str("ftoi"),
            IRTypeCastKind::FloatExtend => String::from_str("fext"),
            IRTypeCastKind::FloatTruncate => String::from_str("ftrunc"),
        }
    }
}

/// A conversion of `source` from `original_type` to `target_type`.
#[derive(Debug, Clone, PartialEq, Eq)]
pub struct IRTypeCast {
    pub kind: IRTypeCastKind,
    pub original_type: Box<IRType>,
    pub source: Box<IROperand>,
    pub target_type: Box<IRType>,
    pub target: Box<IRVirtualRegister>,
}

impl IRTypeCast {
    pub fn new(
        kind: IRTypeCastKind,
        original_type: Box<IRType>,
        source: Box<IROperand>,
        target_type: Box<IRType>,
        target: Box<IRVirtualRegister>,
    ) -> (c: Self)
        ensures
            c == (IRTypeCast { kind, original_type, source, target_type, target }),
    {
        Self { kind, original_type, source, target_type, target }
    }

    pub open spec fn render(&self) -> Seq<char> {
        self.target.render() + " = "@ + self.kind.render() + " "@
            + self.original_type.render() + " "@ + self.source.render() + " to "@
            + self.target_type.render()
    }

    pub fn to_string(&self) -> (s: String)
        ensures
            s@ == self.render(),
    {
        let mut s = self.target.to_string();
        s.append(" = ");
        s.append(self.kind.to_string().as_str());
        s.append(" ");
        s.append(self.original_type.to_string().as_str());
        s.append(" ");
        s.append(self.source.to_string().as_str());
        s.append(" to ");
        s.append(self.target_type.to_string().as_str());
        s
    }

    /// The node itself, then the type it casts from, its source, its target
    /// type and its target.
    pub open spec fn trace<'a>(&'a self) -> Seq<IRNode<'a>> {
        seq![IRNode::TypeCast(self)] + self.original_type.trace() + self.source.trace()
            + self.target_type.trace() + self.target.trace()
    }

    /// Lets the visitor enter this node, then its parts in that order.
    pub fn accept<V: IRVisitorImpl>(&self, visitor: &mut V)
        ensures
            final(visitor).state() == walk::<V>(old(visitor).state(), self.trace()),
    {
        broadcast use {lemma_walk_one, lemma_walk_concat};

        visitor.enter(IRNode::TypeCast(self));
        self.original_type.accept(visitor);
        self.source.accept(visitor);
        self.target_type.accept(visitor);
        self.target.accept(visitor);
    }
}

/// A frame-local allocation of `size` bytes; `target` receives the address.
#[derive(Debug, Clone, PartialEq, Eq)]
pub struct IRStackAllocate {
    pub size: Box<IROperand>,
    pub target: Box<IRVirtualRegister>,
}

impl IRStackAllocate {
    pub fn new(size: Box<IROperand>, target: Box<IRVirtualRegister>) -> (a: Self)
        ensures
            a == (IRStackAllocate { size, target }),
    {
        Self { size, target }
    }

    pub open spec fn render(&self) -> Seq<char> {
        self.target.render() + " = stack_alloc "@ + self.size.render()
    }

    pub fn to_string(&self) -> (s: String)
        ensures
            s@ == self.render(),
    {
        let mut s = self.target.to_string();
        s.append(" = stack_alloc ");
        s.append(self.size.to_string().as_str());
        s
    }

    /// The node itself, then its size and its target.
    pub open spec fn trace<'a>(&'a self) -> Seq<IRNode<'a>> {
        seq![IRNode::StackAllocate(self)] + self.size.trace() + self.target.trace()
    }

    /// Lets the visitor enter this node, then its parts in that order.
    pub fn accept<V: IRVisitorImpl>(&self, visitor: &mut V)
        ensures
            final(visitor).state() == walk::<V>(old(visitor).state(), self.trace()),
    {
        broadcast use {lemma_walk_one, lemma_walk_concat};

        visitor.enter(IRNode::StackAllocate(self));
        self.size.accept(visitor);
        self.target.accept(visitor);
    }
}

/// The operator of a binary calculation.
#[derive(Debug, Clone, Copy, PartialEq, Eq)]
pub enum IRCalculateOperator {
    ADD,
    SUB,
    MUL,
    DIV,
    MOD,
    AND,
    OR,
    XOR,
    SHL,
    SHR,
    USHR,
}

impl IRCalculateOperator {
    /// The mnemonic of the operator.
    pub open spec fn render(&self) -> Seq<char> {
        match self {
            IRCalculateOperator::ADD => "add"@,
            IRCalculateOperator::SUB => "sub"@,
            IRCalculateOperator::MUL => "mul"@,
            IRCalculateOperator::DIV => "div"@,
            IRCalculateOperator::MOD => "mod"@,
            IRCalculateOperator::AND => "and"@,
            IRCalculateOperator::OR => "or"@,
            IRCalculateOperator::XOR => "xor"@,
            IRCalculateOperator::SHL => "shl"@,
            IRCalculateOperator::SHR => "shr"@,
            IRCalculateOperator::USHR => "ushr"@,
        }
    }

    pub fn to_string(&self) -> (s: String)
        ensures
            s@ == self.render(),
    {
        match self {
            IRCalculateOperator::ADD => String::from_str("add"),
            IRCalculateOperator::SUB => String::from_str("sub"),
            IRCalculateOperator::MUL => String::from_str("mul"),
            IRCalculateOperator::DIV => String::from_str("div"),
            IRCalculateOperator::MOD => String::from_str("mod"),
            IRCalculateOperator::AND => String::from_str("and"),
            IRCalculateOperator::OR => String::from_str("or"),
            IRCalculateOperator::XOR => String::from_str("xor"),
            IRCalculateOperator::SHL => String::from_str("shl"),
            IRCalculateOperator::SHR => String::from_str("shr"),
            IRCalculateOperator::USHR => String::from_str("ushr"),
        }
    }
}

/// A binary arithmetic or bitwise operation on two operands of type `_type`.
#[derive(Debug, Clone, PartialEq, Eq)]
pub struct IRCalculate {
    pub is_atomic: bool,
    pub operator: IRCalculateOperator,
    pub _type: Box<IRType>,
    pub operand1: Box<IROperand>,
    pub operand2: Box<IROperand>,
    pub target: Box<IRVirtualRegister>,
}

impl IRCalculate {
    pub fn new(
        is_atomic: bool,
        operator: IRCalculateOperator,
        _type: Box<IRType>,
        operand1: Box<IROperand>,
        operand2: Box<IROperand>,
        target: Box<IRVirtualRegister>,
    ) -> (c: Self)
        ensures
            c == (IRCalculate { is_atomic, operator, _type, operand1, operand2, target }),
    {
        Self { is_atomic, operator, _type, operand1, operand2, target }
    }

    /// The target, ` = `, the operator (prefixed by `atomic_` for the atomic
    /// form), the type and the two operands.
    pub open spec fn render(&self) -> Seq<char> {
        self.target.render() + " = "@ + atomic_prefix(self.is_atomic)
            + self.operator.render() + " "@ + self._type.render() + " "@
            + self.operand1.render() + ", "@ + self.operand2.render()
    }

    pub fn to_string(&self) -> (s: String)
        ensures
            s@ == self.render(),
    {
        let mut s = self.target.to_string();
        s.append(" = ");
        s.append(atomic_prefix_text(self.is_atomic));
        s.append(self.operator.to_string().as_str());
        s.append(" ");
        s.append(self._type.to_string().as_str());
        s.append(" ");
        s.append(self.operand1.to_string().as_str());
        s.append(", ");
        s.append(self.operand2.to_string().as_str());
        s
    }

    /// The node itself, then its type, its operand1, its operand2 and its
    /// target.
    pub open spec fn trace<'a>(&'a self) -> Seq<IRNode<'a>> {
        seq![IRNode::Calculate(self)] + self._type.trace() + self.operand1.trace()
            + self.operand2.trace() + self.target.trace()
    }

    /// Lets the visitor enter this node, then its parts in that order.
    pub fn accept<V: IRVisitorImpl>(&self, visitor: &mut V)
        ensures
            final(visitor).state() == walk::<V>(old(visitor).state(), self.trace()),
    {
        broadcast use {lemma_walk_one, lemma_walk_concat};

        visitor.enter(IRNode::Calculate(self));
        self._type.accept(visitor);
        self.operand1.accept(visitor);
        self.operand2.accept(visitor);
        self.target.accept(visitor);
    }
}

/// An increment by one of an operand of type `_type`. Without a target the
/// increment is atomic and its result is not captured.
#[derive(Debug, Clone, PartialEq, Eq)]
pub struct IRIncrease {
    pub _type: Box<IRType>,
    pub operand: Box<IROperand>,
    pub target: Option<Box<IRVirtualRegister>>,
}

impl IRIncrease {
    pub fn new(
        _type: Box<IRType>,
        operand: Box<IROperand>,
        target: Option<Box<IRVirtualRegister>>,
    ) -> (i: Self)
        ensures
            i == (IRIncrease { _type, operand, target }),
    {
        Self { _type, operand, target }
    }

    /// With a target: the target, ` = increase`, the type and the operand.
    /// Without one: `atomic_increase`, the type and the operand.
    pub open spec fn render(&self) -> Seq<char> {
        match self.target {
            Some(target) => target.render() + " = increase "@ + self._type.render() + " "@
                + self.operand.render(),
            None => "atomic_increase "@ + self._type.render() + " "@ + self.operand.render(),
        }
    }

    pub fn to_string(&self) -> (s: String)
        ensures
            s@ == self.render(),
    {
        let mut s = match &self.target {
            Some(target) => {
                let mut s = target.to_string();
                s.append(" = increase ");
                s
            },
            None => String::from_str("atomic_increase "),
        };
        s.append(self._type.to_string().as_str());
        s.append(" ");
        s.append(self.operand.to_string().as_str());
        s
    }

    /// The node itself, then its type and its operand, then its target
    /// where it has one.
    pub open spec fn trace<'a>(&'a self) -> Seq<IRNode<'a>> {
        match self.target {
            Some(target) => seq![IRNode::Increase(self)] + self._type.trace()
                + self.operand.trace() + target.trace(),
            None => seq![IRNode::Increase(self)] + self._type.trace() + self.operand.trace(),
        }
    }

    /// Lets the visitor enter this node, then its parts in that order.
    pub fn accept<V: IRVisitorImpl>(&self, visitor: &mut V)
        ensures
            final(visitor).state() == walk::<V>(old(visitor).state(), self.trace()),
    {
        broadcast use {lemma_walk_one, lemma_walk_concat};

        visitor.enter(IRNode::Increase(self));
        self._type.accept(visitor);
        self.operand.accept(visitor);
        match &self.target {
            Some(target) => {
                target.accept(visitor);
            },
            None => {},
        }
    }
}

/// A decrement by one of an operand of type `_type`. Without a target the
/// decrement is atomic and its result is not captured.
#[derive(Debug, Clone, PartialEq, Eq)]
pub struct IRDecrease {
    pub _type: Box<IRType>,
    pub operand: Box<IROperand>,
    pub target: Option<Box<IRVirtualRegister>>,
}

impl IRDecrease {
    pub fn new(
        _type: Box<IRType>,
        operand: Box<IROperand>,
        target: Option<Box<IRVirtualRegister>>,
    ) -> (d: Self)
        ensures
            d == (IRDecrease { _type, operand, target }),
    {
        Self { _type, operand, target }
    }

    /// With a target: the target, ` = decrease`, the type and the operand.
    /// Without one: `atomic_decrease`, the type and the operand.
    pub open spec fn render(&self) -> Seq<char> {
        match self.target {
            Some(target) => target.render() + " = decrease "@ + self._type.render() + " "@
                + self.operand.render(),
            None => "atomic_decrease "@ + self._type.render() + " "@ + self.operand.render(),
        }
    }

    pub fn to_string(&self) -> (s: String)
        ensures
            s@ == self.render(),
    {
        let mut s = match &self.target {
            Some(target) => {
                let mut s = target.to_string();
                s.append(" = decrease ");
                s
            },
            None => String::from_str("atomic_decrease "),
        };
        s.append(self._type.to_string().as_str());
        s.append(" ");
        s.append(self.operand.to_string().as_str());
        s
    }

    /// The node itself, then its type and its operand, then its target
    /// where it has one.
    pub open spec fn trace<'a>(&'a self) -> Seq<IRNode<'a>> {
        match self.target {
            Some(target) => seq![IRNode::Decrease(self)] + self._type.trace()
                + self.operand.trace() + target.trace(),
            None => seq![IRNode::Decrease(self)] + self._type.trace() + self.operand.trace(),
        }
    }

    /// Lets the visitor enter this node, then its parts in that order.
    pub fn accept<V: IRVisitorImpl>(&self, visitor: &mut V)
        ensures
            final(visitor).state() == walk::<V>(old(visitor).state(), self.trace()),
    {
        broadcast use {lemma_walk_one, lemma_walk_concat};

        visitor.enter(IRNode::Decrease(self));
        self._type.accept(visitor);
        self.operand.accept(visitor);
        match &self.target {
            Some(target) => {
                target.accept(visitor);
            },
            None => {},
        }
    }
}

/// The bitwise complement of an operand of type `_type`.
#[derive(Debug, Clone, PartialEq, Eq)]
pub struct IRNot {
    pub is_atomic: bool,
    pub _type: Box<IRType>,
    pub operand: Box<IROperand>,
    pub target: Box<IRVirtualRegister>,
}

impl IRNot {
    pub fn new(
        is_atomic: bool,
        _type: Box<IRType>,
        operand: Box<IROperand>,
        target: Box<IRVirtualRegister>,
    ) -> (n: Self)
        ensures
            n == (IRNot { is_atomic, _type, operand, target }),
    {
        Self { is_atomic, _type, operand, target }
    }

    pub open spec fn render(&self) -> Seq<char> {
        self.target.render() + " = "@ + atomic_prefix(self.is_atomic) + "not "@
            + self._type.render() + " "@ + self.operand.render()
    }

    pub fn to_string(&self) -> (s: String)
        ensures
            s@ == self.render(),
    {
        let mut s = self.target.to_string();
        s.append(" = ");
        s.append(atomic_prefix_text(self.is_atomic));
        s.append("not ");
        s.append(self._type.to_string().as_str());
        s.append(" ");
        s.append(self.operand.to_string().as_str());
        s
    }

    /// The node itself, then its type, its operand and its target.
    pub open spec fn trace<'a>(&'a self) -> Seq<IRNode<'a>> {
        seq![IRNode::Not(self)] + self._type.trace() + self.operand.trace()
            + self.target.trace()
    }

    /// Lets the visitor enter this node, then its parts in that order.
    pub fn accept<V: IRVisitorImpl>(&self, visitor: &mut V)
        ensures
            final(visitor).state() == walk::<V>(old(visitor).state(), self.trace()),
    {
        broadcast use {lemma_walk_one, lemma_walk_concat};

        visitor.enter(IRNode::Not(self));
        self._type.accept(visitor);
        self.operand.accept(visitor);
        self.target.accept(visitor);
    }
}

/// The arithmetic negation of an operand of type `_type`.
#[derive(Debug, Clone, PartialEq, Eq)]
pub struct IRNegate {
    pub is_atomic: bool,
    pub _type: Box<IRType>,
    pub operand: Box<IROperand>,
    pub target: Box<IRVirtualRegister>,
}

impl IRNegate {
    pub fn new(
        is_atomic: bool,
        _type: Box<IRType>,
        operand: Box<IROperand>,
        target: Box<IRVirtualRegister>,
    ) -> (n: Self)
        ensures
            n == (IRNegate { is_atomic, _type, operand, target }),
    {
        Self { is_atomic, _type, operand, target }
    }

    pub open spec fn render(&self) -> Seq<char> {
        self.target.render() + " = "@ + atomic_prefix(self.is_atomic) + "negate "@
            + self._type.render() + " "@ + self.operand.render()
    }

    pub fn to_string(&self) -> (s: String)
        ensures
            s@ == self.render(),
    {
        let mut s = self.target.to_string();
        s.append(" = ");
        s.append(atomic_prefix_text(self.is_atomic));
        s.append("negate ");
        s.append(self._type.to_string().as_str());
        s.append(" ");
        s.append(self.operand.to_string().as_str());
        s
    }

    /// The node itself, then its type, its operand and its target.
    pub open spec fn trace<'a>(&'a self) -> Seq<IRNode<'a>> {
        seq![IRNode::Negate(self)] + self._type.trace() + self.operand.trace()
            + self.target.trace()
    }

    /// Lets the visitor enter this node, then its parts in that order.
    pub fn accept<V: IRVisitorImpl>(&self, visitor: &mut V)
        ensures
            final(visitor).state() == walk::<V>(old(visitor).state(), self.trace()),
    {
        broadcast use {lemma_walk_one, lemma_walk_concat};

        visitor.enter(IRNode::Negate(self));
        self._type.accept(visitor);
        self.operand.accept(visitor);
        self.target.accept(visitor);
    }
}

/// Why the construction of an instruction was refused.
#[derive(Debug, Clone, Copy, PartialEq, Eq)]
pub enum IRConstructionError {
    /// An invoke was given as many argument types as `argument_types` says
    /// and as many arguments as `arguments` says, and the two differ.
    InvokeArity { argument_types: usize, arguments: usize },
    /// An inline assembly was given lists of types, resources and names that
    /// are not all of one length.
    AsmArity { types: usize, resources: usize, names: usize },
}

impl IRConstructionError {
    /// A sentence that names the lists whose lengths differ, with the lengths.
    pub open spec fn render(&self) -> Seq<char> {
        match self {
            IRConstructionError::InvokeArity { argument_types, arguments } => {
                "argument types and arguments length mismatch: "@ + nat_decimal(
                    *argument_types as nat,
                ) + " argument types, "@ + nat_decimal(*arguments as nat) + " arguments"@
            },
            IRConstructionError::AsmArity { types, resources, names } => {
                "types, resources and names length mismatch: "@ + nat_decimal(*types as nat)
                    + " types, "@ + nat_decimal(*resources as nat) + " resources, "@
                    + nat_decimal(*names as nat) + " names"@
            },
        }
    }

    pub fn to_string(&self) -> (s: String)
        ensures
            s@ == self.render(),
    {
        match self {
            IRConstructionError::InvokeArity { argument_types, arguments } => {
                let mut s = String::from_str("argument types and arguments length mismatch: ");
                s.append(usize_to_string(*argument_types).as_str());
                s.append(" argument types, ");
                s.append(usize_to_string(*arguments).as_str());
                s.append(" arguments");
                s
            },
            IRConstructionError::AsmArity { types, resources, names } => {
                let mut s = String::from_str("types, resources and names length mismatch: ");
                s.append(usize_to_string(*types).as_str());
                s.append(" types, ");
                s.append(usize_to_string(*resources).as_str());
                s.append(" resources, ");
                s.append(usize_to_string(*names).as_str());
                s.append(" names");
                s
            },
        }
    }
}

/// A call through an address operand, with one type for each argument.
///
/// The two argument lists always have the same length: `new` refuses
/// anything else.
#[derive(Debug, PartialEq, Eq)]
pub struct IRInvoke {
    pub(crate) return_type: Box<IRType>,
    pub(crate) address: Box<IROperand>,
    pub(crate) argument_types: Vec<Box<IRType>>,
    pub(crate) arguments: Vec<Box<IROperand>>,
    pub(crate) target: Option<Box<IRVirtualRegister>>,
}

impl IRInvoke {
    #[verifier::type_invariant]
    spec fn arity_matches(&self) -> bool {
        self.argument_types@.len() == self.arguments@.len()
    }

    pub closed spec fn spec_return_type(&self) -> &Box<IRType> {
        &self.return_type
    }

    pub closed spec fn spec_address(&self) -> &Box<IROperand> {
        &self.address
    }

    pub closed spec fn spec_argument_types(&self) -> &Vec<Box<IRType>> {
        &self.argument_types
    }

    pub closed spec fn spec_arguments(&self) -> &Vec<Box<IROperand>> {
        &self.arguments
    }

    pub closed spec fn spec_target(&self) -> &Option<Box<IRVirtualRegister>> {
        &self.target
    }

    /// Builds the call, or says which lengths differ.
    pub fn new(
        return_type: Box<IRType>,
        address: Box<IROperand>,
        argument_types: Vec<Box<IRType>>,
        arguments: Vec<Box<IROperand>>,
        target: Option<Box<IRVirtualRegister>>,
    ) -> (r: Result<Self, IRConstructionError>)
        ensures
            match r {
                Ok(invoke) => {
                    &&& argument_types@.len() == arguments@.len()
                    &&& *invoke.return_type() == return_type
                    &&& *invoke.address() == address
                    &&& *invoke.argument_types() == argument_types
                    &&& *invoke.arguments() == arguments
                    &&& *invoke.target() == target
                },
                Err(e) => {
                    &&& argument_types@.len() != arguments@.len()
                    &&& e == (IRConstructionError::InvokeArity {
                        argument_types: argument_types@.len() as usize,
                        arguments: arguments@.len() as usize,
                    })
                },
            },
    {
        if argument_types.len() == arguments.len() {
            Ok(Self { return_type, address, argument_types, arguments, target })
        } else {
            Err(
                IRConstructionError::InvokeArity {
                    argument_types: argument_types.len(),
                    arguments: arguments.len(),
                },
            )
        }
    }

    #[verifier::when_used_as_spec(spec_return_type)]
    pub fn return_type(&self) -> (t: &Box<IRType>)
        ensures
            t == self.spec_return_type(),
    {
        &self.return_type
    }

    #[verifier::when_used_as_spec(spec_address)]
    pub fn address(&self) -> (o: &Box<IROperand>)
        ensures
            o == self.spec_address(),
    {
        &self.address
    }

    #[verifier::when_used_as_spec(spec_argument_types)]
    pub fn argument_types(&self) -> (ts: &Vec<Box<IRType>>)
        ensures
            ts == self.spec_argument_types(),
            ts@.len() == self.arguments()@.len(),
    {
        proof {
            use_type_invariant(self);
        }
        &self.argument_types
    }

    #[verifier::when_used_as_spec(spec_arguments)]
    pub fn arguments(&self) -> (os: &Vec<Box<IROperand>>)
        ensures
            os == self.spec_arguments(),
            os@.len() == self.argument_types()@.len(),
    {
        proof {
            use_type_invariant(self);
        }
        &self.arguments
    }

    #[verifier::when_used_as_spec(spec_target)]
    pub fn target(&self) -> (r: &Option<Box<IRVirtualRegister>>)
        ensures
            r == self.spec_target(),
    {
        &self.target
    }

    /// The text of each argument with its type: `, [type, argument]`.
    pub open spec fn argument_texts(&self) -> Seq<Seq<char>> {
        Seq::new(
            self.arguments()@.len(),
            |i: int|
                ", ["@ + self.argument_types()@[i].render() + ", "@ + self.arguments()@[i].render()
                    + "]"@,
        )
    }

    /// The target and ` = `, when there is a target; then `invoke`, the
    /// return type, the address, and each argument with its type.
    pub open spec fn render(&self) -> Seq<char> {
        match *self.target() {
            Some(target) => target.render() + " = invoke "@ + self.return_type().render() + " "@
                + self.address().render() + chain(self.argument_texts()),
            None => "invoke "@ + self.return_type().render() + " "@ + self.address().render()
                + chain(self.argument_texts()),
        }
    }

    pub fn to_string(&self) -> (s: String)
        ensures
            s@ == self.render(),
    {
        proof {
            use_type_invariant(self);
        }
        let mut parts: Vec<String> = Vec::new();
        let mut i: usize = 0;
        while i < self.arguments.len()
            invariant
                i <= self.arguments.len(),
                self.argument_types@.len() == self.arguments@.len(),
                parts@.len() == i,
                forall|j: int| 0 <= j < i ==> (#[trigger] parts@[j])@ == self.argument_texts()[j],
            decreases self.arguments.len() - i,
        {
            let mut part = String::from_str(", [");
            part.append(self.argument_types[i].to_string().as_str());
            part.append(", ");
            part.append(self.arguments[i].to_string().as_str());
            part.append("]");
            parts.push(part);
            i = i + 1;
        }
        assert(views(parts@) =~= self.argument_texts());
        let mut s = match &self.target {
            Some(target) => {
                let mut s = target.to_string();
                s.append(" = invoke ");
                s
            },
            None => String::from_str("invoke "),
        };
        s.append(self.return_type.to_string().as_str());
        s.append(" ");
        s.append(self.address.to_string().as_str());
        s.append(concat_strings(&parts).as_str());
        s
    }

    /// The trace of each argument: that of its type, then its own.
    pub open spec fn argument_traces<'a>(&'a self) -> Seq<Seq<IRNode<'a>>> {
        Seq::new(
            self.arguments()@.len(),
            |i: int| self.argument_types()@[i].trace() + self.arguments()@[i].trace(),
        )
    }

    /// The target's trace, where there is a target.
    pub open spec fn target_trace<'a>(&'a self) -> Seq<IRNode<'a>> {
        match *self.target() {
            Some(target) => target.trace(),
            None => Seq::empty(),
        }
    }

    /// The node itself, then the address, each argument's type and the
    /// argument, the return type, and the target where there is one.
    pub open spec fn trace<'a>(&'a self) -> Seq<IRNode<'a>> {
        seq![IRNode::Invoke(self)] + self.address().trace() + chain(self.argument_traces())
            + self.return_type().trace() + self.target_trace()
    }

    /// Lets the visitor enter this node, then its parts in that order.
    pub fn accept<V: IRVisitorImpl>(&self, visitor: &mut V)
        ensures
            final(visitor).state() == walk::<V>(old(visitor).state(), self.trace()),
    {
        broadcast use {lemma_walk_one, lemma_walk_none, lemma_walk_concat};

        proof {
            use_type_invariant(self);
        }
        visitor.enter(IRNode::Invoke(self));
        self.address.accept(visitor);
        let ghost start = visitor.state();
        let mut i: usize = 0;
        while i < self.arguments.len()
            invariant
                i <= self.arguments.len(),
                self.argument_types@.len() == self.arguments@.len(),
                visitor.state() == walk::<V>(start, chain_prefix(self.argument_traces(), i as nat)),
            decreases self.arguments.len() - i,
        {
            let ghost before = visitor.state();
            self.argument_types[i].accept(visitor);
            self.arguments[i].accept(visitor);
            proof {
                lemma_walk_concat::<V>(
                    before,
                    self.argument_types@[i as int].trace(),
                    self.arguments@[i as int].trace(),
                );
                lemma_walk_step::<V>(
                    start,
                    self.argument_traces(),
                    i as nat,
                    before,
                    visitor.state(),
                );
            }
            i = i + 1;
        }
        self.return_type.accept(visitor);
        match &self.target {
            Some(target) => {
                target.accept(visitor);
            },
            None => {},
        }
    }
}

impl Clone for IRInvoke {
    fn clone(&self) -> Self {
        proof {
            use_type_invariant(self);
        }
        IRInvoke {
            return_type: self.return_type.clone(),
            address: self.address.clone(),
            argument_types: self.argument_types.clone(),
            arguments: self.arguments.clone(),
            target: self.target.clone(),
        }
    }
}

/// An opaque stretch of assembly, with the resources it is bound to: each a
/// type, an operand and the name the code knows it by.
///
/// The three lists always have the same length: `new` refuses anything else.
#[derive(Debug, PartialEq, Eq)]
pub struct IRAsm {
    pub(crate) code: String,
    pub(crate) types: Vec<Box<IRType>>,
    pub(crate) resources: Vec<Box<IROperand>>,
    pub(crate) names: Vec<String>,
}

impl IRAsm {
    #[verifier::type_invariant]
    spec fn arity_matches(&self) -> bool {
        self.types@.len() == self.resources@.len() && self.resources@.len() == self.names@.len()
    }

    pub closed spec fn spec_code(&self) -> &String {
        &self.code
    }

    pub closed spec fn spec_types(&self) -> &Vec<Box<IRType>> {
        &self.types
    }

    pub closed spec fn spec_resources(&self) -> &Vec<Box<IROperand>> {
        &self.resources
    }

    pub closed spec fn spec_names(&self) -> &Vec<String> {
        &self.names
    }

    /// Builds the instruction, or says which lengths differ.
    pub fn new(
        code: String,
        types: Vec<Box<IRType>>,
        resources: Vec<Box<IROperand>>,
        names: Vec<String>,
    ) -> (r: Result<Self, IRConstructionError>)
        ensures
            match r {
                Ok(built) => {
                    &&& types@.len() == resources@.len()
                    &&& resources@.len() == names@.len()
                    &&& *built.code() == code
                    &&& *built.types() == types
                    &&& *built.resources() == resources
                    &&& *built.names() == names
                },
                Err(e) => {
                    &&& !(types@.len() == resources@.len() && resources@.len() == names@.len())
                    &&& e == (IRConstructionError::AsmArity {
                        types: types@.len() as usize,
                        resources: resources@.len() as usize,
                        names: names@.len() as usize,
                    })
                },
            },
    {
        if types.len() == resources.len() && resources.len() == names.len() {
            Ok(Self { code, types, resources, names })
        } else {
            Err(
                IRConstructionError::AsmArity {
                    types: types.len(),
                    resources: resources.len(),
                    names: names.len(),
                },
            )
        }
    }

    #[verifier::when_used_as_spec(spec_code)]
    pub fn code(&self) -> (c: &String)
        ensures
            c == self.spec_code(),
    {
        &self.code
    }

    #[verifier::when_used_as_spec(spec_types)]
    pub fn types(&self) -> (ts: &Vec<Box<IRType>>)
        ensures
            ts == self.spec_types(),
            ts@.len() == self.resources()@.len(),
    {
        proof {
            use_type_invariant(self);
        }
        &self.types
    }

    #[verifier::when_used_as_spec(spec_resources)]
    pub fn resources(&self) -> (os: &Vec<Box<IROperand>>)
        ensures
            os == self.spec_resources(),
            os@.len() == self.names()@.len(),
    {
        proof {
            use_type_invariant(self);
        }
        &self.resources
    }

    #[verifier::when_used_as_spec(spec_names)]
    pub fn names(&self) -> (ns: &Vec<String>)
        ensures
            ns == self.spec_names(),
            ns@.len() == self.types()@.len(),
    {
        proof {
            use_type_invariant(self);
        }
        &self.names
    }

    /// The text of each resource: `, [type, operand, name]`.
    pub open spec fn resource_texts(&self) -> Seq<Seq<char>> {
        Seq::new(
            self.resources()@.len(),
            |i: int|
                ", ["@ + self.types()@[i].render() + ", "@ + self.resources()@[i].render() + ", "@
                    + self.names()@[i]@ + "]"@,
        )
    }

    /// `asm`, the code in double quotes, then each resource.
    pub open spec fn render(&self) -> Seq<char> {
        "asm \""@ + self.code()@ + "\""@ + chain(self.resource_texts())
    }

    pub fn to_string(&self) -> (s: String)
        ensures
            s@ == self.render(),
    {
        proof {
            use_type_invariant(self);
        }
        let mut parts: Vec<String> = Vec::new();
        let mut i: usize = 0;
        while i < self.resources.len()
            invariant
                i <= self.resources.len(),
                self.types@.len() == self.resources@.len(),
                self.resources@.len() == self.names@.len(),
                parts@.len() == i,
                forall|j: int| 0 <= j < i ==> (#[trigger] parts@[j])@ == self.resource_texts()[j],
            decreases self.resources.len() - i,
        {
            let mut part = String::from_str(", [");
            part.append(self.types[i].to_string().as_str());
            part.append(", ");
            part.append(self.resources[i].to_string().as_str());
            part.append(", ");
            part.append(self.names[i].as_str());
            part.append("]");
            parts.push(part);
            i = i + 1;
        }
        assert(views(parts@) =~= self.resource_texts());
        let mut s = String::from_str("asm \"");
        s.append(self.code.as_str());
        s.append("\"");
        s.append(concat_strings(&parts).as_str());
        s
    }

    /// The trace of each resource: that of its type, then that of its
    /// operand.
    pub open spec fn resource_traces<'a>(&'a self) -> Seq<Seq<IRNode<'a>>> {
        Seq::new(
            self.resources()@.len(),
            |i: int| self.types()@[i].trace() + self.resources()@[i].trace(),
        )
    }

    /// The node itself, then each resource's type and operand.
    pub open spec fn trace<'a>(&'a self) -> Seq<IRNode<'a>> {
        seq![IRNode::Asm(self)] + chain(self.resource_traces())
    }

    /// Lets the visitor enter this node, then its parts in that order.
    pub fn accept<V: IRVisitorImpl>(&self, visitor: &mut V)
        ensures
            final(visitor).state() == walk::<V>(old(visitor).state(), self.trace()),
    {
        broadcast use {lemma_walk_one, lemma_walk_none, lemma_walk_concat};

        proof {
            use_type_invariant(self);
        }
        visitor.enter(IRNode::Asm(self));
        let ghost start = visitor.state();
        let mut i: usize = 0;
        while i < self.resources.len()
            invariant
                i <= self.resources.len(),
                self.types@.len() == self.resources@.len(),
                visitor.state() == walk::<V>(start, chain_prefix(self.resource_traces(), i as nat)),
            decreases self.resources.len() - i,
        {
            let ghost before = visitor.state();
            self.types[i].accept(visitor);
            self.resources[i].accept(visitor);
            proof {
                lemma_walk_concat::<V>(
                    before,
                    self.types@[i as int].trace(),
                    self.resources@[i as int].trace(),
                );
                lemma_walk_step::<V>(
                    start,
                    self.resource_traces(),
                    i as nat,
                    before,
                    visitor.state(),
                );
            }
            i = i + 1;
        }
    }
}

impl Clone for IRAsm {
    fn clone(&self) -> Self {
        proof {
            use_type_invariant(self);
        }
        IRAsm {
            code: self.code.clone(),
            types: self.types.clone(),
            resources: self.resources.clone(),
            names: self.names.clone(),
        }
    }
}

/// One IR operation.
#[derive(Debug, Clone, PartialEq, Eq)]
pub enum IRInstruction {
    Goto(IRGoto),
    ConditionalJump(IRConditionalJump),
    NoOperate(IRNoOperate),
    Return(IRReturn),
    Malloc(IRMalloc),
    Free(IRFree),
    Realloc(IRRealloc),
    /// A typed store to memory.
    Store(IRSet),
    /// A typed load from memory.
    Load(IRGet),
    SetVirtualRegister(IRSetVirtualRegister),
    TypeCast(IRTypeCast),
    StackAllocate(IRStackAllocate),
    Calculate(IRCalculate),
    Increase(IRIncrease),
    Decrease(IRDecrease),
    Not(IRNot),
    Negate(IRNegate),
    Invoke(IRInvoke),
    Asm(IRAsm),
}

impl IRInstruction {
    /// The canonical text of the instruction, by kind.
    pub open spec fn render(&self) -> Seq<char> {
        match self {
            IRInstruction::Goto(i) => i.render(),
            IRInstruction::ConditionalJump(i) => i.render(),
            IRInstruction::NoOperate(i) => i.render(),
            IRInstruction::Return(i) => i.render(),
            IRInstruction::Malloc(i) => i.render(),
            IRInstruction::Free(i) => i.render(),
            IRInstruction::Realloc(i) => i.render(),
            IRInstruction::Store(i) => i.render(),
            IRInstruction::Load(i) => i.render(),
            IRInstruction::SetVirtualRegister(i) => i.render(),
            IRInstruction::TypeCast(i) => i.render(),
            IRInstruction::StackAllocate(i) => i.render(),
            IRInstruction::Calculate(i) => i.render(),
            IRInstruction::Increase(i) => i.render(),
            IRInstruction::Decrease(i) => i.render(),
            IRInstruction::Not(i) => i.render(),
            IRInstruction::Negate(i) => i.render(),
            IRInstruction::Invoke(i) => i.render(),
            IRInstruction::Asm(i) => i.render(),
        }
    }

    pub fn to_string(&self) -> (s: String)
        ensures
            s@ == self.render(),
    {
        match self {
            IRInstruction::Goto(i) => i.to_string(),
            IRInstruction::ConditionalJump(i) => i.to_string(),
            IRInstruction::NoOperate(i) => i.to_string(),
            IRInstruction::Return(i) => i.to_string(),
            IRInstruction::Malloc(i) => i.to_string(),
            IRInstruction::Free(i) => i.to_string(),
            IRInstruction::Realloc(i) => i.to_string(),
            IRInstruction::Store(i) => i.to_string(),
            IRInstruction::Load(i) => i.to_string(),
            IRInstruction::SetVirtualRegister(i) => i.to_string(),
            IRInstruction::TypeCast(i) => i.to_string(),
            IRInstruction::StackAllocate(i) => i.to_string(),
            IRInstruction::Calculate(i) => i.to_string(),
            IRInstruction::Increase(i) => i.to_string(),
            IRInstruction::Decrease(i) => i.to_string(),
            IRInstruction::Not(i) => i.to_string(),
            IRInstruction::Negate(i) => i.to_string(),
            IRInstruction::Invoke(i) => i.to_string(),
            IRInstruction::Asm(i) => i.to_string(),
        }
    }

    /// Whether the instruction transfers control: a goto, a conditional jump
    /// or a return.
    pub open spec fn spec_is_terminator(&self) -> bool {
        *self is Goto || *self is ConditionalJump || *self is Return
    }

    #[verifier::when_used_as_spec(spec_is_terminator)]
    pub fn is_terminator(&self) -> (b: bool)
        ensures
            b == self.spec_is_terminator(),
    {
        match self {
            IRInstruction::Goto(_) => true,
            IRInstruction::ConditionalJump(_) => true,
            IRInstruction::Return(_) => true,
            _ => false,
        }
    }

    /// The nodes that a traversal of the instruction enters, in order.
    pub open spec fn trace<'a>(&'a self) -> Seq<IRNode<'a>> {
        match self {
            IRInstruction::Goto(i) => i.trace(),
            IRInstruction::ConditionalJump(i) => i.trace(),
            IRInstruction::NoOperate(i) => i.trace(),
            IRInstruction::Return(i) => i.trace(),
            IRInstruction::Malloc(i) => i.trace(),
            IRInstruction::Free(i) => i.trace(),
            IRInstruction::Realloc(i) => i.trace(),
            IRInstruction::Store(i) => i.trace(),
            IRInstruction::Load(i) => i.trace(),
            IRInstruction::SetVirtualRegister(i) => i.trace(),
            IRInstruction::TypeCast(i) => i.trace(),
            IRInstruction::StackAllocate(i) => i.trace(),
            IRInstruction::Calculate(i) => i.trace(),
            IRInstruction::Increase(i) => i.trace(),
            IRInstruction::Decrease(i) => i.trace(),
            IRInstruction::Not(i) => i.trace(),
            IRInstruction::Negate(i) => i.trace(),
            IRInstruction::Invoke(i) => i.trace(),
            IRInstruction::Asm(i) => i.trace(),
        }
    }

    /// Hands the visitor to the instruction of this kind.
    pub fn accept<V: IRVisitorImpl>(&self, visitor: &mut V)
        ensures
            final(visitor).state() == walk::<V>(old(visitor).state(), self.trace()),
    {
        match self {
            IRInstruction::Goto(i) => i.accept(visitor),
            IRInstruction::ConditionalJump(i) => i.accept(visitor),
            IRInstruction::NoOperate(i) => i.accept(visitor),
            IRInstruction::Return(i) => i.accept(visitor),
            IRInstruction::Malloc(i) => i.accept(visitor),
            IRInstruction::Free(i) => i.accept(visitor),
            IRInstruction::Realloc(i) => i.accept(visitor),
            IRInstruction::Store(i) => i.accept(visitor),
            IRInstruction::Load(i) => i.accept(visitor),
            IRInstruction::SetVirtualRegister(i) => i.accept(visitor),
            IRInstruction::TypeCast(i) => i.accept(visitor),
            IRInstruction::StackAllocate(i) => i.accept(visitor),
            IRInstruction::Calculate(i) => i.accept(visitor),
            IRInstruction::Increase(i) => i.accept(visitor),
            IRInstruction::Decrease(i) => i.accept(visitor),
            IRInstruction::Not(i) => i.accept(visitor),
            IRInstruction::Negate(i) => i.accept(visitor),
            IRInstruction::Invoke(i) => i.accept(visitor),
            IRInstruction::Asm(i) => i.accept(visitor),
        }
    }
}

} // verus!
