//! The closed set of IR types: integers of five widths, the two floating
//! kinds, `void`, and pointers to any of these.

use crate::ir::IRVisitorImpl;
use crate::ir::base::IRNode;
use crate::ir::visit::{lemma_walk_concat, lemma_walk_one, walk};
use vstd::prelude::*;
use vstd::std_specs::cmp::PartialEqSpecImpl;
use vstd::string::*;

verus! {

/// The width of an integer type, in bits.
#[derive(Debug, Clone, Copy, Eq)]
pub enum IRIntegerTypeSize {
    OneBit,
    OneByte,
    TwoBytes,
    FourBytes,
    EightBytes,
}

impl IRIntegerTypeSize {
    /// The number of bits: 1, 8, 16, 32 or 64.
    pub open spec fn width(self) -> nat {
        match self {
            IRIntegerTypeSize::OneBit => 1,
            IRIntegerTypeSize::OneByte => 8,
            IRIntegerTypeSize::TwoBytes => 16,
            IRIntegerTypeSize::FourBytes => 32,
            IRIntegerTypeSize::EightBytes => 64,
        }
    }

    /// The decimal numeral of the width.
    pub open spec fn render(self) -> Seq<char> {
        match self {
            IRIntegerTypeSize::OneBit => "1"@,
            IRIntegerTypeSize::OneByte => "8"@,
            IRIntegerTypeSize::TwoBytes => "16"@,
            IRIntegerTypeSize::FourBytes => "32"@,
            IRIntegerTypeSize::EightBytes => "64"@,
        }
    }

    pub fn bits(&self) -> (n: usize)
        ensures
            n == self.width(),
    {
        match self {
            IRIntegerTypeSize::OneBit => 1,
            IRIntegerTypeSize::OneByte => 8,
            IRIntegerTypeSize::TwoBytes => 16,
            IRIntegerTypeSize::FourBytes => 32,
            IRIntegerTypeSize::EightBytes => 64,
        }
    }

    pub fn to_string(&self) -> (s: String)
        ensures
            s@ == self.render(),
    {
        match self {
            IRIntegerTypeSize::OneBit => String::from_str("1"),
            IRIntegerTypeSize::OneByte => String::from_str("8"),
            IRIntegerTypeSize::TwoBytes => String::from_str("16"),
            IRIntegerTypeSize::FourBytes => String::from_str("32"),
            IRIntegerTypeSize::EightBytes => String::from_str("64"),
        }
    }
}

impl PartialEq for IRIntegerTypeSize {
    fn eq(&self, other: &Self) -> (b: bool) {
        self.bits() == other.bits()
    }
}

impl PartialEqSpecImpl for IRIntegerTypeSize {
    open spec fn obeys_eq_spec() -> bool {
        true
    }

    open spec fn eq_spec(&self, other: &Self) -> bool {
        *self == *other
    }
}

/// An integer type: a width and a signedness.
#[derive(Debug, Clone, Copy, Eq)]
pub struct IRIntegerType {
    pub size: IRIntegerTypeSize,
    pub unsigned: bool,
}

impl IRIntegerType {
    pub fn new(size: IRIntegerTypeSize, unsigned: bool) -> (t: Self)
        ensures
            t == (IRIntegerType { size, unsigned }),
    {
        Self { size, unsigned }
    }

    /// `u` or `i`, then the width: `i32`, `u64`.
    pub open spec fn render(&self) -> Seq<char> {
        (if self.unsigned {
            "u"@
        } else {
            "i"@
        }) + self.size.render()
    }

    pub fn to_string(&self) -> (s: String)
        ensures
            s@ == self.render(),
    {
        let mut s = String::from_str(
            if self.unsigned {
                "u"
            } else {
                "i"
            },
        );
        s.append(self.size.to_string().as_str());
        s
    }

    /// The node itself: it has no parts.
    pub open spec fn trace<'a>(&'a self) -> Seq<IRNode<'a>> {
        seq![IRNode::IntegerType(self)]
    }

    /// Lets the visitor enter this node.
    pub fn accept<V: IRVisitorImpl>(&self, visitor: &mut V)
        ensures
            final(visitor).state() == walk::<V>(old(visitor).state(), self.trace()),
    {
        broadcast use lemma_walk_one;

        visitor.enter(IRNode::IntegerType(self));
    }
}

impl PartialEq for IRIntegerType {
    fn eq(&self, other: &Self) -> (b: bool) {
        self.size == other.size && self.unsigned == other.unsigned
    }
}

impl PartialEqSpecImpl for IRIntegerType {
    open spec fn obeys_eq_spec() -> bool {
        true
    }

    open spec fn eq_spec(&self, other: &Self) -> bool {
        *self == *other
    }
}

/// The single-precision floating type.
#[derive(Debug, Clone, Copy, Eq)]
pub struct IRFloatType {}

impl IRFloatType {
    pub fn new() -> (t: Self)
        ensures
            t == (IRFloatType {  }),
    {
        Self {  }
    }

    pub open spec fn render(&self) -> Seq<char> {
        "float"@
    }

    pub fn to_string(&self) -> (s: String)
        ensures
            s@ == self.render(),
    {
        String::from_str("float")
    }

    /// The node itself: it has no parts.
    pub open spec fn trace<'a>(&'a self) -> Seq<IRNode<'a>> {
        seq![IRNode::FloatType(self)]
    }

    /// Lets the visitor enter this node.
    pub fn accept<V: IRVisitorImpl>(&self, visitor: &mut V)
        ensures
            final(visitor).state() == walk::<V>(old(visitor).state(), self.trace()),
    {
        broadcast use lemma_walk_one;

        visitor.enter(IRNode::FloatType(self));
    }
}

impl PartialEq for IRFloatType {
    fn eq(&self, other: &Self) -> (b: bool) {
        true
    }
}

impl PartialEqSpecImpl for IRFloatType {
    open spec fn obeys_eq_spec() -> bool {
        true
    }

    open spec fn eq_spec(&self, other: &Self) -> bool {
        *self == *other
    }
}

/// The double-precision floating type.
#[derive(Debug, Clone, Copy, Eq)]
pub struct IRDoubleType {}

impl IRDoubleType {
    pub fn new() -> (t: Self)
        ensures
            t == (IRDoubleType {  }),
    {
        Self {  }
    }

    pub open spec fn render(&self) -> Seq<char> {
        "double"@
    }

    pub fn to_string(&self) -> (s: String)
        ensures
            s@ == self.render(),
    {
        String::from_str("double")
    }

    /// The node itself: it has no parts.
    pub open spec fn trace<'a>(&'a self) -> Seq<IRNode<'a>> {
        seq![IRNode::DoubleType(self)]
    }

    /// Lets the visitor enter this node.
    pub fn accept<V: IRVisitorImpl>(&self, visitor: &mut V)
        ensures
            final(visitor).state() == walk::<V>(old(visitor).state(), self.trace()),
    {
        broadcast use lemma_walk_one;

        visitor.enter(IRNode::DoubleType(self));
    }
}

impl PartialEq for IRDoubleType {
    fn eq(&self, other: &Self) -> (b: bool) {
        true
    }
}

impl PartialEqSpecImpl for IRDoubleType {
    open spec fn obeys_eq_spec() -> bool {
        true
    }

    open spec fn eq_spec(&self, other: &Self) -> bool {
        *self == *other
    }
}

/// The type of no value.
#[derive(Debug, Clone, Copy, Eq)]
pub struct IRVoidType {}

impl IRVoidType {
    pub fn new() -> (t: Self)
        ensures
            t == (IRVoidType {  }),
    {
        Self {  }
    }

    pub open spec fn render(&self) -> Seq<char> {
        "void"@
    }

    pub fn to_string(&self) -> (s: String)
        ensures
            s@ == self.render(),
    {
        String::from_str("void")
    }

    /// The node itself: it has no parts.
    pub open spec fn trace<'a>(&'a self) -> Seq<IRNode<'a>> {
        seq![IRNode::VoidType(self)]
    }

    /// Lets the visitor enter this node.
    pub fn accept<V: IRVisitorImpl>(&self, visitor: &mut V)
        ensures
            final(visitor).state() == walk::<V>(old(visitor).state(), self.trace()),
    {
        broadcast use lemma_walk_one;

        visitor.enter(IRNode::VoidType(self));
    }
}

impl PartialEq for IRVoidType {
    fn eq(&self, other: &Self) -> (b: bool) {
        true
    }
}

impl PartialEqSpecImpl for IRVoidType {
    open spec fn obeys_eq_spec() -> bool {
        true
    }

    open spec fn eq_spec(&self, other: &Self) -> bool {
        *self == *other
    }
}

/// A pointer to a value of the base type.
#[derive(Debug, Eq)]
pub struct IRPointerType {
    pub base: Box<IRType>,
}

impl IRPointerType {
    pub fn new(base: Box<IRType>) -> (t: Self)
        ensures
            t == (IRPointerType { base }),
    {
        Self { base }
    }

    /// The base type followed by `*`.
    pub open spec fn render(&self) -> Seq<char>
        decreases self,
    {
        self.base.render() + "*"@
    }

    pub fn to_string(&self) -> (s: String)
        ensures
            s@ == self.render(),
        decreases self,
    {
        let mut s = self.base.to_string();
        s.append("*");
        s
    }

    /// The node itself, then the base type.
    pub open spec fn trace<'a>(&'a self) -> Seq<IRNode<'a>>
        decreases self,
    {
        seq![IRNode::PointerType(self)] + self.base.trace()
    }

    /// Lets the visitor enter this node, then the base type.
    pub fn accept<V: IRVisitorImpl>(&self, visitor: &mut V)
        ensures
            final(visitor).state() == walk::<V>(old(visitor).state(), self.trace()),
        decreases self,
    {
        broadcast use {lemma_walk_one, lemma_walk_concat};

        visitor.enter(IRNode::PointerType(self));
        self.base.accept(visitor);
    }
}

impl Clone for IRPointerType {
    fn clone(&self) -> (t: Self)
        ensures
            t == *self,
    {
        IRPointerType { base: Box::new((*self.base).clone()) }
    }
}

impl PartialEq for IRPointerType {
    fn eq(&self, other: &Self) -> (b: bool) {
        *self.base == *other.base
    }
}

impl PartialEqSpecImpl for IRPointerType {
    open spec fn obeys_eq_spec() -> bool {
        true
    }

    open spec fn eq_spec(&self, other: &Self) -> bool {
        *self == *other
    }
}

/// A value's static type.
#[derive(Debug, Eq)]
pub enum IRType {
    Integer(IRIntegerType),
    Float(IRFloatType),
    Double(IRDoubleType),
    Void(IRVoidType),
    Pointer(IRPointerType),
}

impl IRType {
    /// The canonical text of the type: `i32`, `u64`, `float`, `double`,
    /// `void`, or the text of the base followed by `*`.
    pub open spec fn render(&self) -> Seq<char>
        decreases self,
    {
        match self {
            IRType::Integer(t) => t.render(),
            IRType::Float(t) => t.render(),
            IRType::Double(t) => t.render(),
            IRType::Void(t) => t.render(),
            IRType::Pointer(t) => t.render(),
        }
    }

    pub fn to_string(&self) -> (s: String)
        ensures
            s@ == self.render(),
        decreases self,
    {
        match self {
            IRType::Integer(t) => t.to_string(),
            IRType::Float(t) => t.to_string(),
            IRType::Double(t) => t.to_string(),
            IRType::Void(t) => t.to_string(),
            IRType::Pointer(t) => t.to_string(),
        }
    }

    /// The nodes that a traversal of the type enters, in order.
    pub open spec fn trace<'a>(&'a self) -> Seq<IRNode<'a>>
        decreases self,
    {
        match self {
            IRType::Integer(t) => t.trace(),
            IRType::Float(t) => t.trace(),
            IRType::Double(t) => t.trace(),
            IRType::Void(t) => t.trace(),
            IRType::Pointer(t) => t.trace(),
        }
    }

    /// Hands the visitor to the type of this kind.
    pub fn accept<V: IRVisitorImpl>(&self, visitor: &mut V)
        ensures
            final(visitor).state() == walk::<V>(old(visitor).state(), self.trace()),
        decreases self,
    {
        match self {
            IRType::Integer(t) => t.accept(visitor),
            IRType::Float(t) => t.accept(visitor),
            IRType::Double(t) => t.accept(visitor),
            IRType::Void(t) => t.accept(visitor),
            IRType::Pointer(t) => t.accept(visitor),
        }
    }
}

impl Clone for IRType {
    fn clone(&self) -> (t: Self)
        ensures
            t == *self,
        decreases self,
    {
        match self {
            IRType::Integer(t) => IRType::Integer(*t),
            IRType::Float(_) => IRType::Float(IRFloatType {  }),
            IRType::Double(_) => IRType::Double(IRDoubleType {  }),
            IRType::Void(_) => IRType::Void(IRVoidType {  }),
            IRType::Pointer(t) => IRType::Pointer(
                IRPointerType { base: Box::new((*t.base).clone()) },
            ),
        }
    }
}

impl PartialEq for IRType {
    fn eq(&self, other: &Self) -> (b: bool)
        decreases self,
    {
        match (self, other) {
            (IRType::Integer(a), IRType::Integer(b)) => a == b,
            (IRType::Float(_), IRType::Float(_)) => true,
            (IRType::Double(_), IRType::Double(_)) => true,
            (IRType::Void(_), IRType::Void(_)) => true,
            (IRType::Pointer(a), IRType::Pointer(b)) => *a.base == *b.base,
            _ => false,
        }
    }
}

impl PartialEqSpecImpl for IRType {
    open spec fn obeys_eq_spec() -> bool {
        true
    }

    open spec fn eq_spec(&self, other: &Self) -> bool {
        *self == *other
    }
}

} // verus!
