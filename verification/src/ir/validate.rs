//! Validation: the pass that holds a module to the invariants of the IR and
//! says where it breaks them.
//!
//! Construction accepts forward references, so a module under construction
//! may name blocks and constants that are not there yet. `IRModule::validate`
//! is the check to run on the finished module. It reports every breach with
//! its position, in the order of the traversal, and it reports nothing
//! exactly when the module is well formed.

use crate::ir::{IRModule, IRVisitorImpl};
use crate::ir::base::{IRBasicBlock, IRControlFlowGraph, IRFunction, IRNode};
use crate::ir::instruction::{IRInstruction, IRTypeCast, IRTypeCastKind};
use crate::ir::ordered::{
    blocks_get_index, blocks_get_index_of, blocks_len, functions_get_index,
    functions_get_index_of, functions_len, lemma_position_of_none, lemma_position_of_only,
    position_of,
};
use crate::ir::sequence::{chain, chain_prefix, lemma_chain_empty, lemma_chain_step};
use crate::ir::text::{nat_decimal, usize_to_string};
use crate::ir::types::IRType;
use crate::ir::visit::walk;
use vstd::prelude::*;
use vstd::string::*;

verus! {

/// The invariant that a diagnostic reports as broken.
#[derive(Debug, Clone, Copy, PartialEq, Eq)]
pub enum IRDiagnosticKind {
    /// The module's entry point names no function of the module.
    UnknownEntryPoint,
    /// A constant below a global datum has an index outside the constant
    /// pool. The reported index counts the data of the section.
    DataConstantOutOfRange,
    /// A function declares more parameters than it has fields.
    ArgumentCount,
    /// The edge lists of a graph do not fit its blocks, or do not mirror
    /// each other.
    EdgeRelation,
    /// A jump names a block that its graph does not have.
    UnknownTarget,
    /// A goto, conditional jump or return is followed by another
    /// instruction of its block.
    MisplacedTerminator,
    /// A return without a value, in a function that returns one.
    MissingReturnValue,
    /// A type cast whose kind does not fit its two types.
    InconsistentCast,
    /// A phi below the instruction has labels and operands of different
    /// number, or not as many as its block has predecessors.
    PhiArity,
    /// A constant below the instruction has an index outside the constant
    /// pool.
    ConstantOutOfRange,
}

impl IRDiagnosticKind {
    /// A few words that name the broken invariant.
    pub open spec fn render(&self) -> Seq<char> {
        match self {
            IRDiagnosticKind::UnknownEntryPoint => "entry point names no function"@,
            IRDiagnosticKind::DataConstantOutOfRange => {
                "constant index out of range in global data"@
            },
            IRDiagnosticKind::ArgumentCount => "more arguments than fields"@,
            IRDiagnosticKind::EdgeRelation => "edge relation inconsistent"@,
            IRDiagnosticKind::UnknownTarget => "jump target names no block"@,
            IRDiagnosticKind::MisplacedTerminator => "terminator is not the last instruction"@,
            IRDiagnosticKind::MissingReturnValue => "return without a value"@,
            IRDiagnosticKind::InconsistentCast => "cast kind does not fit the types"@,
            IRDiagnosticKind::PhiArity => "phi arity mismatch"@,
            IRDiagnosticKind::ConstantOutOfRange => "constant index out of range"@,
        }
    }

    pub fn to_string(&self) -> (s: String)
        ensures
            s@ == self.render(),
    {
        match self {
            IRDiagnosticKind::UnknownEntryPoint => String::from_str(
                "entry point names no function",
            ),
            IRDiagnosticKind::DataConstantOutOfRange => String::from_str(
                "constant index out of range in global data",
            ),
            IRDiagnosticKind::ArgumentCount => String::from_str("more arguments than fields"),
            IRDiagnosticKind::EdgeRelation => String::from_str("edge relation inconsistent"),
            IRDiagnosticKind::UnknownTarget => String::from_str("jump target names no block"),
            IRDiagnosticKind::MisplacedTerminator => String::from_str(
                "terminator is not the last instruction",
            ),
            IRDiagnosticKind::MissingReturnValue => String::from_str("return without a value"),
            IRDiagnosticKind::InconsistentCast => String::from_str(
                "cast kind does not fit the types",
            ),
            IRDiagnosticKind::PhiArity => String::from_str("phi arity mismatch"),
            IRDiagnosticKind::ConstantOutOfRange => String::from_str("constant index out of range"),
        }
    }
}

/// One breach of an invariant, with its position: the function (none for
/// the global initialisation and for the module itself), the block and the
/// index of the instruction within the block, as far as they apply.
#[derive(Debug, Clone, PartialEq, Eq)]
pub struct IRDiagnostic {
    pub kind: IRDiagnosticKind,
    pub function: Option<String>,
    pub block: Option<String>,
    pub instruction: Option<usize>,
}

/// What a diagnostic says, with the names as sequences of characters.
pub struct IRDiagnosticView {
    pub kind: IRDiagnosticKind,
    pub function: Option<Seq<char>>,
    pub block: Option<Seq<char>>,
    pub instruction: Option<usize>,
}

impl View for IRDiagnostic {
    type V = IRDiagnosticView;

    open spec fn view(&self) -> IRDiagnosticView {
        IRDiagnosticView {
            kind: self.kind,
            function: match self.function {
                Some(name) => Some(name@),
                None => None,
            },
            block: match self.block {
                Some(name) => Some(name@),
                None => None,
            },
            instruction: self.instruction,
        }
    }
}

impl IRDiagnosticView {
    /// `function '` name `', `, where the diagnostic names a function.
    pub open spec fn function_text(&self) -> Seq<char> {
        match self.function {
            Some(name) => "function '"@ + name + "', "@,
            None => Seq::empty(),
        }
    }

    /// `block '` name `', `, where the diagnostic names a block.
    pub open spec fn block_text(&self) -> Seq<char> {
        match self.block {
            Some(name) => "block '"@ + name + "', "@,
            None => Seq::empty(),
        }
    }

    /// `index ` number `, `, where the diagnostic has an index.
    pub open spec fn instruction_text(&self) -> Seq<char> {
        match self.instruction {
            Some(index) => "index "@ + nat_decimal(index as nat) + ", "@,
            None => Seq::empty(),
        }
    }

    /// The position as far as it applies, then the broken invariant.
    pub open spec fn render(&self) -> Seq<char> {
        self.function_text() + self.block_text() + self.instruction_text() + self.kind.render()
    }
}

impl IRDiagnostic {
    pub fn to_string(&self) -> (s: String)
        ensures
            s@ == self@.render(),
    {
        let mut s = String::new();
        match &self.function {
            Some(name) => {
                s.append("function '");
                s.append(name.as_str());
                s.append("', ");
                assert(s@ =~= "function '"@ + name@ + "', "@);
            },
            None => {},
        }
        let ghost first = s@;
        match &self.block {
            Some(name) => {
                s.append("block '");
                s.append(name.as_str());
                s.append("', ");
                assert(s@ =~= first + ("block '"@ + name@ + "', "@));
            },
            None => {
                assert(s@ =~= first + Seq::<char>::empty());
            },
        }
        let ghost second = s@;
        match self.instruction {
            Some(index) => {
                s.append("index ");
                s.append(usize_to_string(index).as_str());
                s.append(", ");
                assert(s@ =~= second + ("index "@ + nat_decimal(index as nat) + ", "@));
            },
            None => {
                assert(s@ =~= second + Seq::<char>::empty());
            },
        }
        s.append(self.kind.to_string().as_str());
        s
    }
}

/// The views of the given diagnostics, one by one.
pub open spec fn diagnostic_views(diagnostics: Seq<IRDiagnostic>) -> Seq<IRDiagnosticView> {
    Seq::new(diagnostics.len(), |i: int| diagnostics[i]@)
}

/// Whether the node, if it is a phi, has as many labels as operands, and
/// `in_degree` of each.
pub open spec fn phi_fits(node: IRNode<'_>, in_degree: nat) -> bool {
    node matches IRNode::Phi(phi) ==> phi.labels@.len() == phi.operands@.len()
        && phi.operands@.len() == in_degree
}

/// Whether the node, if it is a constant, has an index within a pool of
/// `pool_size` entries.
pub open spec fn constant_fits(node: IRNode<'_>, pool_size: nat) -> bool {
    node matches IRNode::Constant(constant) ==> 0 <= constant.index && constant.index < pool_size
}

/// Whether every phi of the trace fits a block of the given in-degree.
pub open spec fn phis_fit(trace: Seq<IRNode<'_>>, in_degree: nat) -> bool {
    forall|i: int| 0 <= i < trace.len() ==> phi_fits(#[trigger] trace[i], in_degree)
}

/// Whether every constant of the trace has an index within the pool.
pub open spec fn constants_fit(trace: Seq<IRNode<'_>>, pool_size: nat) -> bool {
    forall|i: int| 0 <= i < trace.len() ==> constant_fits(#[trigger] trace[i], pool_size)
}

/// The pass that holds the phis and the constants it is shown to an
/// in-degree and a pool size.
#[derive(Debug, Clone, Copy, PartialEq, Eq)]
pub struct IRNodeCheck {
    pub pool_size: usize,
    pub in_degree: usize,
    pub phis_fit: bool,
    pub constants_fit: bool,
}

impl IRNodeCheck {
    /// A check that has seen nothing yet, and so found nothing wrong.
    pub fn new(pool_size: usize, in_degree: usize) -> (c: Self)
        ensures
            c == (IRNodeCheck { pool_size, in_degree, phis_fit: true, constants_fit: true }),
    {
        Self { pool_size, in_degree, phis_fit: true, constants_fit: true }
    }

    /// After a trace the check has found nothing wrong exactly when it had
    /// found nothing wrong before and every node of the trace fits.
    pub proof fn lemma_checked(state: IRNodeCheck, trace: Seq<IRNode<'_>>)
        ensures
            walk::<IRNodeCheck>(state, trace).pool_size == state.pool_size,
            walk::<IRNodeCheck>(state, trace).in_degree == state.in_degree,
            walk::<IRNodeCheck>(state, trace).phis_fit == (state.phis_fit && phis_fit(
                trace,
                state.in_degree as nat,
            )),
            walk::<IRNodeCheck>(state, trace).constants_fit == (state.constants_fit
                && constants_fit(trace, state.pool_size as nat)),
        decreases trace.len(),
    {
        if trace.len() > 0 {
            let next = IRNodeCheck::observe(state, trace[0]);
            let rest = trace.drop_first();
            Self::lemma_checked(next, rest);
            assert forall|i: int| 0 <= i < rest.len() implies #[trigger] rest[i] == trace[i
                + 1] by {}
            if phis_fit(trace, state.in_degree as nat) {
                assert forall|i: int| 0 <= i < rest.len() implies phi_fits(
                    #[trigger] rest[i],
                    state.in_degree as nat,
                ) by {
                    assert(phi_fits(trace[i + 1], state.in_degree as nat));
                }
            }
            if phi_fits(trace[0], state.in_degree as nat) && phis_fit(
                rest,
                state.in_degree as nat,
            ) {
                assert forall|i: int| 0 <= i < trace.len() implies phi_fits(
                    #[trigger] trace[i],
                    state.in_degree as nat,
                ) by {
                    if i > 0 {
                        assert(phi_fits(rest[i - 1], state.in_degree as nat));
                    }
                }
            }
            if constants_fit(trace, state.pool_size as nat) {
                assert forall|i: int| 0 <= i < rest.len() implies constant_fits(
                    #[trigger] rest[i],
                    state.pool_size as nat,
                ) by {
                    assert(constant_fits(trace[i + 1], state.pool_size as nat));
                }
            }
            if constant_fits(trace[0], state.pool_size as nat) && constants_fit(
                rest,
                state.pool_size as nat,
            ) {
                assert forall|i: int| 0 <= i < trace.len() implies constant_fits(
                    #[trigger] trace[i],
                    state.pool_size as nat,
                ) by {
                    if i > 0 {
                        assert(constant_fits(rest[i - 1], state.pool_size as nat));
                    }
                }
            }
        }
    }
}

impl IRVisitorImpl for IRNodeCheck {
    type State = IRNodeCheck;

    open spec fn state(&self) -> IRNodeCheck {
        *self
    }

    open spec fn observe(state: IRNodeCheck, node: IRNode<'_>) -> IRNodeCheck {
        IRNodeCheck {
            pool_size: state.pool_size,
            in_degree: state.in_degree,
            phis_fit: state.phis_fit && phi_fits(node, state.in_degree as nat),
            constants_fit: state.constants_fit && constant_fits(node, state.pool_size as nat),
        }
    }

    fn enter(&mut self, node: IRNode<'_>) {
        match node {
            IRNode::Phi(phi) => {
                if !(phi.labels.len() == phi.operands.len() && phi.operands.len()
                    == self.in_degree) {
                    self.phis_fit = false;
                }
            },
            IRNode::Constant(constant) => {
                if !(0 <= constant.index && (constant.index as u64) < (self.pool_size as u64)) {
                    self.constants_fit = false;
                }
            },
            _ => {},
        }
    }
}

/// The view of an optional name.
pub open spec fn name_view(name: Option<&str>) -> Option<Seq<char>> {
    match name {
        Some(text) => Some(text@),
        None => None,
    }
}

/// The diagnostic of the given kind at the given position, where `broken`
/// holds, and nothing where it does not.
pub open spec fn report_if(
    broken: bool,
    kind: IRDiagnosticKind,
    function: Option<Seq<char>>,
    block: Option<Seq<char>>,
    instruction: Option<usize>,
) -> Seq<IRDiagnosticView> {
    if broken {
        seq![IRDiagnosticView { kind, function, block, instruction }]
    } else {
        Seq::empty()
    }
}

fn report(
    diagnostics: &mut Vec<IRDiagnostic>,
    broken: bool,
    kind: IRDiagnosticKind,
    function: Option<&str>,
    block: Option<&str>,
    instruction: Option<usize>,
)
    ensures
        diagnostic_views(final(diagnostics)@) == diagnostic_views(old(diagnostics)@) + report_if(
            broken,
            kind,
            name_view(function),
            name_view(block),
            instruction,
        ),
{
    if broken {
        let function = match function {
            Some(name) => Some(String::from_str(name)),
            None => None,
        };
        let block = match block {
            Some(name) => Some(String::from_str(name)),
            None => None,
        };
        diagnostics.push(IRDiagnostic { kind, function, block, instruction });
    }
    assert(diagnostic_views(diagnostics@) =~= diagnostic_views(old(diagnostics)@) + report_if(
        broken,
        kind,
        name_view(function),
        name_view(block),
        instruction,
    ));
}

fn report_all(diagnostics: &mut Vec<IRDiagnostic>, more: Vec<IRDiagnostic>)
    ensures
        diagnostic_views(final(diagnostics)@) == diagnostic_views(old(diagnostics)@)
            + diagnostic_views(more@),
{
    let ghost added = more@;
    let mut more = more;
    diagnostics.append(&mut more);
    assert(diagnostic_views(diagnostics@) =~= diagnostic_views(old(diagnostics)@)
        + diagnostic_views(added));
}

impl IRTypeCast {
    /// Whether the kind of the cast fits its two types. An extension goes
    /// from an integer to a wider integer, a truncation from an integer to a
    /// narrower one; a conversion between integer and floating goes from an
    /// integer to `float` or `double`, or back; a floating extension goes
    /// from `float` to `double`, a floating truncation from `double` to
    /// `float`.
    pub open spec fn consistent(&self) -> bool {
        match self.kind {
            IRTypeCastKind::ZeroExtend | IRTypeCastKind::SignExtend => {
                &&& *self.original_type matches IRType::Integer(from)
                &&& *self.target_type matches IRType::Integer(to)
                &&& from.size.width() < to.size.width()
            },
            IRTypeCastKind::Truncate => {
                &&& *self.original_type matches IRType::Integer(from)
                &&& *self.target_type matches IRType::Integer(to)
                &&& from.size.width() > to.size.width()
            },
            IRTypeCastKind::IntToFloat => {
                &&& *self.original_type is Integer
                &&& (*self.target_type is Float || *self.target_type is Double)
            },
            IRTypeCastKind::FloatToInt => {
                &&& (*self.original_type is Float || *self.original_type is Double)
                &&& *self.target_type is Integer
            },
            IRTypeCastKind::FloatExtend => {
                *self.original_type is Float && *self.target_type is Double
            },
            IRTypeCastKind::FloatTruncate => {
                *self.original_type is Double && *self.target_type is Float
            },
        }
    }

    /// Decides whether the kind of the cast fits its two types.
    pub fn is_consistent(&self) -> (ok: bool)
        ensures
            ok == self.consistent(),
    {
        match self.kind {
            IRTypeCastKind::ZeroExtend | IRTypeCastKind::SignExtend => {
                match (&*self.original_type, &*self.target_type) {
                    (IRType::Integer(from), IRType::Integer(to)) => from.size.bits()
                        < to.size.bits(),
                    _ => false,
                }
            },
            IRTypeCastKind::Truncate => {
                match (&*self.original_type, &*self.target_type) {
                    (IRType::Integer(from), IRType::Integer(to)) => from.size.bits()
                        > to.size.bits(),
                    _ => false,
                }
            },
            IRTypeCastKind::IntToFloat => {
                match (&*self.original_type, &*self.target_type) {
                    (IRType::Integer(_), IRType::Float(_)) => true,
                    (IRType::Integer(_), IRType::Double(_)) => true,
                    _ => false,
                }
            },
            IRTypeCastKind::FloatToInt => {
                match (&*self.original_type, &*self.target_type) {
                    (IRType::Float(_), IRType::Integer(_)) => true,
                    (IRType::Double(_), IRType::Integer(_)) => true,
                    _ => false,
                }
            },
            IRTypeCastKind::FloatExtend => {
                match (&*self.original_type, &*self.target_type) {
                    (IRType::Float(_), IRType::Double(_)) => true,
                    _ => false,
                }
            },
            IRTypeCastKind::FloatTruncate => {
                match (&*self.original_type, &*self.target_type) {
                    (IRType::Double(_), IRType::Float(_)) => true,
                    _ => false,
                }
            },
        }
    }
}

/// Whether the instruction, if it is a return without a value, stands where
/// no value is expected.
pub open spec fn return_fits(instruction: IRInstruction, value_expected: bool) -> bool {
    instruction matches IRInstruction::Return(r) ==> (r.operand is None ==> !value_expected)
}

/// Whether the instruction, if it is a type cast, has a kind that fits its
/// types.
pub open spec fn cast_fits(instruction: IRInstruction) -> bool {
    instruction matches IRInstruction::TypeCast(cast) ==> cast.consistent()
}

impl IRControlFlowGraph {
    /// Whether the instruction, if it is a jump, names a block of this
    /// graph.
    pub open spec fn target_known(&self, instruction: IRInstruction) -> bool {
        match instruction {
            IRInstruction::Goto(jump) => position_of(self.blocks(), jump.target@) is Some,
            IRInstruction::ConditionalJump(jump) => position_of(self.blocks(), jump.target@)
                is Some,
            _ => true,
        }
    }

    /// The instruction at index `k` of the block at position `b`.
    pub open spec fn instruction_at(&self, b: int, k: int) -> IRInstruction {
        *self.blocks()[b].1.instructions@[k]
    }

    /// Whether the instruction is a terminator with another instruction
    /// after it.
    pub open spec fn terminator_misplaced(&self, b: int, k: int) -> bool {
        self.instruction_at(b, k).is_terminator() && k + 1 < self.blocks()[b].1.instructions@.len()
    }

    /// The instruction breaks none of the invariants that concern a single
    /// instruction: a jump goes to a block of the graph, a terminator ends
    /// its block, a return has a value where one is expected, a cast has a
    /// kind that fits its types, every phi below it has one arm for each
    /// predecessor of the block, and every constant below it is in the
    /// pool.
    pub open spec fn instruction_well_formed(
        &self,
        b: int,
        k: int,
        value_expected: bool,
        pool_size: nat,
    ) -> bool {
        &&& self.target_known(self.instruction_at(b, k))
        &&& !self.terminator_misplaced(b, k)
        &&& return_fits(self.instruction_at(b, k), value_expected)
        &&& cast_fits(self.instruction_at(b, k))
        &&& phis_fit(self.instruction_at(b, k).trace(), self.in_degree(b))
        &&& constants_fit(self.instruction_at(b, k).trace(), pool_size)
    }

    /// What validation reports of one instruction: at most one diagnostic of
    /// each kind, in the order unknown target, misplaced terminator, missing
    /// return value, inconsistent cast, phi arity, constant out of range.
    pub open spec fn instruction_diagnostics(
        &self,
        function: Option<Seq<char>>,
        b: int,
        k: int,
        value_expected: bool,
        pool_size: nat,
    ) -> Seq<IRDiagnosticView> {
        let block = Some(self.blocks()[b].0);
        let index = Some(k as usize);
        report_if(
            !self.target_known(self.instruction_at(b, k)),
            IRDiagnosticKind::UnknownTarget,
            function,
            block,
            index,
        ) + report_if(
            self.terminator_misplaced(b, k),
            IRDiagnosticKind::MisplacedTerminator,
            function,
            block,
            index,
        ) + report_if(
            !return_fits(self.instruction_at(b, k), value_expected),
            IRDiagnosticKind::MissingReturnValue,
            function,
            block,
            index,
        ) + report_if(
            !cast_fits(self.instruction_at(b, k)),
            IRDiagnosticKind::InconsistentCast,
            function,
            block,
            index,
        ) + report_if(
            !phis_fit(self.instruction_at(b, k).trace(), self.in_degree(b)),
            IRDiagnosticKind::PhiArity,
            function,
            block,
            index,
        ) + report_if(
            !constants_fit(self.instruction_at(b, k).trace(), pool_size),
            IRDiagnosticKind::ConstantOutOfRange,
            function,
            block,
            index,
        )
    }

    /// What validation reports of each instruction of a block.
    pub open spec fn block_parts(
        &self,
        function: Option<Seq<char>>,
        b: int,
        value_expected: bool,
        pool_size: nat,
    ) -> Seq<Seq<IRDiagnosticView>> {
        Seq::new(
            self.blocks()[b].1.instructions@.len(),
            |k: int| self.instruction_diagnostics(function, b, k, value_expected, pool_size),
        )
    }

    /// What validation reports of each block of the graph.
    pub open spec fn graph_parts(
        &self,
        function: Option<Seq<char>>,
        value_expected: bool,
        pool_size: nat,
    ) -> Seq<Seq<IRDiagnosticView>> {
        Seq::new(
            self.blocks().len(),
            |b: int| chain(self.block_parts(function, b, value_expected, pool_size)),
        )
    }

    /// What validation reports of the graph: the edge relation first, then
    /// the instructions, block by block in insertion order.
    pub open spec fn diagnostics(
        &self,
        function: Option<Seq<char>>,
        value_expected: bool,
        pool_size: nat,
    ) -> Seq<IRDiagnosticView> {
        report_if(
            !self.edges_consistent(),
            IRDiagnosticKind::EdgeRelation,
            function,
            None,
            None,
        ) + chain(self.graph_parts(function, value_expected, pool_size))
    }

    /// Every instruction of the block at position `b` is well formed.
    pub open spec fn block_well_formed(
        &self,
        b: int,
        value_expected: bool,
        pool_size: nat,
    ) -> bool {
        forall|k: int|
            0 <= k < self.blocks()[b].1.instructions@.len() ==> #[trigger]
                self.instruction_well_formed(b, k, value_expected, pool_size)
    }

    /// The graph breaks no invariant: its edge relation is consistent, and
    /// every instruction of every block is well formed.
    pub open spec fn well_formed(&self, value_expected: bool, pool_size: nat) -> bool {
        &&& self.edges_consistent()
        &&& forall|b: int|
            0 <= b < self.blocks().len() ==> #[trigger] self.block_well_formed(
                b,
                value_expected,
                pool_size,
            )
    }

    /// Validation reports nothing of a block exactly when every instruction
    /// of the block is well formed.
    pub proof fn lemma_block_silent_iff_well_formed(
        &self,
        function: Option<Seq<char>>,
        b: int,
        value_expected: bool,
        pool_size: nat,
    )
        ensures
            chain(self.block_parts(function, b, value_expected, pool_size)).len() == 0
                <==> self.block_well_formed(b, value_expected, pool_size),
    {
        let parts = self.block_parts(function, b, value_expected, pool_size);
        lemma_chain_empty(parts, parts.len());
        assert forall|k: int| 0 <= k < parts.len() implies ((#[trigger] parts[k]).len() == 0
            <==> self.instruction_well_formed(b, k, value_expected, pool_size)) by {}
        if chain(parts).len() == 0 {
            assert forall|k: int| 0 <= k < parts.len() implies #[trigger]
                self.instruction_well_formed(b, k, value_expected, pool_size) by {
                assert(parts[k].len() == 0);
            }
        }
        if self.block_well_formed(b, value_expected, pool_size) {
            assert forall|k: int| 0 <= k < parts.len() implies (#[trigger] parts[k]).len()
                == 0 by {
                assert(self.instruction_well_formed(b, k, value_expected, pool_size));
            }
        }
    }

    /// Validation reports nothing of a graph exactly when the graph is well
    /// formed.
    pub proof fn lemma_silent_iff_well_formed(
        &self,
        function: Option<Seq<char>>,
        value_expected: bool,
        pool_size: nat,
    )
        ensures
            self.diagnostics(function, value_expected, pool_size).len() == 0 <==> self.well_formed(
                value_expected,
                pool_size,
            ),
    {
        let parts = self.graph_parts(function, value_expected, pool_size);
        lemma_chain_empty(parts, parts.len());
        assert forall|b: int| 0 <= b < parts.len() implies ((#[trigger] parts[b]).len() == 0
            <==> self.block_well_formed(b, value_expected, pool_size)) by {
            self.lemma_block_silent_iff_well_formed(function, b, value_expected, pool_size);
        }
        if self.diagnostics(function, value_expected, pool_size).len() == 0 {
            assert forall|b: int| 0 <= b < self.blocks().len() implies #[trigger]
                self.block_well_formed(b, value_expected, pool_size) by {
                assert(parts[b].len() == 0);
            }
        }
        if self.well_formed(value_expected, pool_size) {
            assert forall|b: int| 0 <= b < parts.len() implies (#[trigger] parts[b]).len()
                == 0 by {
                assert(self.block_well_formed(b, value_expected, pool_size));
            }
        }
    }

    fn validate_instruction(
        &self,
        function: Option<&str>,
        b: usize,
        name: &str,
        block: &IRBasicBlock,
        k: usize,
        value_expected: bool,
        pool_size: usize,
    ) -> (diagnostics: Vec<IRDiagnostic>)
        requires
            b < self.blocks().len(),
            name@ == self.blocks()[b as int].0,
            *block == self.blocks()[b as int].1,
            k < block.instructions@.len(),
        ensures
            diagnostic_views(diagnostics@) == self.instruction_diagnostics(
                name_view(function),
                b as int,
                k as int,
                value_expected,
                pool_size as nat,
            ),
    {
        let instruction = &block.instructions[k];
        let target_known = match &**instruction {
            IRInstruction::Goto(jump) => {
                let found = blocks_get_index_of(&self.basic_blocks, jump.target.as_str());
                proof {
                    match found {
                        Some(i) => lemma_position_of_only(self.blocks(), jump.target@, i as int),
                        None => lemma_position_of_none(self.blocks(), jump.target@),
                    }
                }
                found.is_some()
            },
            IRInstruction::ConditionalJump(jump) => {
                let found = blocks_get_index_of(&self.basic_blocks, jump.target.as_str());
                proof {
                    match found {
                        Some(i) => lemma_position_of_only(self.blocks(), jump.target@, i as int),
                        None => lemma_position_of_none(self.blocks(), jump.target@),
                    }
                }
                found.is_some()
            },
            _ => true,
        };
        let misplaced = instruction.is_terminator() && k < block.instructions.len() - 1;
        let value_missing = match &**instruction {
            IRInstruction::Return(r) => r.operand.is_none() && value_expected,
            _ => false,
        };
        let cast_inconsistent = match &**instruction {
            IRInstruction::TypeCast(cast) => !cast.is_consistent(),
            _ => false,
        };
        let in_degree = if b < self.in_edges.len() {
            self.in_edges[b].len()
        } else {
            0
        };
        let mut check = IRNodeCheck::new(pool_size, in_degree);
        instruction.accept(&mut check);
        proof {
            IRNodeCheck::lemma_checked(
                IRNodeCheck { pool_size, in_degree, phis_fit: true, constants_fit: true },
                instruction.trace(),
            );
        }
        let mut diagnostics: Vec<IRDiagnostic> = Vec::new();
        assert(diagnostic_views(diagnostics@) =~= Seq::<IRDiagnosticView>::empty());
        report(
            &mut diagnostics,
            !target_known,
            IRDiagnosticKind::UnknownTarget,
            function,
            Some(name),
            Some(k),
        );
        report(
            &mut diagnostics,
            misplaced,
            IRDiagnosticKind::MisplacedTerminator,
            function,
            Some(name),
            Some(k),
        );
        report(
            &mut diagnostics,
            value_missing,
            IRDiagnosticKind::MissingReturnValue,
            function,
            Some(name),
            Some(k),
        );
        report(
            &mut diagnostics,
            cast_inconsistent,
            IRDiagnosticKind::InconsistentCast,
            function,
            Some(name),
            Some(k),
        );
        report(
            &mut diagnostics,
            !check.phis_fit,
            IRDiagnosticKind::PhiArity,
            function,
            Some(name),
            Some(k),
        );
        report(
            &mut diagnostics,
            !check.constants_fit,
            IRDiagnosticKind::ConstantOutOfRange,
            function,
            Some(name),
            Some(k),
        );
        assert(diagnostic_views(diagnostics@) =~= self.instruction_diagnostics(
            name_view(function),
            b as int,
            k as int,
            value_expected,
            pool_size as nat,
        ));
        diagnostics
    }

    /// Holds the graph to its invariants. `function` is the name of the
    /// function that the graph belongs to, `value_expected` says whether that
    /// function returns a value, and `pool_size` is the number of entries of
    /// the module's constant pool.
    pub fn validate(
        &self,
        function: Option<&str>,
        value_expected: bool,
        pool_size: usize,
    ) -> (diagnostics: Vec<IRDiagnostic>)
        ensures
            diagnostic_views(diagnostics@) == self.diagnostics(
                name_view(function),
                value_expected,
                pool_size as nat,
            ),
            diagnostics@.len() == 0 <==> self.well_formed(value_expected, pool_size as nat),
    {
        let mut diagnostics: Vec<IRDiagnostic> = Vec::new();
        assert(diagnostic_views(diagnostics@) =~= Seq::<IRDiagnosticView>::empty());
        let consistent = self.edges_are_consistent();
        report(&mut diagnostics, !consistent, IRDiagnosticKind::EdgeRelation, function, None, None);
        let ghost head = diagnostic_views(diagnostics@);
        let ghost parts = self.graph_parts(name_view(function), value_expected, pool_size as nat);
        let n = blocks_len(&self.basic_blocks);
        let mut b: usize = 0;
        while b < n
            invariant
                b <= n,
                n == self.blocks().len(),
                parts == self.graph_parts(name_view(function), value_expected, pool_size as nat),
                diagnostic_views(diagnostics@) == head + chain_prefix(parts, b as nat),
            decreases n - b,
        {
            match blocks_get_index(&self.basic_blocks, b) {
                Some((name, block)) => {
                    let ghost inner = self.block_parts(
                                name_view(function),
                                b as int,
                                value_expected,
                                pool_size as nat,
                            );
                    let ghost before = diagnostic_views(diagnostics@);
                    let mut k: usize = 0;
                    while k < block.instructions.len()
                        invariant
                            k <= block.instructions.len(),
                            b < self.blocks().len(),
                            name@ == self.blocks()[b as int].0,
                            **block == self.blocks()[b as int].1,
                            inner == self.block_parts(
                                name_view(function),
                                b as int,
                                value_expected,
                                pool_size as nat,
                            ),
                            diagnostic_views(diagnostics@) == before + chain_prefix(
                                inner,
                                k as nat,
                            ),
                        decreases block.instructions.len() - k,
                    {
                        let more = self.validate_instruction(
                            function,
                            b,
                            name.as_str(),
                            block,
                            k,
                            value_expected,
                            pool_size,
                        );
                        report_all(&mut diagnostics, more);
                        proof {
                            lemma_chain_step(inner, k as nat);
                        }
                        k = k + 1;
                    }
                    proof {
                        assert(parts[b as int] == chain(inner));
                        lemma_chain_step(parts, b as nat);
                    }
                },
                None => vstd::pervasive::unreached(),
            }
            b = b + 1;
        }
        proof {
            self.lemma_silent_iff_well_formed(
                name_view(function),
                value_expected,
                pool_size as nat,
            );
            assert(diagnostics@.len() == diagnostic_views(diagnostics@).len());
        }
        diagnostics
    }

    /// In a well-formed graph every phi below an instruction has as many
    /// labels as operands, and as many as its block has predecessors.
    pub proof fn lemma_phi_arity(
        &self,
        value_expected: bool,
        pool_size: nat,
        b: int,
        k: int,
        i: int,
    )
        requires
            self.well_formed(value_expected, pool_size),
            0 <= b < self.blocks().len(),
            0 <= k < self.blocks()[b].1.instructions@.len(),
            0 <= i < self.instruction_at(b, k).trace().len(),
            self.instruction_at(b, k).trace()[i] is Phi,
        ensures
            self.instruction_at(b, k).trace()[i]->Phi_0.labels@.len() == self.in_degree(b),
            self.instruction_at(b, k).trace()[i]->Phi_0.operands@.len() == self.in_degree(b),
    {
        assert(self.block_well_formed(b, value_expected, pool_size));
        assert(self.instruction_well_formed(b, k, value_expected, pool_size));
        assert(phi_fits(self.instruction_at(b, k).trace()[i], self.in_degree(b)));
    }
}

impl IRFunction {
    /// Whether the function returns a value: whether its return type is
    /// anything but `void`.
    pub open spec fn returns_value(&self) -> bool {
        !(*self.return_type is Void)
    }

    /// What validation reports of the function: the parameter count first,
    /// then what it reports of the graph.
    pub open spec fn diagnostics(&self, pool_size: nat) -> Seq<IRDiagnosticView> {
        report_if(
            self.arguments_count > self.fields@.len(),
            IRDiagnosticKind::ArgumentCount,
            Some(self.name@),
            None,
            None,
        ) + self.control_flow_graph.diagnostics(Some(self.name@), self.returns_value(), pool_size)
    }

    /// The function breaks no invariant: its parameters are among its
    /// fields, and its graph is well formed.
    pub open spec fn well_formed(&self, pool_size: nat) -> bool {
        &&& self.arguments_count <= self.fields@.len()
        &&& self.control_flow_graph.well_formed(self.returns_value(), pool_size)
    }

    /// Validation reports nothing of a function exactly when the function
    /// is well formed.
    pub proof fn lemma_silent_iff_well_formed(&self, pool_size: nat)
        ensures
            self.diagnostics(pool_size).len() == 0 <==> self.well_formed(pool_size),
    {
        self.control_flow_graph.lemma_silent_iff_well_formed(
            Some(self.name@),
            self.returns_value(),
            pool_size,
        );
    }

    /// Holds the function to its invariants. `pool_size` is the number of
    /// entries of the module's constant pool.
    pub fn validate(&self, pool_size: usize) -> (diagnostics: Vec<IRDiagnostic>)
        ensures
            diagnostic_views(diagnostics@) == self.diagnostics(pool_size as nat),
            diagnostics@.len() == 0 <==> self.well_formed(pool_size as nat),
    {
        let mut diagnostics: Vec<IRDiagnostic> = Vec::new();
        assert(diagnostic_views(diagnostics@) =~= Seq::<IRDiagnosticView>::empty());
        report(
            &mut diagnostics,
            self.arguments_count > self.fields.len(),
            IRDiagnosticKind::ArgumentCount,
            Some(self.name.as_str()),
            None,
            None,
        );
        let value_expected = match &*self.return_type {
            IRType::Void(_) => false,
            _ => true,
        };
        let more = self.control_flow_graph.validate(
            Some(self.name.as_str()),
            value_expected,
            pool_size,
        );
        report_all(&mut diagnostics, more);
        proof {
            self.lemma_silent_iff_well_formed(pool_size as nat);
            assert(diagnostics@.len() == diagnostic_views(diagnostics@).len());
        }
        diagnostics
    }
}

impl IRModule {
    /// The number of entries of the constant pool.
    pub open spec fn pool_size(&self) -> nat {
        self.constant_pool.entries@.len()
    }

    /// Whether the entry point, if the module has one, names a function of
    /// the module.
    pub open spec fn entry_point_known(&self) -> bool {
        match self.entry_point {
            Some(name) => position_of(self.function_list(), name@) is Some,
            None => true,
        }
    }

    /// Whether every constant below the global datum at `i` is in the pool.
    pub open spec fn datum_well_formed(&self, i: int) -> bool {
        constants_fit(self.global_data_section.data@[i].trace(), self.pool_size())
    }

    /// What validation reports of each global datum.
    pub open spec fn data_parts(&self) -> Seq<Seq<IRDiagnosticView>> {
        Seq::new(
            self.global_data_section.data@.len(),
            |i: int|
                report_if(
                    !self.datum_well_formed(i),
                    IRDiagnosticKind::DataConstantOutOfRange,
                    None,
                    None,
                    Some(i as usize),
                ),
        )
    }

    /// What validation reports of each function.
    pub open spec fn function_parts(&self) -> Seq<Seq<IRDiagnosticView>> {
        Seq::new(
            self.function_list().len(),
            |i: int| self.function_list()[i].1.diagnostics(self.pool_size()),
        )
    }

    /// What validation reports of the module: the entry point first, then
    /// the global data in order, the global initialisation, and the
    /// functions in insertion order.
    pub open spec fn diagnostics(&self) -> Seq<IRDiagnosticView> {
        report_if(
            !self.entry_point_known(),
            IRDiagnosticKind::UnknownEntryPoint,
            None,
            None,
            None,
        ) + chain(self.data_parts()) + self.global_init_section.diagnostics(
            None,
            false,
            self.pool_size(),
        )
            + chain(self.function_parts())
    }

    /// The module breaks no invariant: its entry point, if it has one, is a
    /// function of the module; the constants of the global data are in the
    /// pool; the global initialisation, which returns no value, and every
    /// function are well formed.
    pub open spec fn well_formed(&self) -> bool {
        &&& self.entry_point_known()
        &&& forall|i: int|
            0 <= i < self.global_data_section.data@.len() ==> #[trigger] self.datum_well_formed(i)
        &&& self.global_init_section.well_formed(false, self.pool_size())
        &&& forall|i: int|
            0 <= i < self.function_list().len() ==> (#[trigger]
            self.function_list()[i]).1.well_formed(self.pool_size())
    }

    /// Validation reports nothing of a module exactly when the module is
    /// well formed.
    pub proof fn lemma_silent_iff_well_formed(&self)
        ensures
            self.diagnostics().len() == 0 <==> self.well_formed(),
    {
        let data = self.data_parts();
        let functions = self.function_parts();
        lemma_chain_empty(data, data.len());
        lemma_chain_empty(functions, functions.len());
        self.global_init_section.lemma_silent_iff_well_formed(None, false, self.pool_size());
        assert forall|i: int| 0 <= i < data.len() implies ((#[trigger] data[i]).len() == 0
            <==> self.datum_well_formed(i)) by {}
        assert forall|i: int| 0 <= i < functions.len() implies ((#[trigger] functions[i]).len() == 0
            <==> self.function_list()[i].1.well_formed(self.pool_size())) by {
            self.function_list()[i].1.lemma_silent_iff_well_formed(self.pool_size());
        }
        if self.diagnostics().len() == 0 {
            assert forall|i: int| 0 <= i < self.global_data_section.data@.len() implies #[trigger]
                self.datum_well_formed(i) by {
                assert(data[i].len() == 0);
            }
            assert forall|i: int| 0 <= i < self.function_list().len() implies (#[trigger]
                self.function_list()[i]).1.well_formed(self.pool_size()) by {
                assert(functions[i].len() == 0);
            }
        }
        if self.well_formed() {
            assert forall|i: int| 0 <= i < data.len() implies (#[trigger] data[i]).len() == 0 by {
                assert(self.datum_well_formed(i));
            }
            assert forall|i: int| 0 <= i < functions.len() implies (#[trigger] functions[i]).len()
                == 0 by {
                assert(self.function_list()[i].1.well_formed(self.pool_size()));
            }
        }
    }

    fn validate_data(&self) -> (diagnostics: Vec<IRDiagnostic>)
        ensures
            diagnostic_views(diagnostics@) == chain(self.data_parts()),
    {
        let pool_size = self.constant_pool.entries.len();
        let mut diagnostics: Vec<IRDiagnostic> = Vec::new();
        assert(diagnostic_views(diagnostics@) =~= Seq::<IRDiagnosticView>::empty());
        let mut i: usize = 0;
        while i < self.global_data_section.data.len()
            invariant
                i <= self.global_data_section.data.len(),
                pool_size == self.pool_size(),
                diagnostic_views(diagnostics@) == chain_prefix(self.data_parts(), i as nat),
            decreases self.global_data_section.data.len() - i,
        {
            let datum = &self.global_data_section.data[i];
            let mut check = IRNodeCheck::new(pool_size, 0);
            datum.accept(&mut check);
            proof {
                IRNodeCheck::lemma_checked(
                    IRNodeCheck { pool_size, in_degree: 0, phis_fit: true, constants_fit: true },
                    datum.trace(),
                );
                lemma_chain_step(self.data_parts(), i as nat);
            }
            report(
                &mut diagnostics,
                !check.constants_fit,
                IRDiagnosticKind::DataConstantOutOfRange,
                None,
                None,
                Some(i),
            );
            i = i + 1;
        }
        diagnostics
    }

    fn validate_functions(&self) -> (diagnostics: Vec<IRDiagnostic>)
        ensures
            diagnostic_views(diagnostics@) == chain(self.function_parts()),
    {
        let pool_size = self.constant_pool.entries.len();
        let n = functions_len(&self.functions);
        let mut diagnostics: Vec<IRDiagnostic> = Vec::new();
        assert(diagnostic_views(diagnostics@) =~= Seq::<IRDiagnosticView>::empty());
        let mut i: usize = 0;
        while i < n
            invariant
                i <= n,
                n == self.function_list().len(),
                pool_size == self.pool_size(),
                diagnostic_views(diagnostics@) == chain_prefix(self.function_parts(), i as nat),
            decreases n - i,
        {
            match functions_get_index(&self.functions, i) {
                Some((_, function)) => {
                    let more = function.validate(pool_size);
                    report_all(&mut diagnostics, more);
                    proof {
                        lemma_chain_step(self.function_parts(), i as nat);
                    }
                },
                None => vstd::pervasive::unreached(),
            }
            i = i + 1;
        }
        diagnostics
    }

    /// Holds the module to the invariants of the IR. The result lists every
    /// breach with its position, in the order of the traversal, and is empty
    /// exactly when the module is well formed.
    pub fn validate(&self) -> (diagnostics: Vec<IRDiagnostic>)
        ensures
            diagnostic_views(diagnostics@) == self.diagnostics(),
            diagnostics@.len() == 0 <==> self.well_formed(),
    {
        let entry_point_known = match &self.entry_point {
            Some(name) => {
                let found = functions_get_index_of(&self.functions, name.as_str());
                proof {
                    match found {
                        Some(i) => lemma_position_of_only(self.function_list(), name@, i as int),
                        None => lemma_position_of_none(self.function_list(), name@),
                    }
                }
                found.is_some()
            },
            None => true,
        };
        let mut diagnostics: Vec<IRDiagnostic> = Vec::new();
        assert(diagnostic_views(diagnostics@) =~= Seq::<IRDiagnosticView>::empty());
        report(
            &mut diagnostics,
            !entry_point_known,
            IRDiagnosticKind::UnknownEntryPoint,
            None,
            None,
            None,
        );
        let data = self.validate_data();
        report_all(&mut diagnostics, data);
        let init = self.global_init_section.validate(
            None,
            false,
            self.constant_pool.entries.len(),
        );
        report_all(&mut diagnostics, init);
        let functions = self.validate_functions();
        report_all(&mut diagnostics, functions);
        proof {
            self.lemma_silent_iff_well_formed();
            assert(diagnostics@.len() == diagnostic_views(diagnostics@).len());
        }
        diagnostics
    }
}

} // verus!
