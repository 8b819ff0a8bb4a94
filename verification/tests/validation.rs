use compiler_ir::ir::base::{
    IRBasicBlock, IRCondition, IRControlFlowGraph, IRFunction, IRGlobalData,
};
use compiler_ir::ir::instruction::{
    IRConditionalJump, IRGoto, IRInstruction, IRNoOperate, IRReturn, IRSetVirtualRegister,
    IRTypeCast, IRTypeCastKind,
};
use compiler_ir::ir::operand::{IRConstant, IRMacro, IROperand, IRPhi, IRVirtualRegister};
use compiler_ir::ir::types::{
    IRDoubleType, IRFloatType, IRIntegerType, IRIntegerTypeSize, IRPointerType, IRType, IRVoidType,
};
use compiler_ir::ir::validate::{IRDiagnostic, IRDiagnosticKind, IRNodeCheck};
use compiler_ir::ir::{IRConstantPoolEntry, IRModule, IRVisitor};

fn register(name: &str) -> IRVirtualRegister {
    IRVirtualRegister::new(name.to_string())
}

fn operand(name: &str) -> Box<IROperand> {
    Box::new(IROperand::VirtualRegister(register(name)))
}

fn constant(index: i32) -> Box<IROperand> {
    Box::new(IROperand::Constant(IRConstant::new(index)))
}

fn i32_type() -> Box<IRType> {
    Box::new(IRType::Integer(IRIntegerType::new(IRIntegerTypeSize::FourBytes, false)))
}

fn void_type() -> Box<IRType> {
    Box::new(IRType::Void(IRVoidType::new()))
}

fn nop() -> IRInstruction {
    IRInstruction::NoOperate(IRNoOperate::new())
}

fn goto(target: &str) -> IRInstruction {
    IRInstruction::Goto(IRGoto::new(target.to_string()))
}

fn ret() -> IRInstruction {
    IRInstruction::Return(IRReturn::new(None))
}

fn copy(source: Box<IROperand>) -> IRInstruction {
    IRInstruction::SetVirtualRegister(IRSetVirtualRegister::new(source, Box::new(register("t"))))
}

fn phi(labels: &[&str], operands: Vec<Box<IROperand>>) -> Box<IROperand> {
    Box::new(IROperand::Phi(IRPhi::new(
        i32_type(),
        labels.iter().map(|label| label.to_string()).collect(),
        operands,
    )))
}

fn block(name: &str, instructions: Vec<IRInstruction>) -> Box<IRBasicBlock> {
    let mut block = IRBasicBlock::new(name.to_string());
    for instruction in instructions {
        block.instructions.push(Box::new(instruction));
    }
    Box::new(block)
}

fn function(name: &str, graph: IRControlFlowGraph) -> IRFunction {
    IRFunction::new(void_type(), name.to_string(), 0, vec![], Box::new(graph))
}

fn module_with(graph: IRControlFlowGraph) -> IRModule {
    let mut module = IRModule::new();
    module.push_function(function("f", graph));
    module
}

fn at(kind: IRDiagnosticKind, function: &str, block: &str, instruction: usize) -> IRDiagnostic {
    IRDiagnostic {
        kind,
        function: Some(function.to_string()),
        block: Some(block.to_string()),
        instruction: Some(instruction),
    }
}

#[test]
fn empty_module_is_valid() {
    assert!(IRModule::new().validate().is_empty());
}

#[test]
fn diamond_with_phi_is_valid() {
    let mut graph = IRControlFlowGraph::new();
    graph.add_basic_block(block(
        "entry",
        vec![IRInstruction::ConditionalJump(IRConditionalJump::new(
            false,
            i32_type(),
            IRCondition::Equal,
            operand("a"),
            constant(0),
            "right".to_string(),
        ))],
    ));
    graph.add_basic_block(block("left", vec![goto("join")]));
    graph.add_basic_block(block("right", vec![goto("join")]));
    graph.add_basic_block(block(
        "join",
        vec![copy(phi(&["left", "right"], vec![operand("x"), constant(1)])), ret()],
    ));
    assert!(graph.add_edge("entry", "left"));
    assert!(graph.add_edge("entry", "right"));
    assert!(graph.add_edge("left", "join"));
    assert!(graph.add_edge("right", "join"));
    let mut module = module_with(graph);
    module.constant_pool.push(Box::new(IRConstantPoolEntry::new(i32_type(), "0".to_string())));
    module.constant_pool.push(Box::new(IRConstantPoolEntry::new(i32_type(), "1".to_string())));
    module.entry_point = Some("f".to_string());
    assert_eq!(module.validate(), vec![]);
}

#[test]
fn unknown_entry_point_is_reported() {
    let mut module = IRModule::new();
    module.push_function(function("main", IRControlFlowGraph::new()));
    module.entry_point = Some("start".to_string());
    let diagnostics = module.validate();
    assert_eq!(
        diagnostics,
        vec![IRDiagnostic {
            kind: IRDiagnosticKind::UnknownEntryPoint,
            function: None,
            block: None,
            instruction: None,
        }]
    );
    assert_eq!(diagnostics[0].to_string(), "entry point names no function");
    module.entry_point = Some("main".to_string());
    assert!(module.validate().is_empty());
}

#[test]
fn unknown_jump_target_is_reported_with_its_position() {
    let mut graph = IRControlFlowGraph::new();
    graph.add_basic_block(block("entry", vec![nop(), goto("nowhere")]));
    graph.add_basic_block(block(
        "other",
        vec![IRInstruction::ConditionalJump(IRConditionalJump::new(
            false,
            i32_type(),
            IRCondition::IfTrue,
            operand("c"),
            operand("c"),
            "gone".to_string(),
        ))],
    ));
    let diagnostics = module_with(graph).validate();
    assert_eq!(
        diagnostics,
        vec![
            at(IRDiagnosticKind::UnknownTarget, "f", "entry", 1),
            at(IRDiagnosticKind::UnknownTarget, "f", "other", 0),
        ]
    );
    assert_eq!(
        diagnostics[0].to_string(),
        "function 'f', block 'entry', index 1, jump target names no block"
    );
}

#[test]
fn forward_reference_is_valid_once_the_block_is_there() {
    let mut graph = IRControlFlowGraph::new();
    graph.add_basic_block(block("entry", vec![goto("later")]));
    let early = module_with(graph.clone()).validate();
    assert_eq!(early, vec![at(IRDiagnosticKind::UnknownTarget, "f", "entry", 0)]);
    graph.add_basic_block(block("later", vec![ret()]));
    assert!(module_with(graph).validate().is_empty());
}

#[test]
fn terminator_before_the_end_is_reported() {
    let mut graph = IRControlFlowGraph::new();
    graph.add_basic_block(block("entry", vec![ret(), nop(), goto("entry"), ret()]));
    assert_eq!(
        module_with(graph).validate(),
        vec![
            at(IRDiagnosticKind::MisplacedTerminator, "f", "entry", 0),
            at(IRDiagnosticKind::MisplacedTerminator, "f", "entry", 2),
        ]
    );
}

#[test]
fn phi_arity_is_held_to_the_in_degree() {
    let mut graph = IRControlFlowGraph::new();
    graph.add_basic_block(block("a", vec![goto("join")]));
    graph.add_basic_block(block("b", vec![goto("join")]));
    graph.add_basic_block(block(
        "join",
        vec![
            copy(phi(&["a", "b"], vec![operand("x"), operand("y")])),
            copy(phi(&["a"], vec![operand("x")])),
            copy(phi(&["a", "b"], vec![operand("x")])),
            copy(phi(&["a", "b", "c"], vec![operand("x"), operand("y"), operand("z")])),
            ret(),
        ],
    ));
    graph.add_edge("a", "join");
    graph.add_edge("b", "join");
    assert_eq!(
        module_with(graph).validate(),
        vec![
            at(IRDiagnosticKind::PhiArity, "f", "join", 1),
            at(IRDiagnosticKind::PhiArity, "f", "join", 2),
            at(IRDiagnosticKind::PhiArity, "f", "join", 3),
        ]
    );
}

#[test]
fn phi_in_a_block_without_predecessors_must_be_empty() {
    let mut graph = IRControlFlowGraph::new();
    graph.add_basic_block(block(
        "entry",
        vec![copy(phi(&[], vec![])), copy(phi(&["x"], vec![operand("v")])), ret()],
    ));
    assert_eq!(
        module_with(graph).validate(),
        vec![at(IRDiagnosticKind::PhiArity, "f", "entry", 1)]
    );
}

#[test]
fn nested_phi_is_found() {
    let nested = Box::new(IROperand::Macro(IRMacro::new(
        "wrap".to_string(),
        vec![],
        vec![phi(&["a"], vec![operand("x")])],
    )));
    let mut graph = IRControlFlowGraph::new();
    graph.add_basic_block(block("entry", vec![copy(nested), ret()]));
    assert_eq!(
        module_with(graph).validate(),
        vec![at(IRDiagnosticKind::PhiArity, "f", "entry", 0)]
    );
}

#[test]
fn constant_index_is_held_to_the_pool() {
    let mut graph = IRControlFlowGraph::new();
    graph.add_basic_block(block(
        "entry",
        vec![copy(constant(0)), copy(constant(1)), copy(constant(2)), copy(constant(-1)), ret()],
    ));
    let mut module = module_with(graph);
    module.constant_pool.push(Box::new(IRConstantPoolEntry::new(i32_type(), "a".to_string())));
    module.constant_pool.push(Box::new(IRConstantPoolEntry::new(i32_type(), "b".to_string())));
    let diagnostics = module.validate();
    assert_eq!(
        diagnostics,
        vec![
            at(IRDiagnosticKind::ConstantOutOfRange, "f", "entry", 2),
            at(IRDiagnosticKind::ConstantOutOfRange, "f", "entry", 3),
        ]
    );
    assert_eq!(
        diagnostics[1].to_string(),
        "function 'f', block 'entry', index 3, constant index out of range"
    );
}

#[test]
fn constants_of_global_data_are_held_to_the_pool() {
    let mut module = IRModule::new();
    module.constant_pool.push(Box::new(IRConstantPoolEntry::new(i32_type(), "a".to_string())));
    module.global_data_section.data.push(IRGlobalData::new("ok".to_string(), Some(constant(0)), None));
    module.global_data_section.data.push(IRGlobalData::new(
        "bad".to_string(),
        None,
        Some(vec![constant(0), constant(1)]),
    ));
    module.global_data_section.data.push(IRGlobalData::new("size".to_string(), Some(constant(9)), None));
    let diagnostics = module.validate();
    let expected = |index: usize| IRDiagnostic {
        kind: IRDiagnosticKind::DataConstantOutOfRange,
        function: None,
        block: None,
        instruction: Some(index),
    };
    assert_eq!(diagnostics, vec![expected(1), expected(2)]);
    assert_eq!(diagnostics[0].to_string(), "index 1, constant index out of range in global data");
}

#[test]
fn argument_count_is_held_to_the_fields() {
    let mut module = IRModule::new();
    let mut f = function("f", IRControlFlowGraph::new());
    f.arguments_count = 1;
    module.push_function(f);
    let diagnostics = module.validate();
    assert_eq!(
        diagnostics,
        vec![IRDiagnostic {
            kind: IRDiagnosticKind::ArgumentCount,
            function: Some("f".to_string()),
            block: None,
            instruction: None,
        }]
    );
    assert_eq!(diagnostics[0].to_string(), "function 'f', more arguments than fields");
}

#[test]
fn one_sided_edge_is_reported() {
    let mut graph = IRControlFlowGraph::new();
    graph.add_basic_block(block("a", vec![]));
    graph.add_basic_block(block("b", vec![]));
    graph.out_edges[0].push(1);
    let diagnostics = module_with(graph).validate();
    assert_eq!(
        diagnostics,
        vec![IRDiagnostic {
            kind: IRDiagnosticKind::EdgeRelation,
            function: Some("f".to_string()),
            block: None,
            instruction: None,
        }]
    );
    assert_eq!(diagnostics[0].to_string(), "function 'f', edge relation inconsistent");
}

#[test]
fn global_initialisation_is_validated_without_a_function_name() {
    let mut module = IRModule::new();
    module.global_init_section.add_basic_block(block("init", vec![goto("missing")]));
    let diagnostics = module.validate();
    assert_eq!(
        diagnostics,
        vec![IRDiagnostic {
            kind: IRDiagnosticKind::UnknownTarget,
            function: None,
            block: Some("init".to_string()),
            instruction: Some(0),
        }]
    );
    assert_eq!(diagnostics[0].to_string(), "block 'init', index 0, jump target names no block");
}

#[test]
fn diagnostics_come_in_the_order_of_the_traversal() {
    let mut module = IRModule::new();
    module.entry_point = Some("missing".to_string());
    module.global_data_section.data.push(IRGlobalData::new("g".to_string(), Some(constant(5)), None));
    module.global_init_section.add_basic_block(block("init", vec![ret(), nop()]));
    let mut first = IRControlFlowGraph::new();
    first.add_basic_block(block("entry", vec![goto("x"), copy(constant(3))]));
    let mut f = function("first", first);
    f.arguments_count = 2;
    module.push_function(f);
    let mut second = IRControlFlowGraph::new();
    second.add_basic_block(block("entry", vec![copy(phi(&["p"], vec![constant(7)]))]));
    second.in_edges.clear();
    module.push_function(function("second", second));
    let kinds: Vec<(IRDiagnosticKind, Option<String>, Option<usize>)> = module
        .validate()
        .into_iter()
        .map(|d| (d.kind, d.function, d.instruction))
        .collect();
    assert_eq!(
        kinds,
        vec![
            (IRDiagnosticKind::UnknownEntryPoint, None, None),
            (IRDiagnosticKind::DataConstantOutOfRange, None, Some(0)),
            (IRDiagnosticKind::MisplacedTerminator, None, Some(0)),
            (IRDiagnosticKind::ArgumentCount, Some("first".to_string()), None),
            (IRDiagnosticKind::UnknownTarget, Some("first".to_string()), Some(0)),
            (IRDiagnosticKind::MisplacedTerminator, Some("first".to_string()), Some(0)),
            (IRDiagnosticKind::ConstantOutOfRange, Some("first".to_string()), Some(1)),
            (IRDiagnosticKind::EdgeRelation, Some("second".to_string()), None),
            (IRDiagnosticKind::PhiArity, Some("second".to_string()), Some(0)),
            (IRDiagnosticKind::ConstantOutOfRange, Some("second".to_string()), Some(0)),
        ]
    );
}

#[test]
fn graph_and_function_can_be_validated_on_their_own() {
    let mut graph = IRControlFlowGraph::new();
    graph.add_basic_block(block("entry", vec![copy(constant(0)), ret()]));
    assert!(graph.validate(None, false, 1).is_empty());
    assert_eq!(
        graph.validate(Some("g"), false, 0),
        vec![at(IRDiagnosticKind::ConstantOutOfRange, "g", "entry", 0)]
    );
    assert_eq!(
        graph.validate(Some("g"), true, 1),
        vec![at(IRDiagnosticKind::MissingReturnValue, "g", "entry", 1)]
    );
    let f = function("h", graph);
    assert!(f.validate(1).is_empty());
    assert_eq!(f.validate(0), vec![at(IRDiagnosticKind::ConstantOutOfRange, "h", "entry", 0)]);
}

#[test]
fn node_check_remembers_what_it_found() {
    let good = phi(&["a", "b"], vec![constant(0), constant(1)]);
    let mut check = IRNodeCheck::new(2, 2);
    good.accept(&mut check);
    assert!(check.phis_fit && check.constants_fit);
    let mut check = IRNodeCheck::new(1, 2);
    good.accept(&mut check);
    assert!(check.phis_fit && !check.constants_fit);
    let mut check = IRNodeCheck::new(2, 3);
    check.visit_phi(match &*good {
        IROperand::Phi(p) => p,
        _ => unreachable!(),
    });
    assert!(!check.phis_fit && check.constants_fit);
    operand("x").accept(&mut check);
    assert!(!check.phis_fit && check.constants_fit);
    assert_eq!((check.pool_size, check.in_degree), (2, 3));
}

#[test]
fn every_kind_of_diagnostic_has_its_words() {
    let expected = [
        (IRDiagnosticKind::UnknownEntryPoint, "entry point names no function"),
        (IRDiagnosticKind::DataConstantOutOfRange, "constant index out of range in global data"),
        (IRDiagnosticKind::ArgumentCount, "more arguments than fields"),
        (IRDiagnosticKind::EdgeRelation, "edge relation inconsistent"),
        (IRDiagnosticKind::UnknownTarget, "jump target names no block"),
        (IRDiagnosticKind::MisplacedTerminator, "terminator is not the last instruction"),
        (IRDiagnosticKind::MissingReturnValue, "return without a value"),
        (IRDiagnosticKind::InconsistentCast, "cast kind does not fit the types"),
        (IRDiagnosticKind::PhiArity, "phi arity mismatch"),
        (IRDiagnosticKind::ConstantOutOfRange, "constant index out of range"),
    ];
    for (kind, words) in expected {
        assert_eq!(kind.to_string(), words);
    }
}

#[test]
fn return_without_a_value_is_reported_where_one_is_expected() {
    let mut graph = IRControlFlowGraph::new();
    graph.add_basic_block(block("entry", vec![ret()]));
    graph.add_basic_block(block(
        "other",
        vec![IRInstruction::Return(IRReturn::new(Some(operand("r"))))],
    ));
    let mut module = IRModule::new();
    module.push_function(IRFunction::new(
        i32_type(),
        "value".to_string(),
        0,
        vec![],
        Box::new(graph.clone()),
    ));
    module.push_function(function("nothing", graph.clone()));
    module.global_init_section = Box::new(graph);
    assert_eq!(
        module.validate(),
        vec![at(IRDiagnosticKind::MissingReturnValue, "value", "entry", 0)]
    );
}

fn integer(size: IRIntegerTypeSize) -> Box<IRType> {
    Box::new(IRType::Integer(IRIntegerType::new(size, false)))
}

fn cast(kind: IRTypeCastKind, from: Box<IRType>, to: Box<IRType>) -> IRTypeCast {
    IRTypeCast::new(kind, from, operand("s"), to, Box::new(register("t")))
}

#[test]
fn cast_kind_is_held_to_the_types() {
    let float = || Box::new(IRType::Float(IRFloatType::new()));
    let double = || Box::new(IRType::Double(IRDoubleType::new()));
    let i8 = || integer(IRIntegerTypeSize::OneByte);
    let i64 = || integer(IRIntegerTypeSize::EightBytes);
    let pointer = || Box::new(IRType::Pointer(IRPointerType::new(i8())));
    let cases = [
        (IRTypeCastKind::ZeroExtend, i8(), i64(), true),
        (IRTypeCastKind::ZeroExtend, i64(), i8(), false),
        (IRTypeCastKind::ZeroExtend, i8(), i8(), false),
        (IRTypeCastKind::ZeroExtend, i8(), double(), false),
        (IRTypeCastKind::SignExtend, i8(), i64(), true),
        (IRTypeCastKind::SignExtend, float(), i64(), false),
        (IRTypeCastKind::Truncate, i64(), i8(), true),
        (IRTypeCastKind::Truncate, i8(), i64(), false),
        (IRTypeCastKind::Truncate, i64(), i64(), false),
        (IRTypeCastKind::Truncate, double(), float(), false),
        (IRTypeCastKind::IntToFloat, i8(), float(), true),
        (IRTypeCastKind::IntToFloat, i64(), double(), true),
        (IRTypeCastKind::IntToFloat, float(), double(), false),
        (IRTypeCastKind::IntToFloat, i8(), i64(), false),
        (IRTypeCastKind::FloatToInt, float(), i8(), true),
        (IRTypeCastKind::FloatToInt, double(), i64(), true),
        (IRTypeCastKind::FloatToInt, i8(), i64(), false),
        (IRTypeCastKind::FloatToInt, float(), pointer(), false),
        (IRTypeCastKind::FloatExtend, float(), double(), true),
        (IRTypeCastKind::FloatExtend, double(), float(), false),
        (IRTypeCastKind::FloatExtend, float(), float(), false),
        (IRTypeCastKind::FloatTruncate, double(), float(), true),
        (IRTypeCastKind::FloatTruncate, float(), double(), false),
        (IRTypeCastKind::FloatTruncate, double(), i8(), false),
    ];
    for (kind, from, to, expected) in cases {
        let instruction = cast(kind, from, to);
        assert_eq!(instruction.is_consistent(), expected, "{}", instruction.to_string());
    }
}

#[test]
fn inconsistent_cast_is_reported() {
    let mut graph = IRControlFlowGraph::new();
    graph.add_basic_block(block(
        "entry",
        vec![
            IRInstruction::TypeCast(cast(
                IRTypeCastKind::Truncate,
                integer(IRIntegerTypeSize::EightBytes),
                integer(IRIntegerTypeSize::FourBytes),
            )),
            IRInstruction::TypeCast(cast(
                IRTypeCastKind::Truncate,
                integer(IRIntegerTypeSize::FourBytes),
                integer(IRIntegerTypeSize::EightBytes),
            )),
            ret(),
        ],
    ));
    assert_eq!(
        module_with(graph).validate(),
        vec![at(IRDiagnosticKind::InconsistentCast, "f", "entry", 1)]
    );
}
