use compiler_ir::ir::base::{
    IRBasicBlock, IRControlFlowGraph, IRFunction, IRGlobalData, IRNode,
};
use compiler_ir::ir::instruction::{
    IRAsm, IRCalculate, IRCalculateOperator, IRGoto, IRIncrease, IRInstruction, IRInvoke,
    IRNoOperate, IRReturn,
};
use compiler_ir::ir::operand::{IRConstant, IRMacro, IROperand, IRPhi, IRVirtualRegister};
use compiler_ir::ir::structure::{IRField, IRStructure};
use compiler_ir::ir::types::{IRIntegerType, IRIntegerTypeSize, IRPointerType, IRType, IRVoidType};
use compiler_ir::ir::{
    IRConstantPoolEntry, IRDumper, IRModule, IRNodeCounter, IRVisitor, IRVisitorImpl,
};

/// A pass that writes down the kind of every node it is shown.
struct Recorder {
    kinds: Vec<&'static str>,
}

impl IRVisitorImpl for Recorder {
    type State = ();

    fn state(&self) {}

    fn observe(_state: (), _node: IRNode<'_>) {}

    fn enter(&mut self, node: IRNode<'_>) {
        self.kinds.push(match node {
            IRNode::Module(_) => "module",
            IRNode::Structure(_) => "structure",
            IRNode::Field(_) => "field",
            IRNode::ConstantPool(_) => "pool",
            IRNode::ConstantPoolEntry(_) => "entry",
            IRNode::GlobalDataSection(_) => "section",
            IRNode::GlobalData(_) => "datum",
            IRNode::Function(_) => "function",
            IRNode::IntegerType(_) => "int",
            IRNode::FloatType(_) => "float",
            IRNode::DoubleType(_) => "double",
            IRNode::VoidType(_) => "void",
            IRNode::PointerType(_) => "pointer",
            IRNode::VirtualRegister(_) => "register",
            IRNode::Constant(_) => "constant",
            IRNode::Macro(_) => "macro",
            IRNode::Phi(_) => "phi",
            IRNode::VirtualTable(_) => "vtable",
            IRNode::InterfaceTable(_) => "itable",
            IRNode::Goto(_) => "goto",
            IRNode::ConditionalJump(_) => "conditional_jump",
            IRNode::NoOperate(_) => "nop",
            IRNode::Return(_) => "return",
            IRNode::Malloc(_) => "malloc",
            IRNode::Free(_) => "free",
            IRNode::Realloc(_) => "realloc",
            IRNode::Store(_) => "set",
            IRNode::Load(_) => "get",
            IRNode::SetVirtualRegister(_) => "set_register",
            IRNode::TypeCast(_) => "cast",
            IRNode::StackAllocate(_) => "stack_alloc",
            IRNode::Calculate(_) => "calculate",
            IRNode::Increase(_) => "increase",
            IRNode::Decrease(_) => "decrease",
            IRNode::Not(_) => "not",
            IRNode::Negate(_) => "negate",
            IRNode::Invoke(_) => "invoke",
            IRNode::Asm(_) => "asm",
        });
    }
}

fn recorded(node: IRNode<'_>) -> Vec<&'static str> {
    let mut recorder = Recorder { kinds: vec![] };
    recorder.visit_dyn(node);
    recorder.kinds
}

fn counted(node: IRNode<'_>) -> u64 {
    let mut counter = IRNodeCounter::new();
    counter.visit(node);
    counter.count
}

fn register(name: &str) -> IRVirtualRegister {
    IRVirtualRegister::new(name.to_string())
}

fn operand(name: &str) -> Box<IROperand> {
    Box::new(IROperand::VirtualRegister(register(name)))
}

fn constant(index: i32) -> Box<IROperand> {
    Box::new(IROperand::Constant(IRConstant::new(index)))
}

fn i32_type() -> Box<IRType> {
    Box::new(IRType::Integer(IRIntegerType::new(IRIntegerTypeSize::FourBytes, false)))
}

fn pointer_type() -> Box<IRType> {
    Box::new(IRType::Pointer(IRPointerType::new(i32_type())))
}

fn void_type() -> Box<IRType> {
    Box::new(IRType::Void(IRVoidType::new()))
}

fn nop() -> IRInstruction {
    IRInstruction::NoOperate(IRNoOperate::new())
}

fn add() -> IRInstruction {
    IRInstruction::Calculate(IRCalculate::new(
        false,
        IRCalculateOperator::ADD,
        i32_type(),
        operand("a"),
        operand("b"),
        Box::new(register("r")),
    ))
}

fn block(name: &str, instructions: Vec<IRInstruction>) -> Box<IRBasicBlock> {
    let mut block = IRBasicBlock::new(name.to_string());
    for instruction in instructions {
        block.instructions.push(Box::new(instruction));
    }
    Box::new(block)
}

fn sample_module() -> IRModule {
    let mut module = IRModule::new();
    module.push_struct(IRStructure::new(
        "Pair".to_string(),
        vec![
            IRField::new("first".to_string(), i32_type()),
            IRField::new("second".to_string(), pointer_type()),
        ],
    ));
    module.push_struct(IRStructure::new("Unit".to_string(), vec![]));
    module.constant_pool.push(Box::new(IRConstantPoolEntry::new(i32_type(), "1".to_string())));
    module.constant_pool.push(Box::new(IRConstantPoolEntry::new(void_type(), "x".to_string())));
    module.global_data_section.data.push(IRGlobalData::new(
        "table".to_string(),
        Some(constant(0)),
        Some(vec![constant(1), operand("v")]),
    ));
    module.global_data_section.data.push(IRGlobalData::new("flag".to_string(), None, None));
    module.global_init_section.add_basic_block(block("init", vec![nop()]));
    let mut graph = IRControlFlowGraph::new();
    graph.add_basic_block(block("entry", vec![add()]));
    graph.add_basic_block(block(
        "exit",
        vec![nop(), IRInstruction::Return(IRReturn::new(Some(operand("r"))))],
    ));
    module.push_function(IRFunction::new(
        i32_type(),
        "add".to_string(),
        1,
        vec![Box::new(IRField::new("a".to_string(), i32_type()))],
        Box::new(graph),
    ));
    module.push_function(IRFunction::new(
        void_type(),
        "idle".to_string(),
        0,
        vec![],
        Box::new(IRControlFlowGraph::new()),
    ));
    module
}

#[test]
fn types_are_entered_outside_in() {
    let nested = IRType::Pointer(IRPointerType::new(pointer_type()));
    assert_eq!(recorded(IRNode::PointerType(match &nested {
        IRType::Pointer(p) => p,
        _ => unreachable!(),
    })), ["pointer", "pointer", "int"]);
    let mut recorder = Recorder { kinds: vec![] };
    nested.accept(&mut recorder);
    assert_eq!(recorder.kinds, ["pointer", "pointer", "int"]);
    let mut recorder = Recorder { kinds: vec![] };
    void_type().accept(&mut recorder);
    assert_eq!(recorder.kinds, ["void"]);
}

#[test]
fn calculate_is_entered_before_its_parts() {
    let instruction = add();
    let mut recorder = Recorder { kinds: vec![] };
    instruction.accept(&mut recorder);
    assert_eq!(recorder.kinds, ["calculate", "int", "register", "register", "register"]);
}

#[test]
fn optional_parts_are_entered_when_present() {
    let bare = IRReturn::new(None);
    assert_eq!(recorded(IRNode::Return(&bare)), ["return"]);
    let full = IRReturn::new(Some(constant(0)));
    assert_eq!(recorded(IRNode::Return(&full)), ["return", "constant"]);
    let captured = IRIncrease::new(i32_type(), operand("a"), Some(Box::new(register("b"))));
    assert_eq!(recorded(IRNode::Increase(&captured)), ["increase", "int", "register", "register"]);
    let atomic = IRIncrease::new(i32_type(), operand("a"), None);
    assert_eq!(recorded(IRNode::Increase(&atomic)), ["increase", "int", "register"]);
}

#[test]
fn invoke_enters_address_arguments_return_type_and_target() {
    let call = IRInvoke::new(
        void_type(),
        operand("f"),
        vec![i32_type(), pointer_type()],
        vec![constant(1), operand("p")],
        Some(Box::new(register("r"))),
    )
    .unwrap();
    assert_eq!(
        recorded(IRNode::Invoke(&call)),
        ["invoke", "register", "int", "constant", "pointer", "int", "register", "void", "register"]
    );
    let bare = IRInvoke::new(void_type(), operand("f"), vec![], vec![], None).unwrap();
    assert_eq!(recorded(IRNode::Invoke(&bare)), ["invoke", "register", "void"]);
}

#[test]
fn asm_enters_each_resource_with_its_type() {
    let bound = IRAsm::new(
        "nop".to_string(),
        vec![i32_type(), void_type()],
        vec![operand("a"), constant(2)],
        vec!["x".to_string(), "y".to_string()],
    )
    .unwrap();
    assert_eq!(recorded(IRNode::Asm(&bound)), ["asm", "int", "register", "void", "constant"]);
}

#[test]
fn nested_operands_are_entered_in_order() {
    let phi = IRPhi::new(
        i32_type(),
        vec!["a".to_string(), "b".to_string()],
        vec![operand("x"), constant(1)],
    );
    assert_eq!(recorded(IRNode::Phi(&phi)), ["phi", "int", "register", "constant"]);
    let inner = IRMacro::new("inner".to_string(), vec![], vec![constant(0)]);
    let outer = IRMacro::new(
        "outer".to_string(),
        vec!["arg".to_string()],
        vec![operand("x"), Box::new(IROperand::Macro(inner)), Box::new(IROperand::Phi(phi))],
    );
    assert_eq!(
        recorded(IRNode::Macro(&outer)),
        ["macro", "register", "macro", "constant", "phi", "int", "register", "constant"]
    );
}

#[test]
fn module_is_traversed_in_the_documented_order() {
    let module = sample_module();
    let expected = [
        "module",
        // structures
        "structure", "field", "int", "field", "pointer", "int",
        "structure",
        // constant pool
        "pool", "entry", "int", "entry", "void",
        // global data
        "section", "datum", "constant", "constant", "register", "datum",
        // global initialisation
        "nop",
        // functions
        "function", "int", "field", "int",
        "calculate", "int", "register", "register", "register",
        "nop", "return", "register",
        "function", "void",
    ];
    assert_eq!(recorded(IRNode::Module(&module)), expected);
    let mut recorder = Recorder { kinds: vec![] };
    recorder.visit_module(&module);
    assert_eq!(recorder.kinds, expected);
    let mut recorder = Recorder { kinds: vec![] };
    module.accept(&mut recorder);
    assert_eq!(recorder.kinds, expected);
}

#[test]
fn counter_counts_every_node_once() {
    let module = sample_module();
    // 1 module
    // + structures: (1 + (1 + 1) + (1 + 2)) + 1 = 7
    // + pool: 1 + 2 * 2 = 5
    // + global data: 1 + (1 + 1 + 2) + 1 = 6
    // + global initialisation: 1
    // + functions: (1 + 1 + 2 + 5 + 1 + 2) + (1 + 1) = 14
    assert_eq!(counted(IRNode::Module(&module)), 34);
    assert_eq!(counted(IRNode::Module(&IRModule::new())), 3);
    let mut counter = IRNodeCounter::new();
    counter.visit_module(&module);
    counter.visit_module(&module);
    assert_eq!(counter.count, 68);
}

#[test]
fn counter_stops_at_the_largest_count() {
    let mut counter = IRNodeCounter { count: u64::MAX - 1 };
    counter.visit_module(&IRModule::new());
    assert_eq!(counter.count, u64::MAX);
}

#[test]
fn parts_can_be_traversed_on_their_own() {
    let module = sample_module();
    let function = module.functions.get("add").unwrap();
    let mut recorder = Recorder { kinds: vec![] };
    recorder.visit_function(function);
    assert_eq!(
        recorder.kinds,
        ["function", "int", "field", "int", "calculate", "int", "register", "register", "register", "nop", "return", "register"]
    );
    let mut recorder = Recorder { kinds: vec![] };
    recorder.visit_structure(module.structures.get("Pair").unwrap());
    assert_eq!(recorder.kinds, ["structure", "field", "int", "field", "pointer", "int"]);
    let mut recorder = Recorder { kinds: vec![] };
    recorder.visit_constant_pool(&module.constant_pool);
    assert_eq!(recorder.kinds, ["pool", "entry", "int", "entry", "void"]);
    let mut recorder = Recorder { kinds: vec![] };
    recorder.visit_global_data_section(&module.global_data_section);
    assert_eq!(recorder.kinds, ["section", "datum", "constant", "constant", "register", "datum"]);
    let mut recorder = Recorder { kinds: vec![] };
    function.control_flow_graph.accept(&mut recorder);
    assert_eq!(
        recorder.kinds,
        ["calculate", "int", "register", "register", "register", "nop", "return", "register"]
    );
    let mut recorder = Recorder { kinds: vec![] };
    function.control_flow_graph.basic_blocks.get("exit").unwrap().accept(&mut recorder);
    assert_eq!(recorder.kinds, ["nop", "return", "register"]);
    let mut recorder = Recorder { kinds: vec![] };
    recorder.visit_goto(&IRGoto::new("x".to_string()));
    recorder.visit_virtual_register(&register("r"));
    recorder.visit_constant(&IRConstant::new(1));
    assert_eq!(recorder.kinds, ["goto", "register", "constant"]);
}

#[test]
fn dumper_collects_the_instructions_in_order() {
    let module = sample_module();
    let mut dumper = IRDumper::new();
    dumper.visit_module(&module);
    assert_eq!(dumper.lines, ["nop", "%r = add i32 %a, %b", "nop", "return %r"]);
    let mut dumper = IRDumper::new();
    dumper.visit_function(module.functions.get("idle").unwrap());
    assert!(dumper.lines.is_empty());
}

#[test]
fn any_node_renders_as_itself() {
    let module = sample_module();
    assert_eq!(IRNode::Module(&module).to_string(), module.to_string());
    let field = IRField::new("x".to_string(), i32_type());
    assert_eq!(IRNode::Field(&field).to_string(), "IRField{name=x, type=i32}");
    let goto = IRGoto::new("next".to_string());
    assert_eq!(IRNode::Goto(&goto).to_string(), "goto next");
    assert!(IRNode::Goto(&goto).is_instruction());
    assert!(!IRNode::Field(&field).is_instruction());
    assert!(!IRNode::Module(&module).is_instruction());
}
