use compiler_ir::ir::base::{
    IRBasicBlock, IRControlFlowGraph, IRFunction, IRGlobalData, IRGlobalDataSection,
};
use compiler_ir::ir::instruction::{
    IRCalculate, IRCalculateOperator, IRGoto, IRInstruction, IRNoOperate, IRReturn,
};
use compiler_ir::ir::operand::{IRConstant, IROperand, IRVirtualRegister};
use compiler_ir::ir::structure::{IRField, IRStructure};
use compiler_ir::ir::types::{IRIntegerType, IRIntegerTypeSize, IRType, IRVoidType};
use compiler_ir::ir::{IRConstantPool, IRConstantPoolEntry, IRModule};

fn operand(name: &str) -> Box<IROperand> {
    Box::new(IROperand::VirtualRegister(IRVirtualRegister::new(name.to_string())))
}

fn constant(index: i32) -> Box<IROperand> {
    Box::new(IROperand::Constant(IRConstant::new(index)))
}

fn i32_type() -> Box<IRType> {
    Box::new(IRType::Integer(IRIntegerType::new(IRIntegerTypeSize::FourBytes, false)))
}

fn void_type() -> Box<IRType> {
    Box::new(IRType::Void(IRVoidType::new()))
}

fn field(name: &str) -> IRField {
    IRField::new(name.to_string(), i32_type())
}

fn block(name: &str, instructions: Vec<IRInstruction>) -> Box<IRBasicBlock> {
    let mut block = IRBasicBlock::new(name.to_string());
    for instruction in instructions {
        block.instructions.push(Box::new(instruction));
    }
    Box::new(block)
}

fn nop() -> IRInstruction {
    IRInstruction::NoOperate(IRNoOperate::new())
}

fn add_function() -> IRFunction {
    let mut graph = IRControlFlowGraph::new();
    graph.add_basic_block(block(
        "entry",
        vec![
            IRInstruction::Calculate(IRCalculate::new(
                false,
                IRCalculateOperator::ADD,
                i32_type(),
                operand("a"),
                operand("b"),
                Box::new(IRVirtualRegister::new("r".to_string())),
            )),
            IRInstruction::Return(IRReturn::new(Some(operand("r")))),
        ],
    ));
    IRFunction::new(
        i32_type(),
        "add".to_string(),
        2,
        vec![Box::new(field("a")), Box::new(field("b"))],
        Box::new(graph),
    )
}

fn empty_function(name: &str) -> IRFunction {
    IRFunction::new(void_type(), name.to_string(), 0, vec![], Box::new(IRControlFlowGraph::new()))
}

#[test]
fn field_and_structure_render() {
    assert_eq!(field("x").to_string(), "IRField{name=x, type=i32}");
    let empty = IRStructure::new("Unit".to_string(), vec![]);
    assert_eq!(empty.to_string(), "IRStructure{name=Unit, fields={}}");
    let point = IRStructure::new("Point".to_string(), vec![field("x"), field("y")]);
    assert_eq!(
        point.to_string(),
        "IRStructure{name=Point, fields={IRField{name=x, type=i32}, IRField{name=y, type=i32}}}"
    );
}

#[test]
fn global_data_renders_what_is_present() {
    assert_eq!(IRGlobalData::new("g".to_string(), None, None).to_string(), "g");
    assert_eq!(IRGlobalData::new("g".to_string(), Some(constant(4)), None).to_string(), "g, size=$4");
    assert_eq!(
        IRGlobalData::new("g".to_string(), None, Some(vec![constant(1), constant(2)])).to_string(),
        "g, values=[$1, $2]"
    );
    assert_eq!(
        IRGlobalData::new("g".to_string(), Some(operand("n")), Some(vec![])).to_string(),
        "g, size=%n, values=[]"
    );
    let mut section = IRGlobalDataSection::new();
    assert_eq!(section.to_string(), "IRGlobalDataSection{data=[]}");
    section.data.push(IRGlobalData::new("a".to_string(), None, None));
    section.data.push(IRGlobalData::new("b".to_string(), Some(constant(0)), None));
    assert_eq!(section.to_string(), "IRGlobalDataSection{data=[a, b, size=$0]}");
}

#[test]
fn basic_block_renders_its_instructions_in_order() {
    let empty = IRBasicBlock::new("entry".to_string());
    assert!(empty.instructions.is_empty());
    assert_eq!(empty.name, "entry");
    assert_eq!(empty.to_string(), "IRBasicBlock[name=entry, instructions=[]]");
    let filled = block("b", vec![nop(), IRInstruction::Goto(IRGoto::new("b".to_string()))]);
    assert_eq!(filled.to_string(), "IRBasicBlock[name=b, instructions=[nop, goto b]]");
}

#[test]
fn graph_keeps_blocks_in_insertion_order() {
    let mut graph = IRControlFlowGraph::new();
    assert_eq!(graph.to_string(), "IRControlFlowGraph{basicBlocks=[], outEdges=[], inEdges=[]}");
    graph.add_basic_block(block("first", vec![]));
    graph.add_basic_block(block("second", vec![nop()]));
    graph.add_basic_block(block("third", vec![]));
    let names: Vec<&String> = graph.basic_blocks.keys().collect();
    assert_eq!(names, ["first", "second", "third"]);
    assert_eq!(
        graph.to_string(),
        "IRControlFlowGraph{basicBlocks=[IRBasicBlock[name=first, instructions=[]], IRBasicBlock[name=second, instructions=[nop]], IRBasicBlock[name=third, instructions=[]]], outEdges=[], inEdges=[]}"
    );
}

#[test]
fn adding_a_block_again_replaces_it_in_place() {
    let mut graph = IRControlFlowGraph::new();
    graph.add_basic_block(block("a", vec![]));
    graph.add_basic_block(block("b", vec![]));
    assert!(graph.add_edge("a", "b"));
    graph.add_basic_block(block("a", vec![nop()]));
    assert_eq!(graph.basic_blocks.len(), 2);
    assert_eq!(graph.basic_blocks.get_index(0).unwrap().1.instructions.len(), 1);
    assert_eq!(graph.basic_blocks.get_index(1).unwrap().0, "b");
    assert_eq!(graph.out_edges, vec![vec![1], vec![]]);
    assert_eq!(graph.in_edges, vec![vec![], vec![0]]);
    assert!(graph.edges_are_consistent());
}

#[test]
fn edges_are_entered_in_both_lists() {
    let mut graph = IRControlFlowGraph::new();
    graph.add_basic_block(block("entry", vec![]));
    graph.add_basic_block(block("loop", vec![]));
    graph.add_basic_block(block("exit", vec![]));
    assert_eq!(graph.out_edges, vec![Vec::<usize>::new(); 3]);
    assert!(graph.add_edge("entry", "loop"));
    assert!(graph.add_edge("loop", "loop"));
    assert!(graph.add_edge("loop", "exit"));
    assert!(graph.add_edge("entry", "exit"));
    assert_eq!(graph.out_edges, vec![vec![1, 2], vec![1, 2], vec![]]);
    assert_eq!(graph.in_edges, vec![vec![], vec![0, 1], vec![1, 0]]);
    for a in 0..3 {
        for b in 0..3 {
            assert_eq!(graph.out_edges[a].contains(&b), graph.in_edges[b].contains(&a));
        }
    }
    assert!(graph.edges_are_consistent());
}

#[test]
fn an_edge_is_not_entered_twice() {
    let mut graph = IRControlFlowGraph::new();
    graph.add_basic_block(block("a", vec![]));
    graph.add_basic_block(block("b", vec![]));
    assert!(graph.add_edge("a", "b"));
    assert!(graph.add_edge("a", "b"));
    assert_eq!(graph.out_edges, vec![vec![1], vec![]]);
    assert_eq!(graph.in_edges, vec![vec![], vec![0]]);
}

#[test]
fn an_edge_to_an_unknown_block_is_refused() {
    let mut graph = IRControlFlowGraph::new();
    graph.add_basic_block(block("a", vec![]));
    let before = graph.clone();
    assert!(!graph.add_edge("a", "missing"));
    assert!(!graph.add_edge("missing", "a"));
    assert!(!graph.add_edge("missing", "gone"));
    assert_eq!(graph, before);
}

#[test]
fn an_edge_without_a_row_is_refused() {
    let mut graph = IRControlFlowGraph::new();
    graph.add_basic_block(block("a", vec![]));
    graph.out_edges.clear();
    let before = graph.clone();
    assert!(!graph.add_edge("a", "a"));
    assert_eq!(graph, before);
    assert!(!graph.edges_are_consistent());
}

#[test]
fn inconsistent_edge_lists_are_recognised() {
    let mut graph = IRControlFlowGraph::new();
    graph.add_basic_block(block("a", vec![]));
    graph.add_basic_block(block("b", vec![]));
    assert!(graph.edges_are_consistent());
    let mut one_sided = graph.clone();
    one_sided.out_edges[0].push(1);
    assert!(!one_sided.edges_are_consistent());
    let mut back_only = graph.clone();
    back_only.in_edges[1].push(0);
    assert!(!back_only.edges_are_consistent());
    let mut out_of_range = graph.clone();
    out_of_range.out_edges[0].push(2);
    assert!(!out_of_range.edges_are_consistent());
    let mut doubled = graph.clone();
    doubled.out_edges[0] = vec![1, 1];
    doubled.in_edges[1] = vec![0];
    assert!(!doubled.edges_are_consistent());
    let mut extra_row = graph.clone();
    extra_row.in_edges.push(vec![]);
    assert!(!extra_row.edges_are_consistent());
    let mut mirrored = graph.clone();
    mirrored.out_edges[0].push(1);
    mirrored.in_edges[1].push(0);
    assert!(mirrored.edges_are_consistent());
}

#[test]
fn function_renders_signature_fields_and_graph() {
    assert_eq!(
        empty_function("main").to_string(),
        "IRFunction{returnType=void, name='main', argumentsCount=0, fields=[], controlFlowGraph=IRControlFlowGraph{basicBlocks=[], outEdges=[], inEdges=[]}}"
    );
    assert_eq!(
        add_function().to_string(),
        "IRFunction{returnType=i32, name='add', argumentsCount=2, fields=[IRField{name=a, type=i32}, IRField{name=b, type=i32}], controlFlowGraph=IRControlFlowGraph{basicBlocks=[IRBasicBlock[name=entry, instructions=[%r = add i32 %a, %b, return %r]]], outEdges=[], inEdges=[]}}"
    );
}

#[test]
fn minimal_function_has_one_block_of_two_instructions() {
    let function = add_function();
    let graph = &function.control_flow_graph;
    assert_eq!(graph.basic_blocks.len(), 1);
    let (name, block) = graph.basic_blocks.get_index(0).unwrap();
    assert_eq!(name, "entry");
    assert_eq!(block.name, "entry");
    assert_eq!(block.instructions.len(), 2);
    assert_eq!(block.instructions[0].to_string(), "%r = add i32 %a, %b");
    assert_eq!(block.instructions[1].to_string(), "return %r");
    assert_eq!(
        graph.to_string(),
        "IRControlFlowGraph{basicBlocks=[IRBasicBlock[name=entry, instructions=[%r = add i32 %a, %b, return %r]]], outEdges=[], inEdges=[]}"
    );
    let mut module = IRModule::new();
    module.push_function(function);
    assert!(module.validate().is_empty());
}

#[test]
fn constant_pool_hands_out_consecutive_indices() {
    let mut pool = IRConstantPool::new();
    assert!(pool.entries.is_empty());
    assert_eq!(pool.to_string(), "IRConstantPool{entries={}}");
    let values = ["10", "-3", "hello", "10"];
    for (k, value) in values.iter().enumerate() {
        let entry = Box::new(IRConstantPoolEntry::new(i32_type(), value.to_string()));
        assert_eq!(pool.push(entry), k);
    }
    assert_eq!(pool.entries.len(), 4);
    for (i, value) in values.iter().enumerate() {
        assert_eq!(*pool.entries[i], IRConstantPoolEntry::new(i32_type(), value.to_string()));
    }
    assert_eq!(
        pool.to_string(),
        "IRConstantPool{entries={Entry{type=i32, value=10}, Entry{type=i32, value=-3}, Entry{type=i32, value=hello}, Entry{type=i32, value=10}}}"
    );
}

#[test]
fn constant_pool_entry_renders_type_and_value() {
    let entry = IRConstantPoolEntry::new(void_type(), "x".to_string());
    assert_eq!(entry.to_string(), "Entry{type=void, value=x}");
}

#[test]
fn empty_module_renders_every_section() {
    let module = IRModule::new();
    assert!(module.structures.is_empty());
    assert!(module.functions.is_empty());
    assert!(module.name2vtable_keys.is_empty());
    assert!(module.name2itable_keys.is_empty());
    assert!(module.entry_point.is_none());
    assert_eq!(
        module.to_string(),
        "IRModule{structures={}, constant_pool=IRConstantPool{entries={}}, global_data_section=IRGlobalDataSection{data=[]}, global_init_section=IRControlFlowGraph{basicBlocks=[], outEdges=[], inEdges=[]}, functions0={}, name2vtable_keys={}, name2itable_keys={}, entry_point=null}"
    );
}

#[test]
fn module_renders_its_parts_in_order() {
    let mut module = IRModule::new();
    module.push_struct(IRStructure::new("Point".to_string(), vec![field("x")]));
    module.push_struct(IRStructure::new("Unit".to_string(), vec![]));
    module.constant_pool.push(Box::new(IRConstantPoolEntry::new(i32_type(), "1".to_string())));
    module.global_data_section.data.push(IRGlobalData::new("g".to_string(), Some(constant(0)), None));
    module.global_init_section.add_basic_block(block("init", vec![nop()]));
    module.push_function(empty_function("main"));
    module.push_function(empty_function("exit"));
    module
        .name2vtable_keys
        .insert("Point".to_string(), vec!["draw".to_string(), "area".to_string()]);
    module.name2vtable_keys.insert("Unit".to_string(), vec![]);
    module.name2itable_keys.insert("Point".to_string(), vec!["Shape".to_string()]);
    module.entry_point = Some("main".to_string());
    let graph = "IRControlFlowGraph{basicBlocks=[], outEdges=[], inEdges=[]}";
    let expected = format!(
        "IRModule{{structures={{IRStructure{{name=Point, fields={{IRField{{name=x, type=i32}}}}}}, IRStructure{{name=Unit, fields={{}}}}}}, constant_pool=IRConstantPool{{entries={{Entry{{type=i32, value=1}}}}}}, global_data_section=IRGlobalDataSection{{data=[g, size=$0]}}, global_init_section=IRControlFlowGraph{{basicBlocks=[IRBasicBlock[name=init, instructions=[nop]]], outEdges=[], inEdges=[]}}, functions0={{main=IRFunction{{returnType=void, name='main', argumentsCount=0, fields=[], controlFlowGraph={graph}}}, exit=IRFunction{{returnType=void, name='exit', argumentsCount=0, fields=[], controlFlowGraph={graph}}}}}, name2vtable_keys={{Point=draw, area, Unit=}}, name2itable_keys={{Point=Shape}}, entry_point=main}}"
    );
    assert_eq!(module.to_string(), expected);
}

#[test]
fn pushing_a_function_again_replaces_it_in_place() {
    let mut module = IRModule::new();
    module.push_function(empty_function("first"));
    module.push_function(empty_function("second"));
    module.push_function(empty_function("third"));
    let mut replacement = empty_function("second");
    replacement.arguments_count = 7;
    module.push_function(replacement);
    let names: Vec<&String> = module.functions.keys().collect();
    assert_eq!(names, ["first", "second", "third"]);
    assert_eq!(module.functions.get_index(1).unwrap().1.arguments_count, 7);
    assert_eq!(module.functions.get_index(0).unwrap().1.arguments_count, 0);
    assert_eq!(module.functions.len(), 3);
}

#[test]
fn pushing_a_structure_again_replaces_it_in_place() {
    let mut module = IRModule::new();
    module.push_struct(IRStructure::new("A".to_string(), vec![]));
    module.push_struct(IRStructure::new("B".to_string(), vec![]));
    module.push_struct(IRStructure::new("A".to_string(), vec![field("x")]));
    let names: Vec<&String> = module.structures.keys().collect();
    assert_eq!(names, ["A", "B"]);
    assert_eq!(module.structures.get_index(0).unwrap().1.fields.len(), 1);
    assert!(module.functions.is_empty());
}

#[test]
fn key_order_is_the_same_on_every_reading() {
    let mut module = IRModule::new();
    let keys = vec!["draw".to_string(), "area".to_string(), "name".to_string()];
    module.name2vtable_keys.insert("Shape".to_string(), keys.clone());
    module.name2vtable_keys.insert("Other".to_string(), vec!["f".to_string()]);
    module.name2itable_keys.insert("Shape".to_string(), vec!["Drawable".to_string()]);
    let first = module.vtable_keys("Shape").cloned();
    let second = module.vtable_keys("Shape").cloned();
    assert_eq!(first, Some(keys.clone()));
    assert_eq!(first, second);
    assert_eq!(module.vtable_keys("Other"), Some(&vec!["f".to_string()]));
    assert_eq!(module.vtable_keys("Missing"), None);
    assert_eq!(module.itable_keys("Shape"), Some(&vec!["Drawable".to_string()]));
    assert_eq!(module.itable_keys("Other"), None);
    module.push_function(empty_function("f"));
    module.push_struct(IRStructure::new("Shape".to_string(), vec![]));
    assert_eq!(module.vtable_keys("Shape"), Some(&keys));
}
