use compiler_ir::ir::base::IRCondition;
use compiler_ir::ir::instruction::{
    IRAsm, IRCalculate, IRCalculateOperator, IRConditionalJump, IRConstructionError, IRDecrease,
    IRFree, IRGet, IRGoto, IRIncrease, IRInstruction, IRInvoke, IRMalloc, IRNegate, IRNoOperate,
    IRNot, IRRealloc, IRReturn, IRSet, IRSetVirtualRegister, IRStackAllocate, IRTypeCast,
    IRTypeCastKind,
};
use compiler_ir::ir::operand::{
    IRConstant, IRInterfaceTable, IRInterfaceTableEntry, IRMacro, IROperand, IRPhi,
    IRVirtualRegister, IRVirtualTable,
};
use compiler_ir::ir::text::{i32_to_string, join_strings, u64_to_string, usize_to_string};
use compiler_ir::ir::types::{
    IRDoubleType, IRFloatType, IRIntegerType, IRIntegerTypeSize, IRPointerType, IRType, IRVoidType,
};

fn register(name: &str) -> IRVirtualRegister {
    IRVirtualRegister::new(name.to_string())
}

fn target(name: &str) -> Box<IRVirtualRegister> {
    Box::new(register(name))
}

fn operand(name: &str) -> Box<IROperand> {
    Box::new(IROperand::VirtualRegister(register(name)))
}

fn constant(index: i32) -> Box<IROperand> {
    Box::new(IROperand::Constant(IRConstant::new(index)))
}

fn integer(size: IRIntegerTypeSize, unsigned: bool) -> Box<IRType> {
    Box::new(IRType::Integer(IRIntegerType::new(size, unsigned)))
}

fn i32_type() -> Box<IRType> {
    integer(IRIntegerTypeSize::FourBytes, false)
}

#[test]
fn calculate_renders_target_operator_type_and_operands() {
    let add = IRCalculate::new(
        false,
        IRCalculateOperator::ADD,
        i32_type(),
        operand("a"),
        operand("b"),
        target("c"),
    );
    assert_eq!(add.to_string(), "%c = add i32 %a, %b");
}

#[test]
fn atomic_calculate_renders_with_prefix() {
    let add = IRCalculate::new(
        true,
        IRCalculateOperator::ADD,
        i32_type(),
        operand("a"),
        operand("b"),
        target("c"),
    );
    assert_eq!(add.to_string(), "%c = atomic_add i32 %a, %b");
}

#[test]
fn every_operator_has_its_mnemonic() {
    let expected = [
        (IRCalculateOperator::ADD, "add"),
        (IRCalculateOperator::SUB, "sub"),
        (IRCalculateOperator::MUL, "mul"),
        (IRCalculateOperator::DIV, "div"),
        (IRCalculateOperator::MOD, "mod"),
        (IRCalculateOperator::AND, "and"),
        (IRCalculateOperator::OR, "or"),
        (IRCalculateOperator::XOR, "xor"),
        (IRCalculateOperator::SHL, "shl"),
        (IRCalculateOperator::SHR, "shr"),
        (IRCalculateOperator::USHR, "ushr"),
    ];
    for (operator, text) in expected {
        assert_eq!(operator.to_string(), text);
    }
}

#[test]
fn every_cast_kind_has_its_mnemonic() {
    let expected = [
        (IRTypeCastKind::ZeroExtend, "zext"),
        (IRTypeCastKind::SignExtend, "sext"),
        (IRTypeCastKind::Truncate, "trunc"),
        (IRTypeCastKind::IntToFloat, "itof"),
        (IRTypeCastKind::FloatToInt, "ftoi"),
        (IRTypeCastKind::FloatExtend, "fext"),
        (IRTypeCastKind::FloatTruncate, "ftrunc"),
    ];
    for (kind, text) in expected {
        assert_eq!(kind.to_string(), text);
    }
}

#[test]
fn every_condition_has_its_mnemonic() {
    let expected = [
        (IRCondition::Equal, "eq"),
        (IRCondition::NotEqual, "ne"),
        (IRCondition::Less, "lt"),
        (IRCondition::LessEqual, "le"),
        (IRCondition::Greater, "gt"),
        (IRCondition::GreaterEqual, "ge"),
        (IRCondition::IfTrue, "if_true"),
        (IRCondition::IfFalse, "if_false"),
    ];
    for (condition, text) in expected {
        assert_eq!(condition.to_string(), text);
    }
}

#[test]
fn types_render_canonically() {
    assert_eq!(integer(IRIntegerTypeSize::OneBit, false).to_string(), "i1");
    assert_eq!(integer(IRIntegerTypeSize::OneByte, true).to_string(), "u8");
    assert_eq!(integer(IRIntegerTypeSize::TwoBytes, false).to_string(), "i16");
    assert_eq!(integer(IRIntegerTypeSize::FourBytes, false).to_string(), "i32");
    assert_eq!(integer(IRIntegerTypeSize::EightBytes, true).to_string(), "u64");
    assert_eq!(IRType::Float(IRFloatType::new()).to_string(), "float");
    assert_eq!(IRType::Double(IRDoubleType::new()).to_string(), "double");
    assert_eq!(IRType::Void(IRVoidType::new()).to_string(), "void");
    let pointer = IRPointerType::new(i32_type());
    assert_eq!(pointer.to_string(), "i32*");
    let nested = IRType::Pointer(IRPointerType::new(Box::new(IRType::Pointer(pointer))));
    assert_eq!(nested.to_string(), "i32**");
}

#[test]
fn integer_sizes_have_their_widths() {
    assert_eq!(IRIntegerTypeSize::OneBit.bits(), 1);
    assert_eq!(IRIntegerTypeSize::OneByte.bits(), 8);
    assert_eq!(IRIntegerTypeSize::TwoBytes.bits(), 16);
    assert_eq!(IRIntegerTypeSize::FourBytes.bits(), 32);
    assert_eq!(IRIntegerTypeSize::EightBytes.bits(), 64);
}

#[test]
fn type_equality_is_structural() {
    let a = IRType::Pointer(IRPointerType::new(i32_type()));
    let b = IRType::Pointer(IRPointerType::new(i32_type()));
    let c = IRType::Pointer(IRPointerType::new(integer(IRIntegerTypeSize::FourBytes, true)));
    let d = IRType::Pointer(IRPointerType::new(Box::new(a.clone())));
    assert!(a == b);
    assert!(a != c);
    assert!(a != d);
    assert!(IRType::Float(IRFloatType::new()) != IRType::Double(IRDoubleType::new()));
    assert!(IRType::Void(IRVoidType::new()) == IRType::Void(IRVoidType::new()));
    assert!(*i32_type() != *integer(IRIntegerTypeSize::EightBytes, false));
    assert!(a.clone() == a);
}

#[test]
fn simple_operands_render_with_their_sigils() {
    assert_eq!(register("name").to_string(), "%name");
    assert_eq!(IRConstant::new(0).to_string(), "$0");
    assert_eq!(IRConstant::new(7).to_string(), "$7");
    assert_eq!(IRConstant::new(1234567890).to_string(), "$1234567890");
    assert_eq!(IRConstant::new(-42).to_string(), "$-42");
    assert_eq!(IRConstant::new(i32::MAX).to_string(), "$2147483647");
    assert_eq!(IRConstant::new(i32::MIN).to_string(), "$-2147483648");
}

#[test]
fn decimal_numerals_match_the_standard_ones() {
    for n in [0u64, 1, 9, 10, 11, 99, 100, 101, 1000, 65535, 4294967296, u64::MAX] {
        assert_eq!(u64_to_string(n), n.to_string());
    }
    for n in [0usize, 5, 10, 12345, usize::MAX] {
        assert_eq!(usize_to_string(n), n.to_string());
    }
    for i in [0i32, 1, -1, 9, -9, 10, -10, 100, -100, i32::MAX, i32::MIN] {
        assert_eq!(i32_to_string(i), i.to_string());
    }
}

#[test]
fn join_puts_the_separator_between_neighbours() {
    let none: Vec<String> = vec![];
    assert_eq!(join_strings(&none, ", "), "");
    assert_eq!(join_strings(&vec!["a".to_string()], ", "), "a");
    assert_eq!(join_strings(&vec!["a".to_string(), "b".to_string()], ", "), "a, b");
    assert_eq!(
        join_strings(&vec!["a".to_string(), "".to_string(), "c".to_string()], "--"),
        "a----c"
    );
}

#[test]
fn macro_renders_name_arguments_and_operands() {
    let empty = IRMacro::new("m".to_string(), vec![], vec![]);
    assert_eq!(empty.to_string(), "`m([], [])");
    let full = IRMacro::new(
        "field_offset".to_string(),
        vec!["Point".to_string(), "y".to_string()],
        vec![operand("p"), constant(3)],
    );
    assert_eq!(full.to_string(), "`field_offset([Point, y], [%p, $3])");
    let nested = IRMacro::new(
        "outer".to_string(),
        vec!["a".to_string()],
        vec![Box::new(IROperand::Macro(full))],
    );
    assert_eq!(nested.to_string(), "`outer([a], [`field_offset([Point, y], [%p, $3])])");
}

#[test]
fn phi_renders_its_arms() {
    let phi = IRPhi::new(
        i32_type(),
        vec!["left".to_string(), "right".to_string()],
        vec![operand("a"), constant(1)],
    );
    assert_eq!(phi.to_string(), "phi i32 [left, %a], [right, $1]");
    let none = IRPhi::new(i32_type(), vec![], vec![]);
    assert_eq!(none.to_string(), "phi i32 ");
    let lopsided = IRPhi::new(
        i32_type(),
        vec!["left".to_string(), "right".to_string()],
        vec![operand("a")],
    );
    assert_eq!(lopsided.to_string(), "phi i32 [left, %a]");
}

#[test]
fn tables_render_their_functions_in_order() {
    let table = IRVirtualTable::new(vec!["draw".to_string(), "area".to_string()]);
    assert_eq!(table.to_string(), "IRVirtualTable{functions={draw, area}}");
    let entry = IRInterfaceTableEntry::new(
        "Shape".to_string(),
        vec!["draw".to_string(), "area".to_string()],
    );
    assert_eq!(entry.to_string(), "Entry[name=Shape, functions={draw, area}]");
    let other = IRInterfaceTableEntry::new("Empty".to_string(), vec![]);
    let interfaces = IRInterfaceTable::new(vec![entry, other]);
    assert_eq!(
        interfaces.to_string(),
        "IRInterfaceTable{entries={Entry[name=Shape, functions={draw, area}], Entry[name=Empty, functions={}]}}"
    );
}

#[test]
fn operand_enum_renders_as_its_variant() {
    assert_eq!(operand("x").to_string(), "%x");
    assert_eq!(constant(5).to_string(), "$5");
    let table = IROperand::VirtualTable(IRVirtualTable::new(vec!["f".to_string()]));
    assert_eq!(table.to_string(), "IRVirtualTable{functions={f}}");
    let interfaces = IROperand::InterfaceTable(IRInterfaceTable::new(vec![]));
    assert_eq!(interfaces.to_string(), "IRInterfaceTable{entries={}}");
    let phi = IROperand::Phi(IRPhi::new(i32_type(), vec!["b".to_string()], vec![operand("v")]));
    assert_eq!(phi.to_string(), "phi i32 [b, %v]");
    let placeholder = IROperand::Macro(IRMacro::new("m".to_string(), vec![], vec![]));
    assert_eq!(placeholder.to_string(), "`m([], [])");
}

#[test]
fn control_flow_instructions_render() {
    assert_eq!(IRGoto::new("loop".to_string()).to_string(), "goto loop");
    let jump = IRConditionalJump::new(
        false,
        i32_type(),
        IRCondition::Less,
        operand("i"),
        operand("n"),
        "body".to_string(),
    );
    assert_eq!(jump.to_string(), "conditional_jump i32 lt, %i, %n, #body");
    let atomic = IRConditionalJump::new(
        true,
        integer(IRIntegerTypeSize::OneBit, false),
        IRCondition::IfTrue,
        operand("flag"),
        operand("flag"),
        "then".to_string(),
    );
    assert_eq!(atomic.to_string(), "atomic_conditional_jump i1 if_true, %flag, %flag, #then");
    assert_eq!(IRReturn::new(None).to_string(), "return");
    assert_eq!(IRReturn::new(Some(operand("r"))).to_string(), "return %r");
    assert_eq!(IRNoOperate::new().to_string(), "nop");
}

#[test]
fn memory_instructions_render() {
    assert_eq!(IRMalloc::new(operand("size"), target("p")).to_string(), "%p = malloc %size");
    assert_eq!(IRFree::new(operand("p")).to_string(), "free %p");
    assert_eq!(
        IRRealloc::new(operand("p"), constant(2), target("q")).to_string(),
        "%q = realloc %p, $2"
    );
    assert_eq!(
        IRStackAllocate::new(constant(0), target("slot")).to_string(),
        "%slot = stack_alloc $0"
    );
    assert_eq!(
        IRSet::new(i32_type(), operand("address"), operand("value")).to_string(),
        "set i32, %address, %value"
    );
    assert_eq!(
        IRGet::new(i32_type(), operand("address"), target("value")).to_string(),
        "%value = get i32, %address"
    );
}

#[test]
fn register_and_cast_instructions_render() {
    assert_eq!(IRSetVirtualRegister::new(constant(1), target("one")).to_string(), "%one = $1");
    let cast = IRTypeCast::new(
        IRTypeCastKind::Truncate,
        integer(IRIntegerTypeSize::EightBytes, false),
        operand("wide"),
        i32_type(),
        target("narrow"),
    );
    assert_eq!(cast.to_string(), "%narrow = trunc i64 %wide to i32");
}

#[test]
fn unary_instructions_render() {
    assert_eq!(
        IRNot::new(false, i32_type(), operand("a"), target("b")).to_string(),
        "%b = not i32 %a"
    );
    assert_eq!(
        IRNot::new(true, i32_type(), operand("a"), target("b")).to_string(),
        "%b = atomic_not i32 %a"
    );
    assert_eq!(
        IRNegate::new(false, i32_type(), operand("a"), target("b")).to_string(),
        "%b = negate i32 %a"
    );
    assert_eq!(
        IRNegate::new(true, i32_type(), operand("a"), target("b")).to_string(),
        "%b = atomic_negate i32 %a"
    );
    assert_eq!(
        IRIncrease::new(i32_type(), operand("a"), Some(target("b"))).to_string(),
        "%b = increase i32 %a"
    );
    assert_eq!(IRIncrease::new(i32_type(), operand("a"), None).to_string(), "atomic_increase i32 %a");
    assert_eq!(
        IRDecrease::new(i32_type(), operand("a"), Some(target("b"))).to_string(),
        "%b = decrease i32 %a"
    );
    assert_eq!(IRDecrease::new(i32_type(), operand("a"), None).to_string(), "atomic_decrease i32 %a");
}

#[test]
fn invoke_renders_each_argument_with_its_type() {
    let call = IRInvoke::new(
        i32_type(),
        operand("f"),
        vec![i32_type(), integer(IRIntegerTypeSize::EightBytes, true)],
        vec![operand("a"), constant(4)],
        Some(target("r")),
    )
    .unwrap();
    assert_eq!(call.to_string(), "%r = invoke i32 %f, [i32, %a], [u64, $4]");
    let bare = IRInvoke::new(
        Box::new(IRType::Void(IRVoidType::new())),
        operand("g"),
        vec![],
        vec![],
        None,
    )
    .unwrap();
    assert_eq!(bare.to_string(), "invoke void %g");
    assert_eq!(call.arguments().len(), 2);
    assert_eq!(call.argument_types().len(), 2);
    assert_eq!(call.return_type().to_string(), "i32");
    assert_eq!(call.address().to_string(), "%f");
    assert_eq!(call.target().as_ref().unwrap().to_string(), "%r");
    assert!(bare.target().is_none());
}

#[test]
fn invoke_with_mismatched_arity_is_refused() {
    let short = IRInvoke::new(i32_type(), operand("f"), vec![i32_type(), i32_type()], vec![operand("a")], None);
    assert_eq!(
        short.unwrap_err(),
        IRConstructionError::InvokeArity { argument_types: 2, arguments: 1 }
    );
    let long = IRInvoke::new(i32_type(), operand("f"), vec![], vec![operand("a")], None);
    let error = long.unwrap_err();
    assert_eq!(error, IRConstructionError::InvokeArity { argument_types: 0, arguments: 1 });
    assert_eq!(
        error.to_string(),
        "argument types and arguments length mismatch: 0 argument types, 1 arguments"
    );
}

#[test]
fn asm_renders_code_and_resources() {
    let bound = IRAsm::new(
        "mov {dst}, {src}".to_string(),
        vec![i32_type(), i32_type()],
        vec![operand("a"), operand("b")],
        vec!["dst".to_string(), "src".to_string()],
    )
    .unwrap();
    assert_eq!(bound.to_string(), "asm \"mov {dst}, {src}\", [i32, %a, dst], [i32, %b, src]");
    let bare = IRAsm::new("ret".to_string(), vec![], vec![], vec![]).unwrap();
    assert_eq!(bare.to_string(), "asm \"ret\"");
    assert_eq!(bound.code(), "mov {dst}, {src}");
    assert_eq!(bound.types().len(), 2);
    assert_eq!(bound.resources().len(), 2);
    assert_eq!(bound.names(), &vec!["dst".to_string(), "src".to_string()]);
}

#[test]
fn asm_with_mismatched_arity_is_refused() {
    let error = IRAsm::new(
        "nop".to_string(),
        vec![i32_type()],
        vec![operand("a")],
        vec![],
    )
    .unwrap_err();
    assert_eq!(error, IRConstructionError::AsmArity { types: 1, resources: 1, names: 0 });
    assert_eq!(
        error.to_string(),
        "types, resources and names length mismatch: 1 types, 1 resources, 0 names"
    );
    let other = IRAsm::new("nop".to_string(), vec![], vec![operand("a")], vec!["a".to_string()]);
    assert_eq!(
        other.unwrap_err(),
        IRConstructionError::AsmArity { types: 0, resources: 1, names: 1 }
    );
}

#[test]
fn instruction_enum_renders_as_its_variant() {
    let goto = IRInstruction::Goto(IRGoto::new("exit".to_string()));
    assert_eq!(goto.to_string(), "goto exit");
    assert!(goto.is_terminator());
    let store = IRInstruction::Store(IRSet::new(i32_type(), operand("p"), constant(0)));
    assert_eq!(store.to_string(), "set i32, %p, $0");
    assert!(!store.is_terminator());
    let load = IRInstruction::Load(IRGet::new(i32_type(), operand("p"), target("v")));
    assert_eq!(load.to_string(), "%v = get i32, %p");
    let ret = IRInstruction::Return(IRReturn::new(None));
    assert!(ret.is_terminator());
    let nop = IRInstruction::NoOperate(IRNoOperate::new());
    assert_eq!(nop.to_string(), "nop");
    assert!(!nop.is_terminator());
}

#[test]
fn cloned_operand_is_the_same_operand() {
    let phi = IROperand::Phi(IRPhi::new(
        i32_type(),
        vec!["left".to_string(), "right".to_string()],
        vec![operand("a"), constant(1)],
    ));
    let table = IROperand::InterfaceTable(IRInterfaceTable::new(vec![
        IRInterfaceTableEntry::new("Shape".to_string(), vec!["draw".to_string()]),
        IRInterfaceTableEntry::new("Empty".to_string(), vec![]),
    ]));
    let nested = IROperand::Macro(IRMacro::new(
        "outer".to_string(),
        vec!["x".to_string(), "y".to_string()],
        vec![
            Box::new(phi),
            Box::new(table),
            Box::new(IROperand::VirtualTable(IRVirtualTable::new(vec!["f".to_string()]))),
            operand("r"),
            constant(-7),
        ],
    ));
    let copy = nested.clone();
    assert_eq!(copy, nested);
    assert_eq!(copy.to_string(), nested.to_string());
    assert_eq!(
        copy.to_string(),
        "`outer([x, y], [phi i32 [left, %a], [right, $1], IRInterfaceTable{entries={Entry[name=Shape, functions={draw}], Entry[name=Empty, functions={}]}}, IRVirtualTable{functions={f}}, %r, $-7])"
    );
}
