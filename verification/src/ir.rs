//! The IR data model: types, operands, instructions, containers and the
//! module that aggregates them.

use crate::ir::base::{
    IRBasicBlock, IRControlFlowGraph, IRFunction, IRGlobalData, IRGlobalDataSection, IRNode,
};
use crate::ir::instruction::{
    IRAsm, IRCalculate, IRConditionalJump, IRDecrease, IRFree, IRGet, IRGoto, IRIncrease, IRInvoke,
    IRMalloc, IRNegate, IRNoOperate, IRNot, IRRealloc, IRReturn, IRSet, IRSetVirtualRegister,
    IRStackAllocate, IRTypeCast,
};
use crate::ir::operand::{
    IRConstant, IRInterfaceTable, IRMacro, IRPhi, IRVirtualRegister, IRVirtualTable,
};
use crate::ir::ordered::{
    function_entries, functions_get_index, functions_insert, functions_len, functions_new,
    key_list_entries, key_lists_get_index, key_lists_get_index_of, key_lists_len, key_lists_new,
    lemma_position_of_none, lemma_position_of_only, names_only, position_of, put,
    structure_entries, structures_get_index, structures_insert, structures_len, structures_new,
};
use crate::ir::sequence::{chain, chain_prefix, lemma_chain_len, total_len};
use crate::ir::structure::{IRField, IRStructure};
use crate::ir::text::{join, join_strings, views};
use crate::ir::types::{
    IRDoubleType, IRFloatType, IRIntegerType, IRPointerType, IRType, IRVoidType,
};
use crate::ir::visit::{lemma_walk_concat, lemma_walk_none, lemma_walk_one, lemma_walk_step, walk};
use indexmap::IndexMap;
use vstd::prelude::*;
use vstd::string::*;

pub mod base;
pub mod instruction;
pub mod operand;
pub mod ordered;
pub mod sequence;
pub mod structure;
pub mod text;
pub mod types;
pub mod validate;
pub mod visit;

verus! {

/// A literal of the constant pool: its type and the text of its value.
#[derive(Debug, Clone, PartialEq, Eq)]
pub struct IRConstantPoolEntry {
    pub _type: Box<IRType>,
    pub value: String,
}

impl IRConstantPoolEntry {
    pub fn new(_type: Box<IRType>, value: String) -> (e: Self)
        ensures
            e == (IRConstantPoolEntry { _type, value }),
    {
        Self { _type, value }
    }

    pub open spec fn render(&self) -> Seq<char> {
        "Entry{type="@ + self._type.render() + ", value="@ + self.value@ + "}"@
    }

    pub fn to_string(&self) -> (s: String)
        ensures
            s@ == self.render(),
    {
        let mut s = String::from_str("Entry{type=");
        s.append(self._type.to_string().as_str());
        s.append(", value=");
        s.append(self.value.as_str());
        s.append("}");
        s
    }

    /// The node itself, then its type.
    pub open spec fn trace<'a>(&'a self) -> Seq<IRNode<'a>> {
        seq![IRNode::ConstantPoolEntry(self)] + self._type.trace()
    }

    /// Lets the visitor enter this node, then its type.
    pub fn accept<V: IRVisitorImpl>(&self, visitor: &mut V)
        ensures
            final(visitor).state() == walk::<V>(old(visitor).state(), self.trace()),
    {
        broadcast use {lemma_walk_one, lemma_walk_none, lemma_walk_concat};

        visitor.enter(IRNode::ConstantPoolEntry(self));
        self._type.accept(visitor);
    }

    /// An entry is one node more than its type.
    pub proof fn lemma_trace_len(&self)
        ensures
            self.trace().len() == 1 + self._type.trace().len(),
    {
    }
}

/// The literals of a module. Entries are only ever appended, so the index
/// that `push` hands out stays the entry's index.
#[derive(Debug, Clone, PartialEq, Eq)]
pub struct IRConstantPool {
    pub entries: Vec<Box<IRConstantPoolEntry>>,
}

impl IRConstantPool {
    pub fn new() -> (p: Self)
        ensures
            p.entries@ == Seq::<Box<IRConstantPoolEntry>>::empty(),
    {
        Self { entries: Vec::new() }
    }

    /// Appends the entry and returns its index: the number of entries that
    /// the pool held before.
    pub fn push(&mut self, entry: Box<IRConstantPoolEntry>) -> (index: usize)
        ensures
            index == old(self).entries@.len(),
            final(self).entries@ == old(self).entries@.push(entry),
    {
        self.entries.push(entry);
        self.entries.len() - 1
    }

    /// The text of each entry, in index order.
    pub open spec fn entry_texts(&self) -> Seq<Seq<char>> {
        Seq::new(self.entries@.len(), |i: int| self.entries@[i].render())
    }

    pub open spec fn render(&self) -> Seq<char> {
        "IRConstantPool{entries={"@ + join(self.entry_texts(), ", "@) + "}}"@
    }

    pub fn to_string(&self) -> (s: String)
        ensures
            s@ == self.render(),
    {
        let mut parts: Vec<String> = Vec::new();
        let mut i: usize = 0;
        while i < self.entries.len()
            invariant
                i <= self.entries.len(),
                parts@.len() == i,
                forall|j: int| 0 <= j < i ==> (#[trigger] parts@[j])@ == self.entries@[j].render(),
            decreases self.entries.len() - i,
        {
            parts.push(self.entries[i].to_string());
            i = i + 1;
        }
        assert(views(parts@) =~= self.entry_texts());
        let mut s = String::from_str("IRConstantPool{entries={");
        s.append(join_strings(&parts, ", ").as_str());
        s.append("}}");
        s
    }

    /// The trace of each entry, in index order.
    pub open spec fn entry_traces<'a>(&'a self) -> Seq<Seq<IRNode<'a>>> {
        Seq::new(self.entries@.len(), |i: int| self.entries@[i].trace())
    }

    /// The node itself, then each entry with its type, in index order.
    pub open spec fn trace<'a>(&'a self) -> Seq<IRNode<'a>> {
        seq![IRNode::ConstantPool(self)] + chain(self.entry_traces())
    }

    /// Lets the visitor enter this node, then the entries in index order.
    pub fn accept<V: IRVisitorImpl>(&self, visitor: &mut V)
        ensures
            final(visitor).state() == walk::<V>(old(visitor).state(), self.trace()),
    {
        broadcast use {lemma_walk_one, lemma_walk_none, lemma_walk_concat};

        visitor.enter(IRNode::ConstantPool(self));
        let ghost start = visitor.state();
        let mut i: usize = 0;
        while i < self.entries.len()
            invariant
                i <= self.entries.len(),
                visitor.state() == walk::<V>(start, chain_prefix(self.entry_traces(), i as nat)),
            decreases self.entries.len() - i,
        {
            let ghost before = visitor.state();
            self.entries[i].accept(visitor);
            proof {
                lemma_walk_step::<V>(start, self.entry_traces(), i as nat, before, visitor.state());
            }
            i = i + 1;
        }
    }

    /// The entries after each of `items` was pushed in turn.
    pub open spec fn after_pushes(
        entries: Seq<Box<IRConstantPoolEntry>>,
        items: Seq<Box<IRConstantPoolEntry>>,
    ) -> Seq<Box<IRConstantPoolEntry>>
        decreases items.len(),
    {
        if items.len() == 0 {
            entries
        } else {
            Self::after_pushes(entries.push(items[0]), items.drop_first())
        }
    }

    /// Pushes only append. After any sequence of pushes the pool holds what
    /// it held before, followed by the pushed entries in the order of the
    /// pushes: the push number `k` is handed the index of the entry it adds,
    /// which is the earlier length plus `k`, and that index reads back the
    /// entry for good.
    pub proof fn lemma_pushes_append(
        entries: Seq<Box<IRConstantPoolEntry>>,
        items: Seq<Box<IRConstantPoolEntry>>,
    )
        ensures
            Self::after_pushes(entries, items) == entries + items,
            forall|k: int|
                0 <= k < items.len() ==> {
                    &&& #[trigger] Self::after_pushes(entries, items.take(k)).len() == entries.len()
                        + k
                    &&& Self::after_pushes(entries, items)[entries.len() + k] == items[k]
                },
        decreases items.len(),
    {
        if items.len() == 0 {
            assert(entries + items =~= entries);
        } else {
            Self::lemma_pushes_append(entries.push(items[0]), items.drop_first());
            assert(entries.push(items[0]) + items.drop_first() =~= entries + items);
        }
        assert forall|k: int| 0 <= k < items.len() implies {
            &&& #[trigger] Self::after_pushes(entries, items.take(k)).len() == entries.len() + k
            &&& Self::after_pushes(entries, items)[entries.len() + k] == items[k]
        } by {
            Self::lemma_pushes_append(entries, items.take(k));
        }
    }

    /// The pool is one node more than its entries together.
    pub proof fn lemma_trace_len(&self)
        ensures
            self.trace().len() == 1 + total_len(self.entry_traces(), self.entries@.len()),
    {
        lemma_chain_len(self.entry_traces(), self.entries@.len());
    }
}

/// The text of each key list: the structure's name, `=`, and the keys,
/// comma-separated.
pub open spec fn key_list_texts(entries: Seq<(Seq<char>, Vec<String>)>) -> Seq<Seq<char>> {
    Seq::new(entries.len(), |i: int| entries[i].0 + "="@ + join(views(entries[i].1@), ", "@))
}

fn key_lists_to_strings(map: &IndexMap<String, Vec<String>>) -> (parts: Vec<String>)
    ensures
        views(parts@) == key_list_texts(key_list_entries(*map)),
{
    let n = key_lists_len(map);
    let mut parts: Vec<String> = Vec::new();
    let mut i: usize = 0;
    while i < n
        invariant
            i <= n,
            n == key_list_entries(*map).len(),
            parts@.len() == i,
            forall|j: int|
                0 <= j < i ==> (#[trigger] parts@[j])@ == key_list_texts(key_list_entries(*map))[j],
        decreases n - i,
    {
        match key_lists_get_index(map, i) {
            Some((name, keys)) => {
                let mut part = name.clone();
                part.append("=");
                part.append(join_strings(keys, ", ").as_str());
                parts.push(part);
            },
            None => vstd::pervasive::unreached(),
        }
        i = i + 1;
    }
    assert(views(parts@) =~= key_list_texts(key_list_entries(*map)));
    parts
}

/// The key list that is kept under `name`, if there is one.
pub open spec fn keys_of(lists: Seq<(Seq<char>, Vec<String>)>, name: Seq<char>) -> Option<
    Vec<String>,
> {
    match position_of(lists, name) {
        Some(i) => Some(lists[i].1),
        None => None,
    }
}

fn find_keys<'a>(map: &'a IndexMap<String, Vec<String>>, name: &str) -> (keys: Option<
    &'a Vec<String>,
>)
    ensures
        match keys {
            Some(list) => keys_of(key_list_entries(*map), name@) == Some(*list),
            None => keys_of(key_list_entries(*map), name@) == None::<Vec<String>>,
        },
{
    match key_lists_get_index_of(map, name) {
        Some(i) => {
            proof {
                lemma_position_of_only(key_list_entries(*map), name@, i as int);
            }
            match key_lists_get_index(map, i) {
                Some((_, list)) => Some(list),
                None => vstd::pervasive::unreached(),
            }
        },
        None => {
            proof {
                lemma_position_of_none(key_list_entries(*map), name@);
            }
            None
        },
    }
}

/// A whole compilation unit.
///
/// Structures and functions are kept under their names, in the order in
/// which the names first came in.
#[derive(Debug, Clone, PartialEq, Eq)]
pub struct IRModule {
    pub structures: IndexMap<String, Box<IRStructure>>,
    pub constant_pool: Box<IRConstantPool>,
    pub global_data_section: Box<IRGlobalDataSection>,
    pub global_init_section: Box<IRControlFlowGraph>,
    pub functions: IndexMap<String, Box<IRFunction>>,
    pub name2vtable_keys: IndexMap<String, Vec<String>>,
    pub name2itable_keys: IndexMap<String, Vec<String>>,
    pub entry_point: Option<String>,
}

impl IRModule {
    /// The structures of the module, each with the name it is kept under,
    /// in insertion order.
    pub open spec fn structure_list(&self) -> Seq<(Seq<char>, IRStructure)> {
        structure_entries(self.structures)
    }

    /// The functions of the module, each with the name it is kept under, in
    /// insertion order.
    pub open spec fn function_list(&self) -> Seq<(Seq<char>, IRFunction)> {
        function_entries(self.functions)
    }

    /// The virtual-table key list of each structure that has one.
    pub open spec fn vtable_key_lists(&self) -> Seq<(Seq<char>, Vec<String>)> {
        key_list_entries(self.name2vtable_keys)
    }

    /// The interface-table key list of each structure that has one.
    pub open spec fn itable_key_lists(&self) -> Seq<(Seq<char>, Vec<String>)> {
        key_list_entries(self.name2itable_keys)
    }

    /// A module that holds nothing and has no entry point.
    pub fn new() -> (m: Self)
        ensures
            m.structure_list() == Seq::<(Seq<char>, IRStructure)>::empty(),
            m.constant_pool.entries@ == Seq::<Box<IRConstantPoolEntry>>::empty(),
            m.global_data_section.data@ == Seq::<IRGlobalData>::empty(),
            m.global_init_section.blocks() == Seq::<(Seq<char>, IRBasicBlock)>::empty(),
            m.global_init_section.edges_consistent(),
            m.global_init_section.out_edges@ == Seq::<Vec<usize>>::empty(),
            m.global_init_section.in_edges@ == Seq::<Vec<usize>>::empty(),
            m.function_list() == Seq::<(Seq<char>, IRFunction)>::empty(),
            m.vtable_key_lists() == Seq::<(Seq<char>, Vec<String>)>::empty(),
            m.itable_key_lists() == Seq::<(Seq<char>, Vec<String>)>::empty(),
            m.entry_point == None::<String>,
    {
        Self {
            structures: structures_new(),
            constant_pool: Box::new(IRConstantPool::new()),
            global_data_section: Box::new(IRGlobalDataSection::new()),
            global_init_section: Box::new(IRControlFlowGraph::new()),
            functions: functions_new(),
            name2vtable_keys: key_lists_new(),
            name2itable_keys: key_lists_new(),
            entry_point: None,
        }
    }

    /// Puts the function under its own name. A function of that name
    /// already in the module is replaced where it stands; a function of a
    /// new name goes last. Nothing else changes.
    pub fn push_function(&mut self, func: IRFunction)
        ensures
            final(self).function_list() == put(old(self).function_list(), func.name@, func),
            final(self).structures == old(self).structures,
            final(self).constant_pool == old(self).constant_pool,
            final(self).global_data_section == old(self).global_data_section,
            final(self).global_init_section == old(self).global_init_section,
            final(self).name2vtable_keys == old(self).name2vtable_keys,
            final(self).name2itable_keys == old(self).name2itable_keys,
            final(self).entry_point == old(self).entry_point,
    {
        let name = func.name.clone();
        let ghost before = self.function_list();
        let ghost key = func.name@;
        let replaced = functions_insert(&mut self.functions, name, Box::new(func));
        proof {
            match replaced {
                Some(previous) => {
                    let i = choose|i: int|
                        {
                            &&& names_only(before, key, i)
                            &&& #[trigger] before[i].1 == *previous
                            &&& self.function_list() == before.update(i, (key, func))
                        };
                    lemma_position_of_only(before, key, i);
                },
                None => {
                    lemma_position_of_none(before, key);
                },
            }
        }
    }

    /// Puts the structure under its own name. A structure of that name
    /// already in the module is replaced where it stands; a structure of a
    /// new name goes last. Nothing else changes.
    pub fn push_struct(&mut self, structure: IRStructure)
        ensures
            final(self).structure_list() == put(
                old(self).structure_list(),
                structure.name@,
                structure,
            ),
            final(self).functions == old(self).functions,
            final(self).constant_pool == old(self).constant_pool,
            final(self).global_data_section == old(self).global_data_section,
            final(self).global_init_section == old(self).global_init_section,
            final(self).name2vtable_keys == old(self).name2vtable_keys,
            final(self).name2itable_keys == old(self).name2itable_keys,
            final(self).entry_point == old(self).entry_point,
    {
        let name = structure.name.clone();
        let ghost before = self.structure_list();
        let ghost key = structure.name@;
        let replaced = structures_insert(&mut self.structures, name, Box::new(structure));
        proof {
            match replaced {
                Some(previous) => {
                    let i = choose|i: int|
                        {
                            &&& names_only(before, key, i)
                            &&& #[trigger] before[i].1 == *previous
                            &&& self.structure_list() == before.update(i, (key, structure))
                        };
                    lemma_position_of_only(before, key, i);
                },
                None => {
                    lemma_position_of_none(before, key);
                },
            }
        }
    }

    /// The text of each structure, in insertion order.
    pub open spec fn structure_texts(&self) -> Seq<Seq<char>> {
        Seq::new(self.structure_list().len(), |i: int| self.structure_list()[i].1.render())
    }

    /// The text of each function, in insertion order: the name it is kept
    /// under, `=`, and the function.
    pub open spec fn function_texts(&self) -> Seq<Seq<char>> {
        Seq::new(
            self.function_list().len(),
            |i: int| self.function_list()[i].0 + "="@ + self.function_list()[i].1.render(),
        )
    }

    /// The entry point's name, or `null` where the module has none.
    pub open spec fn entry_point_text(&self) -> Seq<char> {
        match self.entry_point {
            Some(name) => name@,
            None => "null"@,
        }
    }

    /// The parts of the module in their fixed order: structures, constant
    /// pool, global data, global initialisation, functions, the two kinds of
    /// key lists and the entry point.
    pub open spec fn render(&self) -> Seq<char> {
        "IRModule{structures={"@ + join(self.structure_texts(), ", "@) + "}, constant_pool="@
            + self.constant_pool.render() + ", global_data_section="@
            + self.global_data_section.render() + ", global_init_section="@
            + self.global_init_section.render() + ", functions0={"@ + join(
            self.function_texts(),
            ", "@,
        ) + "}, name2vtable_keys={"@ + join(key_list_texts(self.vtable_key_lists()), ", "@)
            + "}, name2itable_keys={"@ + join(key_list_texts(self.itable_key_lists()), ", "@)
            + "}, entry_point="@ + self.entry_point_text() + "}"@
    }

    fn structures_to_strings(&self) -> (parts: Vec<String>)
        ensures
            views(parts@) == self.structure_texts(),
    {
        let n = structures_len(&self.structures);
        let mut parts: Vec<String> = Vec::new();
        let mut i: usize = 0;
        while i < n
            invariant
                i <= n,
                n == self.structure_list().len(),
                parts@.len() == i,
                forall|j: int| 0 <= j < i ==> (#[trigger] parts@[j])@ == self.structure_texts()[j],
            decreases n - i,
        {
            match structures_get_index(&self.structures, i) {
                Some((_, structure)) => {
                    parts.push(structure.to_string());
                },
                None => vstd::pervasive::unreached(),
            }
            i = i + 1;
        }
        assert(views(parts@) =~= self.structure_texts());
        parts
    }

    fn functions_to_strings(&self) -> (parts: Vec<String>)
        ensures
            views(parts@) == self.function_texts(),
    {
        let n = functions_len(&self.functions);
        let mut parts: Vec<String> = Vec::new();
        let mut i: usize = 0;
        while i < n
            invariant
                i <= n,
                n == self.function_list().len(),
                parts@.len() == i,
                forall|j: int| 0 <= j < i ==> (#[trigger] parts@[j])@ == self.function_texts()[j],
            decreases n - i,
        {
            match functions_get_index(&self.functions, i) {
                Some((name, function)) => {
                    let mut part = name.clone();
                    part.append("=");
                    part.append(function.to_string().as_str());
                    parts.push(part);
                },
                None => vstd::pervasive::unreached(),
            }
            i = i + 1;
        }
        assert(views(parts@) =~= self.function_texts());
        parts
    }

    pub fn to_string(&self) -> (s: String)
        ensures
            s@ == self.render(),
    {
        let structures = self.structures_to_strings();
        let functions = self.functions_to_strings();
        let vtable_keys = key_lists_to_strings(&self.name2vtable_keys);
        let itable_keys = key_lists_to_strings(&self.name2itable_keys);
        let mut s = String::from_str("IRModule{structures={");
        s.append(join_strings(&structures, ", ").as_str());
        s.append("}, constant_pool=");
        s.append(self.constant_pool.to_string().as_str());
        s.append(", global_data_section=");
        s.append(self.global_data_section.to_string().as_str());
        s.append(", global_init_section=");
        s.append(self.global_init_section.to_string().as_str());
        s.append(", functions0={");
        s.append(join_strings(&functions, ", ").as_str());
        s.append("}, name2vtable_keys={");
        s.append(join_strings(&vtable_keys, ", ").as_str());
        s.append("}, name2itable_keys={");
        s.append(join_strings(&itable_keys, ", ").as_str());
        s.append("}, entry_point=");
        match &self.entry_point {
            Some(name) => {
                s.append(name.as_str());
            },
            None => {
                s.append("null");
            },
        }
        s.append("}");
        s
    }

    /// The trace of each structure, in insertion order.
    pub open spec fn structure_traces<'a>(&'a self) -> Seq<Seq<IRNode<'a>>> {
        Seq::new(self.structure_list().len(), |i: int| self.structure_list()[i].1.trace())
    }

    /// The trace of each function, in insertion order.
    pub open spec fn function_traces<'a>(&'a self) -> Seq<Seq<IRNode<'a>>> {
        Seq::new(self.function_list().len(), |i: int| self.function_list()[i].1.trace())
    }

    /// The node itself; then the structures, the constant pool, the global
    /// data, the instructions of the global initialisation, and the
    /// functions in insertion order, each with all that is below it.
    pub open spec fn trace<'a>(&'a self) -> Seq<IRNode<'a>> {
        seq![IRNode::Module(self)] + chain(self.structure_traces()) + self.constant_pool.trace()
            + self.global_data_section.trace() + self.global_init_section.trace() + chain(
            self.function_traces(),
        )
    }

    fn accept_structures<V: IRVisitorImpl>(&self, visitor: &mut V)
        ensures
            final(visitor).state() == walk::<V>(
                old(visitor).state(),
                chain(self.structure_traces()),
            ),
    {
        broadcast use lemma_walk_none;

        let ghost start = visitor.state();
        let n = structures_len(&self.structures);
        let mut i: usize = 0;
        while i < n
            invariant
                i <= n,
                n == self.structure_list().len(),
                visitor.state() == walk::<V>(
                    start,
                    chain_prefix(self.structure_traces(), i as nat),
                ),
            decreases n - i,
        {
            let ghost before = visitor.state();
            match structures_get_index(&self.structures, i) {
                Some((_, structure)) => {
                    structure.accept(visitor);
                },
                None => vstd::pervasive::unreached(),
            }
            proof {
                lemma_walk_step::<V>(
                    start,
                    self.structure_traces(),
                    i as nat,
                    before,
                    visitor.state(),
                );
            }
            i = i + 1;
        }
    }

    fn accept_functions<V: IRVisitorImpl>(&self, visitor: &mut V)
        ensures
            final(visitor).state() == walk::<V>(
                old(visitor).state(),
                chain(self.function_traces()),
            ),
    {
        broadcast use lemma_walk_none;

        let ghost start = visitor.state();
        let n = functions_len(&self.functions);
        let mut i: usize = 0;
        while i < n
            invariant
                i <= n,
                n == self.function_list().len(),
                visitor.state() == walk::<V>(start, chain_prefix(self.function_traces(), i as nat)),
            decreases n - i,
        {
            let ghost before = visitor.state();
            match functions_get_index(&self.functions, i) {
                Some((_, function)) => {
                    function.accept(visitor);
                },
                None => vstd::pervasive::unreached(),
            }
            proof {
                lemma_walk_step::<V>(
                    start,
                    self.function_traces(),
                    i as nat,
                    before,
                    visitor.state(),
                );
            }
            i = i + 1;
        }
    }

    /// Lets the visitor enter this node, then traverse the parts of the
    /// module in their fixed order.
    pub fn accept<V: IRVisitorImpl>(&self, visitor: &mut V)
        ensures
            final(visitor).state() == walk::<V>(old(visitor).state(), self.trace()),
    {
        broadcast use {lemma_walk_one, lemma_walk_none, lemma_walk_concat};

        visitor.enter(IRNode::Module(self));
        self.accept_structures(visitor);
        self.constant_pool.accept(visitor);
        self.global_data_section.accept(visitor);
        self.global_init_section.accept(visitor);
        self.accept_functions(visitor);
    }

    /// A module is one node more than its structures, its constant pool, its
    /// global data, the instructions of its global initialisation and its
    /// functions together.
    pub proof fn lemma_trace_len(&self)
        ensures
            self.trace().len() == 1 + total_len(
                self.structure_traces(),
                self.structure_list().len(),
            ) + self.constant_pool.trace().len() + self.global_data_section.trace().len()
                + self.global_init_section.trace().len() + total_len(
                self.function_traces(),
                self.function_list().len(),
            ),
    {
        lemma_chain_len(self.structure_traces(), self.structure_list().len());
        lemma_chain_len(self.function_traces(), self.function_list().len());
    }

    /// The virtual-table keys of the structure named `structure`, in
    /// dispatch-offset order, if the module has a list for it.
    pub fn vtable_keys(&self, structure: &str) -> (keys: Option<&Vec<String>>)
        ensures
            match keys {
                Some(list) => keys_of(self.vtable_key_lists(), structure@) == Some(*list),
                None => keys_of(self.vtable_key_lists(), structure@) == None::<Vec<String>>,
            },
    {
        find_keys(&self.name2vtable_keys, structure)
    }

    /// The interface-table keys of the structure named `structure`, in
    /// dispatch-offset order, if the module has a list for it.
    pub fn itable_keys(&self, structure: &str) -> (keys: Option<&Vec<String>>)
        ensures
            match keys {
                Some(list) => keys_of(self.itable_key_lists(), structure@) == Some(*list),
                None => keys_of(self.itable_key_lists(), structure@) == None::<Vec<String>>,
            },
    {
        find_keys(&self.name2itable_keys, structure)
    }

    /// The key order of a structure is a function of the module and the
    /// structure's name: whatever two computations of it hand back is the
    /// same list, key for key and place for place.
    pub proof fn lemma_key_order_stable(
        &self,
        structure: Seq<char>,
        first: Option<Vec<String>>,
        second: Option<Vec<String>>,
    )
        requires
            first == keys_of(self.vtable_key_lists(), structure),
            second == keys_of(self.vtable_key_lists(), structure),
        ensures
            first == second,
            first matches Some(list) ==> second matches Some(other) && list@ == other@,
    {
    }

    /// Putting a function or a structure into the module leaves every key
    /// order as it was.
    pub proof fn lemma_key_order_kept(&self, later: &IRModule, structure: Seq<char>)
        requires
            later.name2vtable_keys == self.name2vtable_keys,
            later.name2itable_keys == self.name2itable_keys,
        ensures
            keys_of(later.vtable_key_lists(), structure) == keys_of(
                self.vtable_key_lists(),
                structure,
            ),
            keys_of(later.itable_key_lists(), structure) == keys_of(
                self.itable_key_lists(),
                structure,
            ),
    {
    }
}

/// What a pass is: a state, and how observing one node changes it.
///
/// A traversal enters every node once, parents before children, and calls
/// `enter` on each. To handle some kinds of node only, match on the node in
/// `observe` and `enter` and leave the state as it is for the others.
///
/// `state` and `observe` are the mathematical account of the pass, which
/// `enter` is held to. They are never run.
pub trait IRVisitorImpl: Sized {
    /// The mathematical content of the pass's state.
    type State;

    /// The state that this value stands for.
    spec fn state(&self) -> Self::State;

    /// The state after a node was observed in the given state.
    spec fn observe(state: Self::State, node: IRNode<'_>) -> Self::State;

    /// Observes one node.
    fn enter(&mut self, node: IRNode<'_>)
        ensures
            final(self).state() == Self::observe(old(self).state(), node),
    ;
}

/// The traversal that every pass has.
///
/// Each method enters the node it is given and then, in a fixed order, the
/// nodes below it: the pass ends in the state that it reaches by observing
/// the node's trace from the state it started in. `visit_dyn` does so for a
/// node of any kind.
///
/// The trait is implemented for every pass, once and for all, so that the
/// order of a traversal is the same for all of them. What a pass does with
/// a kind of node is decided in its `enter`.
pub trait IRVisitor: IRVisitorImpl {
    /// Traverses from a node of any kind.
    fn visit_dyn(&mut self, ir_node: IRNode<'_>)
        ensures
            final(self).state() == walk::<Self>(old(self).state(), ir_node.trace()),
    {
        ir_node.accept(self)
    }

    /// Traverses from a node of any kind.
    fn visit(&mut self, ir_node: IRNode<'_>)
        ensures
            final(self).state() == walk::<Self>(old(self).state(), ir_node.trace()),
    {
        ir_node.accept(self)
    }

    fn visit_module(&mut self, ir_module: &IRModule)
        ensures
            final(self).state() == walk::<Self>(old(self).state(), ir_module.trace()),
    {
        ir_module.accept(self)
    }

    fn visit_constant_pool(&mut self, ir_constant_pool: &IRConstantPool)
        ensures
            final(self).state() == walk::<Self>(old(self).state(), ir_constant_pool.trace()),
    {
        ir_constant_pool.accept(self)
    }

    fn visit_constant_pool_entry(&mut self, ir_constant_pool_entry: &IRConstantPoolEntry)
        ensures
            final(self).state() == walk::<Self>(old(self).state(), ir_constant_pool_entry.trace()),
    {
        ir_constant_pool_entry.accept(self)
    }

    fn visit_function(&mut self, ir_function: &IRFunction)
        ensures
            final(self).state() == walk::<Self>(old(self).state(), ir_function.trace()),
    {
        ir_function.accept(self)
    }

    fn visit_structure(&mut self, ir_structure: &IRStructure)
        ensures
            final(self).state() == walk::<Self>(old(self).state(), ir_structure.trace()),
    {
        ir_structure.accept(self)
    }

    fn visit_field(&mut self, ir_field: &IRField)
        ensures
            final(self).state() == walk::<Self>(old(self).state(), ir_field.trace()),
    {
        ir_field.accept(self)
    }

    fn visit_global_data_section(&mut self, ir_global_data_section: &IRGlobalDataSection)
        ensures
            final(self).state() == walk::<Self>(old(self).state(), ir_global_data_section.trace()),
    {
        ir_global_data_section.accept(self)
    }

    fn visit_global_data(&mut self, ir_global_data: &IRGlobalData)
        ensures
            final(self).state() == walk::<Self>(old(self).state(), ir_global_data.trace()),
    {
        ir_global_data.accept(self)
    }

    fn visit_integer_type(&mut self, ir_integer_type: &IRIntegerType)
        ensures
            final(self).state() == walk::<Self>(old(self).state(), ir_integer_type.trace()),
    {
        ir_integer_type.accept(self)
    }

    fn visit_float_type(&mut self, ir_float_type: &IRFloatType)
        ensures
            final(self).state() == walk::<Self>(old(self).state(), ir_float_type.trace()),
    {
        ir_float_type.accept(self)
    }

    fn visit_double_type(&mut self, ir_double_type: &IRDoubleType)
        ensures
            final(self).state() == walk::<Self>(old(self).state(), ir_double_type.trace()),
    {
        ir_double_type.accept(self)
    }

    fn visit_pointer_type(&mut self, ir_pointer_type: &IRPointerType)
        ensures
            final(self).state() == walk::<Self>(old(self).state(), ir_pointer_type.trace()),
    {
        ir_pointer_type.accept(self)
    }

    fn visit_void_type(&mut self, ir_void_type: &IRVoidType)
        ensures
            final(self).state() == walk::<Self>(old(self).state(), ir_void_type.trace()),
    {
        ir_void_type.accept(self)
    }

    fn visit_goto(&mut self, ir_goto: &IRGoto)
        ensures
            final(self).state() == walk::<Self>(old(self).state(), ir_goto.trace()),
    {
        ir_goto.accept(self)
    }

    fn visit_conditional_jump(&mut self, ir_conditional_jump: &IRConditionalJump)
        ensures
            final(self).state() == walk::<Self>(old(self).state(), ir_conditional_jump.trace()),
    {
        ir_conditional_jump.accept(self)
    }

    fn visit_return(&mut self, ir_return: &IRReturn)
        ensures
            final(self).state() == walk::<Self>(old(self).state(), ir_return.trace()),
    {
        ir_return.accept(self)
    }

    fn visit_calculate(&mut self, ir_calculate: &IRCalculate)
        ensures
            final(self).state() == walk::<Self>(old(self).state(), ir_calculate.trace()),
    {
        ir_calculate.accept(self)
    }

    fn visit_not(&mut self, ir_not: &IRNot)
        ensures
            final(self).state() == walk::<Self>(old(self).state(), ir_not.trace()),
    {
        ir_not.accept(self)
    }

    fn visit_negate(&mut self, ir_negate: &IRNegate)
        ensures
            final(self).state() == walk::<Self>(old(self).state(), ir_negate.trace()),
    {
        ir_negate.accept(self)
    }

    fn visit_malloc(&mut self, ir_malloc: &IRMalloc)
        ensures
            final(self).state() == walk::<Self>(old(self).state(), ir_malloc.trace()),
    {
        ir_malloc.accept(self)
    }

    fn visit_free(&mut self, ir_free: &IRFree)
        ensures
            final(self).state() == walk::<Self>(old(self).state(), ir_free.trace()),
    {
        ir_free.accept(self)
    }

    fn visit_realloc(&mut self, ir_realloc: &IRRealloc)
        ensures
            final(self).state() == walk::<Self>(old(self).state(), ir_realloc.trace()),
    {
        ir_realloc.accept(self)
    }

    fn visit_get(&mut self, ir_get: &IRGet)
        ensures
            final(self).state() == walk::<Self>(old(self).state(), ir_get.trace()),
    {
        ir_get.accept(self)
    }

    fn visit_set(&mut self, ir_set: &IRSet)
        ensures
            final(self).state() == walk::<Self>(old(self).state(), ir_set.trace()),
    {
        ir_set.accept(self)
    }

    fn visit_set_virtual_register(&mut self, ir_set_virtual_register: &IRSetVirtualRegister)
        ensures
            final(self).state() == walk::<Self>(old(self).state(), ir_set_virtual_register.trace()),
    {
        ir_set_virtual_register.accept(self)
    }

    fn visit_invoke(&mut self, ir_invoke: &IRInvoke)
        ensures
            final(self).state() == walk::<Self>(old(self).state(), ir_invoke.trace()),
    {
        ir_invoke.accept(self)
    }

    fn visit_no_operate(&mut self, ir_no_operate: &IRNoOperate)
        ensures
            final(self).state() == walk::<Self>(old(self).state(), ir_no_operate.trace()),
    {
        ir_no_operate.accept(self)
    }

    fn visit_increase(&mut self, ir_increase: &IRIncrease)
        ensures
            final(self).state() == walk::<Self>(old(self).state(), ir_increase.trace()),
    {
        ir_increase.accept(self)
    }

    fn visit_decrease(&mut self, ir_decrease: &IRDecrease)
        ensures
            final(self).state() == walk::<Self>(old(self).state(), ir_decrease.trace()),
    {
        ir_decrease.accept(self)
    }

    fn visit_stack_allocate(&mut self, ir_stack_allocate: &IRStackAllocate)
        ensures
            final(self).state() == walk::<Self>(old(self).state(), ir_stack_allocate.trace()),
    {
        ir_stack_allocate.accept(self)
    }

    fn visit_type_cast(&mut self, ir_type_cast: &IRTypeCast)
        ensures
            final(self).state() == walk::<Self>(old(self).state(), ir_type_cast.trace()),
    {
        ir_type_cast.accept(self)
    }

    fn visit_asm(&mut self, ir_asm: &IRAsm)
        ensures
            final(self).state() == walk::<Self>(old(self).state(), ir_asm.trace()),
    {
        ir_asm.accept(self)
    }

    fn visit_constant(&mut self, ir_constant: &IRConstant)
        ensures
            final(self).state() == walk::<Self>(old(self).state(), ir_constant.trace()),
    {
        ir_constant.accept(self)
    }

    fn visit_virtual_register(&mut self, ir_virtual_register: &IRVirtualRegister)
        ensures
            final(self).state() == walk::<Self>(old(self).state(), ir_virtual_register.trace()),
    {
        ir_virtual_register.accept(self)
    }

    fn visit_phi(&mut self, ir_phi: &IRPhi)
        ensures
            final(self).state() == walk::<Self>(old(self).state(), ir_phi.trace()),
    {
        ir_phi.accept(self)
    }

    fn visit_macro(&mut self, ir_macro: &IRMacro)
        ensures
            final(self).state() == walk::<Self>(old(self).state(), ir_macro.trace()),
    {
        ir_macro.accept(self)
    }

    fn visit_virtual_table(&mut self, ir_virtual_table: &IRVirtualTable)
        ensures
            final(self).state() == walk::<Self>(old(self).state(), ir_virtual_table.trace()),
    {
        ir_virtual_table.accept(self)
    }

    fn visit_interface_table(&mut self, ir_interface_table: &IRInterfaceTable)
        ensures
            final(self).state() == walk::<Self>(old(self).state(), ir_interface_table.trace()),
    {
        ir_interface_table.accept(self)
    }
}

impl<T: IRVisitorImpl> IRVisitor for T {

}

/// A pass that counts the nodes it is shown, up to the largest number it
/// can hold.
#[derive(Debug, Clone, Copy, PartialEq, Eq)]
pub struct IRNodeCounter {
    pub count: u64,
}

impl IRNodeCounter {
    /// A counter at zero.
    pub fn new() -> (c: Self)
        ensures
            c.count == 0,
    {
        Self { count: 0 }
    }
}

/// One more than `count`, unless `count` is the largest number a counter
/// holds.
pub open spec fn count_one_more(count: nat) -> nat {
    if count < u64::MAX {
        count + 1
    } else {
        count
    }
}

impl IRVisitorImpl for IRNodeCounter {
    type State = nat;

    open spec fn state(&self) -> nat {
        self.count as nat
    }

    open spec fn observe(state: nat, node: IRNode<'_>) -> nat {
        count_one_more(state)
    }

    fn enter(&mut self, node: IRNode<'_>) {
        if self.count < u64::MAX {
            self.count = self.count + 1;
        }
    }
}

/// A counter that is shown a trace ends as many nodes further as the trace
/// is long, or at the largest number it can hold.
pub proof fn lemma_counter_counts<'a>(count: nat, trace: Seq<IRNode<'a>>)
    requires
        count <= u64::MAX,
    ensures
        walk::<IRNodeCounter>(count, trace) == if count + trace.len() <= u64::MAX {
            count + trace.len()
        } else {
            u64::MAX as nat
        },
    decreases trace.len(),
{
    if trace.len() > 0 {
        lemma_counter_counts(count_one_more(count), trace.drop_first());
    }
}

/// A counter that starts at zero and traverses a module ends at the number
/// of nodes of the module: one for the module itself and one for each node
/// of its structures, its constant pool, its global data, its global
/// initialisation and its functions.
pub proof fn lemma_counter_counts_module(module: &IRModule)
    ensures
        walk::<IRNodeCounter>(0, module.trace()) == if module.trace().len() <= u64::MAX {
            module.trace().len()
        } else {
            u64::MAX as nat
        },
        module.trace().len() == 1 + total_len(
            module.structure_traces(),
            module.structure_list().len(),
        ) + module.constant_pool.trace().len() + module.global_data_section.trace().len()
            + module.global_init_section.trace().len() + total_len(
            module.function_traces(),
            module.function_list().len(),
        ),
{
    lemma_counter_counts(0, module.trace());
    module.lemma_trace_len();
}

/// A pass that collects the text of every instruction it is shown, in the
/// order in which it is shown them.
#[derive(Debug, Clone, PartialEq, Eq)]
pub struct IRDumper {
    pub lines: Vec<String>,
}

impl IRDumper {
    /// A dumper that has collected nothing.
    pub fn new() -> (d: Self)
        ensures
            d.lines@ == Seq::<String>::empty(),
    {
        Self { lines: Vec::new() }
    }
}

/// The lines after a node was shown: one more, the node's text, for an
/// instruction, and the same for any other node.
pub open spec fn dump_one_more(lines: Seq<Seq<char>>, node: IRNode<'_>) -> Seq<Seq<char>> {
    if node.is_instruction() {
        lines.push(node.render())
    } else {
        lines
    }
}

/// The texts of the instructions among the nodes of a trace, in the order
/// of the trace.
pub open spec fn instruction_texts(trace: Seq<IRNode<'_>>) -> Seq<Seq<char>>
    decreases trace.len(),
{
    if trace.len() == 0 {
        Seq::empty()
    } else {
        dump_one_more(Seq::empty(), trace[0]) + instruction_texts(trace.drop_first())
    }
}

/// A dumper that is shown a trace ends with the lines it had, followed by
/// the texts of the instructions of the trace, in the order of the trace.
pub proof fn lemma_dumper_dumps(lines: Seq<Seq<char>>, trace: Seq<IRNode<'_>>)
    ensures
        walk::<IRDumper>(lines, trace) == lines + instruction_texts(trace),
    decreases trace.len(),
{
    if trace.len() == 0 {
        assert(lines + instruction_texts(trace) =~= lines);
    } else {
        let next = dump_one_more(lines, trace[0]);
        lemma_dumper_dumps(next, trace.drop_first());
        assert(next =~= lines + dump_one_more(Seq::empty(), trace[0]));
        assert(next + instruction_texts(trace.drop_first()) =~= lines + instruction_texts(trace));
    }
}

impl IRVisitorImpl for IRDumper {
    type State = Seq<Seq<char>>;

    open spec fn state(&self) -> Seq<Seq<char>> {
        views(self.lines@)
    }

    open spec fn observe(state: Seq<Seq<char>>, node: IRNode<'_>) -> Seq<Seq<char>> {
        dump_one_more(state, node)
    }

    fn enter(&mut self, node: IRNode<'_>) {
        if node.is_instruction() {
            self.lines.push(node.to_string());
            assert(views(self.lines@) =~= views(old(self).lines@).push(node.render()));
        }
    }
}

} // verus!
