//! The insertion-ordered, name-keyed maps of the IR, as `indexmap` provides
//! them.
//!
//! Verus does not look inside an `IndexMap`. What a map holds is named by an
//! uninterpreted function for each kind of map, a sequence of name and item
//! in the map's order, and the few operations that the IR uses are given
//! contracts over those sequences. The contracts are taken on trust from the
//! documentation of `indexmap`; everything else in the crate is proved from
//! them.

use crate::ir::base::{IRBasicBlock, IRFunction};
use crate::ir::structure::IRStructure;
use indexmap::IndexMap;
use vstd::prelude::*;

verus! {

#[verifier::external_type_specification]
#[verifier::external_body]
#[verifier::reject_recursive_types(K)]
#[verifier::reject_recursive_types(V)]
#[verifier::reject_recursive_types(S)]
pub struct ExIndexMap<K, V, S>(IndexMap<K, V, S>);

/// `IndexMap::clone`: a map of its own. Nothing is claimed of what the copy
/// holds.
pub assume_specification<K, V, S>[ <IndexMap<K, V, S> as Clone>::clone ](
    map: &IndexMap<K, V, S>,
) -> (copy: IndexMap<K, V, S>)
    where K: Clone, V: Clone, S: Clone
;

/// Whether `key` is the name of the entry at `position` and of no other.
pub open spec fn names_only<V>(
    entries: Seq<(Seq<char>, V)>,
    key: Seq<char>,
    position: int,
) -> bool {
    &&& 0 <= position < entries.len()
    &&& forall|j: int|
        0 <= j < entries.len() ==> (#[trigger] entries[j].0 == key <==> j == position)
}

/// Whether no entry is named `key`.
pub open spec fn names_none<V>(entries: Seq<(Seq<char>, V)>, key: Seq<char>) -> bool {
    forall|j: int| 0 <= j < entries.len() ==> #[trigger] entries[j].0 != key
}

/// The position of the entry named `key`, if there is one.
pub open spec fn position_of<V>(entries: Seq<(Seq<char>, V)>, key: Seq<char>) -> Option<int> {
    if exists|i: int| 0 <= i < entries.len() && #[trigger] entries[i].0 == key {
        Some(choose|i: int| 0 <= i < entries.len() && #[trigger] entries[i].0 == key)
    } else {
        None
    }
}

/// The entries after `value` was put under `key`: in the place of the entry
/// of that name where there is one, at the end otherwise.
pub open spec fn put<V>(entries: Seq<(Seq<char>, V)>, key: Seq<char>, value: V) -> Seq<
    (Seq<char>, V),
> {
    match position_of(entries, key) {
        Some(i) => entries.update(i, (key, value)),
        None => entries.push((key, value)),
    }
}

/// A name that sits at one position only is found at that position.
pub proof fn lemma_position_of_only<V>(
    entries: Seq<(Seq<char>, V)>,
    key: Seq<char>,
    position: int,
)
    requires
        names_only(entries, key, position),
    ensures
        position_of(entries, key) == Some(position),
{
    assert(entries[position].0 == key);
}

/// A name that no entry has is not found.
pub proof fn lemma_position_of_none<V>(entries: Seq<(Seq<char>, V)>, key: Seq<char>)
    requires
        names_none(entries, key),
    ensures
        position_of(entries, key) == None::<int>,
{
}

/// The structures that a map holds, each with the name it is kept
/// under, in the map's order.
pub uninterp spec fn structure_entries(map: IndexMap<String, Box<IRStructure>>) -> Seq<
    (Seq<char>, IRStructure),
>;

/// `IndexMap::new`: a map that holds nothing.
#[verifier::external_body]
pub(crate) fn structures_new() -> (map: IndexMap<String, Box<IRStructure>>)
    ensures
        structure_entries(map) == Seq::<(Seq<char>, IRStructure)>::empty(),
{
    IndexMap::new()
}

/// `IndexMap::len`: the number of entries.
#[verifier::external_body]
pub(crate) fn structures_len(map: &IndexMap<String, Box<IRStructure>>) -> (n: usize)
    ensures
        n == structure_entries(*map).len(),
{
    map.len()
}

/// `IndexMap::get_index`: the name and the item at a position of the
/// order, and nothing for a position past the end.
#[verifier::external_body]
pub(crate) fn structures_get_index(
    map: &IndexMap<String, Box<IRStructure>>,
    index: usize,
) -> (entry: Option<(&String, &Box<IRStructure>)>)
    ensures
        match entry {
            Some((name, item)) => {
                &&& index < structure_entries(*map).len()
                &&& name@ == structure_entries(*map)[index as int].0
                &&& **item == structure_entries(*map)[index as int].1
            },
            None => index >= structure_entries(*map).len(),
        },
{
    map.get_index(index)
}

/// `IndexMap::insert`: where an entry has the name, it keeps its place,
/// takes the new item and hands the old one back; where none has it, the
/// new entry goes last and nothing is handed back.
#[verifier::external_body]
pub(crate) fn structures_insert(
    map: &mut IndexMap<String, Box<IRStructure>>,
    key: String,
    value: Box<IRStructure>,
) -> (replaced: Option<Box<IRStructure>>)
    ensures
        match replaced {
            Some(previous) => exists|i: int|
                {
                    &&& names_only(structure_entries(*old(map)), key@, i)
                    &&& #[trigger] structure_entries(*old(map))[i].1 == *previous
                    &&& structure_entries(*final(map)) == structure_entries(*old(map)).update(
                        i,
                        (key@, *value),
                    )
                },
            None => {
                &&& names_none(structure_entries(*old(map)), key@)
                &&& structure_entries(*final(map)) == structure_entries(*old(map)).push(
                    (key@, *value),
                )
            },
        },
{
    map.insert(key, value)
}

/// The functions that a map holds, each with the name it is kept
/// under, in the map's order.
pub uninterp spec fn function_entries(map: IndexMap<String, Box<IRFunction>>) -> Seq<
    (Seq<char>, IRFunction),
>;

/// `IndexMap::new`: a map that holds nothing.
#[verifier::external_body]
pub(crate) fn functions_new() -> (map: IndexMap<String, Box<IRFunction>>)
    ensures
        function_entries(map) == Seq::<(Seq<char>, IRFunction)>::empty(),
{
    IndexMap::new()
}

/// `IndexMap::len`: the number of entries.
#[verifier::external_body]
pub(crate) fn functions_len(map: &IndexMap<String, Box<IRFunction>>) -> (n: usize)
    ensures
        n == function_entries(*map).len(),
{
    map.len()
}

/// `IndexMap::get_index`: the name and the item at a position of the
/// order, and nothing for a position past the end.
#[verifier::external_body]
pub(crate) fn functions_get_index(
    map: &IndexMap<String, Box<IRFunction>>,
    index: usize,
) -> (entry: Option<(&String, &Box<IRFunction>)>)
    ensures
        match entry {
            Some((name, item)) => {
                &&& index < function_entries(*map).len()
                &&& name@ == function_entries(*map)[index as int].0
                &&& **item == function_entries(*map)[index as int].1
            },
            None => index >= function_entries(*map).len(),
        },
{
    map.get_index(index)
}

/// `IndexMap::get_index_of`: the position of the entry with the given
/// name, which is the only entry of that name; nothing where no entry has
/// it.
#[verifier::external_body]
pub(crate) fn functions_get_index_of(
    map: &IndexMap<String, Box<IRFunction>>,
    key: &str,
) -> (position: Option<usize>)
    ensures
        match position {
            Some(i) => names_only(function_entries(*map), key@, i as int),
            None => names_none(function_entries(*map), key@),
        },
{
    map.get_index_of(key)
}

/// `IndexMap::insert`: where an entry has the name, it keeps its place,
/// takes the new item and hands the old one back; where none has it, the
/// new entry goes last and nothing is handed back.
#[verifier::external_body]
pub(crate) fn functions_insert(
    map: &mut IndexMap<String, Box<IRFunction>>,
    key: String,
    value: Box<IRFunction>,
) -> (replaced: Option<Box<IRFunction>>)
    ensures
        match replaced {
            Some(previous) => exists|i: int|
                {
                    &&& names_only(function_entries(*old(map)), key@, i)
                    &&& #[trigger] function_entries(*old(map))[i].1 == *previous
                    &&& function_entries(*final(map)) == function_entries(*old(map)).update(
                        i,
                        (key@, *value),
                    )
                },
            None => {
                &&& names_none(function_entries(*old(map)), key@)
                &&& function_entries(*final(map)) == function_entries(*old(map)).push(
                    (key@, *value),
                )
            },
        },
{
    map.insert(key, value)
}

/// The basic blocks that a map holds, each with the name it is kept
/// under, in the map's order.
pub uninterp spec fn block_entries(map: IndexMap<String, Box<IRBasicBlock>>) -> Seq<
    (Seq<char>, IRBasicBlock),
>;

/// `IndexMap::new`: a map that holds nothing.
#[verifier::external_body]
pub(crate) fn blocks_new() -> (map: IndexMap<String, Box<IRBasicBlock>>)
    ensures
        block_entries(map) == Seq::<(Seq<char>, IRBasicBlock)>::empty(),
{
    IndexMap::new()
}

/// `IndexMap::len`: the number of entries.
#[verifier::external_body]
pub(crate) fn blocks_len(map: &IndexMap<String, Box<IRBasicBlock>>) -> (n: usize)
    ensures
        n == block_entries(*map).len(),
{
    map.len()
}

/// `IndexMap::get_index`: the name and the item at a position of the
/// order, and nothing for a position past the end.
#[verifier::external_body]
pub(crate) fn blocks_get_index(
    map: &IndexMap<String, Box<IRBasicBlock>>,
    index: usize,
) -> (entry: Option<(&String, &Box<IRBasicBlock>)>)
    ensures
        match entry {
            Some((name, item)) => {
                &&& index < block_entries(*map).len()
                &&& name@ == block_entries(*map)[index as int].0
                &&& **item == block_entries(*map)[index as int].1
            },
            None => index >= block_entries(*map).len(),
        },
{
    map.get_index(index)
}

/// `IndexMap::get_index_of`: the position of the entry with the given
/// name, which is the only entry of that name; nothing where no entry has
/// it.
#[verifier::external_body]
pub(crate) fn blocks_get_index_of(
    map: &IndexMap<String, Box<IRBasicBlock>>,
    key: &str,
) -> (position: Option<usize>)
    ensures
        match position {
            Some(i) => names_only(block_entries(*map), key@, i as int),
            None => names_none(block_entries(*map), key@),
        },
{
    map.get_index_of(key)
}

/// `IndexMap::insert`: where an entry has the name, it keeps its place,
/// takes the new item and hands the old one back; where none has it, the
/// new entry goes last and nothing is handed back.
#[verifier::external_body]
pub(crate) fn blocks_insert(
    map: &mut IndexMap<String, Box<IRBasicBlock>>,
    key: String,
    value: Box<IRBasicBlock>,
) -> (replaced: Option<Box<IRBasicBlock>>)
    ensures
        match replaced {
            Some(previous) => exists|i: int|
                {
                    &&& names_only(block_entries(*old(map)), key@, i)
                    &&& #[trigger] block_entries(*old(map))[i].1 == *previous
                    &&& block_entries(*final(map)) == block_entries(*old(map)).update(
                        i,
                        (key@, *value),
                    )
                },
            None => {
                &&& names_none(block_entries(*old(map)), key@)
                &&& block_entries(*final(map)) == block_entries(*old(map)).push((key@, *value))
            },
        },
{
    map.insert(key, value)
}

/// The dispatch-table key lists that a map holds, each with the name it is kept
/// under, in the map's order.
pub uninterp spec fn key_list_entries(map: IndexMap<String, Vec<String>>) -> Seq<
    (Seq<char>, Vec<String>),
>;

/// `IndexMap::new`: a map that holds nothing.
#[verifier::external_body]
pub(crate) fn key_lists_new() -> (map: IndexMap<String, Vec<String>>)
    ensures
        key_list_entries(map) == Seq::<(Seq<char>, Vec<String>)>::empty(),
{
    IndexMap::new()
}

/// `IndexMap::len`: the number of entries.
#[verifier::external_body]
pub(crate) fn key_lists_len(map: &IndexMap<String, Vec<String>>) -> (n: usize)
    ensures
        n == key_list_entries(*map).len(),
{
    map.len()
}

/// `IndexMap::get_index`: the name and the item at a position of the
/// order, and nothing for a position past the end.
#[verifier::external_body]
pub(crate) fn key_lists_get_index(
    map: &IndexMap<String, Vec<String>>,
    index: usize,
) -> (entry: Option<(&String, &Vec<String>)>)
    ensures
        match entry {
            Some((name, item)) => {
                &&& index < key_list_entries(*map).len()
                &&& name@ == key_list_entries(*map)[index as int].0
                &&& *item == key_list_entries(*map)[index as int].1
            },
            None => index >= key_list_entries(*map).len(),
        },
{
    map.get_index(index)
}

/// `IndexMap::get_index_of`: the position of the entry with the given
/// name, which is the only entry of that name; nothing where no entry has
/// it.
#[verifier::external_body]
pub(crate) fn key_lists_get_index_of(
    map: &IndexMap<String, Vec<String>>,
    key: &str,
) -> (position: Option<usize>)
    ensures
        match position {
            Some(i) => names_only(key_list_entries(*map), key@, i as int),
            None => names_none(key_list_entries(*map), key@),
        },
{
    map.get_index_of(key)
}

} // verus!
