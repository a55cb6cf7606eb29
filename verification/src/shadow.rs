//! The fixed-capacity containers of a chip model: the shadow copies of its
//! two register files and the command lists that the sequence generators
//! fill.

use crate::command::CmdDelay;
use vstd::prelude::*;

verus! {

#[verifier::external_type_specification]
#[verifier::external_body]
pub struct ExFnvHasher(hash32::FnvHasher);

#[verifier::external_type_specification]
#[verifier::external_body]
#[verifier::reject_recursive_types(H)]
pub struct ExBuildHasherDefault<H>(hash32::BuildHasherDefault<H>);

#[verifier::external_type_specification]
#[verifier::external_body]
#[verifier::reject_recursive_types(K)]
#[verifier::reject_recursive_types(V)]
#[verifier::reject_recursive_types(S)]
pub struct ExIndexMap<K, V, S, const N: usize>(heapless::IndexMap<K, V, S, N>);

#[verifier::external_type_specification]
#[verifier::external_body]
#[verifier::reject_recursive_types(T)]
pub struct ExHeaplessVec<T, const N: usize>(heapless::Vec<T, N>);

/// Registers that a `RegisterMap` has room for.
pub const REGISTER_CAPACITY: usize = 64;

/// Core registers that a `CoreRegisterMap` has room for.
pub const CORE_REGISTER_CAPACITY: usize = 16;

/// Steps that a `CommandList` has room for.
pub const COMMAND_CAPACITY: usize = 2048;

/// Shadow of the 32-bit registers, keyed by register address.
pub type RegisterMap = heapless::FnvIndexMap<u8, u32, 64>;

/// Shadow of the 8-bit core registers, keyed by core-register id.
pub type CoreRegisterMap = heapless::FnvIndexMap<u8, u8, 16>;

/// Commands in the order in which they go out.
pub type CommandList = heapless::Vec<CmdDelay, 2048>;

/// The address-to-value pairs that a register map holds.
pub uninterp spec fn register_values(map: RegisterMap) -> Map<u8, u32>;

/// The id-to-value pairs that a core-register map holds.
pub uninterp spec fn core_register_values(map: CoreRegisterMap) -> Map<u8, u8>;

/// The steps that a command list holds, first to last.
pub uninterp spec fn command_steps(list: CommandList) -> Seq<CmdDelay>;

/// The register file that holds nothing.
pub open spec fn no_registers() -> Map<u8, u32> {
    Map::empty()
}

/// The core-register file that holds nothing.
pub open spec fn no_core_registers() -> Map<u8, u8> {
    Map::empty()
}

/// The command list without a step.
pub open spec fn no_steps() -> Seq<CmdDelay> {
    Seq::empty()
}

/// Whether a write of `address` finds room in a register file: the address
/// is there already, or fewer than `capacity` are.
pub open spec fn has_room<V>(values: Map<u8, V>, address: u8, capacity: usize) -> bool {
    values.contains_key(address) || values.dom().len() < capacity
}

/// What a write of `address` hands back: the value it replaced, if any, or
/// the refused pair where the file has no room.
pub open spec fn insert_outcome<V>(values: Map<u8, V>, address: u8, value: V, capacity: usize)
    -> Result<Option<V>, (u8, V)> {
    if !has_room(values, address, capacity) {
        Err((address, value))
    } else if values.contains_key(address) {
        Ok(Some(values[address]))
    } else {
        Ok(None)
    }
}

/// What a register file holds after a write of `address`.
pub open spec fn after_insert<V>(values: Map<u8, V>, address: u8, value: V, capacity: usize)
    -> Map<u8, V> {
    if has_room(values, address, capacity) {
        values.insert(address, value)
    } else {
        values
    }
}

/// What appending `step` hands back: the step itself where the list is full.
pub open spec fn push_outcome(steps: Seq<CmdDelay>, step: CmdDelay) -> Result<(), CmdDelay> {
    if steps.len() < COMMAND_CAPACITY {
        Ok(())
    } else {
        Err(step)
    }
}

/// What a command list holds after `step` was appended.
pub open spec fn after_push(steps: Seq<CmdDelay>, step: CmdDelay) -> Seq<CmdDelay> {
    if steps.len() < COMMAND_CAPACITY {
        steps.push(step)
    } else {
        steps
    }
}

/// `heapless::IndexMap::new`: a map that holds nothing.
#[verifier::external_body]
pub(crate) fn new_register_map() -> (registers: RegisterMap)
    ensures
        register_values(registers) == no_registers(),
{
    RegisterMap::new()
}

/// `heapless::IndexMap::get`: the value stored under `address`, if there is
/// one.
#[verifier::external_body]
pub(crate) fn register_get(registers: &RegisterMap, address: u8) -> (value: Option<u32>)
    ensures
        value == (if register_values(*registers).contains_key(address) {
            Some(register_values(*registers)[address])
        } else {
            None
        }),
{
    registers.get(&address).copied()
}

/// `heapless::IndexMap::insert`: stores `value` under `address` and hands
/// back what was there before. A new address is refused, and the map left as
/// it was, when the map is full.
#[verifier::external_body]
pub(crate) fn register_insert(registers: &mut RegisterMap, address: u8, value: u32) -> (previous:
    Result<Option<u32>, (u8, u32)>)
    ensures
        previous == insert_outcome(
            register_values(*old(registers)),
            address,
            value,
            REGISTER_CAPACITY,
        ),
        register_values(*final(registers)) == after_insert(
            register_values(*old(registers)),
            address,
            value,
            REGISTER_CAPACITY,
        ),
{
    registers.insert(address, value)
}

/// `heapless::IndexMap::new`: a map that holds nothing.
#[verifier::external_body]
pub(crate) fn new_core_register_map() -> (registers: CoreRegisterMap)
    ensures
        core_register_values(registers) == no_core_registers(),
{
    CoreRegisterMap::new()
}

/// `heapless::IndexMap::get`: the value stored under `id`, if there is one.
#[verifier::external_body]
pub(crate) fn core_register_get(registers: &CoreRegisterMap, id: u8) -> (value: Option<u8>)
    ensures
        value == (if core_register_values(*registers).contains_key(id) {
            Some(core_register_values(*registers)[id])
        } else {
            None
        }),
{
    registers.get(&id).copied()
}

/// `heapless::IndexMap::insert`: stores `value` under `id` and hands back
/// what was there before. A new id is refused, and the map left as it was,
/// when the map is full.
#[verifier::external_body]
pub(crate) fn core_register_insert(registers: &mut CoreRegisterMap, id: u8, value: u8) -> (previous:
    Result<Option<u8>, (u8, u8)>)
    ensures
        previous == insert_outcome(
            core_register_values(*old(registers)),
            id,
            value,
            CORE_REGISTER_CAPACITY,
        ),
        core_register_values(*final(registers)) == after_insert(
            core_register_values(*old(registers)),
            id,
            value,
            CORE_REGISTER_CAPACITY,
        ),
{
    registers.insert(id, value)
}

/// `heapless::Vec::new`: a list without a step.
#[verifier::external_body]
pub(crate) fn new_command_list() -> (list: CommandList)
    ensures
        command_steps(list) == no_steps(),
{
    CommandList::new()
}

/// `heapless::Vec::push`: appends `step`, or hands it back and leaves the
/// list as it was when the list is full.
#[verifier::external_body]
pub(crate) fn push_command(list: &mut CommandList, step: CmdDelay) -> (refused: Result<(), CmdDelay>)
    ensures
        refused == push_outcome(command_steps(*old(list)), step),
        command_steps(*final(list)) == after_push(command_steps(*old(list)), step),
{
    list.push(step)
}

} // verus!
