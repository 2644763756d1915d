//! The global object table: a fixed array of slots at a fixed offset from the
//! target's load base.

use vstd::prelude::*;
use crate::error::Error;
use crate::process::ProcessMemory;
use crate::remote_ptr::RemotePtr;
use crate::remote_ptr::decode_array;
use crate::remote_ptr::offset_address;
use crate::types::EntityPtr;

verus! {

/// Offset of the global object table from the target's load base.
pub const OFFSET: usize = 0x27780;

/// Number of slots in the global object table.
pub const ELEMENT_COUNT: usize = 0x7FFF;

/// Number of bytes in one slot.
pub const ELEMENT_SIZE: usize = 16;

/// Number of bytes that the global object table spans.
pub const LENGTH: usize = ELEMENT_COUNT * ELEMENT_SIZE;

/// Reads every slot of the global object table of a target loaded at
/// `base_address`, with one read of the whole table.
pub fn get_static_entity_list<P: ProcessMemory>(process: &P, base_address: usize) -> (r: Result<
    Vec<EntityPtr>,
    Error,
>)
    ensures
        match r {
            Ok(v) => v@.len() == ELEMENT_COUNT && (process.bytes_at(
                offset_address(base_address as int, OFFSET as int),
                LENGTH as nat,
            ) matches Some(b) ==> v@ == decode_array::<EntityPtr>(b, ELEMENT_COUNT as nat)),
            Err(e) => e.is_read_failure(),
        },
        process.is_complete() ==> (r is Ok <==> process.bytes_at(
            offset_address(base_address as int, OFFSET as int),
            LENGTH as nat,
        ) is Some),
{
    let table = RemotePtr::<EntityPtr>::new(base_address).byte_offset(OFFSET as isize);
    table.read_array(process, ELEMENT_COUNT)
}

} // verus!
