//! Reading typed objects out of game memory.
//!
//! Reading an object is a conversation with the memory cache: first the
//! type is looked up and the bytes it spans are requested, then the bytes
//! are collected. The functions here make every decision of that
//! conversation; the caller performs the lookups and the requests.
use vstd::prelude::*;
use crate::text::concat;

pub mod nsmb;

verus! {

/// A request for `size` bytes of game memory starting at `address`.
#[derive(Clone, Copy, Debug, PartialEq, Eq)]
pub struct MemoryRequest {
    pub address: u32,
    pub size: usize,
}

/// Size in bytes of a pointer in game memory.
pub const POINTER_SIZE: usize = 4;

/// The message shown when a type is not known.
pub open spec fn struct_not_found_message(struct_name: Seq<char>) -> Seq<char> {
    struct_name + " struct not found"@
}

/// The message shown when the bytes of an object are not available.
pub open spec fn data_not_found_message(struct_name: Seq<char>) -> Seq<char> {
    struct_name + " data not found"@
}

/// The message shown when the bytes of a pointer are not available.
pub open spec fn pointer_data_not_found_message(struct_name: Seq<char>) -> Seq<char> {
    struct_name + " pointer data not found"@
}

/// The little-endian number that four bytes encode.
pub open spec fn le_u32(bytes: Seq<u8>) -> int
    recommends
        bytes.len() == 4,
{
    bytes[0] + bytes[1] * 256 + bytes[2] * 65536 + bytes[3] * 16777216
}

/// The pointer that the bytes read at a pointer's address stand for: the
/// little-endian value of exactly four bytes, and null for any other length.
pub open spec fn pointer_value(bytes: Seq<u8>) -> int {
    if bytes.len() == 4 {
        le_u32(bytes)
    } else {
        0
    }
}

/// Decodes a pointer from the bytes read at its address.
pub fn decode_pointer(bytes: &[u8]) -> (pointer: u32)
    ensures
        pointer == pointer_value(bytes@),
        bytes@.len() == 4 ==> pointer == bytes@[0] + 256 * bytes@[1] + 65536 * bytes@[2] + 16777216
            * bytes@[3],
        bytes@.len() != 4 ==> pointer == 0,
{
    if bytes.len() == 4 {
        let b0 = bytes[0] as u32;
        let b1 = bytes[1] as u32;
        let b2 = bytes[2] as u32;
        let b3 = bytes[3] as u32;
        b0 + b1 * 256 + b2 * 65536 + b3 * 16777216
    } else {
        0
    }
}

/// A pointer read from four bytes is their little-endian number: the first
/// byte counts ones, the next 256s, then 65536s, then 16777216s; read from
/// any other number of bytes it is null.
pub proof fn pointer_is_little_endian(bytes: Seq<u8>)
    ensures
        bytes.len() == 4 ==> pointer_value(bytes) == bytes[0] + 256 * bytes[1] + 65536 * bytes[2]
            + 16777216 * bytes[3],
        bytes.len() != 4 ==> pointer_value(bytes) == 0,
        0 <= pointer_value(bytes) <= u32::MAX,
{
}

/// Decoding the four little-endian bytes of any 32-bit address gives that
/// address back.
pub proof fn pointer_round_trip(x: u32)
    ensures
        pointer_value(
            seq![
                (x % 256) as u8,
                ((x / 256) % 256) as u8,
                ((x / 65536) % 256) as u8,
                (x / 16777216) as u8,
            ],
        ) == x,
{
    let b0 = x % 256;
    let b1 = (x / 256) % 256;
    let b2 = (x / 65536) % 256;
    let b3 = x / 16777216;
    assert(b0 + 256 * b1 + 65536 * b2 + 16777216 * b3 == x) by (nonlinear_arith)
        requires
            b0 == x % 256,
            b1 == (x / 256) % 256,
            b2 == (x / 65536) % 256,
            b3 == x / 16777216,
    ;
    let bytes = seq![b0 as u8, b1 as u8, b2 as u8, b3 as u8];
    assert(bytes[0] == b0 && bytes[1] == b1 && bytes[2] == b2 && bytes[3] == b3);
}

/// First step of reading an object of type `struct_name` at `address`: given the
/// size of the type, if the type is known, the memory to request.
pub fn request_object(struct_name: &str, address: u32, type_size: Option<usize>) -> (request: Result<
    MemoryRequest,
    String,
>)
    ensures
        match type_size {
            Some(size) => request == Ok::<MemoryRequest, String>(
                (MemoryRequest { address, size }),
            ),
            None => request matches Err(message) && message@ == struct_not_found_message(
                struct_name@,
            ),
        },
{
    match type_size {
        Some(size) => Ok(MemoryRequest { address, size }),
        None => Err(concat(struct_name, " struct not found")),
    }
}

/// Second step of reading an object of type `struct_name`: the bytes of the
/// object, given what the memory cache holds at its address.
pub fn collect_object(struct_name: &str, data: Option<&[u8]>) -> (bytes: Result<Vec<u8>, String>)
    ensures
        match data {
            Some(d) => bytes matches Ok(b) && b@ == d@,
            None => bytes matches Err(message) && message@ == data_not_found_message(struct_name@),
        },
{
    match data {
        Some(d) => Ok(vstd::slice::slice_to_vec(d)),
        None => Err(concat(struct_name, " data not found")),
    }
}

/// First step of reading an object through a pointer at `address`: the
/// memory that holds the pointer.
pub fn request_pointer(address: u32) -> (request: MemoryRequest)
    ensures
        request == (MemoryRequest { address, size: POINTER_SIZE }),
{
    MemoryRequest { address, size: POINTER_SIZE }
}

/// Second step of reading an object of type `struct_name` through a pointer:
/// the address of the object, given what the memory cache holds at the
/// pointer's address.
pub fn collect_pointer(struct_name: &str, data: Option<&[u8]>) -> (target: Result<u32, String>)
    ensures
        match data {
            Some(d) => target == Ok::<u32, String>(pointer_value(d@) as u32),
            None => target matches Err(message) && message@ == pointer_data_not_found_message(
                struct_name@,
            ),
        },
{
    match data {
        Some(d) => Ok(decode_pointer(d)),
        None => Err(concat(struct_name, " pointer data not found")),
    }
}

} // verus!
