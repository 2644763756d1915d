//! Text fields: inline fixed-length fields, and nul-terminated strings reached
//! through a pointer.

use vstd::prelude::*;
use vstd::utf8::decode_utf8;
use vstd::utf8::valid_utf8;
use crate::error::Error;
use crate::process::ProcessMemory;
use crate::remote_ptr::RemotePtr;
use crate::remote_ptr::offset_address;
use crate::remote_ptr::value_at;
use crate::scan::before_first;
use crate::scan::find_byte;
use crate::scan::occurs;

verus! {

broadcast use vstd::slice::group_slice_axioms;

/// Length of an inline text field (a resource reference).
pub const RES_REF_LEN: usize = 8;

/// The bytes before the first nul, or all of them where there is none.
pub open spec fn until_nul(bytes: Seq<u8>) -> Seq<u8> {
    before_first(bytes, 0)
}

/// What `String::from_utf8_lossy` makes of `bytes`.
pub uninterp spec fn lossy_text(bytes: Seq<u8>) -> Seq<char>;

/// Relies on `String::from_utf8_lossy`: invalid sequences are replaced, and
/// valid UTF-8 comes back as the text it encodes.
#[verifier::external_body]
fn lossy_string(bytes: &[u8]) -> (r: String)
    ensures
        r@ == lossy_text(bytes@),
        valid_utf8(bytes@) ==> r@ == decode_utf8(bytes@),
{
    String::from_utf8_lossy(bytes).into_owned()
}

/// Relies on `std::str::from_utf8`: it succeeds exactly on valid UTF-8, and then
/// holds the text that the bytes encode.
#[verifier::external_body]
fn utf8_string(bytes: &[u8]) -> (r: Option<String>)
    ensures
        r is Some <==> valid_utf8(bytes@),
        r matches Some(s) ==> s@ == decode_utf8(bytes@),
{
    match std::str::from_utf8(bytes) {
        Ok(s) => Some(s.to_string()),
        Err(_) => None,
    }
}

/// Text of an inline field: the bytes before the first nul (all of them where
/// there is none), decoded lossily.
pub open spec fn res_ref_text(bytes: Seq<u8>) -> Seq<char> {
    lossy_text(until_nul(bytes))
}

/// `text` is what an inline field of `RES_REF_LEN` bytes holds: the lossy
/// decoding of the bytes before the first nul, which is their exact decoding
/// where they are valid UTF-8.
pub open spec fn is_res_ref_of(text: Seq<char>, bytes: Seq<u8>) -> bool {
    &&& bytes.len() == RES_REF_LEN
    &&& text == res_ref_text(bytes)
    &&& valid_utf8(until_nul(bytes)) ==> text == decode_utf8(until_nul(bytes))
}

/// Decodes an inline text field.
pub fn decode_res_ref(bytes: &[u8]) -> (r: String)
    ensures
        r@ == res_ref_text(bytes@),
        valid_utf8(until_nul(bytes@)) ==> r@ == decode_utf8(until_nul(bytes@)),
{
    match find_byte(bytes, 0) {
        Some(k) => {
            let text = &bytes[0..k];
            assert(text@ =~= until_nul(bytes@));
            lossy_string(text)
        },
        None => lossy_string(bytes),
    }
}

/// A nul-terminated string held in `bytes`: `Some(None)` where no nul occurs,
/// `Some(Some(text))` where the bytes before the first nul are valid UTF-8, and
/// `None` where they are not.
pub open spec fn c_string_of(bytes: Seq<u8>) -> Option<Option<Seq<char>>> {
    if !occurs(bytes, 0) {
        Some(None)
    } else if valid_utf8(until_nul(bytes)) {
        Some(Some(decode_utf8(until_nul(bytes))))
    } else {
        None
    }
}

pub open spec fn text_of(s: Option<String>) -> Option<Seq<char>> {
    match s {
        Some(s) => Some(s@),
        None => None,
    }
}

/// Decodes a nul-terminated string; a buffer without a nul holds no string.
pub fn decode_c_string(bytes: &[u8]) -> (r: Result<Option<String>, Error>)
    ensures
        match c_string_of(bytes@) {
            Some(t) => r matches Ok(s) && text_of(s) == t,
            None => r matches Err(Error::InvalidString { .. }),
        },
{
    match find_byte(bytes, 0) {
        Some(k) => {
            let text = &bytes[0..k];
            assert(text@ =~= until_nul(bytes@));
            match utf8_string(text) {
                Some(s) => Ok(Some(s)),
                None => Err(
                    Error::InvalidString {
                        msg: "text before the nul is not valid UTF-8".to_string(),
                        bytes: vstd::slice::slice_to_vec(text),
                    },
                ),
            }
        },
        None => Ok(None),
    }
}

/// The pointer stored at `ptr + offset`, if it can be read.
pub open spec fn pointer_field<P: ProcessMemory>(process: &P, ptr: RemotePtr<u8>, offset: int) -> Option<
    RemotePtr<u8>,
> {
    value_at::<RemotePtr<u8>, P>(process, offset_address(ptr@, offset))
}

/// The string field at `ptr + offset`: `Some(None)` where the stored pointer is
/// null or its `length` bytes hold no nul, `Some(Some(text))` where they hold
/// valid text before the nul, and `None` where a read fails or the text is not
/// valid UTF-8.
pub open spec fn string_field<P: ProcessMemory>(
    process: &P,
    ptr: RemotePtr<u8>,
    offset: int,
    length: nat,
) -> Option<Option<Seq<char>>> {
    match pointer_field(process, ptr, offset) {
        Some(target) => if target@ == 0 {
            Some(None)
        } else {
            match process.bytes_at(target@, length) {
                Some(b) => c_string_of(b),
                None => None,
            }
        },
        None => None,
    }
}

/// A string field whose pointer is null, or whose bytes hold no nul within the
/// bound, reads as absent: never as a cut-off piece of text.
pub proof fn lemma_absent_string<P: ProcessMemory>(
    process: &P,
    ptr: RemotePtr<u8>,
    offset: int,
    length: nat,
    s: Option<String>,
)
    requires
        string_field(process, ptr, offset, length) matches Some(t) ==> t == text_of(s),
        pointer_field(process, ptr, offset) matches Some(target) && (target@ == 0 || (process.bytes_at(
            target@,
            length,
        ) matches Some(b) && !occurs(b, 0))),
    ensures
        s is None,
{
}

/// The string field at `ptr + offset` is known not to hold valid text: its
/// pointer is known and not null, and the `length` bytes it points to are
/// known, hold a nul, and are not valid UTF-8 before it.
pub open spec fn string_invalid<P: ProcessMemory>(
    process: &P,
    ptr: RemotePtr<u8>,
    offset: int,
    length: nat,
) -> bool {
    match pointer_field(process, ptr, offset) {
        Some(target) => target@ != 0 && match process.bytes_at(target@, length) {
            Some(b) => c_string_of(b) is None,
            None => false,
        },
        None => false,
    }
}

/// Reads the inline text field of `RES_REF_LEN` bytes at `ptr + offset`.
pub fn read_res_ref<P: ProcessMemory>(process: &P, ptr: RemotePtr<u8>, offset: isize) -> (r: Result<
    String,
    Error,
>)
    ensures
        match r {
            Ok(s) => process.bytes_at(offset_address(ptr@, offset as int), 8) matches Some(b)
                ==> is_res_ref_of(s@, b),
            Err(e) => e.is_read_failure(),
        },
        process.is_complete() ==> (r is Ok <==> process.bytes_at(
            offset_address(ptr@, offset as int),
            8,
        ) is Some),
{
    let bytes = ptr.byte_offset(offset).read_bytes(process, RES_REF_LEN)?;
    Ok(decode_res_ref(bytes.as_slice()))
}

/// Reads the string that the pointer stored at `ptr + offset` points to, looking
/// for its nul within `strlen` bytes. A null pointer, or no nul within the
/// bound, gives `None`.
pub fn read_string<P: ProcessMemory>(
    process: &P,
    ptr: RemotePtr<u8>,
    offset: isize,
    strlen: usize,
) -> (r: Result<Option<String>, Error>)
    ensures
        r matches Ok(s) ==> (string_field(process, ptr, offset as int, strlen as nat) matches Some(
            t,
        ) ==> t == text_of(s)),
        r matches Err(e) ==> e.is_read_failure() || e is InvalidString,
        r matches Err(Error::InvalidString { .. }) ==> string_field(
            process,
            ptr,
            offset as int,
            strlen as nat,
        ) is None,
        process.is_complete() ==> (r matches Err(e) ==> (e is InvalidString <==> string_invalid(
            process,
            ptr,
            offset as int,
            strlen as nat,
        ))),
        process.is_complete() ==> (r is Ok <==> string_field(
            process,
            ptr,
            offset as int,
            strlen as nat,
        ) is Some),
{
    let target: RemotePtr<u8> = ptr.byte_offset(offset).cast::<RemotePtr<u8>>().read(process)?;
    if target.is_null() {
        return Ok(None);
    }
    let bytes = target.read_bytes(process, strlen)?;
    decode_c_string(bytes.as_slice())
}

} // verus!
