//! Addresses in the target's address space, and values decoded from the bytes
//! read there.

use vstd::prelude::*;
use vstd::arithmetic::div_mod::lemma_add_mod_noop;
use vstd::arithmetic::div_mod::lemma_fundamental_div_mod_converse_mod;
use core::marker::PhantomData;
use crate::error::Error;
use crate::process::ProcessMemory;

verus! {

broadcast use vstd::slice::group_slice_axioms;

/// Number of distinct addresses in the target's address space.
pub open spec fn address_space() -> int {
    usize::MAX as int + 1
}

/// The address `delta` bytes away from `address`, wrapping around the address space.
pub open spec fn offset_address(address: int, delta: int) -> int {
    (address + delta) % address_space()
}

/// Offsetting twice lands where offsetting once by the sum does.
pub proof fn lemma_offset_offset(address: int, a: int, b: int)
    ensures
        offset_address(offset_address(address, a), b) == offset_address(address, a + b),
{
    let m = address_space();
    lemma_add_mod_noop(address + a, b, m);
    lemma_add_mod_noop((address + a) % m, b, m);
    assert(((address + a) % m) % m == (address + a) % m) by {
        vstd::arithmetic::div_mod::lemma_mod_twice(address + a, m);
    }
}

/// An offset that stays inside the address space does not wrap.
pub proof fn lemma_offset_no_wrap(address: int, delta: int)
    requires
        0 <= address + delta <= usize::MAX,
    ensures
        offset_address(address, delta) == address + delta,
{
    vstd::arithmetic::div_mod::lemma_small_mod((address + delta) as nat, address_space() as nat);
}

/// Unsigned little-endian value of the first two bytes.
pub open spec fn le_u16(b: Seq<u8>) -> int {
    b[0] + 0x100 * b[1]
}

/// Unsigned little-endian value of the first four bytes.
pub open spec fn le_u32(b: Seq<u8>) -> int {
    b[0] + 0x100 * b[1] + 0x10000 * b[2] + 0x1000000 * b[3]
}

/// Unsigned little-endian value of the first eight bytes.
pub open spec fn le_u64(b: Seq<u8>) -> int {
    le_u32(b) + 0x1_0000_0000 * le_u32(b.subrange(4, 8))
}

/// A value that has a fixed-size byte representation in the target's memory
/// (little-endian, x86-64 widths).
pub trait Decode: Sized {
    /// Number of bytes the value takes.
    spec fn spec_size() -> nat;

    /// The value that the first `spec_size()` bytes of `bytes` represent.
    spec fn spec_decode(bytes: Seq<u8>) -> Self;

    fn size() -> (r: usize)
        ensures
            r == Self::spec_size(),
    ;

    /// Decodes the value that starts at index `at` of `bytes`.
    fn decode_at(bytes: &[u8], at: usize) -> (r: Self)
        requires
            at + Self::spec_size() <= bytes@.len(),
        ensures
            r == Self::spec_decode(bytes@.subrange(at as int, at + Self::spec_size())),
    ;
}

impl Decode for u8 {
    open spec fn spec_size() -> nat {
        1
    }

    open spec fn spec_decode(bytes: Seq<u8>) -> u8 {
        bytes[0]
    }

    fn size() -> (r: usize) {
        1
    }

    fn decode_at(bytes: &[u8], at: usize) -> (r: u8) {
        bytes[at]
    }
}

impl Decode for i8 {
    open spec fn spec_size() -> nat {
        1
    }

    open spec fn spec_decode(bytes: Seq<u8>) -> i8 {
        if bytes[0] < 0x80 {
            bytes[0] as i8
        } else {
            (bytes[0] - 0x100) as i8
        }
    }

    fn size() -> (r: usize) {
        1
    }

    fn decode_at(bytes: &[u8], at: usize) -> (r: i8) {
        let b = bytes[at];
        if b < 0x80 {
            b as i8
        } else {
            (b as i16 - 0x100) as i8
        }
    }
}

impl Decode for u16 {
    open spec fn spec_size() -> nat {
        2
    }

    open spec fn spec_decode(bytes: Seq<u8>) -> u16 {
        le_u16(bytes) as u16
    }

    fn size() -> (r: usize) {
        2
    }

    fn decode_at(bytes: &[u8], at: usize) -> (r: u16) {
        let r = bytes[at] as u16 + bytes[at + 1] as u16 * 0x100;
        assert(bytes@.subrange(at as int, at + 2)[1] == bytes@[at + 1]);
        r
    }
}

impl Decode for i16 {
    open spec fn spec_size() -> nat {
        2
    }

    open spec fn spec_decode(bytes: Seq<u8>) -> i16 {
        let v = le_u16(bytes);
        if v < 0x8000 {
            v as i16
        } else {
            (v - 0x10000) as i16
        }
    }

    fn size() -> (r: usize) {
        2
    }

    fn decode_at(bytes: &[u8], at: usize) -> (r: i16) {
        let v = u16::decode_at(bytes, at);
        if v < 0x8000 {
            v as i16
        } else {
            (v as i32 - 0x10000) as i16
        }
    }
}

impl Decode for u32 {
    open spec fn spec_size() -> nat {
        4
    }

    open spec fn spec_decode(bytes: Seq<u8>) -> u32 {
        le_u32(bytes) as u32
    }

    fn size() -> (r: usize) {
        4
    }

    fn decode_at(bytes: &[u8], at: usize) -> (r: u32) {
        let s = Ghost(bytes@.subrange(at as int, at + 4));
        assert(s@[1] == bytes@[at + 1] && s@[2] == bytes@[at + 2] && s@[3] == bytes@[at + 3]);
        bytes[at] as u32 + bytes[at + 1] as u32 * 0x100 + bytes[at + 2] as u32 * 0x10000
            + bytes[at + 3] as u32 * 0x1000000
    }
}

impl Decode for i32 {
    open spec fn spec_size() -> nat {
        4
    }

    open spec fn spec_decode(bytes: Seq<u8>) -> i32 {
        let v = le_u32(bytes);
        if v < 0x8000_0000 {
            v as i32
        } else {
            (v - 0x1_0000_0000) as i32
        }
    }

    fn size() -> (r: usize) {
        4
    }

    fn decode_at(bytes: &[u8], at: usize) -> (r: i32) {
        let v = u32::decode_at(bytes, at);
        if v < 0x8000_0000 {
            v as i32
        } else {
            (v as i64 - 0x1_0000_0000) as i32
        }
    }
}

impl Decode for u64 {
    open spec fn spec_size() -> nat {
        8
    }

    open spec fn spec_decode(bytes: Seq<u8>) -> u64 {
        le_u64(bytes) as u64
    }

    fn size() -> (r: usize) {
        8
    }

    fn decode_at(bytes: &[u8], at: usize) -> (r: u64) {
        let len: usize = bytes.len();
        assert(at + 8 <= len);
        let lo = u32::decode_at(bytes, at);
        let hi = u32::decode_at(bytes, at + 4);
        let s = Ghost(bytes@.subrange(at as int, at + 8));
        assert(s@.subrange(0, 4) =~= bytes@.subrange(at as int, at + 4));
        assert(s@.subrange(4, 8) =~= bytes@.subrange(at + 4, at + 8));
        assert(le_u32(s@) == le_u32(s@.subrange(0, 4)));
        lo as u64 + hi as u64 * 0x1_0000_0000
    }
}

/// A location in the target's address space, tagged with the type of what lies there.
/// It is a coordinate, never dereferenced in this process.
#[derive(Debug)]
pub struct RemotePtr<T> {
    address: usize,
    element: PhantomData<T>,
}

impl<T> View for RemotePtr<T> {
    type V = int;

    closed spec fn view(&self) -> int {
        self.address as int
    }
}

impl<T> RemotePtr<T> {
    /// The pointer to `address`.
    pub closed spec fn spec_at(address: int) -> Self {
        RemotePtr { address: address as usize, element: PhantomData }
    }

    pub fn new(address: usize) -> (r: Self)
        ensures
            r@ == address,
            r == Self::spec_at(address as int),
    {
        RemotePtr { address, element: PhantomData }
    }

    pub fn address(&self) -> (r: usize)
        ensures
            r == self@,
    {
        self.address
    }

    pub fn is_null(&self) -> (r: bool)
        ensures
            r == (self@ == 0),
    {
        self.address == 0
    }

    /// The pointer `offset` bytes further on; no bounds are checked.
    pub fn byte_offset(&self, offset: isize) -> (r: RemotePtr<T>)
        ensures
            r@ == offset_address(self@, offset as int),
            r == Self::spec_at(offset_address(self@, offset as int)),
    {
        let address = self.address.wrapping_add_signed(offset);
        proof {
            let m = address_space();
            let s = self.address + offset;
            if s > usize::MAX {
                lemma_fundamental_div_mod_converse_mod(s, m, 1, s - m);
            } else if s < 0 {
                lemma_fundamental_div_mod_converse_mod(s, m, -1, s + m);
            } else {
                lemma_fundamental_div_mod_converse_mod(s, m, 0, s);
            }
        }
        RemotePtr { address, element: PhantomData }
    }

    /// The same address, seen as holding a `U`.
    pub fn cast<U>(&self) -> (r: RemotePtr<U>)
        ensures
            r@ == self@,
    {
        RemotePtr { address: self.address, element: PhantomData }
    }

    /// Reads `length` bytes at this address.
    pub fn read_bytes<P: ProcessMemory>(&self, process: &P, length: usize) -> (r: Result<
        Vec<u8>,
        Error,
    >)
        ensures
            match r {
                Ok(bytes) => bytes@.len() == length && (process.bytes_at(self@, length as nat) matches Some(
                    known,
                ) ==> known == bytes@),
                Err(e) => e.is_read_failure(),
            },
            process.is_complete() ==> (r is Ok <==> process.bytes_at(self@, length as nat) is Some),
    {
        process.read_mem(self.address, length)
    }
}

impl<T> Clone for RemotePtr<T> {
    fn clone(&self) -> (r: Self)
        ensures
            r == *self,
    {
        RemotePtr { address: self.address, element: PhantomData }
    }
}

impl<T> Copy for RemotePtr<T> {}

impl<T> PartialEq for RemotePtr<T> {
    fn eq(&self, other: &Self) -> (r: bool) {
        self.address == other.address
    }
}

impl<T> vstd::std_specs::cmp::PartialEqSpecImpl for RemotePtr<T> {
    open spec fn obeys_eq_spec() -> bool {
        true
    }

    open spec fn eq_spec(&self, other: &Self) -> bool {
        self@ == other@
    }
}

impl<T> Eq for RemotePtr<T> {}

/// The order of two addresses.
pub open spec fn address_order(a: int, b: int) -> core::cmp::Ordering {
    if a < b {
        core::cmp::Ordering::Less
    } else if a == b {
        core::cmp::Ordering::Equal
    } else {
        core::cmp::Ordering::Greater
    }
}

impl<T> PartialOrd for RemotePtr<T> {
    fn partial_cmp(&self, other: &Self) -> (r: Option<core::cmp::Ordering>) {
        if self.address < other.address {
            Some(core::cmp::Ordering::Less)
        } else if self.address == other.address {
            Some(core::cmp::Ordering::Equal)
        } else {
            Some(core::cmp::Ordering::Greater)
        }
    }
}

impl<T> vstd::std_specs::cmp::PartialOrdSpecImpl for RemotePtr<T> {
    open spec fn obeys_partial_cmp_spec() -> bool {
        true
    }

    open spec fn partial_cmp_spec(&self, other: &Self) -> Option<core::cmp::Ordering> {
        Some(address_order(self@, other@))
    }
}

pub broadcast proof fn lemma_at_view<T>(address: int)
    requires
        0 <= address <= usize::MAX,
    ensures
        #[trigger] RemotePtr::<T>::spec_at(address)@ == address,
{
}

/// Two pointers to the same address are the same value.
pub broadcast proof fn lemma_view_eq<T>(p: RemotePtr<T>, q: RemotePtr<T>)
    ensures
        #![trigger p@, q@]
        p@ == q@ ==> p == q,
{
}

pub broadcast proof fn lemma_view_range<T>(p: RemotePtr<T>)
    ensures
        0 <= #[trigger] p@ <= usize::MAX,
{
}

pub broadcast group group_remote_ptr {
    lemma_at_view,
    lemma_view_eq,
    lemma_view_range,
}

impl<T> Decode for RemotePtr<T> {
    open spec fn spec_size() -> nat {
        8
    }

    open spec fn spec_decode(bytes: Seq<u8>) -> RemotePtr<T> {
        RemotePtr::spec_at(le_u64(bytes))
    }

    fn size() -> (r: usize) {
        8
    }

    fn decode_at(bytes: &[u8], at: usize) -> (r: RemotePtr<T>) {
        let a = u64::decode_at(bytes, at);
        RemotePtr::new(a as usize)
    }
}

/// The value of type `T` that the process holds at `address`, if it can be read.
pub open spec fn value_at<T: Decode, P: ProcessMemory>(process: &P, address: int) -> Option<T> {
    match process.bytes_at(address, T::spec_size()) {
        Some(bytes) => Some(T::spec_decode(bytes)),
        None => None,
    }
}

/// The `count` values of type `T` laid end to end at the start of `bytes`.
pub open spec fn decode_array<T: Decode>(bytes: Seq<u8>, count: nat) -> Seq<T> {
    Seq::new(
        count,
        |i: int| T::spec_decode(bytes.subrange(i * T::spec_size(), (i + 1) * T::spec_size())),
    )
}

impl<T: Decode> RemotePtr<T> {
    /// Reads the `T` at this address.
    pub fn read<P: ProcessMemory>(&self, process: &P) -> (r: Result<T, Error>)
        ensures
            match r {
                Ok(v) => value_at::<T, P>(process, self@) matches Some(known) ==> known == v,
                Err(e) => e.is_read_failure(),
            },
            process.is_complete() ==> (r is Ok <==> value_at::<T, P>(process, self@) is Some),
    {
        let bytes = process.read_mem(self.address, T::size())?;
        let v = T::decode_at(bytes.as_slice(), 0);
        assert(bytes@.subrange(0, T::spec_size() as int) =~= bytes@);
        Ok(v)
    }

    /// Reads `length` consecutive values of type `T` with one read of the whole span,
    /// then decodes them one by one.
    pub fn read_array<P: ProcessMemory>(&self, process: &P, length: usize) -> (r: Result<
        Vec<T>,
        Error,
    >)
        requires
            length * T::spec_size() <= usize::MAX,
        ensures
            match r {
                Ok(v) => v@.len() == length && (process.bytes_at(self@, (length * T::spec_size()) as nat) matches Some(
                    known,
                ) ==> v@ == decode_array::<T>(known, length as nat)),
                Err(e) => e.is_read_failure(),
            },
            process.is_complete() ==> (r is Ok <==> process.bytes_at(
                self@,
                (length * T::spec_size()) as nat,
            ) is Some),
    {
        let size = T::size();
        let bytes = process.read_mem(self.address, length * size)?;
        let mut out: Vec<T> = Vec::new();
        let mut i: usize = 0;
        while i < length
            invariant
                i <= length,
                size == T::spec_size(),
                length * size <= usize::MAX,
                bytes@.len() == length * size,
                out@ =~= decode_array::<T>(bytes@, i as nat),
            decreases length - i,
        {
            assert(i * size + size <= length * size) by (nonlinear_arith)
                requires
                    i < length,
            ;
            assert((i + 1) * size == i * size + size) by (nonlinear_arith);
            let v = T::decode_at(bytes.as_slice(), i * size);
            out.push(v);
            i += 1;
        }
        Ok(out)
    }
}

} // verus!
