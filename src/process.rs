//! Memory channels to a target, a recorded snapshot channel, and the logic that
//! recognises a target among the running processes.

use vstd::prelude::*;
use vstd::string::StringSliceAdditionalSpecFns;
use crate::error::Error;
use crate::scan::find_byte;
use crate::scan::first_index;

verus! {

broadcast use vstd::slice::group_slice_axioms;

/// Read access to the memory of one target process.
pub trait ProcessMemory {
    /// The bytes that a read of `length` bytes at `address` is known to yield,
    /// where the channel knows them. A channel to a live target knows none: the
    /// target may write between two reads.
    open spec fn bytes_at(&self, address: int, length: nat) -> Option<Seq<u8>> {
        None
    }

    /// Every read succeeds exactly where `bytes_at` knows the bytes.
    open spec fn is_complete(&self) -> bool {
        false
    }

    /// Reads exactly `length` bytes at `address`; a short read is an error.
    fn read_mem(&self, address: usize, length: usize) -> (r: Result<Vec<u8>, Error>)
        ensures
            match r {
                Ok(bytes) => bytes@.len() == length && (self.bytes_at(address as int, length as nat) matches Some(
                    known,
                ) ==> known == bytes@),
                Err(e) => e.is_read_failure(),
            },
            self.is_complete() ==> (r is Ok <==> self.bytes_at(address as int, length as nat) is Some),
    ;

    /// Reads `length` bytes at `address` into the start of `buffer`, and returns
    /// how many were written. A buffer shorter than `length` is refused.
    fn read_mem_into(&self, buffer: &mut Vec<u8>, address: usize, length: usize) -> (r: Result<
        usize,
        Error,
    >)
        ensures
            old(buffer)@.len() < length ==> (r matches Err(
                Error::InsufficentMemory { expected, actual, .. },
            ) && expected == length && actual == old(buffer)@.len()),
            r matches Ok(n) ==> n == length && final(buffer)@.len() == old(buffer)@.len()
                && final(buffer)@.skip(length as int) == old(buffer)@.skip(length as int)
                && (self.bytes_at(address as int, length as nat) matches Some(known) ==> known
                == final(buffer)@.take(length as int)),
            r is Err ==> final(buffer)@ == old(buffer)@,
            old(buffer)@.len() >= length ==> (r matches Err(e) ==> e.is_read_failure()),
            old(buffer)@.len() >= length && self.is_complete() ==> (r is Ok <==> self.bytes_at(
                address as int,
                length as nat,
            ) is Some),
    {
        if buffer.len() < length {
            return Err(
                Error::InsufficentMemory {
                    msg: "buffer is shorter than the read".to_string(),
                    expected: length,
                    actual: buffer.len(),
                },
            );
        }
        let bytes = self.read_mem(address, length)?;
        let ghost before = buffer@;
        let mut i: usize = 0;
        while i < length
            invariant
                i <= length,
                bytes@.len() == length,
                length <= before.len(),
                buffer@.len() == before.len(),
                forall|j: int| 0 <= j < i ==> buffer@[j] == bytes@[j],
                forall|j: int| i <= j < before.len() ==> buffer@[j] == before[j],
            decreases length - i,
        {
            buffer.set(i, bytes[i]);
            i += 1;
        }
        assert(buffer@.take(length as int) =~= bytes@);
        assert(buffer@.skip(length as int) =~= before.skip(length as int));
        Ok(length)
    }
}

/// One captured span of the target's memory, starting at `start`.
pub struct MemoryRegion {
    pub start: usize,
    pub bytes: Vec<u8>,
}

impl MemoryRegion {
    pub open spec fn contains(&self, address: int) -> bool {
        self.start <= address < self.start + self.bytes@.len()
    }
}

/// `i` is the first region that holds `address`.
pub open spec fn is_first_region(regions: Seq<MemoryRegion>, address: int, i: int) -> bool {
    &&& 0 <= i < regions.len()
    &&& regions[i].contains(address)
    &&& forall|j: int| 0 <= j < i ==> !regions[j].contains(address)
}

/// A read from captured regions: the first region that holds `address` serves
/// the whole read, or the read fails.
pub open spec fn snapshot_read(regions: Seq<MemoryRegion>, address: int, length: nat) -> Option<
    Seq<u8>,
> {
    if exists|i: int| is_first_region(regions, address, i) {
        let region = regions[choose|i: int| is_first_region(regions, address, i)];
        let at = address - region.start;
        if at + length <= region.bytes@.len() {
            Some(region.bytes@.subrange(at, at + length))
        } else {
            None
        }
    } else {
        None
    }
}

/// A recorded image of the target's memory, for replaying a decode without the
/// live process.
pub struct MemorySnapshot {
    pub regions: Vec<MemoryRegion>,
}

impl MemorySnapshot {
    pub fn new(regions: Vec<MemoryRegion>) -> (r: Self)
        ensures
            r.regions == regions,
    {
        MemorySnapshot { regions }
    }
}

proof fn lemma_first_region(regions: Seq<MemoryRegion>, address: int, i: int)
    requires
        is_first_region(regions, address, i),
    ensures
        (choose|k: int| is_first_region(regions, address, k)) == i,
{
    let f = choose|k: int| is_first_region(regions, address, k);
    assert(is_first_region(regions, address, f));
    if f < i {
        assert(!regions[f].contains(address));
    } else if i < f {
        assert(!regions[i].contains(address));
    }
}

impl ProcessMemory for MemorySnapshot {
    open spec fn bytes_at(&self, address: int, length: nat) -> Option<Seq<u8>> {
        snapshot_read(self.regions@, address, length)
    }

    open spec fn is_complete(&self) -> bool {
        true
    }

    fn read_mem(&self, address: usize, length: usize) -> (r: Result<Vec<u8>, Error>)
    {
        let mut i: usize = 0;
        while i < self.regions.len()
            invariant
                i <= self.regions@.len(),
                forall|j: int| 0 <= j < i ==> !self.regions@[j].contains(address as int),
            decreases self.regions@.len() - i,
        {
            let region = &self.regions[i];
            if region.start <= address && address - region.start < region.bytes.len() {
                proof {
                    lemma_first_region(self.regions@, address as int, i as int);
                }
                let at = address - region.start;
                if length > region.bytes.len() - at {
                    assert(is_first_region(self.regions@, address as int, i as int));
                    return Err(Error::Memory("read runs past its captured region".to_string()));
                }
                let slice = &region.bytes.as_slice()[at..at + length];
                let out = vstd::slice::slice_to_vec(slice);
                assert(is_first_region(self.regions@, address as int, i as int));
                assert(out@ == self.regions@[i as int].bytes@.subrange(at as int, at + length));
                return Ok(out);
            }
            i += 1;
        }
        assert(!exists|k: int| is_first_region(self.regions@, address as int, k));
        Err(Error::Memory("address is outside every captured region".to_string()))
    }
}

/// Value of a hexadecimal digit.
pub open spec fn hex_digit(c: u8) -> Option<nat> {
    if 0x30 <= c <= 0x39 {
        Some((c - 0x30) as nat)
    } else if 0x61 <= c <= 0x66 {
        Some((c - 0x61 + 10) as nat)
    } else if 0x41 <= c <= 0x46 {
        Some((c - 0x41 + 10) as nat)
    } else {
        None
    }
}

pub open spec fn all_hex(s: Seq<u8>) -> bool {
    forall|i: int| 0 <= i < s.len() ==> (#[trigger] hex_digit(s[i])) is Some
}

/// Value of a string of hexadecimal digits, most significant first.
pub open spec fn hex_value(s: Seq<u8>) -> nat
    decreases s.len(),
{
    if s.len() == 0 {
        0
    } else {
        hex_value(s.drop_last()) * 16 + hex_digit(s.last()).unwrap_or(0)
    }
}

/// A hexadecimal number as `usize::from_str_radix(_, 16)` reads it: an optional
/// `+`, then at least one digit, with a value that fits in `usize`.
pub open spec fn hex_of(s: Seq<u8>) -> Option<usize> {
    let digits = if s.len() > 0 && s[0] == 0x2b {
        s.drop_first()
    } else {
        s
    };
    if digits.len() > 0 && all_hex(digits) && hex_value(digits) <= usize::MAX {
        Some(hex_value(digits) as usize)
    } else {
        None
    }
}

proof fn lemma_hex_value_grows(s: Seq<u8>, i: int, j: int)
    requires
        0 <= i <= j <= s.len(),
        all_hex(s),
    ensures
        hex_value(s.take(i)) <= hex_value(s.take(j)),
    decreases j - i,
{
    if i < j {
        lemma_hex_value_grows(s, i, j - 1);
        assert(s.take(j).drop_last() =~= s.take(j - 1));
    }
}

fn hex_digit_value(c: u8) -> (r: Option<usize>)
    ensures
        r == match hex_digit(c) {
            Some(d) => Some(d as usize),
            None => None::<usize>,
        },
{
    if 0x30 <= c && c <= 0x39 {
        Some((c - 0x30) as usize)
    } else if 0x61 <= c && c <= 0x66 {
        Some((c - 0x61 + 10) as usize)
    } else if 0x41 <= c && c <= 0x46 {
        Some((c - 0x41 + 10) as usize)
    } else {
        None
    }
}

/// Parses a hexadecimal number.
pub fn parse_hex(s: &[u8]) -> (r: Option<usize>)
    ensures
        r == hex_of(s@),
{
    let start: usize = if s.len() > 0 && s[0] == 0x2b {
        1
    } else {
        0
    };
    let ghost digits = s@.subrange(start as int, s@.len() as int);
    assert(digits =~= if s@.len() > 0 && s@[0] == 0x2b {
        s@.drop_first()
    } else {
        s@
    });
    assert(hex_of(s@) == if digits.len() > 0 && all_hex(digits) && hex_value(digits) <= usize::MAX {
        Some(hex_value(digits) as usize)
    } else {
        None
    });
    if start == s.len() {
        return None;
    }
    let mut acc: usize = 0;
    let mut i: usize = start;
    while i < s.len()
        invariant
            start < s@.len(),
            start <= i <= s@.len(),
            digits == s@.subrange(start as int, s@.len() as int),
            hex_of(s@) == if digits.len() > 0 && all_hex(digits) && hex_value(digits) <= usize::MAX {
                Some(hex_value(digits) as usize)
            } else {
                None
            },
            all_hex(digits.take(i - start)),
            acc == hex_value(digits.take(i - start)),
        decreases s@.len() - i,
    {
        let ghost k = i - start;
        assert(digits.take(k + 1).drop_last() =~= digits.take(k));
        assert(digits[k] == s@[i as int]);
        match hex_digit_value(s[i]) {
            None => {
                assert(!all_hex(digits)) by {
                    assert(hex_digit(digits[k]) is None);
                }
                return None;
            },
            Some(d) => {
                if acc > (usize::MAX - d) / 16 {
                    proof {
                        assert(acc * 16 + d > usize::MAX) by (nonlinear_arith)
                            requires
                                acc > (usize::MAX - d) / 16,
                                d <= 15,
                        ;
                        if all_hex(digits) {
                            lemma_hex_value_grows(digits, k + 1, digits.len() as int);
                            assert(digits.take(digits.len() as int) =~= digits);
                        }
                    }
                    return None;
                }
                assert(acc * 16 + d <= usize::MAX) by (nonlinear_arith)
                    requires
                        acc <= (usize::MAX - d) / 16,
                        d <= 15,
                ;
                acc = acc * 16 + d;
                assert(all_hex(digits.take(k + 1))) by {
                    assert forall|j: int| 0 <= j < k + 1 implies (#[trigger] hex_digit(
                        digits.take(k + 1)[j],
                    )) is Some by {
                        if j < k {
                            assert(digits.take(k + 1)[j] == digits.take(k)[j]);
                        }
                    }
                }
                i += 1;
            },
        }
    }
    assert(digits.take(digits.len() as int) =~= digits);
    Some(acc)
}

/// The `n`-th line (counting from 0) of `text`, lines being separated by `\n`.
pub open spec fn line_at(text: Seq<u8>, n: nat) -> Option<Seq<u8>>
    decreases n,
{
    if n == 0 {
        Some(crate::scan::before_first(text, 0x0a))
    } else {
        match first_index(text, 0x0a) {
            Some(k) => line_at(text.skip(k + 1), (n - 1) as nat),
            None => None,
        }
    }
}

/// The line of a memory-map listing that describes the main executable image.
pub const MAIN_IMAGE_LINE: usize = 3;

/// The load base that a memory-map listing gives for the main executable: the
/// hexadecimal start address on line `MAIN_IMAGE_LINE`, before its `-`; a
/// zero address counts as none.
pub open spec fn base_address_of(maps: Seq<u8>) -> Option<usize> {
    match line_at(maps, MAIN_IMAGE_LINE as nat) {
        Some(line) => match first_index(line, 0x2d) {
            Some(k) => match hex_of(line.take(k)) {
                Some(v) => if v != 0 {
                    Some(v)
                } else {
                    None
                },
                None => None,
            },
            None => None,
        },
        None => None,
    }
}

/// Finds the load base of the main executable in a memory-map listing.
pub fn get_base_address_from_memory_map(maps: &str) -> (r: Option<usize>)
    ensures
        r == base_address_of(maps.spec_bytes()),
{
    let all = maps.as_bytes();
    let mut rest = all;
    let mut n: usize = 0;
    while n < MAIN_IMAGE_LINE
        invariant
            n <= MAIN_IMAGE_LINE,
            all@ == maps.spec_bytes(),
            line_at(all@, MAIN_IMAGE_LINE as nat) == line_at(rest@, (MAIN_IMAGE_LINE - n) as nat),
        decreases MAIN_IMAGE_LINE - n,
    {
        let len = rest.len();
        match find_byte(rest, 0x0a) {
            Some(k) => {
                let next = &rest[k + 1..len];
                assert(next@ =~= rest@.skip(k + 1));
                rest = next;
            },
            None => {
                assert(line_at(rest@, (MAIN_IMAGE_LINE - n) as nat) is None);
                return None;
            },
        }
        n += 1;
    }
    let line = match find_byte(rest, 0x0a) {
        Some(k) => &rest[0..k],
        None => rest,
    };
    assert(line@ =~= crate::scan::before_first(rest@, 0x0a));
    let dash = match find_byte(line, 0x2d) {
        Some(k) => k,
        None => {
            return None;
        },
    };
    let digits = &line[0..dash];
    assert(digits@ =~= line@.take(dash as int));
    match parse_hex(digits) {
        Some(v) => if v != 0 {
            Some(v)
        } else {
            None
        },
        None => None,
    }
}

/// A character with Unicode's White_Space property.
pub open spec fn is_white_space(c: char) -> bool {
    let u = c as u32;
    ||| 0x09 <= u <= 0x0D
    ||| u == 0x20
    ||| u == 0x85
    ||| u == 0xA0
    ||| u == 0x1680
    ||| 0x2000 <= u <= 0x200A
    ||| u == 0x2028
    ||| u == 0x2029
    ||| u == 0x202F
    ||| u == 0x205F
    ||| u == 0x3000
}

/// `s` without its trailing White_Space characters.
pub open spec fn trim_end_of(s: Seq<char>) -> Seq<char>
    decreases s.len(),
{
    if s.len() > 0 && is_white_space(s.last()) {
        trim_end_of(s.drop_last())
    } else {
        s
    }
}

/// Relies on `str::trim_end`: it removes the trailing characters that have
/// Unicode's White_Space property.
#[verifier::external_body]
fn trimmed_end(s: &str) -> (r: String)
    ensures
        r@ == trim_end_of(s@),
{
    s.trim_end().to_string()
}

/// Process names under which the target runs.
pub open spec fn is_game_name(name: Seq<char>) -> bool {
    name == "BaldursGate"@ || name == "BaldursGateII"@
}

/// The process name that a process's `comm` entry gives, where it is one of the
/// target's.
pub fn recognized_name(comm: &str) -> (r: Option<String>)
    ensures
        match r {
            Some(name) => name@ == trim_end_of(comm@) && is_game_name(name@),
            None => !is_game_name(trim_end_of(comm@)),
        },
{
    let name = trimmed_end(comm);
    if name == "BaldursGate".to_owned() || name == "BaldursGateII".to_owned() {
        Some(name)
    } else {
        None
    }
}

/// A running target: where its process entry lies, its id, its name, and the
/// address at which its main executable is loaded.
#[derive(Debug)]
pub struct GameProcess {
    pub path: String,
    pub pid: u32,
    pub base_address: usize,
    pub name: String,
}

impl GameProcess {
    pub open spec fn wf(&self) -> bool {
        self.pid != 0 && self.base_address != 0
    }

    /// The target described by a process entry at `path` with id `pid`, whose
    /// `comm` entry and memory-map listing are given; `None` where the process
    /// is not the target.
    pub fn new(path: String, pid: u32, comm: &str, maps: &str) -> (r: Result<
        Option<GameProcess>,
        Error,
    >)
        requires
            pid != 0,
        ensures
            !is_game_name(trim_end_of(comm@)) ==> r matches Ok(None),
            is_game_name(trim_end_of(comm@)) ==> match base_address_of(maps.spec_bytes()) {
                Some(base) => r matches Ok(Some(g)) && g.path == path && g.pid == pid
                    && g.base_address == base && g.name@ == trim_end_of(comm@) && g.wf(),
                None => r matches Err(Error::Memory(_)),
            },
    {
        let name = match recognized_name(comm) {
            Some(name) => name,
            None => {
                return Ok(None);
            },
        };
        match get_base_address_from_memory_map(maps) {
            Some(base_address) => Ok(Some(GameProcess { path, pid, base_address, name })),
            None => Err(Error::Memory("could not get base address".to_string())),
        }
    }
}

/// The candidate holds a target.
pub open spec fn is_found(candidate: Result<Option<GameProcess>, Error>) -> bool {
    candidate matches Ok(Some(_))
}

/// `i` is the first candidate that holds a target.
pub open spec fn is_first_found(candidates: Seq<Result<Option<GameProcess>, Error>>, i: int) -> bool {
    &&& 0 <= i < candidates.len()
    &&& is_found(candidates[i])
    &&& forall|j: int| 0 <= j < i ==> !is_found(#[trigger] candidates[j])
}

/// Picks the first target among the outcomes of probing each process entry;
/// entries that failed or are not the target are passed over. With none left,
/// the error tells a first search from a search for a target that has gone.
pub fn find_game_process(candidates: Vec<Result<Option<GameProcess>, Error>>, first_open: bool) -> (r:
    Result<GameProcess, Error>)
    ensures
        match r {
            Ok(g) => exists|i: int|
                is_first_found(candidates@, i) && candidates@[i] == Ok::<
                    Option<GameProcess>,
                    Error,
                >(Some(g)),
            Err(e) => (forall|i: int|
                0 <= i < candidates@.len() ==> !is_found(#[trigger] candidates@[i])) && if first_open {
                e is MissingGameProcess
            } else {
                e is GameProcessClosed
            },
        },
{
    let mut i: usize = 0;
    while i < candidates.len()
        invariant
            i <= candidates@.len(),
            forall|j: int| 0 <= j < i ==> !is_found(#[trigger] candidates@[j]),
        decreases candidates@.len() - i,
    {
        if let Ok(Some(_)) = &candidates[i] {
            let ghost all = candidates@;
            let mut rest = candidates;
            let found = rest.remove(i);
            assert(is_first_found(all, i as int));
            return match found {
                Ok(Some(g)) => Ok(g),
                _ => {
                    assert(false);
                    Err(Error::MissingGameProcess)
                },
            };
        }
        i += 1;
    }
    if first_open {
        Err(Error::MissingGameProcess)
    } else {
        Err(Error::GameProcessClosed)
    }
}

} // verus!
