//! The variable-length quantity: an unsigned integer written as 7-bit
//! groups, most significant group first, where every byte but the last has
//! its high bit set.

use vstd::prelude::*;
use vstd::std_specs::convert::FromSpecImpl;

verus! {

/// Why a variable-length quantity could not be decoded.
#[derive(Clone, Copy, Debug, PartialEq, Eq, Hash, Structural)]
pub enum VlqError {
    /// The bytes end while the continuation bit is still set.
    IncompleteNumber,
    /// The number does not fit in 32 bits.
    Overflow,
    /// More than one number where a single one was expected.
    UnexpectedMultipleVlqs,
}

/// `0x7f`: the largest 7-bit number.
pub const MAX_7BIT: u8 = 0x7f;

/// `0x80`: the high bit, set on every byte of a quantity but the last.
pub const CONTINUE: u8 = 0x80;

/// The bytes that stand before the last byte of a quantity whose higher
/// groups hold `n`: one byte for each 7-bit group of `n`, the most
/// significant first, each with the continuation bit.
pub open spec fn leading_groups(n: nat) -> Seq<u8>
    decreases n,
{
    if n == 0 {
        Seq::empty()
    } else {
        leading_groups(n / 128).push((128 + n % 128) as u8)
    }
}

/// The bytes of `value` as a variable-length quantity.
pub open spec fn encoding(value: u32) -> Seq<u8> {
    leading_groups(value as nat / 128).push((value % 128) as u8)
}

/// The number that the low seven bits of each byte spell, most significant
/// group first.
pub open spec fn payload(bytes: Seq<u8>) -> nat
    decreases bytes.len(),
{
    if bytes.len() == 0 {
        0
    } else {
        payload(bytes.drop_last()) * 128 + (bytes.last() % 128) as nat
    }
}

/// What decoding `bytes` as one quantity gives: the number they spell if it
/// fits in 32 bits and the last byte is free of the continuation bit.
pub open spec fn decoding(bytes: Seq<u8>) -> Result<u32, VlqError> {
    if payload(bytes) > u32::MAX {
        Err(VlqError::Overflow)
    } else if bytes.len() > 0 && bytes.last() >= 128 {
        Err(VlqError::IncompleteNumber)
    } else {
        Ok(payload(bytes) as u32)
    }
}

/// The encodings of all `values`, one after the other.
pub open spec fn encoding_of_all(values: Seq<u32>) -> Seq<u8>
    decreases values.len(),
{
    if values.len() == 0 {
        Seq::empty()
    } else {
        encoding_of_all(values.drop_last()) + encoding(values.last())
    }
}

/// The index of the first byte at or after `from` that is free of the
/// continuation bit; the length of `bytes` if there is none.
pub open spec fn end_of_number(bytes: Seq<u8>, from: int) -> int
    decreases bytes.len() - from,
{
    if from < 0 || from >= bytes.len() {
        bytes.len() as int
    } else if bytes[from] < 128 {
        from
    } else {
        end_of_number(bytes, from + 1)
    }
}

/// The numbers that `bytes` hold from index `from` on, or the first error
/// met on the way: a number that overflows, or bytes that end within a
/// number.
pub open spec fn numbers_from(bytes: Seq<u8>, from: int) -> Result<Seq<u32>, VlqError>
    decreases bytes.len() - from,
{
    if from < 0 || from >= bytes.len() {
        Ok(Seq::empty())
    } else {
        let end = end_of_number(bytes, from);
        if end >= bytes.len() {
            Err(VlqError::IncompleteNumber)
        } else if end < from {
            Err(VlqError::IncompleteNumber)
        } else {
            match decoding(bytes.subrange(from, end + 1)) {
                Err(e) => Err(e),
                Ok(v) => match numbers_from(bytes, end + 1) {
                    Err(e) => Err(e),
                    Ok(rest) => Ok(seq![v] + rest),
                },
            }
        }
    }
}

/// What decoding `bytes` as a row of quantities gives. Bytes that hold no
/// complete number are an incomplete number.
pub open spec fn decoding_of_all(bytes: Seq<u8>) -> Result<Seq<u32>, VlqError> {
    if bytes.len() == 0 {
        Err(VlqError::IncompleteNumber)
    } else {
        numbers_from(bytes, 0)
    }
}

/// An unsigned 32-bit number that is written as a variable-length quantity.
#[derive(Clone, Copy, Debug, PartialEq, Eq, PartialOrd, Ord, Hash, Structural)]
pub struct Vlq {
    pub bytes: u32,
}

impl Vlq {
    /// The quantity for `value`.
    pub fn new(value: u32) -> (r: Self)
        ensures
            r.bytes == value,
    {
        Self { bytes: value }
    }

    /// The bytes of the quantity.
    pub fn to_bytes(&self) -> (r: Vec<u8>)
        ensures
            r@ == encoding(self.bytes),
    {
        encode_u32(self.bytes)
    }

    /// The quantity for a 64-bit number, which must fit in 32 bits.
    pub fn try_from_u64(value: u64) -> (r: Result<Self, VlqError>)
        ensures
            r == (if value <= u32::MAX {
                Ok(Vlq { bytes: value as u32 })
            } else {
                Err(VlqError::Overflow)
            }),
    {
        if value <= u32::MAX as u64 {
            Ok(Vlq { bytes: value as u32 })
        } else {
            Err(VlqError::Overflow)
        }
    }

    /// The number.
    pub fn to_u32(self) -> (r: u32)
        ensures
            r == self.bytes,
    {
        self.bytes
    }

    /// The number, in 64 bits.
    pub fn to_u64(self) -> (r: u64)
        ensures
            r == self.bytes,
    {
        self.bytes as u64
    }

    /// The number in 16 bits, where it fits.
    pub fn try_to_u16(self) -> (r: Result<u16, VlqError>)
        ensures
            r == (if self.bytes <= u16::MAX {
                Ok(self.bytes as u16)
            } else {
                Err(VlqError::Overflow)
            }),
    {
        if self.bytes <= u16::MAX as u32 {
            Ok(self.bytes as u16)
        } else {
            Err(VlqError::Overflow)
        }
    }

    /// The number in 8 bits, where it fits.
    pub fn try_to_u8(self) -> (r: Result<u8, VlqError>)
        ensures
            r == (if self.bytes <= u8::MAX {
                Ok(self.bytes as u8)
            } else {
                Err(VlqError::Overflow)
            }),
    {
        if self.bytes <= u8::MAX as u32 {
            Ok(self.bytes as u8)
        } else {
            Err(VlqError::Overflow)
        }
    }
}

impl Default for Vlq {
    fn default() -> (r: Self)
        ensures
            r.bytes == 0,
    {
        Vlq { bytes: 0 }
    }
}

impl From<u32> for Vlq {
    fn from(value: u32) -> (r: Self) {
        Vlq::new(value)
    }
}

impl FromSpecImpl<u32> for Vlq {
    open spec fn obeys_from_spec() -> bool {
        true
    }

    open spec fn from_spec(value: u32) -> Self {
        Vlq { bytes: value }
    }
}

impl From<u16> for Vlq {
    fn from(value: u16) -> (r: Self) {
        Vlq::new(value as u32)
    }
}

impl FromSpecImpl<u16> for Vlq {
    open spec fn obeys_from_spec() -> bool {
        true
    }

    open spec fn from_spec(value: u16) -> Self {
        Vlq { bytes: value as u32 }
    }
}

impl From<u8> for Vlq {
    fn from(value: u8) -> (r: Self) {
        Vlq::new(value as u32)
    }
}

impl FromSpecImpl<u8> for Vlq {
    open spec fn obeys_from_spec() -> bool {
        true
    }

    open spec fn from_spec(value: u8) -> Self {
        Vlq { bytes: value as u32 }
    }
}

/// The bytes of `value` as a variable-length quantity.
pub fn encode_u32(value: u32) -> (r: Vec<u8>)
    ensures
        r@ == encoding(value),
{
    let mut result: Vec<u8> = Vec::new();
    result.push((value % 128) as u8);
    let mut rest: u32 = value / 128;
    while rest > 0
        invariant
            encoding(value) == leading_groups(rest as nat) + result@,
        decreases rest,
    {
        let group: u8 = (rest % 128) as u8 + CONTINUE;
        let ghost before = result@;
        result.insert(0, group);
        proof {
            assert(leading_groups(rest as nat) == leading_groups(rest as nat / 128).push(group));
            assert(leading_groups(rest as nat) + before =~= leading_groups(rest as nat / 128)
                + result@);
        }
        rest = rest / 128;
    }
    result
}

/// Quantities for a list of numbers, as one stream of bytes.
pub fn to_bytes(values: &[u32]) -> (r: Vec<u8>)
    ensures
        r@ == encoding_of_all(values@),
{
    let mut result: Vec<u8> = Vec::new();
    let mut i: usize = 0;
    while i < values.len()
        invariant
            i <= values.len(),
            result@ == encoding_of_all(values@.subrange(0, i as int)),
        decreases values.len() - i,
    {
        let mut encoded = encode_u32(values[i]);
        proof {
            let next = values@.subrange(0, i + 1);
            assert(next.drop_last() =~= values@.subrange(0, i as int));
            assert(next.last() == values@[i as int]);
        }
        result.append(&mut encoded);
        i = i + 1;
    }
    proof {
        assert(values@.subrange(0, i as int) =~= values@);
    }
    result
}

/// A longer sequence spells at least the number that its beginning spells.
pub proof fn lemma_payload_grows(bytes: Seq<u8>, n: int)
    requires
        0 <= n <= bytes.len(),
    ensures
        payload(bytes.subrange(0, n)) <= payload(bytes),
    decreases bytes.len(),
{
    if n == bytes.len() {
        assert(bytes.subrange(0, n) =~= bytes);
    } else {
        assert(bytes.drop_last().subrange(0, n) =~= bytes.subrange(0, n));
        lemma_payload_grows(bytes.drop_last(), n);
    }
}

/// One more byte shifts the number by seven bits and adds its own seven.
pub proof fn lemma_payload_step(bytes: Seq<u8>, n: int)
    requires
        0 <= n < bytes.len(),
    ensures
        payload(bytes.subrange(0, n + 1)) == payload(bytes.subrange(0, n)) * 128 + (bytes[n]
            % 128) as nat,
{
    let next = bytes.subrange(0, n + 1);
    assert(next.drop_last() =~= bytes.subrange(0, n));
    assert(next.last() == bytes[n]);
}

/// The leading groups of `n` spell `n`.
pub proof fn lemma_payload_of_leading_groups(n: nat)
    ensures
        payload(leading_groups(n)) == n,
    decreases n,
{
    if n > 0 {
        let groups = leading_groups(n);
        lemma_payload_of_leading_groups(n / 128);
        assert(groups.drop_last() =~= leading_groups(n / 128));
        assert(groups.last() == (128 + n % 128) as u8);
    }
}

/// The leading groups of `n` are one byte for each 7-bit group of `n`, and
/// each of them carries the continuation bit.
pub proof fn lemma_shape_of_leading_groups(n: nat)
    ensures
        n < 128 ==> leading_groups(n).len() <= 1,
        n < 16384 ==> leading_groups(n).len() <= 2,
        n < 2097152 ==> leading_groups(n).len() <= 3,
        n < 268435456 ==> leading_groups(n).len() <= 4,
        forall|i: int| 0 <= i < leading_groups(n).len() ==> #[trigger] leading_groups(n)[i] >= 128,
    decreases n,
{
    if n > 0 {
        lemma_shape_of_leading_groups(n / 128);
    }
}

/// Decoding what was encoded gives the number back.
pub proof fn lemma_round_trip(value: u32)
    ensures
        decoding(encoding(value)) == Ok::<u32, VlqError>(value),
{
    let bytes = encoding(value);
    lemma_payload_of_leading_groups(value as nat / 128);
    assert(bytes.drop_last() =~= leading_groups(value as nat / 128));
    assert(bytes.last() == (value % 128) as u8);
}

/// Zero is the single byte zero.
pub proof fn lemma_encoding_of_zero()
    ensures
        encoding(0) == seq![0u8],
{
    assert(leading_groups(0) =~= Seq::<u8>::empty());
    assert(encoding(0) =~= seq![0u8]);
}

/// An encoding has from one to five bytes; all but the last carry the
/// continuation bit, and the last does not.
pub proof fn lemma_shape_of_encoding(value: u32)
    ensures
        1 <= encoding(value).len() <= 5,
        forall|i: int| 0 <= i < encoding(value).len() - 1 ==> #[trigger] encoding(value)[i] >= 128,
        encoding(value).last() < 128,
{
    lemma_shape_of_leading_groups(value as nat / 128);
}

/// Five bytes whose first holds anything in the three highest of its seven
/// payload bits spell more than 32 bits: decoding them fails with an
/// overflow, whatever their continuation bits are.
pub proof fn lemma_five_bytes_overflow(bytes: Seq<u8>)
    requires
        bytes.len() == 5,
        bytes[0] % 128 >= 16,
    ensures
        decoding(bytes) == Err::<u32, VlqError>(VlqError::Overflow),
{
    assert(payload(bytes.subrange(0, 0)) == 0);
    lemma_payload_step(bytes, 0);
    lemma_payload_step(bytes, 1);
    lemma_payload_step(bytes, 2);
    lemma_payload_step(bytes, 3);
    lemma_payload_step(bytes, 4);
    assert(bytes.subrange(0, 5) =~= bytes);
}

/// Bytes that end with the continuation bit set are an incomplete number,
/// unless what they spell has already outgrown 32 bits.
pub proof fn lemma_incomplete(bytes: Seq<u8>)
    requires
        bytes.len() > 0,
        bytes.last() >= 128,
        payload(bytes) <= u32::MAX,
    ensures
        decoding(bytes) == Err::<u32, VlqError>(VlqError::IncompleteNumber),
{
}

/// From any place in a row of bytes that ends with the continuation bit
/// set, decoding fails.
proof fn lemma_incomplete_from(bytes: Seq<u8>, from: int)
    requires
        0 <= from < bytes.len(),
        bytes.last() >= 128,
    ensures
        numbers_from(bytes, from) == Err::<Seq<u32>, VlqError>(VlqError::IncompleteNumber)
            || numbers_from(bytes, from) == Err::<Seq<u32>, VlqError>(VlqError::Overflow),
    decreases bytes.len() - from,
{
    let end = end_of_number(bytes, from);
    lemma_end_of_number_bounds(bytes, from);
    if end < bytes.len() {
        lemma_incomplete_from(bytes, end + 1);
    }
}

/// A row of bytes that ends with the continuation bit set holds no complete
/// last number: decoding the row fails, with an overflow if a number
/// before the last is too large, else as an incomplete number.
pub proof fn lemma_incomplete_row(bytes: Seq<u8>)
    requires
        bytes.len() > 0,
        bytes.last() >= 128,
    ensures
        decoding_of_all(bytes) == Err::<Seq<u32>, VlqError>(VlqError::IncompleteNumber)
            || decoding_of_all(bytes) == Err::<Seq<u32>, VlqError>(VlqError::Overflow),
{
    lemma_incomplete_from(bytes, 0);
}

/// The end of a number lies at or after its beginning, and the byte there,
/// if there is one, is free of the continuation bit.
pub proof fn lemma_end_of_number_bounds(bytes: Seq<u8>, from: int)
    requires
        0 <= from <= bytes.len(),
    ensures
        from <= end_of_number(bytes, from) <= bytes.len(),
        end_of_number(bytes, from) < bytes.len() ==> bytes[end_of_number(bytes, from)] < 128,
    decreases bytes.len() - from,
{
    if from < bytes.len() && bytes[from] >= 128 {
        lemma_end_of_number_bounds(bytes, from + 1);
    }
}

/// Decodes `bytes` as a single quantity.
pub fn decode_slice(bytes: &[u8]) -> (r: Result<u32, VlqError>)
    ensures
        r == decoding(bytes@),
{
    let mut result: u32 = 0;
    let mut i: usize = 0;
    while i < bytes.len()
        invariant
            i <= bytes.len(),
            result as nat == payload(bytes@.subrange(0, i as int)),
        decreases bytes.len() - i,
    {
        proof {
            lemma_payload_step(bytes@, i as int);
            lemma_payload_grows(bytes@, i + 1);
        }
        if result > 0x01ff_ffff {
            return Err(VlqError::Overflow);
        }
        result = result * 128 + (bytes[i] % 128) as u32;
        i = i + 1;
    }
    proof {
        assert(bytes@.subrange(0, i as int) =~= bytes@);
    }
    if bytes.len() > 0 && bytes[bytes.len() - 1] >= CONTINUE {
        return Err(VlqError::IncompleteNumber);
    }
    Ok(result)
}

/// Where every byte from `from` up to `end` carries the continuation bit and
/// the one at `end` does not, the number that begins at `from` ends at `end`.
pub proof fn lemma_end_of_number(bytes: Seq<u8>, from: int, end: int)
    requires
        0 <= from <= end <= bytes.len(),
        forall|j: int| from <= j < end ==> bytes[j] >= 128,
        end < bytes.len() ==> bytes[end] < 128,
    ensures
        end_of_number(bytes, from) == end,
    decreases end - from,
{
    if from < end {
        lemma_end_of_number(bytes, from + 1, end);
    }
}

/// Extracts all numbers from a stream of quantities.
pub fn from_bytes(bytes: &[u8]) -> (r: Result<Vec<u32>, VlqError>)
    ensures
        match decoding_of_all(bytes@) {
            Ok(values) => r matches Ok(v) && v@ == values,
            Err(e) => r == Err::<Vec<u32>, VlqError>(e),
        },
{
    let mut current: Vec<u8> = Vec::new();
    let mut result: Vec<u32> = Vec::new();
    let ghost mut start: int = 0;
    let mut i: usize = 0;
    while i < bytes.len()
        invariant
            0 <= start <= i <= bytes.len(),
            current@ == bytes@.subrange(start, i as int),
            forall|j: int| start <= j < i ==> bytes@[j] >= 128,
            numbers_from(bytes@, 0) == (match numbers_from(bytes@, start) {
                Ok(rest) => Ok(result@ + rest),
                Err(e) => Err(e),
            }),
        decreases bytes.len() - i,
    {
        let b = bytes[i];
        current.push(b);
        assert(current@ =~= bytes@.subrange(start, i + 1));
        if b < CONTINUE {
            proof {
                lemma_end_of_number(bytes@, start, i as int);
            }
            match decode_slice(current.as_slice()) {
                Err(e) => {
                    return Err(e);
                },
                Ok(v) => {
                    proof {
                        let rest = numbers_from(bytes@, i + 1);
                        if let Ok(s) = rest {
                            assert(result@ + (seq![v] + s) =~= result@.push(v) + s);
                        }
                    }
                    result.push(v);
                    current.clear();
                    proof {
                        start = i + 1;
                    }
                    assert(current@ =~= bytes@.subrange(start, i + 1));
                },
            }
        }
        i = i + 1;
    }
    proof {
        lemma_end_of_number(bytes@, start, bytes@.len() as int);
        if start >= bytes@.len() {
            assert(result@ + Seq::<u32>::empty() =~= result@);
        }
    }
    if current.len() > 0 || bytes.len() == 0 {
        return Err(VlqError::IncompleteNumber);
    }
    Ok(result)
}

} // verus!
