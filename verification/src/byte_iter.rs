//! A forward-only reader over a buffer of bytes, with three bytes of
//! lookahead, a position for error reports, and a limit that can bound
//! reading to a region of the buffer.

use crate::error::{agrees, Error, ErrorKind};
use crate::vlq::{decode_slice, decoding};
use vstd::prelude::*;

verus! {

/// The state of a reader as contracts speak of it.
pub struct Cursor {
    /// All bytes of the source.
    pub data: Seq<u8>,
    /// How many of them have been read.
    pub taken: nat,
    /// Whether a read has run into the end of the source.
    pub exhausted: bool,
    /// The position at which reading stops, while a limit is set.
    pub limit: Option<nat>,
    /// The status byte read last, which a data byte in status position
    /// continues.
    pub latest_status: Option<u8>,
    /// Whether a data byte has been met in status position.
    pub running_status: bool,
}

/// What a step of reading leaves behind: the state of the reader after it,
/// and the value read or the reason why none was.
pub struct Parsed<T> {
    pub cursor: Cursor,
    pub result: Result<T, ErrorKind>,
}

/// The number that two bytes spell, the high byte first.
pub open spec fn be16(bytes: Seq<u8>) -> u16 {
    (bytes[0] as int * 256 + bytes[1] as int) as u16
}

/// The number that three bytes spell, the highest byte first.
pub open spec fn be24(bytes: Seq<u8>) -> u32 {
    ((bytes[0] as int * 256 + bytes[1] as int) * 256 + bytes[2] as int) as u32
}

/// The number that four bytes spell, the highest byte first.
pub open spec fn be32(bytes: Seq<u8>) -> u32 {
    (((bytes[0] as int * 256 + bytes[1] as int) * 256 + bytes[2] as int) * 256
        + bytes[3] as int) as u32
}

/// The two bytes of a number, the high byte first.
pub open spec fn be16_bytes(value: u16) -> Seq<u8> {
    seq![(value / 256) as u8, (value % 256) as u8]
}

/// The low three bytes of a number, the highest first.
pub open spec fn be24_bytes(value: u32) -> Seq<u8> {
    seq![((value / 65536) % 256) as u8, ((value / 256) % 256) as u8, (value % 256) as u8]
}

/// The four bytes of a number, the highest byte first.
pub open spec fn be32_bytes(value: u32) -> Seq<u8> {
    seq![
        (value / 16777216) as u8,
        ((value / 65536) % 256) as u8,
        ((value / 256) % 256) as u8,
        (value % 256) as u8,
    ]
}

impl Cursor {
    /// A reader at the beginning of `data`.
    pub open spec fn start(data: Seq<u8>) -> Cursor {
        Cursor {
            data,
            taken: 0,
            exhausted: false,
            limit: None,
            latest_status: None,
            running_status: false,
        }
    }

    /// No more bytes are read than there are, and the source counts as
    /// exhausted only when all of them are.
    pub open spec fn wf(self) -> bool {
        &&& self.taken <= self.data.len()
        &&& self.exhausted ==> self.taken == self.data.len()
    }

    /// Whether any read has been made.
    pub open spec fn has_position(self) -> bool {
        self.taken > 0 || self.exhausted
    }

    /// The index of the byte read last; the length of the source once a
    /// read has run into its end; `0` before the first read.
    pub open spec fn position(self) -> nat {
        if self.exhausted {
            self.data.len()
        } else if self.taken == 0 {
            0
        } else {
            (self.taken - 1) as nat
        }
    }

    /// The byte read last, if the last read gave one.
    pub open spec fn current(self) -> Option<u8> {
        if self.exhausted || self.taken == 0 {
            None
        } else {
            Some(self.data[self.taken - 1])
        }
    }

    /// The unread byte `k` places ahead of the next one.
    pub open spec fn ahead(self, k: nat) -> Option<u8> {
        if self.taken + k < self.data.len() {
            Some(self.data[(self.taken + k) as int])
        } else {
            None
        }
    }

    /// Whether the limit forbids another read.
    pub open spec fn at_limit(self) -> bool {
        self.limit matches Some(l) && self.has_position() && self.position() >= l
    }

    /// Whether reading is over: the limit is reached, or no byte is current.
    pub open spec fn is_end(self) -> bool {
        self.at_limit() || self.current() is None
    }

    /// One read: nothing at the limit; else the next byte of the source;
    /// else the source is exhausted.
    pub open spec fn read(self) -> (Cursor, Option<u8>) {
        if self.at_limit() {
            (self, None)
        } else if self.taken < self.data.len() {
            (Cursor { taken: self.taken + 1, ..self }, Some(self.data[self.taken as int]))
        } else {
            (Cursor { exhausted: true, ..self }, None)
        }
    }

    /// A failure for want of bytes, reported at the reader's position.
    pub open spec fn end_of_input(self) -> ErrorKind {
        ErrorKind::EndOfInput { position: self.position() as u64 }
    }

    /// One read that must give a byte.
    pub open spec fn read_or_die(self) -> Parsed<u8> {
        let (cursor, byte) = self.read();
        match byte {
            Some(b) => Parsed { cursor, result: Ok(b) },
            None => Parsed { cursor, result: Err(cursor.end_of_input()) },
        }
    }

    /// The next byte without reading it; the limit does not hide it.
    pub open spec fn peek_or_die(self) -> Result<u8, ErrorKind> {
        match self.ahead(0) {
            Some(b) => Ok(b),
            None => Err(self.end_of_input()),
        }
    }

    /// `n` reads that must each give a byte; the first that gives none
    /// ends the reading.
    pub open spec fn take(self, n: nat) -> Parsed<Seq<u8>>
        decreases n,
    {
        if n == 0 {
            Parsed { cursor: self, result: Ok(Seq::empty()) }
        } else {
            let front = self.take((n - 1) as nat);
            match front.result {
                Err(_) => front,
                Ok(bytes) => {
                    let last = front.cursor.read_or_die();
                    match last.result {
                        Err(e) => Parsed { cursor: last.cursor, result: Err(e) },
                        Ok(b) => Parsed { cursor: last.cursor, result: Ok(bytes.push(b)) },
                    }
                },
            }
        }
    }

    /// Two bytes read as a big-endian number.
    pub open spec fn read_u16(self) -> Parsed<u16> {
        let bytes = self.take(2);
        match bytes.result {
            Err(e) => Parsed { cursor: bytes.cursor, result: Err(e) },
            Ok(b) => Parsed { cursor: bytes.cursor, result: Ok(be16(b)) },
        }
    }

    /// Four bytes read as a big-endian number.
    pub open spec fn read_u32(self) -> Parsed<u32> {
        let bytes = self.take(4);
        match bytes.result {
            Err(e) => Parsed { cursor: bytes.cursor, result: Err(e) },
            Ok(b) => Parsed { cursor: bytes.cursor, result: Ok(be32(b)) },
        }
    }

    /// The bytes of a variable-length quantity, read after `so_far`: reading
    /// goes on until a byte is free of the continuation bit, and gives up
    /// when five bytes have not brought one.
    pub open spec fn collect_vlq(self, so_far: Seq<u8>) -> Parsed<Seq<u8>>
        decreases 5 - so_far.len(),
    {
        if so_far.len() > 0 && so_far.last() < 128 {
            Parsed { cursor: self, result: Ok(so_far) }
        } else if so_far.len() > 4 {
            Parsed {
                cursor: self,
                result: Err(ErrorKind::VlqTooLong { position: self.position() as u64 }),
            }
        } else {
            let next = self.read_or_die();
            match next.result {
                Err(e) => Parsed { cursor: next.cursor, result: Err(e) },
                Ok(b) => next.cursor.collect_vlq(so_far.push(b)),
            }
        }
    }

    /// The bytes of one variable-length quantity.
    pub open spec fn read_vlq_bytes(self) -> Parsed<Seq<u8>> {
        self.collect_vlq(Seq::empty())
    }

    /// One variable-length quantity, decoded.
    pub open spec fn read_vlq_u32(self) -> Parsed<u32> {
        let bytes = self.read_vlq_bytes();
        match bytes.result {
            Err(e) => Parsed { cursor: bytes.cursor, result: Err(e) },
            Ok(b) => match decoding(b) {
                Ok(v) => Parsed { cursor: bytes.cursor, result: Ok(v) },
                Err(error) => Parsed {
                    cursor: bytes.cursor,
                    result: Err(
                        ErrorKind::Vlq { error, position: bytes.cursor.position() as u64 },
                    ),
                },
            },
        }
    }

    /// Four bytes read and held against a chunk tag.
    pub open spec fn expect_tag(self, tag: Seq<u8>) -> Parsed<()> {
        let bytes = self.take(4);
        match bytes.result {
            Err(e) => Parsed { cursor: bytes.cursor, result: Err(e) },
            Ok(b) => if b == tag {
                Parsed { cursor: bytes.cursor, result: Ok(()) }
            } else {
                Parsed {
                    cursor: bytes.cursor,
                    result: Err(
                        ErrorKind::TagMismatch { position: bytes.cursor.position() as u64 },
                    ),
                }
            },
        }
    }

    /// Whether the current byte and the three after it are the chunk tag.
    pub open spec fn is_tag(self, tag: Seq<u8>) -> bool {
        &&& tag.len() == 4
        &&& self.current() == Some(tag[0])
        &&& self.ahead(0) == Some(tag[1])
        &&& self.ahead(1) == Some(tag[2])
        &&& self.ahead(2) == Some(tag[3])
    }

    /// One byte read and held against the value it must have.
    pub open spec fn read_expect(self, expected: u8) -> Parsed<()> {
        let next = self.read_or_die();
        match next.result {
            Err(e) => Parsed { cursor: next.cursor, result: Err(e) },
            Ok(found) => if found == expected {
                Parsed { cursor: next.cursor, result: Ok(()) }
            } else {
                Parsed {
                    cursor: next.cursor,
                    result: Err(
                        ErrorKind::UnexpectedByte {
                            expected,
                            found,
                            position: next.cursor.position() as u64,
                        },
                    ),
                }
            },
        }
    }

    /// The reader with reading bounded to the next `size` bytes. A limit
    /// that no 64-bit position can reach is no limit.
    pub open spec fn set_size_limit(self, size: u64) -> Cursor {
        if self.position() + size <= u64::MAX {
            Cursor { limit: Some(self.position() + size as nat), ..self }
        } else {
            Cursor { limit: None, ..self }
        }
    }

    /// The reader without a limit.
    pub open spec fn clear_size_limit(self) -> Cursor {
        Cursor { limit: None, ..self }
    }

    /// Whether the reader can have come from `earlier` by reading alone:
    /// it is over the same bytes under the same limit, it has not moved
    /// backwards, and where it has moved it has not left the bytes.
    pub open spec fn follows(self, earlier: Cursor) -> bool {
        &&& self.data == earlier.data
        &&& self.limit == earlier.limit
        &&& self.taken >= earlier.taken
        &&& self.taken > earlier.taken ==> self.taken <= self.data.len()
        &&& earlier.within_limit() ==> self.within_limit()
    }

    /// Whether the reader has not read past its limit.
    pub open spec fn within_limit(self) -> bool {
        self.limit matches Some(l) ==> self.taken <= l + 1
    }

    /// Reading `n` bytes is reading alone.
    pub proof fn lemma_take_follows(self, n: nat)
        ensures
            self.take(n).cursor.follows(self),
            self.take(n).result is Ok ==> self.take(n).cursor.taken == self.taken + n && self.take(
                n,
            ).cursor.exhausted == self.exhausted,
        decreases n,
    {
        if n > 0 {
            self.lemma_take_follows((n - 1) as nat);
        }
    }

    /// Reading the bytes of a quantity is reading alone, and where it
    /// succeeds from nothing it has read at least one byte.
    pub proof fn lemma_collect_vlq_follows(self, so_far: Seq<u8>)
        ensures
            self.collect_vlq(so_far).cursor.follows(self),
            self.collect_vlq(so_far).result is Ok && so_far.len() == 0 ==> self.collect_vlq(
                so_far,
            ).cursor.taken > self.taken,
            self.collect_vlq(so_far).result is Ok ==> self.collect_vlq(so_far).cursor.exhausted
                == self.exhausted,
        decreases 5 - so_far.len(),
    {
        if so_far.len() > 0 && so_far.last() < 128 {
        } else if so_far.len() > 4 {
        } else {
            let next = self.read_or_die();
            if let Ok(b) = next.result {
                next.cursor.lemma_collect_vlq_follows(so_far.push(b));
            }
        }
    }

    /// Reading a quantity is reading alone, and where it succeeds it has
    /// read at least one byte.
    pub proof fn lemma_read_vlq_follows(self)
        ensures
            self.read_vlq_u32().cursor.follows(self),
            self.read_vlq_u32().result is Ok ==> self.read_vlq_u32().cursor.taken > self.taken
                && self.read_vlq_u32().cursor.exhausted == self.exhausted,
    {
        self.lemma_collect_vlq_follows(Seq::empty());
    }

    /// What `n` reads give, where they succeed, are the next `n` bytes of
    /// the source.
    pub proof fn lemma_take_gives_the_source(self, n: nat)
        ensures
            n > 0 ==> (self.take(n).result matches Ok(bytes) ==> self.taken + n
                <= self.data.len() && bytes == self.data.subrange(
                self.taken as int,
                (self.taken + n) as int,
            )),
        decreases n,
    {
        if n > 0 {
            self.lemma_take_gives_the_source((n - 1) as nat);
            self.lemma_take_follows((n - 1) as nat);
            self.lemma_take_length((n - 1) as nat);
            let front = self.take((n - 1) as nat);
            if let Ok(bytes) = front.result {
                if let Ok(b) = front.cursor.read_or_die().result {
                    assert(bytes.push(b) =~= self.data.subrange(
                        self.taken as int,
                        (self.taken + n) as int,
                    ));
                }
            }
        }
    }

    /// `n` reads that succeed give `n` bytes.
    pub proof fn lemma_take_length(self, n: nat)
        ensures
            self.take(n).result matches Ok(bytes) ==> bytes.len() == n,
        decreases n,
    {
        if n > 0 {
            self.lemma_take_length((n - 1) as nat);
        }
    }

    /// Reading one byte more, after `n` that were there.
    pub proof fn lemma_take_one_more(self, n: nat)
        requires
            self.take(n).result is Ok,
        ensures
            self.take(n + 1).cursor == self.take(n).cursor.read_or_die().cursor,
            self.take(n + 1).result == (match self.take(n).cursor.read_or_die().result {
                Ok(b) => Ok::<Seq<u8>, ErrorKind>(self.take(n).result->Ok_0.push(b)),
                Err(e) => Err::<Seq<u8>, ErrorKind>(e),
            }),
    {
        assert((n + 1 - 1) as nat == n);
    }

    /// Once a read has failed, reading more fails in the same way.
    pub proof fn lemma_take_fails_on(self, m: nat, n: nat)
        requires
            m <= n,
            self.take(m).result is Err,
        ensures
            self.take(n) == self.take(m),
        decreases n,
    {
        if m < n {
            self.lemma_take_fails_on(m, (n - 1) as nat);
        }
    }
}

/// A reader over a buffer of bytes.
pub struct ByteIter<'a> {
    data: &'a [u8],
    taken: usize,
    exhausted: bool,
    position_limit: Option<u64>,
    latest_message_byte: Option<u8>,
    running_status_detected: bool,
}

impl<'a> View for ByteIter<'a> {
    type V = Cursor;

    closed spec fn view(&self) -> Cursor {
        Cursor {
            data: self.data@,
            taken: self.taken as nat,
            exhausted: self.exhausted,
            limit: match self.position_limit {
                Some(l) => Some(l as nat),
                None => None,
            },
            latest_status: self.latest_message_byte,
            running_status: self.running_status_detected,
        }
    }
}

impl<'a> ByteIter<'a> {
    #[verifier::type_invariant]
    spec fn well_formed(self) -> bool {
        &&& self.taken <= self.data@.len()
        &&& self.exhausted ==> self.taken == self.data@.len()
    }

    /// A reader at the beginning of `data`.
    pub fn new(data: &'a [u8]) -> (r: Self)
        ensures
            r@ == Cursor::start(data@),
    {
        ByteIter {
            data,
            taken: 0,
            exhausted: false,
            position_limit: None,
            latest_message_byte: None,
            running_status_detected: false,
        }
    }

    /// The index of the byte read last, if any read has been made.
    pub fn position(&self) -> (r: Option<u64>)
        ensures
            r == (if self@.has_position() {
                Some(self@.position() as u64)
            } else {
                None
            }),
            self@.position() <= u64::MAX,
    {
        proof {
            use_type_invariant(self);
        }
        if self.exhausted {
            Some(self.data.len() as u64)
        } else if self.taken == 0 {
            None
        } else {
            Some((self.taken - 1) as u64)
        }
    }

    fn position_or_zero(&self) -> (r: u64)
        ensures
            r == self@.position(),
    {
        match self.position() {
            Some(p) => p,
            None => 0,
        }
    }

    /// Reads a single byte and advances. Gives `None` at the end of the
    /// source and at the limit.
    pub fn read(&mut self) -> (r: Option<u8>)
        ensures
            final(self)@ == old(self)@.read().0,
            r == old(self)@.read().1,
    {
        proof {
            use_type_invariant(&*self);
        }
        if let Some(limit) = self.position_limit {
            if let Some(position) = self.position() {
                if position >= limit {
                    return None;
                }
            }
        }
        if self.taken < self.data.len() {
            let byte = self.data[self.taken];
            self.taken = self.taken + 1;
            Some(byte)
        } else {
            self.exhausted = true;
            None
        }
    }

    /// Reads a single byte, which must be there.
    pub fn read_or_die(&mut self) -> (r: Result<u8, Error>)
        ensures
            final(self)@ == old(self)@.read_or_die().cursor,
            agrees(r, old(self)@.read_or_die().result),
    {
        match self.read() {
            Some(byte) => Ok(byte),
            None => Err(Error::new(ErrorKind::EndOfInput { position: self.position_or_zero() })),
        }
    }

    /// Reads exactly `num_bytes` bytes.
    pub fn read_n(&mut self, num_bytes: usize) -> (r: Result<Vec<u8>, Error>)
        ensures
            final(self)@ == old(self)@.take(num_bytes as nat).cursor,
            match old(self)@.take(num_bytes as nat).result {
                Ok(bytes) => r matches Ok(v) && v@ == bytes && v@.len() == num_bytes,
                Err(k) => agrees(r, Err(k)),
            },
    {
        let ghost origin = self@;
        proof {
            origin.lemma_take_length(num_bytes as nat);
        }
        let mut bytes: Vec<u8> = Vec::new();
        let mut i: usize = 0;
        while i < num_bytes
            invariant
                i <= num_bytes,
                origin == old(self)@,
                self@ == origin.take(i as nat).cursor,
                origin.take(i as nat).result == Ok::<Seq<u8>, ErrorKind>(bytes@),
            decreases num_bytes - i,
        {
            proof {
                origin.lemma_take_one_more(i as nat);
            }
            match self.read_or_die() {
                Ok(byte) => {
                    bytes.push(byte);
                },
                Err(e) => {
                    proof {
                        origin.lemma_take_fails_on((i + 1) as nat, num_bytes as nat);
                    }
                    return Err(e);
                },
            }
            i = i + 1;
        }
        Ok(bytes)
    }

    /// Reads two bytes.
    pub fn read2(&mut self) -> (r: Result<[u8; 2], Error>)
        ensures
            final(self)@ == old(self)@.take(2).cursor,
            match old(self)@.take(2).result {
                Ok(bytes) => r matches Ok(a) && a@ == bytes,
                Err(k) => agrees(r, Err(k)),
            },
    {
        let ghost origin = self@;
        proof {
            origin.lemma_take_one_more(0);
        }
        let first = match self.read_or_die() {
            Ok(byte) => byte,
            Err(e) => {
                proof {
                    origin.lemma_take_fails_on(1, 2);
                }
                return Err(e);
            },
        };
        proof {
            origin.lemma_take_one_more(1);
        }
        let second = match self.read_or_die() {
            Ok(byte) => byte,
            Err(e) => {
                return Err(e);
            },
        };
        let bytes = [first, second];
        assert(bytes@ =~= Seq::<u8>::empty().push(first).push(second));
        Ok(bytes)
    }

    /// Reads four bytes.
    pub fn read4(&mut self) -> (r: Result<[u8; 4], Error>)
        ensures
            final(self)@ == old(self)@.take(4).cursor,
            match old(self)@.take(4).result {
                Ok(bytes) => r matches Ok(a) && a@ == bytes,
                Err(k) => agrees(r, Err(k)),
            },
    {
        let ghost origin = self@;
        proof {
            origin.lemma_take_one_more(0);
        }
        let first = match self.read_or_die() {
            Ok(byte) => byte,
            Err(e) => {
                proof {
                    origin.lemma_take_fails_on(1, 4);
                }
                return Err(e);
            },
        };
        proof {
            origin.lemma_take_one_more(1);
        }
        let second = match self.read_or_die() {
            Ok(byte) => byte,
            Err(e) => {
                proof {
                    origin.lemma_take_fails_on(2, 4);
                }
                return Err(e);
            },
        };
        proof {
            origin.lemma_take_one_more(2);
        }
        let third = match self.read_or_die() {
            Ok(byte) => byte,
            Err(e) => {
                proof {
                    origin.lemma_take_fails_on(3, 4);
                }
                return Err(e);
            },
        };
        proof {
            origin.lemma_take_one_more(3);
        }
        let fourth = match self.read_or_die() {
            Ok(byte) => byte,
            Err(e) => {
                return Err(e);
            },
        };
        let bytes = [first, second, third, fourth];
        assert(bytes@ =~= Seq::<u8>::empty().push(first).push(second).push(third).push(fourth));
        Ok(bytes)
    }

    /// Reads two bytes as a big-endian number.
    pub fn read_u16(&mut self) -> (r: Result<u16, Error>)
        ensures
            final(self)@ == old(self)@.read_u16().cursor,
            agrees(r, old(self)@.read_u16().result),
    {
        match self.read2() {
            Ok(bytes) => Ok((bytes[0] as u16) * 256 + (bytes[1] as u16)),
            Err(e) => Err(e),
        }
    }

    /// Reads four bytes as a big-endian number.
    pub fn read_u32(&mut self) -> (r: Result<u32, Error>)
        ensures
            final(self)@ == old(self)@.read_u32().cursor,
            agrees(r, old(self)@.read_u32().result),
    {
        match self.read4() {
            Ok(bytes) => Ok(
                (((bytes[0] as u32) * 256 + (bytes[1] as u32)) * 256 + (bytes[2] as u32)) * 256 + (
                bytes[3] as u32),
            ),
            Err(e) => Err(e),
        }
    }

    /// Reads the bytes of one variable-length quantity.
    pub fn read_vlq_bytes(&mut self) -> (r: Result<Vec<u8>, Error>)
        ensures
            final(self)@ == old(self)@.read_vlq_bytes().cursor,
            match old(self)@.read_vlq_bytes().result {
                Ok(bytes) => r matches Ok(v) && v@ == bytes,
                Err(k) => agrees(r, Err(k)),
            },
    {
        let ghost origin = self@;
        let mut retval: Vec<u8> = Vec::new();
        let mut current_byte: u8 = crate::vlq::CONTINUE;
        while current_byte >= crate::vlq::CONTINUE
            invariant
                retval@.len() <= 5,
                origin == old(self)@,
                retval@.len() > 0 ==> retval@.last() == current_byte,
                retval@.len() == 0 ==> current_byte >= 128,
                origin.read_vlq_bytes() == self@.collect_vlq(retval@),
            decreases 5 - retval@.len(),
        {
            if retval.len() > 4 {
                return Err(Error::new(ErrorKind::VlqTooLong { position: self.position_or_zero() }));
            }
            current_byte = match self.read_or_die() {
                Ok(byte) => byte,
                Err(e) => {
                    return Err(e);
                },
            };
            retval.push(current_byte);
        }
        Ok(retval)
    }

    /// Reads one variable-length quantity.
    pub fn read_vlq_u32(&mut self) -> (r: Result<u32, Error>)
        ensures
            final(self)@ == old(self)@.read_vlq_u32().cursor,
            agrees(r, old(self)@.read_vlq_u32().result),
    {
        let bytes = match self.read_vlq_bytes() {
            Ok(bytes) => bytes,
            Err(e) => {
                return Err(e);
            },
        };
        match decode_slice(bytes.as_slice()) {
            Ok(value) => Ok(value),
            Err(error) => Err(
                Error::new(ErrorKind::Vlq { error, position: self.position_or_zero() }),
            ),
        }
    }

    /// The byte read last.
    pub fn current(&self) -> (r: Option<u8>)
        ensures
            r == self@.current(),
    {
        proof {
            use_type_invariant(self);
        }
        if self.exhausted || self.taken == 0 {
            None
        } else {
            Some(self.data[self.taken - 1])
        }
    }

    fn look(&self, k: usize) -> (r: Option<u8>)
        requires
            k < 3,
        ensures
            r == self@.ahead(k as nat),
    {
        proof {
            use_type_invariant(self);
        }
        if k < self.data.len() - self.taken {
            Some(self.data[self.taken + k])
        } else {
            None
        }
    }

    /// The next byte, which must be there, without reading it.
    pub fn peek_or_die(&self) -> (r: Result<u8, Error>)
        ensures
            agrees(r, self@.peek_or_die()),
    {
        match self.look(0) {
            Some(byte) => Ok(byte),
            None => Err(Error::new(ErrorKind::EndOfInput { position: self.position_or_zero() })),
        }
    }

    /// The next byte, without reading it.
    pub fn peek(&self) -> (r: Option<u8>)
        ensures
            r == self@.ahead(0),
    {
        self.look(0)
    }

    /// The byte after the next, without reading it.
    pub fn peek2(&self) -> (r: Option<u8>)
        ensures
            r == self@.ahead(1),
    {
        self.look(1)
    }

    /// The byte two after the next, without reading it.
    pub fn peek3(&self) -> (r: Option<u8>)
        ensures
            r == self@.ahead(2),
    {
        self.look(2)
    }

    /// Whether reading is over: the limit is reached, or no byte is current.
    pub fn is_end(&self) -> (r: bool)
        ensures
            r == self@.is_end(),
    {
        if let Some(limit) = self.position_limit {
            if let Some(position) = self.position() {
                if position >= limit {
                    return true;
                }
            }
        }
        self.current().is_none()
    }

    /// Reads four bytes, which must be the chunk tag.
    pub fn expect_tag(&mut self, expected_tag: &[u8; 4]) -> (r: Result<(), Error>)
        ensures
            final(self)@ == old(self)@.expect_tag(expected_tag@).cursor,
            agrees(r, old(self)@.expect_tag(expected_tag@).result),
    {
        let tag_bytes = match self.read4() {
            Ok(bytes) => bytes,
            Err(e) => {
                return Err(e);
            },
        };
        if tag_bytes[0] == expected_tag[0] && tag_bytes[1] == expected_tag[1] && tag_bytes[2]
            == expected_tag[2] && tag_bytes[3] == expected_tag[3] {
            assert(tag_bytes@ =~= expected_tag@);
            Ok(())
        } else {
            Err(Error::new(ErrorKind::TagMismatch { position: self.position_or_zero() }))
        }
    }

    /// Whether the current byte begins the chunk tag.
    pub fn is_tag(&self, expected_tag: &[u8; 4]) -> (r: bool)
        ensures
            r == self@.is_tag(expected_tag@),
    {
        let first = match self.current() {
            None => {
                return false;
            },
            Some(value) => value,
        };
        let second = match self.peek() {
            None => {
                return false;
            },
            Some(value) => value,
        };
        let third = match self.peek2() {
            None => {
                return false;
            },
            Some(value) => value,
        };
        let fourth = match self.peek3() {
            None => {
                return false;
            },
            Some(value) => value,
        };
        first == expected_tag[0] && second == expected_tag[1] && third == expected_tag[2] && fourth
            == expected_tag[3]
    }

    /// Bounds reading to the next `size` bytes: once they are read, the
    /// reader reports that it is at the end.
    pub fn set_size_limit(&mut self, size: u64)
        ensures
            final(self)@ == old(self)@.set_size_limit(size),
    {
        proof {
            use_type_invariant(&*self);
        }
        self.position_limit = self.position_or_zero().checked_add(size);
    }

    /// Lifts the limit.
    pub fn clear_size_limit(&mut self)
        ensures
            final(self)@ == old(self)@.clear_size_limit(),
    {
        proof {
            use_type_invariant(&*self);
        }
        self.position_limit = None;
    }

    /// Reads one byte, which must have the value `expected`.
    pub fn read_expect(&mut self, expected: u8) -> (r: Result<(), Error>)
        ensures
            final(self)@ == old(self)@.read_expect(expected).cursor,
            agrees(r, old(self)@.read_expect(expected).result),
    {
        let found = match self.read_or_die() {
            Ok(byte) => byte,
            Err(e) => {
                return Err(e);
            },
        };
        if expected == found {
            Ok(())
        } else {
            Err(
                Error::new(
                    ErrorKind::UnexpectedByte {
                        expected,
                        found,
                        position: self.position_or_zero(),
                    },
                ),
            )
        }
    }

    /// The status byte read last.
    pub fn latest_message_byte(&self) -> (r: Option<u8>)
        ensures
            r == self@.latest_status,
    {
        self.latest_message_byte
    }

    /// Records the status byte read last.
    pub fn set_latest_message_byte(&mut self, value: Option<u8>)
        ensures
            final(self)@ == (Cursor { latest_status: value, ..old(self)@ }),
    {
        proof {
            use_type_invariant(&*self);
        }
        self.latest_message_byte = value;
    }

    /// Whether a data byte has been met in status position.
    pub fn is_running_status_detected(&self) -> (r: bool)
        ensures
            r == self@.running_status,
    {
        self.running_status_detected
    }

    /// Records that a data byte was met in status position.
    pub fn set_running_status_detected(&mut self)
        ensures
            final(self)@ == (Cursor { running_status: true, ..old(self)@ }),
    {
        proof {
            use_type_invariant(&*self);
        }
        self.running_status_detected = true;
    }
}

} // verus!
