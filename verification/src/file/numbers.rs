//! The clamped integer types of the file format.

use crate::midi::numbers::clamped;
use vstd::prelude::*;
use vstd::std_specs::convert::FromSpecImpl;

verus! {

/// The number of delta-time ticks in a quarter note, where the division of
/// a file counts in quarter notes: a positive 14-bit number. The minimum
/// value is `1`, the maximum value is `16383`, the default is `1024`.
/// Values out of range are clamped.
#[derive(Clone, Copy, Debug, PartialEq, Eq, PartialOrd, Ord, Hash, Structural)]
pub struct QuarterNoteDivision(u16);

impl QuarterNoteDivision {
    #[verifier::type_invariant]
    spec fn within_bounds(self) -> bool {
        1 <= self.0 && self.0 <= 16383
    }

    /// The inner value.
    pub closed spec fn value(self) -> int {
        self.0 as int
    }

    /// The value that `new` makes of `value`.
    pub closed spec fn spec_new(value: u16) -> Self {
        QuarterNoteDivision(clamped(value as int, 1, 16383) as u16)
    }

    /// Whether the inner value lies in `1..=16383`.
    pub open spec fn in_range(self) -> bool {
        1 <= self.value() <= 16383
    }

    /// Silently clamps the value if it is out of range. See [`Self::set`].
    pub fn new(value: u16) -> (r: Self)
        ensures
            r == Self::spec_new(value),
            r.value() == clamped(value as int, 1, 16383),
    {
        if value < 1 {
            QuarterNoteDivision(1)
        } else if value > 16383 {
            QuarterNoteDivision(16383)
        } else {
            QuarterNoteDivision(value)
        }
    }

    /// Returns the inner value.
    pub fn get(&self) -> (r: u16)
        ensures
            r as int == self.value(),
            self.in_range(),
    {
        proof {
            use_type_invariant(self);
        }
        self.0
    }

    /// Clamps and sets. Returns `true` if `value` was in range, `false` if
    /// it had to be moved to the nearest bound.
    pub fn set(&mut self, value: u16) -> (r: bool)
        ensures
            *final(self) == Self::spec_new(value),
            r == (1 <= value <= 16383),
    {
        *self = QuarterNoteDivision::new(value);
        value >= 1 && value <= 16383
    }

    /// What `spec_new` holds: the clamped value, which lies in range.
    pub proof fn lemma_spec_new(value: u16)
        ensures
            Self::spec_new(value).value() == clamped(value as int, 1, 16383),
            Self::spec_new(value).in_range(),
    {
    }

    /// A value in range is the one that `new` makes of its inner value, so
    /// two values in range with the same inner value are the same.
    pub proof fn lemma_spec_new_of_value(self)
        requires
            self.in_range(),
        ensures
            Self::spec_new(self.value() as u16) == self,
    {
    }
}

impl Default for QuarterNoteDivision {
    fn default() -> (r: Self)
        ensures
            r == Self::spec_new(1024),
    {
        QuarterNoteDivision::new(1024)
    }
}

impl From<u16> for QuarterNoteDivision {
    fn from(value: u16) -> (r: Self) {
        QuarterNoteDivision::new(value)
    }
}

impl FromSpecImpl<u16> for QuarterNoteDivision {
    open spec fn obeys_from_spec() -> bool {
        true
    }

    closed spec fn from_spec(value: u16) -> Self {
        Self::spec_new(value)
    }
}

impl From<QuarterNoteDivision> for u16 {
    fn from(value: QuarterNoteDivision) -> (r: u16) {
        value.get()
    }
}

impl FromSpecImpl<QuarterNoteDivision> for u16 {
    open spec fn obeys_from_spec() -> bool {
        true
    }

    open spec fn from_spec(value: QuarterNoteDivision) -> u16 {
        value.value() as u16
    }
}

/// The number of flats or sharps in a key signature: `-2` means two flats,
/// `3` means three sharps. The minimum value is `-7`, the maximum value
/// is `7`. Values out of range are clamped.
#[derive(Clone, Copy, Debug, PartialEq, Eq, PartialOrd, Ord, Hash, Structural)]
pub struct KeyAccidentals(i8);

impl KeyAccidentals {
    #[verifier::type_invariant]
    spec fn within_bounds(self) -> bool {
        -7 <= self.0 && self.0 <= 7
    }

    /// The inner value.
    pub closed spec fn value(self) -> int {
        self.0 as int
    }

    /// The value that `new` makes of `value`.
    pub closed spec fn spec_new(value: i8) -> Self {
        KeyAccidentals(clamped(value as int, -7, 7) as i8)
    }

    /// Whether the inner value lies in `-7..=7`.
    pub open spec fn in_range(self) -> bool {
        -7 <= self.value() <= 7
    }

    /// Silently clamps the value if it is out of range. See [`Self::set`].
    pub fn new(value: i8) -> (r: Self)
        ensures
            r == Self::spec_new(value),
            r.value() == clamped(value as int, -7, 7),
    {
        if value < -7 {
            KeyAccidentals(-7)
        } else if value > 7 {
            KeyAccidentals(7)
        } else {
            KeyAccidentals(value)
        }
    }

    /// Returns the inner value.
    pub fn get(&self) -> (r: i8)
        ensures
            r as int == self.value(),
            self.in_range(),
    {
        proof {
            use_type_invariant(self);
        }
        self.0
    }

    /// Clamps and sets. Returns `true` if `value` was in range, `false` if
    /// it had to be moved to the nearest bound.
    pub fn set(&mut self, value: i8) -> (r: bool)
        ensures
            *final(self) == Self::spec_new(value),
            r == (-7 <= value <= 7),
    {
        *self = KeyAccidentals::new(value);
        value >= -7 && value <= 7
    }

    /// What `spec_new` holds: the clamped value, which lies in range.
    pub proof fn lemma_spec_new(value: i8)
        ensures
            Self::spec_new(value).value() == clamped(value as int, -7, 7),
            Self::spec_new(value).in_range(),
    {
    }

    /// A value in range is the one that `new` makes of its inner value, so
    /// two values in range with the same inner value are the same.
    pub proof fn lemma_spec_new_of_value(self)
        requires
            self.in_range(),
        ensures
            Self::spec_new(self.value() as i8) == self,
    {
    }
}

impl Default for KeyAccidentals {
    fn default() -> (r: Self)
        ensures
            r == Self::spec_new(0),
    {
        KeyAccidentals::new(0)
    }
}

impl From<i8> for KeyAccidentals {
    fn from(value: i8) -> (r: Self) {
        KeyAccidentals::new(value)
    }
}

impl FromSpecImpl<i8> for KeyAccidentals {
    open spec fn obeys_from_spec() -> bool {
        true
    }

    closed spec fn from_spec(value: i8) -> Self {
        Self::spec_new(value)
    }
}

impl From<KeyAccidentals> for i8 {
    fn from(value: KeyAccidentals) -> (r: i8) {
        value.get()
    }
}

impl FromSpecImpl<KeyAccidentals> for i8 {
    open spec fn obeys_from_spec() -> bool {
        true
    }

    open spec fn from_spec(value: KeyAccidentals) -> i8 {
        value.value() as i8
    }
}

/// A tempo in microseconds per quarter note, which the file holds in three
/// bytes. The minimum value is `1`, since `0` would be an infinitely fast
/// tempo; the maximum value is `16777215`; the default is `500000`, which
/// is 120 beats per minute. Values out of range are clamped.
#[derive(Clone, Copy, Debug, PartialEq, Eq, PartialOrd, Ord, Hash, Structural)]
pub struct MicrosecondsPerQuarter(u32);

impl MicrosecondsPerQuarter {
    #[verifier::type_invariant]
    spec fn within_bounds(self) -> bool {
        1 <= self.0 && self.0 <= 16777215
    }

    /// The inner value.
    pub closed spec fn value(self) -> int {
        self.0 as int
    }

    /// The value that `new` makes of `value`.
    pub closed spec fn spec_new(value: u32) -> Self {
        MicrosecondsPerQuarter(clamped(value as int, 1, 16777215) as u32)
    }

    /// Whether the inner value lies in `1..=16777215`.
    pub open spec fn in_range(self) -> bool {
        1 <= self.value() <= 16777215
    }

    /// Silently clamps the value if it is out of range. See [`Self::set`].
    pub fn new(value: u32) -> (r: Self)
        ensures
            r == Self::spec_new(value),
            r.value() == clamped(value as int, 1, 16777215),
    {
        if value < 1 {
            MicrosecondsPerQuarter(1)
        } else if value > 16777215 {
            MicrosecondsPerQuarter(16777215)
        } else {
            MicrosecondsPerQuarter(value)
        }
    }

    /// Returns the inner value.
    pub fn get(&self) -> (r: u32)
        ensures
            r as int == self.value(),
            self.in_range(),
    {
        proof {
            use_type_invariant(self);
        }
        self.0
    }

    /// Clamps and sets. Returns `true` if `value` was in range, `false` if
    /// it had to be moved to the nearest bound.
    pub fn set(&mut self, value: u32) -> (r: bool)
        ensures
            *final(self) == Self::spec_new(value),
            r == (1 <= value <= 16777215),
    {
        *self = MicrosecondsPerQuarter::new(value);
        value >= 1 && value <= 16777215
    }

    /// What `spec_new` holds: the clamped value, which lies in range.
    pub proof fn lemma_spec_new(value: u32)
        ensures
            Self::spec_new(value).value() == clamped(value as int, 1, 16777215),
            Self::spec_new(value).in_range(),
    {
    }

    /// A value in range is the one that `new` makes of its inner value, so
    /// two values in range with the same inner value are the same.
    pub proof fn lemma_spec_new_of_value(self)
        requires
            self.in_range(),
        ensures
            Self::spec_new(self.value() as u32) == self,
    {
    }
}

impl Default for MicrosecondsPerQuarter {
    fn default() -> (r: Self)
        ensures
            r == Self::spec_new(500000),
    {
        MicrosecondsPerQuarter::new(500000)
    }
}

impl From<u32> for MicrosecondsPerQuarter {
    fn from(value: u32) -> (r: Self) {
        MicrosecondsPerQuarter::new(value)
    }
}

impl FromSpecImpl<u32> for MicrosecondsPerQuarter {
    open spec fn obeys_from_spec() -> bool {
        true
    }

    closed spec fn from_spec(value: u32) -> Self {
        Self::spec_new(value)
    }
}

impl From<MicrosecondsPerQuarter> for u32 {
    fn from(value: MicrosecondsPerQuarter) -> (r: u32) {
        value.get()
    }
}

impl FromSpecImpl<MicrosecondsPerQuarter> for u32 {
    open spec fn obeys_from_spec() -> bool {
        true
    }

    open spec fn from_spec(value: MicrosecondsPerQuarter) -> u32 {
        value.value() as u32
    }
}

/// A tempo in quarter notes per minute, closer to the way tempo is spoken
/// of ("120 beats per minute") and not part of the file format. The
/// minimum value is `1`, the maximum value is `255`, the default is `120`.
/// Values out of range are clamped.
#[derive(Clone, Copy, Debug, PartialEq, Eq, PartialOrd, Ord, Hash, Structural)]
pub struct QuartersPerMinute(u8);

impl QuartersPerMinute {
    #[verifier::type_invariant]
    spec fn within_bounds(self) -> bool {
        1 <= self.0
    }

    /// The inner value.
    pub closed spec fn value(self) -> int {
        self.0 as int
    }

    /// The value that `new` makes of `value`.
    pub closed spec fn spec_new(value: u8) -> Self {
        QuartersPerMinute(clamped(value as int, 1, 255) as u8)
    }

    /// Whether the inner value lies in `1..=255`.
    pub open spec fn in_range(self) -> bool {
        1 <= self.value() <= 255
    }

    /// Silently clamps the value if it is out of range. See [`Self::set`].
    pub fn new(value: u8) -> (r: Self)
        ensures
            r == Self::spec_new(value),
            r.value() == clamped(value as int, 1, 255),
    {
        if value < 1 {
            QuartersPerMinute(1)
        } else {
            QuartersPerMinute(value)
        }
    }

    /// Returns the inner value.
    pub fn get(&self) -> (r: u8)
        ensures
            r as int == self.value(),
            self.in_range(),
    {
        proof {
            use_type_invariant(self);
        }
        self.0
    }

    /// Clamps and sets. Returns `true` if `value` was in range, `false` if
    /// it had to be moved to the nearest bound.
    pub fn set(&mut self, value: u8) -> (r: bool)
        ensures
            *final(self) == Self::spec_new(value),
            r == (1 <= value <= 255),
    {
        *self = QuartersPerMinute::new(value);
        value >= 1
    }

    /// What `spec_new` holds: the clamped value, which lies in range.
    pub proof fn lemma_spec_new(value: u8)
        ensures
            Self::spec_new(value).value() == clamped(value as int, 1, 255),
            Self::spec_new(value).in_range(),
    {
    }

    /// A value in range is the one that `new` makes of its inner value, so
    /// two values in range with the same inner value are the same.
    pub proof fn lemma_spec_new_of_value(self)
        requires
            self.in_range(),
        ensures
            Self::spec_new(self.value() as u8) == self,
    {
    }
}

impl Default for QuartersPerMinute {
    fn default() -> (r: Self)
        ensures
            r == Self::spec_new(120),
    {
        QuartersPerMinute::new(120)
    }
}

impl From<u8> for QuartersPerMinute {
    fn from(value: u8) -> (r: Self) {
        QuartersPerMinute::new(value)
    }
}

impl FromSpecImpl<u8> for QuartersPerMinute {
    open spec fn obeys_from_spec() -> bool {
        true
    }

    closed spec fn from_spec(value: u8) -> Self {
        Self::spec_new(value)
    }
}

impl From<QuartersPerMinute> for u8 {
    fn from(value: QuartersPerMinute) -> (r: u8) {
        value.get()
    }
}

impl FromSpecImpl<QuartersPerMinute> for u8 {
    open spec fn obeys_from_spec() -> bool {
        true
    }

    open spec fn from_spec(value: QuartersPerMinute) -> u8 {
        value.value() as u8
    }
}

} // verus!
