//! Small integer types that silently clamp to the range that MIDI allows
//! for them.

use vstd::prelude::*;
use vstd::std_specs::convert::FromSpecImpl;

verus! {

/// The value of `x` moved to the nearest bound of `[lo, hi]`.
pub open spec fn clamped(x: int, lo: int, hi: int) -> int {
    if x < lo {
        lo
    } else if x > hi {
        hi
    } else {
        x
    }
}

/// The MIDI channel. The minimum value is `0`, the maximum value is `15`.
/// Values out of range are clamped.
#[derive(Clone, Copy, Debug, PartialEq, Eq, PartialOrd, Ord, Hash, Structural)]
pub struct Channel(u8);

impl Channel {
    #[verifier::type_invariant]
    spec fn within_bounds(self) -> bool {
        self.0 <= 15
    }

    /// The inner value.
    pub closed spec fn value(self) -> int {
        self.0 as int
    }

    /// The value that `new` makes of `value`.
    pub closed spec fn spec_new(value: u8) -> Self {
        Channel(clamped(value as int, 0, 15) as u8)
    }

    /// Whether the inner value lies in `0..=15`.
    pub open spec fn in_range(self) -> bool {
        0 <= self.value() <= 15
    }

    /// Silently clamps the value if it is out of range. See [`Self::set`].
    pub fn new(value: u8) -> (r: Self)
        ensures
            r == Self::spec_new(value),
            r.value() == clamped(value as int, 0, 15),
    {
        if value > 15 {
            Channel(15)
        } else {
            Channel(value)
        }
    }

    /// Returns the inner value.
    pub fn get(&self) -> (r: u8)
        ensures
            r as int == self.value(),
            self.in_range(),
    {
        proof {
            use_type_invariant(self);
        }
        self.0
    }

    /// Clamps and sets. Returns `true` if `value` was in range, `false` if
    /// it had to be moved to the nearest bound.
    pub fn set(&mut self, value: u8) -> (r: bool)
        ensures
            *final(self) == Self::spec_new(value),
            r == (0 <= value <= 15),
    {
        *self = Channel::new(value);
        value <= 15
    }

    /// What `spec_new` holds: the clamped value, which lies in range.
    pub proof fn lemma_spec_new(value: u8)
        ensures
            Self::spec_new(value).value() == clamped(value as int, 0, 15),
            Self::spec_new(value).in_range(),
    {
    }

    /// A value in range is the one that `new` makes of its inner value, so
    /// two values in range with the same inner value are the same.
    pub proof fn lemma_spec_new_of_value(self)
        requires
            self.in_range(),
        ensures
            Self::spec_new(self.value() as u8) == self,
    {
    }
}

impl Default for Channel {
    fn default() -> (r: Self)
        ensures
            r == Self::spec_new(0),
    {
        Channel::new(0)
    }
}

impl From<u8> for Channel {
    fn from(value: u8) -> (r: Self) {
        Channel::new(value)
    }
}

impl FromSpecImpl<u8> for Channel {
    open spec fn obeys_from_spec() -> bool {
        true
    }

    closed spec fn from_spec(value: u8) -> Self {
        Self::spec_new(value)
    }
}

impl From<Channel> for u8 {
    fn from(value: Channel) -> (r: u8) {
        value.get()
    }
}

impl FromSpecImpl<Channel> for u8 {
    open spec fn obeys_from_spec() -> bool {
        true
    }

    open spec fn from_spec(value: Channel) -> u8 {
        value.value() as u8
    }
}

/// The MIDI note number (`C4` is `60`, for example). The minimum value is
/// `0`, the maximum value is `127`. Values out of range are clamped.
#[derive(Clone, Copy, Debug, PartialEq, Eq, PartialOrd, Ord, Hash, Structural)]
pub struct NoteNumber(u8);

impl NoteNumber {
    #[verifier::type_invariant]
    spec fn within_bounds(self) -> bool {
        self.0 <= 127
    }

    /// The inner value.
    pub closed spec fn value(self) -> int {
        self.0 as int
    }

    /// The value that `new` makes of `value`.
    pub closed spec fn spec_new(value: u8) -> Self {
        NoteNumber(clamped(value as int, 0, 127) as u8)
    }

    /// Whether the inner value lies in `0..=127`.
    pub open spec fn in_range(self) -> bool {
        0 <= self.value() <= 127
    }

    /// Silently clamps the value if it is out of range. See [`Self::set`].
    pub fn new(value: u8) -> (r: Self)
        ensures
            r == Self::spec_new(value),
            r.value() == clamped(value as int, 0, 127),
    {
        if value > 127 {
            NoteNumber(127)
        } else {
            NoteNumber(value)
        }
    }

    /// Returns the inner value.
    pub fn get(&self) -> (r: u8)
        ensures
            r as int == self.value(),
            self.in_range(),
    {
        proof {
            use_type_invariant(self);
        }
        self.0
    }

    /// Clamps and sets. Returns `true` if `value` was in range, `false` if
    /// it had to be moved to the nearest bound.
    pub fn set(&mut self, value: u8) -> (r: bool)
        ensures
            *final(self) == Self::spec_new(value),
            r == (0 <= value <= 127),
    {
        *self = NoteNumber::new(value);
        value <= 127
    }

    /// What `spec_new` holds: the clamped value, which lies in range.
    pub proof fn lemma_spec_new(value: u8)
        ensures
            Self::spec_new(value).value() == clamped(value as int, 0, 127),
            Self::spec_new(value).in_range(),
    {
    }

    /// A value in range is the one that `new` makes of its inner value, so
    /// two values in range with the same inner value are the same.
    pub proof fn lemma_spec_new_of_value(self)
        requires
            self.in_range(),
        ensures
            Self::spec_new(self.value() as u8) == self,
    {
    }
}

impl Default for NoteNumber {
    fn default() -> (r: Self)
        ensures
            r == Self::spec_new(60),
    {
        NoteNumber::new(60)
    }
}

impl From<u8> for NoteNumber {
    fn from(value: u8) -> (r: Self) {
        NoteNumber::new(value)
    }
}

impl FromSpecImpl<u8> for NoteNumber {
    open spec fn obeys_from_spec() -> bool {
        true
    }

    closed spec fn from_spec(value: u8) -> Self {
        Self::spec_new(value)
    }
}

impl From<NoteNumber> for u8 {
    fn from(value: NoteNumber) -> (r: u8) {
        value.get()
    }
}

impl FromSpecImpl<NoteNumber> for u8 {
    open spec fn obeys_from_spec() -> bool {
        true
    }

    open spec fn from_spec(value: NoteNumber) -> u8 {
        value.value() as u8
    }
}

/// The MIDI velocity. The minimum value is `0`, the maximum value is `127`.
/// Values out of range are clamped.
#[derive(Clone, Copy, Debug, PartialEq, Eq, PartialOrd, Ord, Hash, Structural)]
pub struct Velocity(u8);

impl Velocity {
    #[verifier::type_invariant]
    spec fn within_bounds(self) -> bool {
        self.0 <= 127
    }

    /// The inner value.
    pub closed spec fn value(self) -> int {
        self.0 as int
    }

    /// The value that `new` makes of `value`.
    pub closed spec fn spec_new(value: u8) -> Self {
        Velocity(clamped(value as int, 0, 127) as u8)
    }

    /// Whether the inner value lies in `0..=127`.
    pub open spec fn in_range(self) -> bool {
        0 <= self.value() <= 127
    }

    /// Silently clamps the value if it is out of range. See [`Self::set`].
    pub fn new(value: u8) -> (r: Self)
        ensures
            r == Self::spec_new(value),
            r.value() == clamped(value as int, 0, 127),
    {
        if value > 127 {
            Velocity(127)
        } else {
            Velocity(value)
        }
    }

    /// Returns the inner value.
    pub fn get(&self) -> (r: u8)
        ensures
            r as int == self.value(),
            self.in_range(),
    {
        proof {
            use_type_invariant(self);
        }
        self.0
    }

    /// Clamps and sets. Returns `true` if `value` was in range, `false` if
    /// it had to be moved to the nearest bound.
    pub fn set(&mut self, value: u8) -> (r: bool)
        ensures
            *final(self) == Self::spec_new(value),
            r == (0 <= value <= 127),
    {
        *self = Velocity::new(value);
        value <= 127
    }

    /// What `spec_new` holds: the clamped value, which lies in range.
    pub proof fn lemma_spec_new(value: u8)
        ensures
            Self::spec_new(value).value() == clamped(value as int, 0, 127),
            Self::spec_new(value).in_range(),
    {
    }

    /// A value in range is the one that `new` makes of its inner value, so
    /// two values in range with the same inner value are the same.
    pub proof fn lemma_spec_new_of_value(self)
        requires
            self.in_range(),
        ensures
            Self::spec_new(self.value() as u8) == self,
    {
    }
}

impl Default for Velocity {
    fn default() -> (r: Self)
        ensures
            r == Self::spec_new(72),
    {
        Velocity::new(72)
    }
}

impl From<u8> for Velocity {
    fn from(value: u8) -> (r: Self) {
        Velocity::new(value)
    }
}

impl FromSpecImpl<u8> for Velocity {
    open spec fn obeys_from_spec() -> bool {
        true
    }

    closed spec fn from_spec(value: u8) -> Self {
        Self::spec_new(value)
    }
}

impl From<Velocity> for u8 {
    fn from(value: Velocity) -> (r: u8) {
        value.get()
    }
}

impl FromSpecImpl<Velocity> for u8 {
    open spec fn obeys_from_spec() -> bool {
        true
    }

    open spec fn from_spec(value: Velocity) -> u8 {
        value.value() as u8
    }
}

/// The MIDI program number. The minimum value is `0`, the maximum value is
/// `127`. Values out of range are clamped.
#[derive(Clone, Copy, Debug, PartialEq, Eq, PartialOrd, Ord, Hash, Structural)]
pub struct Program(u8);

impl Program {
    #[verifier::type_invariant]
    spec fn within_bounds(self) -> bool {
        self.0 <= 127
    }

    /// The inner value.
    pub closed spec fn value(self) -> int {
        self.0 as int
    }

    /// The value that `new` makes of `value`.
    pub closed spec fn spec_new(value: u8) -> Self {
        Program(clamped(value as int, 0, 127) as u8)
    }

    /// Whether the inner value lies in `0..=127`.
    pub open spec fn in_range(self) -> bool {
        0 <= self.value() <= 127
    }

    /// Silently clamps the value if it is out of range. See [`Self::set`].
    pub fn new(value: u8) -> (r: Self)
        ensures
            r == Self::spec_new(value),
            r.value() == clamped(value as int, 0, 127),
    {
        if value > 127 {
            Program(127)
        } else {
            Program(value)
        }
    }

    /// Returns the inner value.
    pub fn get(&self) -> (r: u8)
        ensures
            r as int == self.value(),
            self.in_range(),
    {
        proof {
            use_type_invariant(self);
        }
        self.0
    }

    /// Clamps and sets. Returns `true` if `value` was in range, `false` if
    /// it had to be moved to the nearest bound.
    pub fn set(&mut self, value: u8) -> (r: bool)
        ensures
            *final(self) == Self::spec_new(value),
            r == (0 <= value <= 127),
    {
        *self = Program::new(value);
        value <= 127
    }

    /// What `spec_new` holds: the clamped value, which lies in range.
    pub proof fn lemma_spec_new(value: u8)
        ensures
            Self::spec_new(value).value() == clamped(value as int, 0, 127),
            Self::spec_new(value).in_range(),
    {
    }

    /// A value in range is the one that `new` makes of its inner value, so
    /// two values in range with the same inner value are the same.
    pub proof fn lemma_spec_new_of_value(self)
        requires
            self.in_range(),
        ensures
            Self::spec_new(self.value() as u8) == self,
    {
    }
}

impl Default for Program {
    fn default() -> (r: Self)
        ensures
            r == Self::spec_new(0),
    {
        Program::new(0)
    }
}

impl From<u8> for Program {
    fn from(value: u8) -> (r: Self) {
        Program::new(value)
    }
}

impl FromSpecImpl<u8> for Program {
    open spec fn obeys_from_spec() -> bool {
        true
    }

    closed spec fn from_spec(value: u8) -> Self {
        Self::spec_new(value)
    }
}

impl From<Program> for u8 {
    fn from(value: Program) -> (r: u8) {
        value.get()
    }
}

impl FromSpecImpl<Program> for u8 {
    open spec fn obeys_from_spec() -> bool {
        true
    }

    open spec fn from_spec(value: Program) -> u8 {
        value.value() as u8
    }
}

/// The number of channels in mono mode. The minimum value is `0`, the
/// maximum value is `127`. Values out of range are clamped.
#[derive(Clone, Copy, Debug, PartialEq, Eq, PartialOrd, Ord, Hash, Structural)]
pub struct MonoModeChannels(u8);

impl MonoModeChannels {
    #[verifier::type_invariant]
    spec fn within_bounds(self) -> bool {
        self.0 <= 127
    }

    /// The inner value.
    pub closed spec fn value(self) -> int {
        self.0 as int
    }

    /// The value that `new` makes of `value`.
    pub closed spec fn spec_new(value: u8) -> Self {
        MonoModeChannels(clamped(value as int, 0, 127) as u8)
    }

    /// Whether the inner value lies in `0..=127`.
    pub open spec fn in_range(self) -> bool {
        0 <= self.value() <= 127
    }

    /// Silently clamps the value if it is out of range. See [`Self::set`].
    pub fn new(value: u8) -> (r: Self)
        ensures
            r == Self::spec_new(value),
            r.value() == clamped(value as int, 0, 127),
    {
        if value > 127 {
            MonoModeChannels(127)
        } else {
            MonoModeChannels(value)
        }
    }

    /// Returns the inner value.
    pub fn get(&self) -> (r: u8)
        ensures
            r as int == self.value(),
            self.in_range(),
    {
        proof {
            use_type_invariant(self);
        }
        self.0
    }

    /// Clamps and sets. Returns `true` if `value` was in range, `false` if
    /// it had to be moved to the nearest bound.
    pub fn set(&mut self, value: u8) -> (r: bool)
        ensures
            *final(self) == Self::spec_new(value),
            r == (0 <= value <= 127),
    {
        *self = MonoModeChannels::new(value);
        value <= 127
    }

    /// What `spec_new` holds: the clamped value, which lies in range.
    pub proof fn lemma_spec_new(value: u8)
        ensures
            Self::spec_new(value).value() == clamped(value as int, 0, 127),
            Self::spec_new(value).in_range(),
    {
    }

    /// A value in range is the one that `new` makes of its inner value, so
    /// two values in range with the same inner value are the same.
    pub proof fn lemma_spec_new_of_value(self)
        requires
            self.in_range(),
        ensures
            Self::spec_new(self.value() as u8) == self,
    {
    }
}

impl Default for MonoModeChannels {
    fn default() -> (r: Self)
        ensures
            r == Self::spec_new(0),
    {
        MonoModeChannels::new(0)
    }
}

impl From<u8> for MonoModeChannels {
    fn from(value: u8) -> (r: Self) {
        MonoModeChannels::new(value)
    }
}

impl FromSpecImpl<u8> for MonoModeChannels {
    open spec fn obeys_from_spec() -> bool {
        true
    }

    closed spec fn from_spec(value: u8) -> Self {
        Self::spec_new(value)
    }
}

impl From<MonoModeChannels> for u8 {
    fn from(value: MonoModeChannels) -> (r: u8) {
        value.get()
    }
}

impl FromSpecImpl<MonoModeChannels> for u8 {
    open spec fn obeys_from_spec() -> bool {
        true
    }

    open spec fn from_spec(value: MonoModeChannels) -> u8 {
        value.value() as u8
    }
}

/// A MIDI control value. The minimum value is `0`, the maximum value is
/// `127`. Values out of range are clamped.
#[derive(Clone, Copy, Debug, PartialEq, Eq, PartialOrd, Ord, Hash, Structural)]
pub struct ControlValue(u8);

impl ControlValue {
    #[verifier::type_invariant]
    spec fn within_bounds(self) -> bool {
        self.0 <= 127
    }

    /// The inner value.
    pub closed spec fn value(self) -> int {
        self.0 as int
    }

    /// The value that `new` makes of `value`.
    pub closed spec fn spec_new(value: u8) -> Self {
        ControlValue(clamped(value as int, 0, 127) as u8)
    }

    /// Whether the inner value lies in `0..=127`.
    pub open spec fn in_range(self) -> bool {
        0 <= self.value() <= 127
    }

    /// Silently clamps the value if it is out of range. See [`Self::set`].
    pub fn new(value: u8) -> (r: Self)
        ensures
            r == Self::spec_new(value),
            r.value() == clamped(value as int, 0, 127),
    {
        if value > 127 {
            ControlValue(127)
        } else {
            ControlValue(value)
        }
    }

    /// Returns the inner value.
    pub fn get(&self) -> (r: u8)
        ensures
            r as int == self.value(),
            self.in_range(),
    {
        proof {
            use_type_invariant(self);
        }
        self.0
    }

    /// Clamps and sets. Returns `true` if `value` was in range, `false` if
    /// it had to be moved to the nearest bound.
    pub fn set(&mut self, value: u8) -> (r: bool)
        ensures
            *final(self) == Self::spec_new(value),
            r == (0 <= value <= 127),
    {
        *self = ControlValue::new(value);
        value <= 127
    }

    /// What `spec_new` holds: the clamped value, which lies in range.
    pub proof fn lemma_spec_new(value: u8)
        ensures
            Self::spec_new(value).value() == clamped(value as int, 0, 127),
            Self::spec_new(value).in_range(),
    {
    }

    /// A value in range is the one that `new` makes of its inner value, so
    /// two values in range with the same inner value are the same.
    pub proof fn lemma_spec_new_of_value(self)
        requires
            self.in_range(),
        ensures
            Self::spec_new(self.value() as u8) == self,
    {
    }
}

impl Default for ControlValue {
    fn default() -> (r: Self)
        ensures
            r == Self::spec_new(0),
    {
        ControlValue::new(0)
    }
}

impl From<u8> for ControlValue {
    fn from(value: u8) -> (r: Self) {
        ControlValue::new(value)
    }
}

impl FromSpecImpl<u8> for ControlValue {
    open spec fn obeys_from_spec() -> bool {
        true
    }

    closed spec fn from_spec(value: u8) -> Self {
        Self::spec_new(value)
    }
}

impl From<ControlValue> for u8 {
    fn from(value: ControlValue) -> (r: u8) {
        value.get()
    }
}

impl FromSpecImpl<ControlValue> for u8 {
    open spec fn obeys_from_spec() -> bool {
        true
    }

    open spec fn from_spec(value: ControlValue) -> u8 {
        value.value() as u8
    }
}

/// The port number of the port meta-event. The minimum value is `0`, the
/// maximum value is `127`. Values out of range are clamped.
#[derive(Clone, Copy, Debug, PartialEq, Eq, PartialOrd, Ord, Hash, Structural)]
pub struct PortValue(u8);

impl PortValue {
    #[verifier::type_invariant]
    spec fn within_bounds(self) -> bool {
        self.0 <= 127
    }

    /// The inner value.
    pub closed spec fn value(self) -> int {
        self.0 as int
    }

    /// The value that `new` makes of `value`.
    pub closed spec fn spec_new(value: u8) -> Self {
        PortValue(clamped(value as int, 0, 127) as u8)
    }

    /// Whether the inner value lies in `0..=127`.
    pub open spec fn in_range(self) -> bool {
        0 <= self.value() <= 127
    }

    /// Silently clamps the value if it is out of range. See [`Self::set`].
    pub fn new(value: u8) -> (r: Self)
        ensures
            r == Self::spec_new(value),
            r.value() == clamped(value as int, 0, 127),
    {
        if value > 127 {
            PortValue(127)
        } else {
            PortValue(value)
        }
    }

    /// Returns the inner value.
    pub fn get(&self) -> (r: u8)
        ensures
            r as int == self.value(),
            self.in_range(),
    {
        proof {
            use_type_invariant(self);
        }
        self.0
    }

    /// Clamps and sets. Returns `true` if `value` was in range, `false` if
    /// it had to be moved to the nearest bound.
    pub fn set(&mut self, value: u8) -> (r: bool)
        ensures
            *final(self) == Self::spec_new(value),
            r == (0 <= value <= 127),
    {
        *self = PortValue::new(value);
        value <= 127
    }

    /// What `spec_new` holds: the clamped value, which lies in range.
    pub proof fn lemma_spec_new(value: u8)
        ensures
            Self::spec_new(value).value() == clamped(value as int, 0, 127),
            Self::spec_new(value).in_range(),
    {
    }

    /// A value in range is the one that `new` makes of its inner value, so
    /// two values in range with the same inner value are the same.
    pub proof fn lemma_spec_new_of_value(self)
        requires
            self.in_range(),
        ensures
            Self::spec_new(self.value() as u8) == self,
    {
    }
}

impl Default for PortValue {
    fn default() -> (r: Self)
        ensures
            r == Self::spec_new(0),
    {
        PortValue::new(0)
    }
}

impl From<u8> for PortValue {
    fn from(value: u8) -> (r: Self) {
        PortValue::new(value)
    }
}

impl FromSpecImpl<u8> for PortValue {
    open spec fn obeys_from_spec() -> bool {
        true
    }

    closed spec fn from_spec(value: u8) -> Self {
        Self::spec_new(value)
    }
}

impl From<PortValue> for u8 {
    fn from(value: PortValue) -> (r: u8) {
        value.get()
    }
}

impl FromSpecImpl<PortValue> for u8 {
    open spec fn obeys_from_spec() -> bool {
        true
    }

    open spec fn from_spec(value: PortValue) -> u8 {
        value.value() as u8
    }
}

/// The MIDI pitch bend value, a 14-bit number. The minimum value is `0`,
/// the maximum value is `16383`, the default `8192` is the center. Values
/// out of range are clamped.
#[derive(Clone, Copy, Debug, PartialEq, Eq, PartialOrd, Ord, Hash, Structural)]
pub struct PitchBendValue(u16);

impl PitchBendValue {
    #[verifier::type_invariant]
    spec fn within_bounds(self) -> bool {
        self.0 <= 16383
    }

    /// The inner value.
    pub closed spec fn value(self) -> int {
        self.0 as int
    }

    /// The value that `new` makes of `value`.
    pub closed spec fn spec_new(value: u16) -> Self {
        PitchBendValue(clamped(value as int, 0, 16383) as u16)
    }

    /// Whether the inner value lies in `0..=16383`.
    pub open spec fn in_range(self) -> bool {
        0 <= self.value() <= 16383
    }

    /// Silently clamps the value if it is out of range. See [`Self::set`].
    pub fn new(value: u16) -> (r: Self)
        ensures
            r == Self::spec_new(value),
            r.value() == clamped(value as int, 0, 16383),
    {
        if value > 16383 {
            PitchBendValue(16383)
        } else {
            PitchBendValue(value)
        }
    }

    /// Returns the inner value.
    pub fn get(&self) -> (r: u16)
        ensures
            r as int == self.value(),
            self.in_range(),
    {
        proof {
            use_type_invariant(self);
        }
        self.0
    }

    /// Clamps and sets. Returns `true` if `value` was in range, `false` if
    /// it had to be moved to the nearest bound.
    pub fn set(&mut self, value: u16) -> (r: bool)
        ensures
            *final(self) == Self::spec_new(value),
            r == (0 <= value <= 16383),
    {
        *self = PitchBendValue::new(value);
        value <= 16383
    }

    /// What `spec_new` holds: the clamped value, which lies in range.
    pub proof fn lemma_spec_new(value: u16)
        ensures
            Self::spec_new(value).value() == clamped(value as int, 0, 16383),
            Self::spec_new(value).in_range(),
    {
    }

    /// A value in range is the one that `new` makes of its inner value, so
    /// two values in range with the same inner value are the same.
    pub proof fn lemma_spec_new_of_value(self)
        requires
            self.in_range(),
        ensures
            Self::spec_new(self.value() as u16) == self,
    {
    }
}

impl Default for PitchBendValue {
    fn default() -> (r: Self)
        ensures
            r == Self::spec_new(8192),
    {
        PitchBendValue::new(8192)
    }
}

impl From<u16> for PitchBendValue {
    fn from(value: u16) -> (r: Self) {
        PitchBendValue::new(value)
    }
}

impl FromSpecImpl<u16> for PitchBendValue {
    open spec fn obeys_from_spec() -> bool {
        true
    }

    closed spec fn from_spec(value: u16) -> Self {
        Self::spec_new(value)
    }
}

impl From<PitchBendValue> for u16 {
    fn from(value: PitchBendValue) -> (r: u16) {
        value.get()
    }
}

impl FromSpecImpl<PitchBendValue> for u16 {
    open spec fn obeys_from_spec() -> bool {
        true
    }

    open spec fn from_spec(value: PitchBendValue) -> u16 {
        value.value() as u16
    }
}

} // verus!
