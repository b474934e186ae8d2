use midi_file::file::{
    KeyAccidentals, MicrosecondsPerQuarter, QuarterNoteDivision, QuartersPerMinute,
};
use midi_file::midi::{Channel, NoteNumber, PitchBendValue, Velocity};

#[test]
fn clamp_clamp_test() {
    let foo: QuartersPerMinute = 0u8.into();
    let foo_val: u8 = foo.into();
    assert_eq!(1, foo_val);
    let fmted = format!("{}", QuartersPerMinute::new(6).get());
    assert_eq!("6", fmted.as_str());
    assert_eq!(15, Channel::new(16).get());
}

#[test]
fn macros_clamp_test() {
    let foo: QuarterNoteDivision = 0u16.into();
    let foo_val: u16 = foo.into();
    assert_eq!(1, foo_val);
    let fmted = format!("{}", QuarterNoteDivision::new(6).get());
    assert_eq!("6", fmted.as_str());
    let top: Channel = 16u8.into();
    assert_eq!(15, u8::from(top));
}

#[test]
fn values_in_range_stay() {
    for x in 0..=15u8 {
        assert_eq!(x, Channel::new(x).get());
    }
    for x in 0..=127u8 {
        assert_eq!(x, NoteNumber::new(x).get());
        assert_eq!(x, Velocity::new(x).get());
    }
    for x in -7..=7i8 {
        assert_eq!(x, KeyAccidentals::new(x).get());
    }
    assert_eq!(16383, PitchBendValue::new(16383).get());
    assert_eq!(1, MicrosecondsPerQuarter::new(1).get());
    assert_eq!(16_777_215, MicrosecondsPerQuarter::new(16_777_215).get());
}

#[test]
fn values_out_of_range_move_to_the_nearest_bound() {
    assert_eq!(15, Channel::new(200).get());
    assert_eq!(127, NoteNumber::new(128).get());
    assert_eq!(127, Velocity::new(255).get());
    assert_eq!(16383, PitchBendValue::new(16384).get());
    assert_eq!(1, QuarterNoteDivision::new(0).get());
    assert_eq!(16383, QuarterNoteDivision::new(40000).get());
    assert_eq!(-7, KeyAccidentals::new(-8).get());
    assert_eq!(7, KeyAccidentals::new(100).get());
    assert_eq!(1, MicrosecondsPerQuarter::new(0).get());
    assert_eq!(16_777_215, MicrosecondsPerQuarter::new(u32::MAX).get());
    assert_eq!(1, QuartersPerMinute::new(0).get());
}

#[test]
fn set_reports_whether_the_value_was_in_range() {
    let mut channel = Channel::new(3);
    assert!(channel.set(4));
    assert_eq!(4, channel.get());
    assert!(!channel.set(16));
    assert_eq!(15, channel.get());
    let mut division = QuarterNoteDivision::default();
    assert_eq!(1024, division.get());
    assert!(!division.set(0));
    assert_eq!(1, division.get());
    assert!(division.set(5));
    assert_eq!(5, division.get());
}

#[test]
fn defaults() {
    assert_eq!(0, Channel::default().get());
    assert_eq!(60, NoteNumber::default().get());
    assert_eq!(72, Velocity::default().get());
    assert_eq!(8192, PitchBendValue::default().get());
    assert_eq!(1024, QuarterNoteDivision::default().get());
    assert_eq!(500_000, MicrosecondsPerQuarter::default().get());
    assert_eq!(120, QuartersPerMinute::default().get());
    assert_eq!(0, KeyAccidentals::default().get());
}
