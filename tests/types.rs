use vbo_writer::values::dms_to_minutes;
use vbo_writer::{Channel, ChannelName, ChannelUnit, ChannelValue, Coordinates, TimeOfDay};

#[test]
fn channel_name_from() {
    let channels = [
        ("satellites", ChannelName::Satellites),
        ("time", ChannelName::Time),
        ("latitude", ChannelName::Latitude),
        ("longitude", ChannelName::Longitude),
        ("velocity", ChannelName::Velocity),
        ("heading", ChannelName::Heading),
        ("height", ChannelName::Height),
        ("long accel", ChannelName::LongAccel),
        ("lat accel", ChannelName::LatAccel),
        ("device_update_rate", ChannelName::Custom("device_update_rate".into())),
        ("lean_angle", ChannelName::Custom("lean_angle".into())),
        ("combined_acc", ChannelName::Custom("combined_acc".into())),
        ("fix_type", ChannelName::Custom("fix_type".into())),
        ("coordinate_precision", ChannelName::Custom("coordinate_precision".into())),
        ("altitude_precision", ChannelName::Custom("altitude_precision".into())),
    ];

    for (name, cn) in channels.into_iter() {
        let cn_from_name = ChannelName::from(name);
        assert_eq!(cn_from_name, cn);

        let name_from_cn = cn_from_name.as_str();
        assert_eq!(name_from_cn, name);
    }
}

#[test]
fn channel_unit_from() {
    let units = [
        ("kmh", ChannelUnit::Kmh),
        ("g", ChannelUnit::G),
        ("ms2", ChannelUnit::Custom("ms2".into())),
    ];

    for (name, cu) in units.into_iter() {
        let cu_from_name = ChannelUnit::from(name);
        assert_eq!(cu_from_name, cu);

        let name_from_cu = cu_from_name.as_str();
        assert_eq!(name_from_cu, name);
    }
}

#[test]
fn fmt_channel() {
    let channels = [
        ("longitude", Channel::new(ChannelName::Longitude, None)),
        ("velocity kmh", Channel::new(ChannelName::Velocity, Some(ChannelUnit::Kmh))),
        ("long accel g", Channel::new(ChannelName::LongAccel, Some(ChannelUnit::G))),
    ];

    for (formatted, channel) in channels.into_iter() {
        assert_eq!(formatted, channel.to_string());
    }
}

fn coordinates(degrees: u16, minutes: u8, micro_seconds: u32, bearing: char) -> ChannelValue {
    ChannelValue::Coordinates(Coordinates { degrees, minutes, micro_seconds, bearing })
}

#[test]
fn fmt_channel_value() {
    let values = [
        ("003", ChannelValue::Satellites(3)),
        ("031", ChannelValue::Satellites(31)),
        ("170538.19", ChannelValue::Time(TimeOfDay::new(17, 05, 38, 190_000_000).unwrap())),
        ("172317.59", ChannelValue::Time(TimeOfDay::new(17, 23, 17, 590_000_000).unwrap())),
        ("+03119.099730", coordinates(51, 59, 5_983_800, 'N')),
        ("-03119.099730", coordinates(51, 59, 5_983_800, 'S')),
        ("+00058.492700", coordinates(0, 58, 29_562_000, 'W')),
        ("-00058.492700", coordinates(0, 58, 29_562_000, 'E')),
        ("058.493", ChannelValue::Velocity(58_493)),
        ("000.001", ChannelValue::Velocity(1)),
        ("039.40", ChannelValue::Heading(3_940)),
        ("293.00", ChannelValue::Heading(29_300)),
        ("+0155.06", ChannelValue::Height(15_506)),
        ("-0293.00", ChannelValue::Height(-29_300)),
    ];

    for (formatted, value) in values.into_iter() {
        assert_eq!(formatted, value.to_string());
    }
}

#[test]
fn parse_round_trips_any_text() {
    for s in ["satellites", "lat accel", "Lat Accel", "", "time ", "x"] {
        assert_eq!(ChannelName::from(s).as_str(), s);
        assert_eq!(ChannelUnit::from(s).as_str(), s);
    }
    assert_eq!(ChannelName::parse("Time"), ChannelName::Custom("Time".into()));
    assert_eq!(ChannelUnit::parse(""), ChannelUnit::Custom(String::new()));
    assert_ne!(ChannelName::Custom("time".into()), ChannelName::Time);
    assert_eq!(ChannelName::from(String::from("long accel")), ChannelName::LongAccel);
    assert_eq!(ChannelUnit::from(String::from("kmh")), ChannelUnit::Kmh);
}

#[test]
fn wide_and_negative_values() {
    assert_eq!(ChannelValue::Satellites(137).to_string(), "137");
    assert_eq!(ChannelValue::Satellites(0).to_string(), "000");
    assert_eq!(ChannelValue::Velocity(1_234_567).to_string(), "1234.567");
    assert_eq!(ChannelValue::Velocity(-1_500).to_string(), "0-1.500");
    assert_eq!(ChannelValue::Heading(-5).to_string(), "0-0.05");
    assert_eq!(ChannelValue::Height(0).to_string(), "+0000.00");
    assert_eq!(ChannelValue::Height(12_345_678).to_string(), "+123456.78");
    assert_eq!(ChannelValue::Time(TimeOfDay::new(0, 0, 0, 9_999_999).unwrap()).to_string(), "000000.00");
    assert_eq!(coordinates(0, 0, 0, 'S').to_string(), "-00000.000000");
    assert_eq!(coordinates(0, 0, 29, 'N').to_string(), "+00000.000000");
    assert_eq!(coordinates(0, 0, 30, 'N').to_string(), "+00000.000001");
    assert_eq!(coordinates(180, 0, 0, 'E').to_string(), "-10800.000000");
}

#[test]
fn time_of_day_rejects_out_of_range_fields() {
    assert!(TimeOfDay::new(24, 0, 0, 0).is_none());
    assert!(TimeOfDay::new(0, 60, 0, 0).is_none());
    assert!(TimeOfDay::new(0, 0, 60, 0).is_none());
    assert!(TimeOfDay::new(0, 0, 0, 1_000_000_000).is_none());
    assert!(TimeOfDay::new(23, 59, 59, 999_999_999).is_some());
}

#[test]
fn bearing_sets_the_sign() {
    let c = |b| Coordinates { degrees: 51, minutes: 59, micro_seconds: 5_983_800, bearing: b };
    assert_eq!(dms_to_minutes(&c('N')), 3_119_099_730);
    assert_eq!(dms_to_minutes(&c('W')), 3_119_099_730);
    assert_eq!(dms_to_minutes(&c('S')), -3_119_099_730);
    assert_eq!(dms_to_minutes(&c('E')), -3_119_099_730);
}
