use vbo_writer::{Channel, ChannelName, ChannelUnit, ChannelValue, DateTime, Error, Writer};

fn writer_contains(w: &Writer, s: &str) -> bool {
    let text = w.to_text();
    println!("str: {}", text);
    text.contains(s)
}

fn date_time_of(t: time::OffsetDateTime) -> DateTime {
    DateTime::new(t.year(), t.month() as u8, t.day(), t.hour(), t.minute(), t.second()).unwrap()
}

fn two_channels() -> Writer {
    let mut writer = Writer::new();
    writer.add_channel(Channel { name: ChannelName::Satellites, unit: None }).unwrap();
    writer
        .add_channel(Channel {
            name: ChannelName::Custom("Hello".into()),
            unit: Some(ChannelUnit::G),
        })
        .unwrap();
    writer
}

#[test]
fn write_date_time() {
    let dt = date_time_of(time::OffsetDateTime::from_unix_timestamp(1641469669).unwrap());
    let mut writer = Writer::new();
    writer.set_file_creation_time(dt);

    assert!(writer_contains(&writer, "File created on 06/01/2022 at 11:47:49\n\n"));
}

#[test]
fn writes_headers() {
    let writer = two_channels();

    assert!(writer_contains(&writer, "\n[header]\nsatellites\nHello g\n"));
}

#[test]
fn writes_comment() {
    let mut writer = Writer::new();
    writer.set_comment(String::from("Cool Comment\nWith a newline"));

    assert!(writer_contains(&writer, "\n[comments]\nCool Comment\nWith a newline\n"));
}

#[test]
fn writes_column_names() {
    let writer = two_channels();

    assert!(writer_contains(&writer, "\n[column names]\nsatellites Hello \n"));
}

#[test]
fn writes_data() {
    let mut writer = two_channels();

    writer.add_samples(vec![ChannelValue::Satellites(0), ChannelValue::Velocity(10_000)]);
    writer.add_samples(vec![ChannelValue::Satellites(23), ChannelValue::Velocity(300_000)]);

    assert!(writer_contains(&writer, "\n[data]\n"));
    assert!(writer_contains(&writer, "\n000 010.000 \n"));
    assert!(writer_contains(&writer, "\n023 300.000 \n"));
}

#[test]
fn whole_document_text() {
    let mut writer = two_channels();
    writer.set_file_creation_time(DateTime::new(2022, 1, 6, 11, 47, 49).unwrap());
    writer.add_samples(vec![ChannelValue::Satellites(0), ChannelValue::Velocity(10_000)]);
    assert_eq!(
        writer.to_text(),
        "File created on 06/01/2022 at 11:47:49\n\n\
         [header]\nsatellites\nHello g\n\n\
         [column names]\nsatellites Hello \n\n\
         [data]\n000 010.000 \n\n"
    );
    writer.set_comment("note".into());
    assert_eq!(
        writer.to_text(),
        "File created on 06/01/2022 at 11:47:49\n\n\
         [header]\nsatellites\nHello g\n\n\
         [comments]\nnote\n\n\
         [column names]\nsatellites Hello \n\n\
         [data]\n000 010.000 \n\n"
    );
}

#[test]
fn empty_document_uses_given_time() {
    let writer = Writer::new();
    let now = DateTime::new(7, 12, 31, 0, 0, 5).unwrap();
    assert_eq!(
        writer.text_with_time(&now),
        "File created on 31/12/0007 at 00:00:05\n\n[header]\n\n[column names]\n\n\n[data]\n\n"
    );
    let far = DateTime::new(12345, 2, 3, 4, 5, 6).unwrap();
    assert!(writer.text_with_time(&far).starts_with("File created on 03/02/+12345 at 04:05:06\n"));
    let before = DateTime::new(-44, 3, 15, 12, 0, 0).unwrap();
    assert!(writer.text_with_time(&before).starts_with("File created on 15/03/-0044 at 12:00:00\n"));
}

#[test]
fn creation_time_wins_over_given_time() {
    let mut writer = Writer::new();
    writer.set_file_creation_time(DateTime::new(2020, 5, 1, 1, 2, 3).unwrap());
    let now = DateTime::new(2030, 1, 1, 0, 0, 0).unwrap();
    assert!(writer.text_with_time(&now).starts_with("File created on 01/05/2020 at 01:02:03\n\n"));
}

#[test]
fn current_time_is_used_when_unset() {
    let text = Writer::new().to_text();
    assert!(text.starts_with("File created on "));
    assert_eq!(&text[18..19], "/");
    assert_eq!(&text[32..33], ":");
    assert_eq!(&text[26..30], " at ");
}

#[test]
fn duplicate_channel_is_rejected() {
    let mut writer = two_channels();
    writer.set_file_creation_time(DateTime::new(2022, 1, 6, 11, 47, 49).unwrap());
    let before = writer.to_text();
    match writer.add_channel(Channel::new(ChannelName::Satellites, Some(ChannelUnit::Kmh))) {
        Err(Error::DuplicateChannel(n)) => assert_eq!(n, ChannelName::Satellites),
        other => panic!("unexpected {:?}", other),
    }
    match writer.add_channel(Channel::new(ChannelName::Custom("Hello".into()), None)) {
        Err(Error::DuplicateChannel(n)) => assert_eq!(n, ChannelName::Custom("Hello".into())),
        other => panic!("unexpected {:?}", other),
    }
    assert_eq!(writer.to_text(), before);
    assert!(writer_contains(&writer, "\n[header]\nsatellites\nHello g\n\n"));
    assert!(writer.add_channel(Channel::new(ChannelName::Custom("satellites ".into()), None)).is_ok());
    assert!(writer.add_channel(Channel::new(ChannelName::Custom("satellites".into()), None)).is_ok());
}

#[test]
fn date_time_rejects_out_of_range_fields() {
    assert!(DateTime::new(2022, 0, 1, 0, 0, 0).is_none());
    assert!(DateTime::new(2022, 13, 1, 0, 0, 0).is_none());
    assert!(DateTime::new(2022, 1, 0, 0, 0, 0).is_none());
    assert!(DateTime::new(2022, 1, 32, 0, 0, 0).is_none());
    assert!(DateTime::new(2022, 1, 1, 24, 0, 0).is_none());
    assert!(DateTime::new(2022, 1, 1, 0, 60, 0).is_none());
    assert!(DateTime::new(2022, 1, 1, 0, 0, 60).is_none());
}
