use tactilis::text::{chars_of, ArduinoMessage, LineRead, ParseError, ReaderAction, TextLine};
use tactilis::{on_line_read, parse_arduino_message, trim_line, Finger, Pressure, SensorReading};

fn sensor(finger: Finger, raw: u16, timestamp_ms: u64) -> Result<TextLine, ParseError> {
    Ok(TextLine::Message(ArduinoMessage::Sensor(SensorReading { finger, raw, timestamp_ms })))
}

#[test]
fn test_parse_simple_format() {
    let msg = parse_arduino_message("I,512,1000").unwrap();
    if let TextLine::Message(ArduinoMessage::Sensor(reading)) = msg {
        assert_eq!(reading.finger, Finger::Index);
        let pressure = reading.raw as f32 / 1023.0;
        assert!((pressure - 0.5).abs() < 0.01);
        assert_eq!(reading.timestamp_ms, 1000);
    } else {
        panic!("Expected Sensor message");
    }
}

#[test]
fn test_parse_ready() {
    let msg = parse_arduino_message("READY v1.0.0").unwrap();
    if let TextLine::Message(ArduinoMessage::Ready { firmware_version }) = msg {
        assert_eq!(firmware_version, "v1.0.0");
    } else {
        panic!("Expected Ready message");
    }
}

#[test]
fn readings_of_both_channels() {
    assert_eq!(parse_arduino_message("I,1023,12345"), sensor(Finger::Index, 1023, 12345));
    assert_eq!(parse_arduino_message("M,512,12346"), sensor(Finger::Middle, 512, 12346));
    assert_eq!(parse_arduino_message("M,0,0"), sensor(Finger::Middle, 0, 0));
    assert_eq!(parse_arduino_message("I,+7,+8"), sensor(Finger::Index, 7, 8));
    assert_eq!(parse_arduino_message("I,0007,010"), sensor(Finger::Index, 7, 10));
    assert_eq!(
        parse_arduino_message("I,65535,18446744073709551615"),
        sensor(Finger::Index, 65535, u64::MAX)
    );
}

#[test]
fn json_lines_are_left_to_a_json_decoder() {
    assert_eq!(parse_arduino_message("{\"type\":\"ready\"}"), Ok(TextLine::Json));
    assert_eq!(parse_arduino_message("{"), Ok(TextLine::Json));
    assert_eq!(parse_arduino_message("{I,1,2"), Ok(TextLine::Json));
}

#[test]
fn unknown_finger() {
    assert_eq!(parse_arduino_message("X,1,2"), Err(ParseError::UnknownFinger));
    assert_eq!(parse_arduino_message("i,1,2"), Err(ParseError::UnknownFinger));
    assert_eq!(parse_arduino_message(",1,2"), Err(ParseError::UnknownFinger));
    assert_eq!(parse_arduino_message("II,1,2"), Err(ParseError::UnknownFinger));
    assert_eq!(parse_arduino_message("READY a,b,c"), Err(ParseError::UnknownFinger));
    assert_eq!(parse_arduino_message("X,bad,worse"), Err(ParseError::UnknownFinger));
    assert_eq!(ParseError::UnknownFinger.message(), "Unknown finger");
}

#[test]
fn invalid_pressure() {
    for line in ["I,,5", "I,abc,5", "I,65536,5", "I,-1,5", "I, 5,5", "I,5 ,5", "I,+,5", "I,1.5,5", "I,1_0,5", "I,x,y"]
    {
        assert_eq!(parse_arduino_message(line), Err(ParseError::InvalidPressure), "{}", line);
    }
    assert_eq!(ParseError::InvalidPressure.message(), "Invalid pressure value");
}

#[test]
fn invalid_timestamp() {
    for line in ["I,5,", "I,5,abc", "I,5,18446744073709551616", "I,5,-3", "I,5,12 ", "I,5,99999999999999999999999"]
    {
        assert_eq!(parse_arduino_message(line), Err(ParseError::InvalidTimestamp), "{}", line);
    }
    assert_eq!(ParseError::InvalidTimestamp.message(), "Invalid timestamp");
}

#[test]
fn unknown_format() {
    for line in ["", "hello", "I,5", "I,5,6,7", "ready v1", "READ", " READY v1", ",", ",,,"] {
        assert_eq!(
            parse_arduino_message(line),
            Err(ParseError::UnknownFormat(line.to_string())),
            "{}",
            line
        );
    }
    assert_eq!(
        ParseError::UnknownFormat("I,5".to_string()).message(),
        "Unknown format: I,5"
    );
}

#[test]
fn ready_lines_and_their_versions() {
    let ready = |v: &str| {
        Ok(TextLine::Message(ArduinoMessage::Ready { firmware_version: v.to_string() }))
    };
    assert_eq!(parse_arduino_message("READY"), ready("unknown"));
    assert_eq!(parse_arduino_message("READYv2"), ready("unknown"));
    assert_eq!(parse_arduino_message("READY "), ready(""));
    assert_eq!(parse_arduino_message("READY  v3"), ready(" v3"));
    assert_eq!(parse_arduino_message("READY v1,2"), ready("v1,2"));
    assert_eq!(parse_arduino_message("READY vé-β"), ready("vé-β"));
}

#[test]
fn lines_are_trimmed_on_both_ends() {
    assert_eq!(trim_line("  I,1,2\r\n"), "I,1,2");
    assert_eq!(trim_line("\t\u{00A0}READY v1 \u{3000}\u{2028}"), "READY v1");
    assert_eq!(trim_line("a b"), "a b");
    assert_eq!(trim_line(" \r\n\t"), "");
    assert_eq!(trim_line(""), "");
    assert_eq!(trim_line("\u{200B}x"), "\u{200B}x");
    for line in ["  I,1,2\r\n", " \u{0085}é \u{1680}", "\u{2000}\u{200A}q\u{202F}\u{205F}", "\u{000B}\u{000C}"] {
        assert_eq!(trim_line(line), line.trim());
    }
}

#[test]
fn characters_of_a_text() {
    assert_eq!(chars_of("aé,1"), vec!['a', 'é', ',', '1']);
    assert_eq!(chars_of(""), Vec::<char>::new());
}

#[test]
fn reader_stops_skips_delivers_and_warns() {
    assert_eq!(on_line_read(LineRead::Eof), ReaderAction::Stop);
    assert_eq!(on_line_read(LineRead::Failed), ReaderAction::Stop);
    assert_eq!(on_line_read(LineRead::TimedOut), ReaderAction::Skip);
    assert_eq!(on_line_read(LineRead::Line("\r\n".to_string())), ReaderAction::Skip);
    assert_eq!(on_line_read(LineRead::Line(String::new())), ReaderAction::Skip);
    assert_eq!(
        on_line_read(LineRead::Line("M,300,99\r\n".to_string())),
        ReaderAction::Deliver(ArduinoMessage::Sensor(SensorReading {
            finger: Finger::Middle,
            raw: 300,
            timestamp_ms: 99
        }))
    );
    assert_eq!(
        on_line_read(LineRead::Line(" {\"type\":\"error\",\"message\":\"x\"} \n".to_string())),
        ReaderAction::DecodeJson("{\"type\":\"error\",\"message\":\"x\"}".to_string())
    );
    assert_eq!(
        on_line_read(LineRead::Line("garbage\n".to_string())),
        ReaderAction::Warn(ParseError::UnknownFormat("garbage".to_string()))
    );
    assert_eq!(
        on_line_read(LineRead::Line("Q,1,2\n".to_string())),
        ReaderAction::Warn(ParseError::UnknownFinger)
    );
}

#[test]
fn text_reading_as_a_sample() {
    let reading = SensorReading { finger: Finger::Middle, raw: 1023, timestamp_ms: 5 };
    assert_eq!(reading.to_sample(), Pressure { pressure: 1023, finger: Finger::Middle });
}
