use tactilis::wire::{sniff, WireForm};
use tactilis::{Finger, Pressure};

#[test]
fn data_frame_decodes_to_channel_and_magnitude() {
    assert_eq!(
        Pressure::from_serial([0xFF, 0x01, 0x02, 0]),
        Ok(Pressure { pressure: 258, finger: Finger::Index })
    );
    assert_eq!(
        Pressure::from_serial([0xFF, 0xFF, 0xFF, 1]),
        Ok(Pressure { pressure: 65535, finger: Finger::Middle })
    );
    assert_eq!(
        Pressure::from_serial([0xFF, 0, 0, 0]),
        Ok(Pressure { pressure: 0, finger: Finger::Index })
    );
}

#[test]
fn every_magnitude_round_trips_on_both_channels() {
    for code in 0u8..=1 {
        for value in 0u32..=65535 {
            let high = (value >> 8) as u8;
            let low = (value & 0xFF) as u8;
            let decoded = Pressure::from_serial([0xFF, high, low, code]).unwrap();
            assert_eq!(decoded.pressure as u32, value);
            assert_eq!((decoded.pressure >> 8) as u8, high);
            assert_eq!((decoded.pressure & 0xFF) as u8, low);
            assert_eq!(Finger::from_u8(code), Ok(decoded.finger));
        }
    }
}

#[test]
fn control_frames_decode_to_markers() {
    assert_eq!(
        Pressure::from_serial([0x01, 0, 0, 0]),
        Ok(Pressure { pressure: 0, finger: Finger::BufferAlignment })
    );
    assert_eq!(
        Pressure::from_serial([0xFF, 0, 0, 0xFF]),
        Ok(Pressure { pressure: 0, finger: Finger::StartMessage })
    );
}

#[test]
fn wrong_sentinel_is_handed_back() {
    assert_eq!(Pressure::from_serial([0x00, 0, 50, 0]), Err([0x00, 0, 50, 0]));
    assert_eq!(Pressure::from_serial([0x01, 0, 0, 1]), Err([0x01, 0, 0, 1]));
    assert_eq!(Pressure::from_serial([0xFE, 1, 2, 1]), Err([0xFE, 1, 2, 1]));
}

#[test]
fn unknown_channel_code_is_handed_back() {
    assert_eq!(Pressure::from_serial([0xFF, 0, 50, 2]), Err([0xFF, 0, 50, 2]));
    assert_eq!(Pressure::from_serial([0xFF, 0, 1, 0xFF]), Err([0xFF, 0, 1, 0xFF]));
    assert_eq!(Pressure::from_serial([0xFF, 1, 0, 0xFF]), Err([0xFF, 1, 0, 0xFF]));
}

#[test]
fn channel_codes() {
    assert_eq!(Finger::from_u8(0), Ok(Finger::Index));
    assert_eq!(Finger::from_u8(1), Ok(Finger::Middle));
    assert_eq!(Finger::from_u8(2), Err(2));
    assert_eq!(Finger::from_u8(255), Err(255));
}

#[test]
fn only_the_start_marker_is_start() {
    assert!(Pressure { pressure: 0, finger: Finger::StartMessage }.is_start());
    assert!(!Pressure { pressure: 1, finger: Finger::StartMessage }.is_start());
    assert!(!Pressure { pressure: 0, finger: Finger::BufferAlignment }.is_start());
    assert!(!Pressure { pressure: 0, finger: Finger::Index }.is_start());
}

#[test]
fn sensors_and_markers_are_told_apart() {
    assert!(Finger::Index.is_sensor());
    assert!(Finger::Middle.is_sensor());
    assert!(!Finger::StartMessage.is_sensor());
    assert!(!Finger::BufferAlignment.is_sensor());
}

#[test]
fn texts_of_fingers_and_frames() {
    assert_eq!(Finger::Index.describe(), "Index finger");
    assert_eq!(Finger::Middle.describe(), "Middle finger");
    assert_eq!(Finger::StartMessage.describe(), "Start message, not a finger");
    assert_eq!(Finger::BufferAlignment.describe(), "Buffer alignment, not a finger");
    assert_eq!(
        Pressure { pressure: 512, finger: Finger::Middle }.describe(),
        "512 pressure on Middle finger"
    );
    assert_eq!(
        Pressure { pressure: 0, finger: Finger::Index }.describe(),
        "0 pressure on Index finger"
    );
    assert_eq!(
        Pressure { pressure: 65535, finger: Finger::Index }.describe(),
        "65535 pressure on Index finger"
    );
}

#[test]
fn first_byte_tells_the_wire_form() {
    assert_eq!(sniff(b'{'), WireForm::Json);
    assert_eq!(sniff(0xFF), WireForm::Binary);
    assert_eq!(sniff(0x01), WireForm::Binary);
    assert_eq!(sniff(b'I'), WireForm::Text);
    assert_eq!(sniff(b'R'), WireForm::Text);
}
