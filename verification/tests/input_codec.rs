use synthui::input::{EVENT_SIZE, InputError, button_input, decode_event, encoder_input};
use synthui::ui::Input;

fn record(value: i32) -> Vec<u8> {
    let mut b = vec![0u8; 16];
    b[0] = 0x15;  // tv_sec = 0x0115
    b[1] = 0x01;
    b[4] = 0x2a;  // tv_usec = 42
    b[8] = 0x02;  // type
    b[10] = 0x07;  // code
    let v = value as u32;
    b[12] = (v & 0xff) as u8;
    b[13] = ((v >> 8) & 0xff) as u8;
    b[14] = ((v >> 16) & 0xff) as u8;
    b[15] = ((v >> 24) & 0xff) as u8;
    b
}

#[test]
fn scenario_c_short_read_is_a_decoding_error() {
    // A read of 15 bytes where 16 are expected fails to decode; no event
    // reaches the translation layer.
    assert_eq!(EVENT_SIZE, 16);
    let short = vec![0u8; 15];
    let r = decode_event(&short);
    assert_eq!(r, Err(InputError::InvalidData));
}

#[test]
fn long_read_is_a_decoding_error_too() {
    let long = vec![0u8; 17];
    assert_eq!(decode_event(&long), Err(InputError::InvalidData));
}

#[test]
fn well_sized_record_decodes_every_field() {
    let e = decode_event(&record(1)).unwrap();
    assert_eq!(e.time.tv_sec, 0x0115);
    assert_eq!(e.time.tv_usec, 42);
    assert_eq!(e.type_, 2);
    assert_eq!(e.code, 7);
    assert_eq!(e.value, 1);
}

#[test]
fn negative_magnitude_decodes_two_complement() {
    let e = decode_event(&record(-1)).unwrap();
    assert_eq!(e.value, -1);
    let e = decode_event(&record(-123456)).unwrap();
    assert_eq!(e.value, -123456);
}

#[test]
fn encoder_translation() {
    // Magnitude +1 turns Right, -1 turns Left, anything else is ignored.
    assert_eq!(encoder_input(&decode_event(&record(1)).unwrap()), Some(Input::Right));
    assert_eq!(encoder_input(&decode_event(&record(-1)).unwrap()), Some(Input::Left));
    assert_eq!(encoder_input(&decode_event(&record(0)).unwrap()), None);
    assert_eq!(encoder_input(&decode_event(&record(2)).unwrap()), None);
}

#[test]
fn button_translation() {
    // Magnitude +1 is a press, anything else is ignored.
    assert_eq!(button_input(&decode_event(&record(1)).unwrap()), Some(Input::Press));
    assert_eq!(button_input(&decode_event(&record(0)).unwrap()), None);
    assert_eq!(button_input(&decode_event(&record(-1)).unwrap()), None);
}
