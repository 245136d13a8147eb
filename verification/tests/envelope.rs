use ruuviscanner::envelope::{manufacturer_payload, Argument, ChangedProperties};
use ruuviscanner::error::DecodeError;
use ruuviscanner::ruuvitag::SensorDataV5;

const ENVELOPE_PAYLOAD: [u8; 24] = [
    0x05, 0x12, 0xFC, 0x53, 0x94, 0xC3, 0x7C, 0x00, 0x04, 0xFF, 0xFC, 0x04, 0x0C, 0xAC, 0x36, 0x42,
    0x00, 0xCD, 0xCB, 0xB8, 0x33, 0x4C, 0x88, 0x4F,
];

fn bytes(values: &[i64]) -> Argument {
    Argument::list(values.iter().map(|value| Argument::integer(*value)).collect())
}

fn envelope(list: Argument) -> Argument {
    Argument::list(vec![Argument::integer(0x0499), Argument::variant(list)])
}

fn changed(data: Argument) -> ChangedProperties {
    ChangedProperties { manufacturer_data: Some(data) }
}

#[test]
fn integer_argument_cannot_be_iterated() {
    let argument = Argument::integer(-7);
    assert_eq!(argument.integer, Some(-7));
    assert_eq!(argument.items, None);
}

#[test]
fn list_argument_stands_for_no_integer() {
    let argument = Argument::list(vec![Argument::integer(1), Argument::integer(2)]);
    assert_eq!(argument.integer, None);
    assert_eq!(argument.items, Some(vec![Argument::integer(1), Argument::integer(2)]));
}

#[test]
fn variant_argument_yields_what_it_wraps() {
    let argument = Argument::variant(Argument::integer(5));
    assert_eq!(argument.integer, Some(5));
    assert_eq!(argument.items, Some(vec![Argument::integer(5)]));
    let argument = Argument::variant(Argument::list(vec![]));
    assert_eq!(argument.integer, None);
    assert_eq!(argument.items, Some(vec![Argument::list(vec![])]));
}

#[test]
fn built_manufacturer_data_has_the_shape_of_the_stack() {
    let data = Argument::manufacturer_data(0x0499, &[1, 2, 3]);
    let expected = Argument::list(vec![
        Argument::integer(0x0499),
        Argument::variant(Argument::list(vec![
            Argument::integer(1),
            Argument::integer(2),
            Argument::integer(3),
        ])),
    ]);
    assert_eq!(data, expected);
}

#[test]
fn payload_of_built_manufacturer_data_is_the_payload() {
    let data = Argument::manufacturer_data(0x0499, &ENVELOPE_PAYLOAD);
    assert_eq!(manufacturer_payload(&data), Ok(ENVELOPE_PAYLOAD.to_vec()));
    let data = Argument::manufacturer_data(0xFFFF, &[]);
    assert_eq!(manufacturer_payload(&data), Ok(vec![]));
    let all: Vec<u8> = (0..=u8::MAX).collect();
    let data = Argument::manufacturer_data(0, &all);
    assert_eq!(manufacturer_payload(&data), Ok(all));
}

#[test]
fn company_key_is_not_examined() {
    let list = || bytes(&[1, 2, 3]);
    let with_text_key = Argument::list(vec![
        Argument { integer: None, items: None },
        Argument::variant(list()),
    ]);
    assert_eq!(manufacturer_payload(&with_text_key), Ok(vec![1, 2, 3]));
    let with_list_key =
        Argument::list(vec![Argument::list(vec![]), Argument::variant(list())]);
    assert_eq!(manufacturer_payload(&with_list_key), Ok(vec![1, 2, 3]));
}

#[test]
fn integers_are_cut_to_their_low_byte() {
    let data = envelope(bytes(&[0, 255, 256, 257, -1, -256, i64::MAX, i64::MIN, 0x1234]));
    assert_eq!(
        manufacturer_payload(&data),
        Ok(vec![0, 255, 0, 1, 255, 0, 255, 0, 0x34])
    );
}

#[test]
fn data_that_cannot_be_iterated_is_malformed() {
    assert_eq!(
        manufacturer_payload(&Argument::integer(5)),
        Err(DecodeError::MalformedEnvelope)
    );
    assert_eq!(
        manufacturer_payload(&Argument { integer: None, items: None }),
        Err(DecodeError::MalformedEnvelope)
    );
}

#[test]
fn data_without_exactly_two_items_is_malformed() {
    let none = Argument::list(vec![]);
    assert_eq!(manufacturer_payload(&none), Err(DecodeError::MalformedEnvelope));
    let one = Argument::list(vec![Argument::variant(bytes(&[1]))]);
    assert_eq!(manufacturer_payload(&one), Err(DecodeError::MalformedEnvelope));
    let three = Argument::list(vec![
        Argument::integer(0x0499),
        Argument::variant(bytes(&[1])),
        Argument::integer(0x004C),
    ]);
    assert_eq!(manufacturer_payload(&three), Err(DecodeError::MalformedEnvelope));
    let two_entries = Argument::list(vec![
        Argument::integer(0x0499),
        Argument::variant(bytes(&[1])),
        Argument::integer(0x004C),
        Argument::variant(bytes(&[2])),
    ]);
    assert_eq!(manufacturer_payload(&two_entries), Err(DecodeError::MalformedEnvelope));
}

#[test]
fn value_that_wraps_nothing_or_too_much_is_malformed() {
    let plain_value = Argument::list(vec![Argument::integer(0x0499), Argument::integer(5)]);
    assert_eq!(manufacturer_payload(&plain_value), Err(DecodeError::MalformedEnvelope));
    let empty_wrapper = Argument::list(vec![Argument::integer(0x0499), Argument::list(vec![])]);
    assert_eq!(manufacturer_payload(&empty_wrapper), Err(DecodeError::MalformedEnvelope));
    let two_lists = Argument::list(vec![
        Argument::integer(0x0499),
        Argument::list(vec![bytes(&[1]), bytes(&[2])]),
    ]);
    assert_eq!(manufacturer_payload(&two_lists), Err(DecodeError::MalformedEnvelope));
}

#[test]
fn wrapped_value_that_is_no_list_is_malformed() {
    let data = envelope(Argument::integer(5));
    assert_eq!(manufacturer_payload(&data), Err(DecodeError::MalformedEnvelope));
    let bare_bytes = Argument::list(vec![Argument::integer(0x0499), bytes(&[1, 2, 3])]);
    assert_eq!(manufacturer_payload(&bare_bytes), Err(DecodeError::MalformedEnvelope));
}

#[test]
fn item_that_is_no_integer_is_malformed() {
    let list = Argument::list(vec![
        Argument::integer(1),
        Argument { integer: None, items: None },
        Argument::integer(3),
    ]);
    assert_eq!(manufacturer_payload(&envelope(list)), Err(DecodeError::MalformedEnvelope));
    let nested = Argument::list(vec![Argument::integer(1), bytes(&[2])]);
    assert_eq!(manufacturer_payload(&envelope(nested)), Err(DecodeError::MalformedEnvelope));
}

#[test]
fn item_that_is_a_wrapped_integer_counts_as_integer() {
    let list = Argument::list(vec![Argument::variant(Argument::integer(9))]);
    assert_eq!(manufacturer_payload(&envelope(list)), Ok(vec![9]));
}

#[test]
fn changed_properties_decode_to_the_reading_of_their_payload() {
    let properties = changed(Argument::manufacturer_data(0x0499, &ENVELOPE_PAYLOAD));
    let reading = SensorDataV5::from_dbus_changed_properties(properties).unwrap();
    assert_eq!(Ok(reading), SensorDataV5::from_payload(&ENVELOPE_PAYLOAD));
    assert_eq!(reading.temperature_in_millicelcius(), 24300);
    assert_eq!(reading.measurement_number, 205);
    assert_eq!(reading.mac_as_str(), "CB:B8:33:4C:88:4F");
}

#[test]
fn changed_properties_without_manufacturer_data_are_malformed() {
    let properties = ChangedProperties { manufacturer_data: None };
    assert_eq!(
        SensorDataV5::from_dbus_changed_properties(properties),
        Err(DecodeError::MalformedEnvelope)
    );
}

#[test]
fn changed_properties_of_another_shape_are_malformed() {
    let properties = changed(Argument::integer(1));
    assert_eq!(
        SensorDataV5::from_dbus_changed_properties(properties),
        Err(DecodeError::MalformedEnvelope)
    );
    let properties = changed(Argument::list(vec![Argument::integer(0x0499)]));
    assert_eq!(
        SensorDataV5::from_dbus_changed_properties(properties),
        Err(DecodeError::MalformedEnvelope)
    );
}

#[test]
fn changed_properties_with_a_payload_of_another_length_are_refused() {
    for length in [0usize, 1, 23, 25, 48] {
        let payload = vec![0u8; length];
        let properties = changed(Argument::manufacturer_data(0x0499, &payload));
        assert_eq!(
            SensorDataV5::from_dbus_changed_properties(properties),
            Err(DecodeError::InvalidPayloadLength { expected: 24, actual: length })
        );
    }
}

#[test]
fn shape_is_examined_before_length() {
    let list = Argument::list(vec![Argument::integer(1), Argument { integer: None, items: None }]);
    assert_eq!(
        SensorDataV5::from_dbus_changed_properties(changed(envelope(list))),
        Err(DecodeError::MalformedEnvelope)
    );
}
