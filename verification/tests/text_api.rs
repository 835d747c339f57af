use obot::text_api::{
    format_value, parse_request, ApiCatalog, ApiDispatchError, ApiEntry, ApiParseError, ApiRequest, ApiValue,
};

#[test]
fn parses_variable_get_like_motorlib_api() {
    assert_eq!(
        parse_request(" kp "),
        Ok(ApiRequest::Get { name: "kp".as_bytes() })
    );
}

#[test]
fn parses_variable_set_like_motorlib_api() {
    assert_eq!(
        parse_request("kp = 99"),
        Ok(ApiRequest::Assign {
            name: "kp".as_bytes(),
            value: "99".as_bytes(),
        })
    );
}

#[test]
fn parses_api_name_lookup() {
    assert_eq!(
        parse_request("api_name=12"),
        Ok(ApiRequest::NameAt { index: 12 })
    );
}

#[test]
fn rejects_empty_or_incomplete_commands() {
    assert_eq!(parse_request("   "), Err(ApiParseError::Empty));
    assert_eq!(parse_request("=1"), Err(ApiParseError::MissingName));
    assert_eq!(parse_request("kp="), Err(ApiParseError::MissingValue));
}

#[test]
fn rejects_invalid_api_name_index() {
    assert_eq!(
        parse_request("api_name=not-a-number"),
        Err(ApiParseError::InvalidIndex)
    );
    assert_eq!(
        parse_request("api_name=70000"),
        Err(ApiParseError::InvalidIndex)
    );
}

#[test]
fn dispatches_fixed3_without_unnecessary_trailing_zeroes() {
    let entries = [
        ApiEntry::new("positive", ApiValue::Fixed3(435_708)),
        ApiEntry::new("whole", ApiValue::Fixed3(17_000_000)),
        ApiEntry::new("negative", ApiValue::Fixed3(-3_421_250)),
    ];
    let catalog = ApiCatalog::new(&entries);
    let mut output = [0; 32];

    assert_eq!(catalog.dispatch("positive", &mut output), Ok("435.708".as_bytes()));
    assert_eq!(catalog.dispatch("whole", &mut output), Ok("17000".as_bytes()));
    assert_eq!(catalog.dispatch("negative", &mut output), Ok("-3421.25".as_bytes()));
}

#[test]
fn dispatches_api_name_lookup_from_fixed_catalog_order() {
    let entries = [
        ApiEntry::new("max_fast_loop_cycles", ApiValue::U32(836)),
        ApiEntry::new("bus_voltage_raw", ApiValue::U16(2)),
    ];
    let catalog = ApiCatalog::new(&entries);
    let mut output = [0; 32];

    assert_eq!(
        catalog.dispatch("api_name=0", &mut output),
        Ok("max_fast_loop_cycles".as_bytes())
    );
    assert_eq!(
        catalog.dispatch("api_name=1", &mut output),
        Ok("bus_voltage_raw".as_bytes())
    );
    assert_eq!(
        catalog.dispatch("api_name=2", &mut output),
        Err(ApiDispatchError::NameIndexOutOfRange)
    );
}

#[test]
fn rejects_responses_that_do_not_fit_output_buffer() {
    let entries = [ApiEntry::new("long", ApiValue::Str("abcdef"))];
    let catalog = ApiCatalog::new(&entries);
    let mut output = [0; 3];

    assert_eq!(
        catalog.dispatch("long", &mut output),
        Err(ApiDispatchError::ResponseTooLong)
    );
}

#[test]
fn dispatches_integer_bool_and_text_reads() {
    let entries = [
        ApiEntry::new("ready", ApiValue::Bool(true)),
        ApiEntry::new("bus_voltage_raw", ApiValue::U16(1963)),
        ApiEntry::new("fault", ApiValue::Str("none")),
        ApiEntry::new("offset", ApiValue::I32(-42)),
        ApiEntry::new("mode", ApiValue::U8(3)),
        ApiEntry::new("small", ApiValue::Fixed3(-5)),
    ];
    let catalog = ApiCatalog::new(&entries);
    let mut output = [0; 32];

    assert_eq!(catalog.dispatch("ready", &mut output), Ok("true".as_bytes()));
    assert_eq!(catalog.dispatch("bus_voltage_raw", &mut output), Ok("1963".as_bytes()));
    assert_eq!(catalog.dispatch("fault", &mut output), Ok("none".as_bytes()));
    assert_eq!(catalog.dispatch("offset", &mut output), Ok("-42".as_bytes()));
    assert_eq!(catalog.dispatch("mode", &mut output), Ok("3".as_bytes()));
    assert_eq!(catalog.dispatch("small", &mut output), Ok("-0.005".as_bytes()));
    assert_eq!(catalog.len(), 6);
    assert!(!catalog.is_empty());
}

#[test]
fn rejects_unknown_names_writes_and_parse_errors() {
    let entries = [ApiEntry::new("kp", ApiValue::U32(100))];
    let catalog = ApiCatalog::new(&entries);
    let mut output = [0; 32];

    assert_eq!(
        catalog.dispatch("missing", &mut output),
        Err(ApiDispatchError::UnknownName)
    );
    assert_eq!(
        catalog.dispatch("kp=99", &mut output),
        Err(ApiDispatchError::ReadOnly)
    );
    assert_eq!(
        catalog.dispatch("ki=99", &mut output),
        Err(ApiDispatchError::UnknownName)
    );
    assert_eq!(
        catalog.dispatch("  ", &mut output),
        Err(ApiDispatchError::Parse(ApiParseError::Empty))
    );
}

#[test]
fn too_long_response_keeps_the_pieces_that_fitted() {
    let mut output = [b'x'; 4];
    assert_eq!(format_value(ApiValue::Fixed3(-12_345), &mut output), Err(ApiDispatchError::ResponseTooLong));
    assert_eq!(&output, b"-12.");

    let mut output = [b'x'; 2];
    assert_eq!(format_value(ApiValue::I32(-57), &mut output), Err(ApiDispatchError::ResponseTooLong));
    assert_eq!(&output, b"-x");

    let mut output = [b'x'; 3];
    assert_eq!(format_value(ApiValue::Str("abcdef"), &mut output), Err(ApiDispatchError::ResponseTooLong));
    assert_eq!(&output, b"xxx");

    let entries = [ApiEntry::new("torque", ApiValue::Fixed3(1_500))];
    let catalog = ApiCatalog::new(&entries);
    let mut output = [b'x'; 2];
    assert_eq!(catalog.dispatch("torque", &mut output), Err(ApiDispatchError::ResponseTooLong));
    assert_eq!(&output, b"1.");
}
