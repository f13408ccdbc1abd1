use modbus_service::frame::{rtu, tcp, FrameHeader};
use modbus_service::service::verify_response_header;
use modbus_service::text::push_decimal;

#[test]
fn rtu_validate_same_headers() {
    // Given
    let req_hdr = rtu::Header { slave_id: 0 };
    let rsp_hdr = rtu::Header { slave_id: 0 };

    // When
    let result = verify_response_header(&req_hdr, &rsp_hdr);

    // Then
    assert!(result.is_ok());
}

#[test]
fn invalid_validate_not_same_slave_id() {
    // Given
    let req_hdr = rtu::Header { slave_id: 0 };
    let rsp_hdr = rtu::Header { slave_id: 5 };

    // When
    let result = verify_response_header(&req_hdr, &rsp_hdr);

    // Then
    assert!(result.is_err());
}

#[test]
fn tcp_validate_same_headers() {
    // Given
    let req_hdr = tcp::Header {
        unit_id: 0,
        transaction_id: 42,
    };
    let rsp_hdr = tcp::Header {
        unit_id: 0,
        transaction_id: 42,
    };

    // When
    let result = verify_response_header(&req_hdr, &rsp_hdr);

    // Then
    assert!(result.is_ok());
}

#[test]
fn invalid_validate_not_same_unit_id() {
    // Given
    let req_hdr = tcp::Header {
        unit_id: 0,
        transaction_id: 42,
    };
    let rsp_hdr = tcp::Header {
        unit_id: 5,
        transaction_id: 42,
    };

    // When
    let result = verify_response_header(&req_hdr, &rsp_hdr);

    // Then
    assert!(result.is_err());
}

#[test]
fn invalid_validate_not_same_transaction_id() {
    // Given
    let req_hdr = tcp::Header {
        unit_id: 0,
        transaction_id: 42,
    };
    let rsp_hdr = tcp::Header {
        unit_id: 0,
        transaction_id: 86,
    };

    // When
    let result = verify_response_header(&req_hdr, &rsp_hdr);

    // Then
    assert!(result.is_err());
}

#[test]
fn mismatch_message_describes_both_rtu_headers() {
    let req_hdr = rtu::Header { slave_id: 0 };
    let rsp_hdr = rtu::Header { slave_id: 247 };
    assert_eq!(
        verify_response_header(&req_hdr, &rsp_hdr),
        Err(format!(
            "expected/request = {req_hdr:?}, actual/response = {rsp_hdr:?}"
        ))
    );
    assert_eq!(
        verify_response_header(&req_hdr, &rsp_hdr).unwrap_err(),
        "expected/request = Header { slave_id: 0 }, actual/response = Header { slave_id: 247 }"
    );
}

#[test]
fn mismatch_message_describes_both_tcp_headers() {
    let req_hdr = tcp::Header {
        transaction_id: 65535,
        unit_id: 1,
    };
    let rsp_hdr = tcp::Header {
        transaction_id: 10,
        unit_id: 255,
    };
    assert_eq!(
        verify_response_header(&req_hdr, &rsp_hdr),
        Err(format!(
            "expected/request = {req_hdr:?}, actual/response = {rsp_hdr:?}"
        ))
    );
}

#[test]
fn descriptions_are_the_debug_texts() {
    for id in 0..=255 {
        let hdr = tcp::Header {
            transaction_id: u16::from(id) * 257,
            unit_id: id,
        };
        let mut text = String::new();
        hdr.describe(&mut text);
        assert_eq!(text, format!("{hdr:?}"));
        let hdr = rtu::Header { slave_id: id };
        let mut text = String::new();
        hdr.describe(&mut text);
        assert_eq!(text, format!("{hdr:?}"));
    }
}

#[test]
fn decimal_text_is_appended() {
    let mut text = String::from("n = ");
    push_decimal(&mut text, 0);
    push_decimal(&mut text, 907);
    assert_eq!(text, "n = 0907");
    for n in 0..=u16::MAX {
        let mut text = String::new();
        push_decimal(&mut text, n);
        assert_eq!(text, n.to_string());
    }
}
