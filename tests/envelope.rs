use rusoto_core::{
    BufferedHttpResponse, CredentialsError, DescribeError, ErrorSource, HttpDispatchError,
    RusotoError, RusotoResult, XmlParseError,
};

type Envelope = RusotoError<CredentialsError>;

fn response(body: &[u8]) -> BufferedHttpResponse {
    BufferedHttpResponse {
        status: 400,
        headers: vec![("content-type".to_string(), "text/plain".to_string())],
        body: body.to_vec(),
    }
}

#[test]
fn xml_failure_becomes_parse_error_with_its_message() {
    let e: Envelope = RusotoError::from(XmlParseError::new("missing element Code"));
    assert_eq!(e, RusotoError::ParseError("missing element Code".to_string()));
    assert_eq!(e.description(), "missing element Code");
    assert_eq!(e.to_string(), "missing element Code");
    assert!(e.source().is_none());
}

#[test]
fn json_failure_becomes_parse_error_with_its_message() {
    let err = serde_json::from_str::<serde_json::Value>("{").unwrap_err();
    let expected = err.to_string();
    assert_eq!(expected, "EOF while parsing an object at line 1 column 1");
    let e: Envelope = RusotoError::from(err);
    assert_eq!(e, RusotoError::ParseError(expected.clone()));
    assert_eq!(e.description(), expected);
}

#[test]
fn json_failure_through_named_constructor() {
    let err = serde_json::from_str::<serde_json::Value>("[1,]").unwrap_err();
    let e: Envelope = RusotoError::from_json_error(err);
    assert_eq!(e.to_string(), "trailing comma at line 1 column 4");
}

#[test]
fn credentials_failure_is_carried_and_is_the_source() {
    let c = CredentialsError::new("no profile found");
    let e: Envelope = RusotoError::from(c.clone());
    assert_eq!(e, RusotoError::Credentials(c.clone()));
    assert_eq!(e.source(), Some(ErrorSource::Credentials(&c)));
    assert_eq!(e.description(), "no profile found");
}

#[test]
fn dispatch_failure_is_carried_and_is_the_source() {
    let d = HttpDispatchError::new("connection refused".to_string());
    let e: Envelope = RusotoError::from(d.clone());
    assert_eq!(e, RusotoError::HttpDispatch(d.clone()));
    assert_eq!(e.source(), Some(ErrorSource::HttpDispatch(&d)));
    assert_eq!(e.to_string(), "connection refused");
}

#[test]
fn io_fault_becomes_dispatch_failure() {
    let io = std::io::Error::new(std::io::ErrorKind::Other, "broken pipe here");
    let e: Envelope = RusotoError::from(io);
    let expected = HttpDispatchError::new("broken pipe here".to_string());
    assert_eq!(e, RusotoError::HttpDispatch(expected));
    assert_eq!(e.description(), "broken pipe here");
}

#[test]
fn io_fault_and_dispatch_failure_are_alike() {
    let io = std::io::Error::new(std::io::ErrorKind::TimedOut, "timed out");
    let coerced = HttpDispatchError::from(std::io::Error::new(
        std::io::ErrorKind::TimedOut,
        "timed out",
    ));
    let from_io: Envelope = RusotoError::from_io_error(io);
    let from_dispatch: Envelope = RusotoError::from(coerced);
    assert_eq!(from_io, from_dispatch);
}

#[test]
fn dispatch_round_trip() {
    let d = HttpDispatchError::new("reset by peer".to_string());
    let e: Envelope = RusotoError::from(d.clone());
    match e {
        RusotoError::HttpDispatch(back) => assert_eq!(back, d),
        other => panic!("unexpected variant {:?}", other),
    }
}

#[test]
fn validation_and_common_error_show_text_unchanged() {
    let v: Envelope = RusotoError::Validation("bad param".to_string());
    let c: Envelope = RusotoError::ServiceCommonError("bad param".to_string());
    assert_eq!(v.to_string(), "bad param");
    assert_eq!(c.to_string(), "bad param");
    assert!(v.source().is_none());
    assert!(c.source().is_none());
}

#[test]
fn text_with_markup_is_not_escaped() {
    let v: Envelope = RusotoError::Validation("<a & \"b\">".to_string());
    assert_eq!(v.description(), "<a & \"b\">");
}

#[test]
fn unknown_with_empty_body_shows_empty_text() {
    let e: Envelope = RusotoError::Unknown(response(b""));
    assert_eq!(e.to_string(), "");
    assert!(e.source().is_none());
}

#[test]
fn unknown_shows_its_body() {
    let e: Envelope = RusotoError::Unknown(response(b"<Error>Throttled</Error>"));
    assert_eq!(e.description(), "<Error>Throttled</Error>");
}

#[test]
fn unknown_with_non_utf8_body_shows_notice() {
    let e: Envelope = RusotoError::Unknown(response(&[0xff, 0xfe, 0x41]));
    assert_eq!(e.description(), "unknown error");
}

#[test]
fn body_as_str_decodes_multibyte_text() {
    let r = response("caf\u{e9}".as_bytes());
    assert_eq!(r.body_as_str(), "caf\u{e9}");
}

#[test]
fn service_error_is_described_by_its_payload() {
    let e: Envelope = RusotoError::Service(CredentialsError::new("NoSuchBucket"));
    assert_eq!(e.description(), "NoSuchBucket");
    assert_eq!(
        e.source(),
        Some(ErrorSource::Service(&CredentialsError::new("NoSuchBucket")))
    );
}

fn kind(e: &Envelope) -> usize {
    match e {
        RusotoError::Service(_) => 0,
        RusotoError::ServiceCommonError(_) => 1,
        RusotoError::HttpDispatch(_) => 2,
        RusotoError::Credentials(_) => 3,
        RusotoError::Validation(_) => 4,
        RusotoError::ParseError(_) => 5,
        RusotoError::Unknown(_) => 6,
    }
}

#[test]
fn each_envelope_has_exactly_one_kind() {
    let all: Vec<Envelope> = vec![
        RusotoError::Service(CredentialsError::new("s")),
        RusotoError::ServiceCommonError("c".to_string()),
        RusotoError::HttpDispatch(HttpDispatchError::new("d".to_string())),
        RusotoError::Credentials(CredentialsError::new("k")),
        RusotoError::Validation("v".to_string()),
        RusotoError::ParseError("p".to_string()),
        RusotoError::Unknown(response(b"u")),
    ];
    let kinds: Vec<usize> = all.iter().map(kind).collect();
    assert_eq!(kinds, vec![0, 1, 2, 3, 4, 5, 6]);
}

#[test]
fn result_alias_carries_the_envelope() {
    let r: RusotoResult<u32, CredentialsError> =
        Err(RusotoError::from(XmlParseError::new("bad xml")));
    assert_eq!(r, Err(RusotoError::ParseError("bad xml".to_string())));
}
