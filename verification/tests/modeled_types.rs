use modeled_types::Error;
use modeled_types::Identifier;
use modeled_types::SingleLineString;
use modeled_types::Url;
use modeled_types::ValidatedText;

#[test]
fn valid_single_line_string() {
    assert!(SingleLineString::try_from("").is_ok());
    assert!(SingleLineString::try_from("hi").is_ok());
    let long_string = std::iter::repeat(" ").take(9999).collect::<String>();
    let json_long_string = format!("{}", &long_string);
    assert!(SingleLineString::try_from_string(json_long_string).is_ok());
}

#[test]
fn invalid_single_line_string() {
    assert!(SingleLineString::try_from("Hello\nWorld").is_err());

    assert!(SingleLineString::try_from("\n").is_err());
    assert!(SingleLineString::try_from("\r").is_err());
    assert!(SingleLineString::try_from("\r\n").is_err());

    assert!(SingleLineString::try_from("\u{000B}").is_err()); // vertical tab
    assert!(SingleLineString::try_from("\u{000C}").is_err()); // form feed
    assert!(SingleLineString::try_from("\u{0085}").is_err()); // next line
    assert!(SingleLineString::try_from("\u{2028}").is_err()); // line separator
    assert!(SingleLineString::try_from("\u{2029}").is_err());
    // paragraph separator
}

#[test]
fn valid_identifier() {
    assert!(Identifier::try_from("hello-world").is_ok());
    assert!(Identifier::try_from("helloworld").is_ok());
    assert!(Identifier::try_from("123321hello").is_ok());
    assert!(Identifier::try_from("hello-1234").is_ok());
    assert!(Identifier::try_from("--------").is_ok());
    assert!(Identifier::try_from("11111111").is_ok());
}

#[test]
fn invalid_identifier() {
    assert!(Identifier::try_from("../").is_err());
    assert!(Identifier::try_from("{}").is_err());
    assert!(Identifier::try_from("hello|World").is_err());
    assert!(Identifier::try_from("hello\nWorld").is_err());
    assert!(Identifier::try_from("hello_world").is_err());
    assert!(Identifier::try_from("\u{30BF}\u{30FC}\u{30EB}").is_err());
    assert!(Identifier::try_from("\u{1F49D}").is_err());
}

#[test]
fn good_urls() {
    for ok in &[
        "https://example.com/path",
        "https://example.com",
        "example.com/path",
        "example.com",
        "ntp://127.0.0.1/path",
        "ntp://127.0.0.1",
        "127.0.0.1/path",
        "127.0.0.1",
        "http://localhost/path",
        "http://localhost",
        "localhost/path",
        "localhost",
    ] {
        Url::try_from(*ok).unwrap();
    }
}

#[test]
fn bad_urls() {
    for err in &["how are you", "weird@"] {
        Url::try_from(*err).unwrap_err();
    }
}

#[test]
fn empty_and_hyphen_identifiers() {
    assert!(Identifier::try_from("").is_ok());
    assert!(Identifier::try_from("-").is_ok());
    assert!(Identifier::try_from(" ").is_err());
    assert!(Identifier::try_from("a b").is_err());
}

#[test]
fn single_line_error_variant() {
    let e = SingleLineString::try_from("a\u{2028}b").unwrap_err();
    assert_eq!(e, Error::StringContainsLineTerminator);
    assert_eq!(
        e.message(),
        "Can't create SingleLineString containing line terminator"
    );
}

#[test]
fn identifier_error_variant() {
    let e = Identifier::try_from("hello_world").unwrap_err();
    assert!(matches!(e, Error::InvalidIdentifier { ref input } if input == "hello_world"));
    assert_eq!(
        e.message(),
        "Identifiers may only contain ASCII alphanumerics plus hyphens, received 'hello_world'"
    );
}

#[test]
fn url_error_variant() {
    let e = Url::try_from("weird@").unwrap_err();
    assert!(matches!(e, Error::InvalidUrl { ref input } if input == "weird@"));
    assert_eq!(e.message(), "Given invalid URL 'weird@'");
}

#[test]
fn reserved_error_messages() {
    let e = Error::InvalidBase64 {
        message: String::from("bad padding"),
    };
    assert_eq!(e.message(), "Invalid base64 input: bad padding");

    let e = Error::BigPattern {
        thing: String::from("Cluster name"),
        input: String::from("???"),
    };
    assert_eq!(e.message(), "Cluster name given invalid input: ???");

    let e = Error::InvalidClusterName {
        name: String::from("x"),
        msg: String::from("too short"),
    };
    assert_eq!(e.message(), "Given invalid cluster name 'x': too short");
}

#[test]
fn single_line_round_trip() {
    let v = SingleLineString::try_from("hello world").unwrap();
    let serialized = v.serialize();
    assert_eq!(serialized, "hello world");
    let w = SingleLineString::deserialize(&serialized).unwrap();
    assert_eq!(w, v);
    assert_eq!(v.as_str(), "hello world");
    assert_eq!(v.into_string(), "hello world");
}

#[test]
fn identifier_round_trip() {
    let v = Identifier::try_from("hello-1234").unwrap();
    let serialized = v.serialize();
    assert_eq!(serialized, "hello-1234");
    let w = Identifier::deserialize(&serialized).unwrap();
    assert_eq!(w, v);
    assert_eq!(v.into_string(), "hello-1234");
}

#[test]
fn url_round_trip_stores_original() {
    // Even when only the scheme-prefixed form parses, the stored and
    // serialized text is the unprefixed original.
    for ok in &["example.com", "127.0.0.1/path", "localhost"] {
        let v = Url::try_from(*ok).unwrap();
        assert_eq!(v.as_str(), *ok);
        let serialized = v.serialize();
        assert_eq!(serialized, *ok);
        let w = Url::deserialize(&serialized).unwrap();
        assert_eq!(w, v);
    }
}

#[test]
fn deserialize_failure_names_type_and_reason() {
    let m = SingleLineString::deserialize("a\nb").unwrap_err();
    assert_eq!(
        m,
        "Unable to deserialize into SingleLineString: Can't create SingleLineString containing line terminator"
    );

    let m = Identifier::deserialize("hello_world").unwrap_err();
    assert_eq!(
        m,
        "Unable to deserialize into Identifier: Identifiers may only contain ASCII alphanumerics plus hyphens, received 'hello_world'"
    );

    let m = Url::deserialize("how are you").unwrap_err();
    assert_eq!(m, "Unable to deserialize into Url: Given invalid URL 'how are you'");
}

#[test]
fn owned_and_borrowed_construction_agree() {
    let a = SingleLineString::try_from("same text").unwrap();
    let b = SingleLineString::try_from_string(String::from("same text")).unwrap();
    assert_eq!(a, b);

    let a = Identifier::try_from_string(String::from("a-1")).unwrap();
    assert_eq!(a.as_str(), "a-1");
    assert!(Identifier::try_from_string(String::from("a_1")).is_err());

    let a = Url::try_from_string(String::from("https://example.com")).unwrap();
    assert_eq!(a.as_str(), "https://example.com");
    assert!(Url::try_from_string(String::from("how are you")).is_err());
}
