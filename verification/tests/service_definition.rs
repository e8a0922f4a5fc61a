use ginepro::ServiceDefinition;
use ginepro::ServiceDefinitionError;

#[test]
fn from_parts_round_trips_hostname_and_port() {
    let sd = ServiceDefinition::from_parts("localhost", 8090).unwrap();
    assert_eq!(sd.hostname(), "localhost");
    assert_eq!(sd.port(), 8090);
}

#[test]
fn from_parts_accepts_typical_hostnames() {
    for h in [
        "test.com",
        "www.test.com",
        "a",
        "*",
        "my-svc_1.example.",
        "0.0.0.0",
        "A.B.C",
        "9",
    ] {
        let sd = ServiceDefinition::from_parts(h, 5000).unwrap();
        assert_eq!(sd.hostname(), h);
        assert_eq!(sd.port(), 5000);
    }
}

#[test]
fn from_parts_rejects_characters_outside_the_alphabet() {
    for h in ["bad host", "h\u{e9}llo", "foo/bar", "a:b", "x@y", "tab\there"] {
        let err = ServiceDefinition::from_parts(h, 5000).unwrap_err();
        assert_eq!(err, ServiceDefinitionError::InvalidHostname);
    }
}

#[test]
fn from_parts_port_boundaries() {
    assert_eq!(ServiceDefinition::from_parts("a", 0).unwrap().port(), 0);
    assert_eq!(ServiceDefinition::from_parts("a", u16::MAX).unwrap().port(), u16::MAX);
}
