use mcping::address::{
    choose_java_endpoint, endpoint_from_lookup, parse_address, srv_service_name,
};
use mcping::Error;

#[test]
fn host_and_port_split_on_the_colon() {
    let (host, port) = parse_address("a.b.c:1234", 25565).unwrap();
    assert_eq!(host, "a.b.c");
    assert_eq!(port, 1234);
}

#[test]
fn missing_port_takes_the_java_default() {
    let (host, port) = parse_address("a.b.c", 25565).unwrap();
    assert_eq!(host, "a.b.c");
    assert_eq!(port, 25565);
}

#[test]
fn missing_port_takes_the_bedrock_default() {
    let (host, port) = parse_address("a.b.c", 19132).unwrap();
    assert_eq!(host, "a.b.c");
    assert_eq!(port, 19132);
}

#[test]
fn unparseable_port_is_an_invalid_address() {
    assert_eq!(parse_address("a.b.c:bogus", 25565), Err(Error::InvalidAddress));
}

#[test]
fn empty_port_text_is_an_invalid_address() {
    assert_eq!(parse_address("a.b.c:", 25565), Err(Error::InvalidAddress));
}

#[test]
fn out_of_range_port_is_an_invalid_address() {
    assert_eq!(parse_address("a.b.c:65536", 25565), Err(Error::InvalidAddress));
}

#[test]
fn text_after_a_second_colon_is_ignored() {
    let (host, port) = parse_address("a:1:2", 25565).unwrap();
    assert_eq!(host, "a");
    assert_eq!(port, 1);
}

#[test]
fn ip_literal_with_port_parses() {
    let (host, port) = parse_address("13.212.76.209:23193", 25565).unwrap();
    assert_eq!(host, "13.212.76.209");
    assert_eq!(port, 23193);
}

#[test]
fn srv_name_has_service_label_and_trailing_dot() {
    assert_eq!(srv_service_name("mc.example.org"), "_minecraft._tcp.mc.example.org.");
}

#[test]
fn srv_answer_overrides_host_and_port() {
    let r = choose_java_endpoint(Some((Some("10.0.0.7"), 25599)), Some("10.0.0.1"), 25565);
    assert_eq!(r, Ok(("10.0.0.7", 25599)));
}

#[test]
fn srv_target_without_address_falls_back_to_plain_lookup() {
    let r = choose_java_endpoint(Some((None, 25599)), Some("10.0.0.1"), 25565);
    assert_eq!(r, Ok(("10.0.0.1", 25565)));
}

#[test]
fn no_srv_record_falls_back_to_plain_lookup() {
    let r = choose_java_endpoint::<&str>(None, Some("10.0.0.1"), 1234);
    assert_eq!(r, Ok(("10.0.0.1", 1234)));
}

#[test]
fn no_address_at_all_is_a_dns_failure() {
    let r = choose_java_endpoint::<&str>(None, None, 25565);
    assert_eq!(r, Err(Error::DnsLookupFailed));
}

#[test]
fn plain_lookup_keeps_the_parsed_port() {
    assert_eq!(endpoint_from_lookup(Some("10.0.0.2"), 19132), Ok(("10.0.0.2", 19132)));
    assert_eq!(endpoint_from_lookup::<&str>(None, 19132), Err(Error::DnsLookupFailed));
}

#[test]
fn error_messages_name_the_failure() {
    assert_eq!(Error::InvalidAddress.message(), "an invalid address was provided");
    assert_eq!(Error::DnsLookupFailed.message(), "DNS lookup for the host provided failed");
    assert_eq!(
        Error::IoError(String::from("connection refused")).message(),
        "an I/O error occurred: connection refused"
    );
}

#[test]
fn highest_port_value_parses() {
    let (_, port) = parse_address("a.b.c:65535", 25565).unwrap();
    assert_eq!(port, 65535);
}

#[test]
fn colon_heavy_ipv6_text_does_not_split_into_a_port() {
    // The split is on the first colon, so a bare IPv6 literal leaves an
    // empty port text behind it.
    assert_eq!(parse_address("[::1]:25565", 25565), Err(Error::InvalidAddress));
    assert_eq!(parse_address("::1", 25565), Err(Error::InvalidAddress));
}
