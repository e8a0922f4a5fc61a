use ginepro::endpoint::format_endpoint_uri;
use ginepro::endpoint::format_host;
use ginepro::numfmt::u16_to_dec;
use ginepro::numfmt::u16_to_hex;
use ginepro::EndpointAddr;
use ginepro::IpAddress;
use ginepro::Scheme;

fn v4(a: u8, b: u8, c: u8, d: u8, port: u16) -> EndpointAddr {
    EndpointAddr { ip: IpAddress::V4 { a, b, c, d }, port }
}

fn v6(g: [u16; 8], port: u16) -> EndpointAddr {
    EndpointAddr {
        ip: IpAddress::V6 {
            g0: g[0],
            g1: g[1],
            g2: g[2],
            g3: g[3],
            g4: g[4],
            g5: g[5],
            g6: g[6],
            g7: g[7],
        },
        port,
    }
}

#[test]
fn decimal_text_exact_values() {
    assert_eq!(u16_to_dec(0), "0");
    assert_eq!(u16_to_dec(7), "7");
    assert_eq!(u16_to_dec(10), "10");
    assert_eq!(u16_to_dec(5000), "5000");
    assert_eq!(u16_to_dec(65535), "65535");
}

#[test]
fn hexadecimal_text_exact_values() {
    assert_eq!(u16_to_hex(0), "0");
    assert_eq!(u16_to_hex(15), "f");
    assert_eq!(u16_to_hex(255), "ff");
    assert_eq!(u16_to_hex(0x1000), "1000");
    assert_eq!(u16_to_hex(0xdb8), "db8");
    assert_eq!(u16_to_hex(0xffff), "ffff");
}

#[test]
fn ipv4_uri_is_dotted_quad() {
    let uri = format_endpoint_uri(Scheme::Http, &v4(127, 0, 0, 1, 8000));
    assert_eq!(uri, "http://127.0.0.1:8000");
}

#[test]
fn ipv4_uri_https_scheme() {
    let uri = format_endpoint_uri(Scheme::Https, &v4(10, 0, 0, 124, 5000));
    assert_eq!(uri, "https://10.0.0.124:5000");
}

#[test]
fn ipv4_uri_widest_octets() {
    let uri = format_endpoint_uri(Scheme::Http, &v4(255, 255, 255, 255, 65535));
    assert_eq!(uri, "http://255.255.255.255:65535");
}

#[test]
fn ipv6_loopback_is_bracketed_and_compressed() {
    let uri = format_endpoint_uri(Scheme::Https, &v6([0, 0, 0, 0, 0, 0, 0, 1], 5000));
    assert_eq!(uri, "https://[::1]:5000");
}

#[test]
fn ipv6_without_zero_run_is_not_compressed() {
    let uri = format_endpoint_uri(Scheme::Http, &v6([1, 2, 3, 4, 5, 6, 7, 8], 80));
    assert_eq!(uri, "http://[1:2:3:4:5:6:7:8]:80");
}

#[test]
fn ipv6_longest_zero_run_wins() {
    let host = format_host(&v6([0, 0, 1, 0, 0, 0, 1, 0], 1).ip);
    assert_eq!(host, "[0:0:1::1:0]");
}

#[test]
fn ipv6_leftmost_zero_run_wins_ties() {
    let host = format_host(&v6([0, 0, 1, 1, 0, 0, 1, 1], 1).ip);
    assert_eq!(host, "[::1:1:0:0:1:1]");
}

#[test]
fn ipv6_all_zero_is_double_colon() {
    let uri = format_endpoint_uri(Scheme::Http, &v6([0; 8], 53));
    assert_eq!(uri, "http://[::]:53");
}

#[test]
fn ipv6_single_zero_group_is_not_compressed() {
    let host = format_host(&v6([1, 0, 2, 3, 4, 5, 6, 7], 1).ip);
    assert_eq!(host, "[1:0:2:3:4:5:6:7]");
}

#[test]
fn ipv6_hex_is_lower_case_without_leading_zeros() {
    let uri = format_endpoint_uri(Scheme::Https, &v6([0x2001, 0xdb8, 0, 0, 0, 0, 0, 1], 443));
    assert_eq!(uri, "https://[2001:db8::1]:443");
}

#[test]
fn ipv6_trailing_zero_run() {
    let host = format_host(&v6([0xfe80, 1, 0, 0, 0, 0, 0, 0], 1).ip);
    assert_eq!(host, "[fe80:1::]");
}
