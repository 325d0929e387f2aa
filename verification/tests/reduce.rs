use quic_metrics::ip::network_of;
use quic_metrics::ip::quic_expensive_metrics_ip_reduce;
use quic_metrics::ip::IpAddress;
use quic_metrics::ip::QUIC_INITIAL_METRICS_V4_PREFIX;
use quic_metrics::ip::QUIC_INITIAL_METRICS_V6_PREFIX;

fn v4(a: u8, b: u8, c: u8, d: u8) -> IpAddress {
    IpAddress::V4(u32::from_be_bytes([a, b, c, d]))
}

fn v6(segments: [u16; 8]) -> IpAddress {
    let mut bits: u128 = 0;
    for segment in segments {
        bits = (bits << 16) | segment as u128;
    }
    IpAddress::V6(bits)
}

#[test]
fn the_prefixes_are_20_and_32_bits() {
    assert_eq!(QUIC_INITIAL_METRICS_V4_PREFIX, 20);
    assert_eq!(QUIC_INITIAL_METRICS_V6_PREFIX, 32);
}

#[test]
fn reduces_ipv4_to_its_slash_20() {
    let reduced = quic_expensive_metrics_ip_reduce(v4(203, 0, 113, 77)).unwrap();
    assert_eq!(reduced.network(), v4(203, 0, 112, 0));
    assert_eq!(reduced.network(), IpAddress::V4(0xcb00_7000));
    assert_eq!(reduced.prefix_len(), 20);
}

#[test]
fn reduces_ipv6_to_its_slash_32() {
    let ip = v6([0x2001, 0xdb8, 0xabcd, 0xef01, 0, 0, 0, 1]);
    let reduced = quic_expensive_metrics_ip_reduce(ip).unwrap();
    assert_eq!(reduced.network(), v6([0x2001, 0xdb8, 0, 0, 0, 0, 0, 0]));
    assert_eq!(
        reduced.network(),
        IpAddress::V6(0x2001_0db8_0000_0000_0000_0000_0000_0000)
    );
    assert_eq!(reduced.prefix_len(), 32);
}

#[test]
fn reduction_clears_the_lower_bits_and_nothing_else() {
    for bits in [
        0u32,
        1,
        0xfff,
        0x1000,
        0x1fff,
        0x7fff_ffff,
        0x8000_0000,
        0xdead_beef,
        u32::MAX,
    ] {
        let reduced = quic_expensive_metrics_ip_reduce(IpAddress::V4(bits)).unwrap();
        assert_eq!(reduced.network(), IpAddress::V4(bits & 0xffff_f000));
        assert_eq!(reduced.network(), IpAddress::V4(bits - bits % 4096));
    }
    for bits in [
        0u128,
        1,
        (1 << 96) - 1,
        1 << 96,
        0x0123_4567_89ab_cdef_0123_4567_89ab_cdef,
        u128::MAX,
    ] {
        let reduced = quic_expensive_metrics_ip_reduce(IpAddress::V6(bits)).unwrap();
        assert_eq!(reduced.network(), IpAddress::V6(bits >> 96 << 96));
    }
}

#[test]
fn reduction_keeps_the_family() {
    // The same 32 leading bits, once as an IPv4 address and once as the
    // start of an IPv6 address, are two networks.
    let four = quic_expensive_metrics_ip_reduce(IpAddress::V4(0x2001_0db8)).unwrap();
    let six = quic_expensive_metrics_ip_reduce(IpAddress::V6(0x2001_0db8 << 96)).unwrap();
    assert_eq!(four.network(), IpAddress::V4(0x2001_0000));
    assert_eq!(six.network(), IpAddress::V6(0x2001_0db8 << 96));
    assert!(four.network().is_ipv4());
    assert!(!four.network().is_ipv6());
    assert!(six.network().is_ipv6());
    assert!(!six.network().is_ipv4());
    assert_ne!(four, six);
}

#[test]
fn reducing_twice_gives_the_same_network() {
    for ip in [
        v4(203, 0, 113, 77),
        v4(255, 255, 255, 255),
        v6([0x2001, 0xdb8, 0xabcd, 0xef01, 0, 0, 0, 1]),
    ] {
        let first = quic_expensive_metrics_ip_reduce(ip);
        let second = quic_expensive_metrics_ip_reduce(ip);
        assert!(first.is_some());
        assert_eq!(first, second);
    }
}

#[test]
fn a_network_reduces_to_itself() {
    for ip in [
        v4(203, 0, 113, 77),
        v4(10, 1, 255, 255),
        v6([0x2001, 0xdb8, 0xabcd, 0xef01, 0, 0, 0, 1]),
    ] {
        let once = quic_expensive_metrics_ip_reduce(ip).unwrap();
        let twice = quic_expensive_metrics_ip_reduce(once.network()).unwrap();
        assert_eq!(once, twice);
    }
}

#[test]
fn clients_of_one_network_share_it() {
    // 203.0.112.0/20 runs from 203.0.112.0 to 203.0.127.255.
    let network = quic_expensive_metrics_ip_reduce(v4(203, 0, 113, 77)).unwrap();
    assert_eq!(quic_expensive_metrics_ip_reduce(v4(203, 0, 112, 0)), Some(network));
    assert_eq!(quic_expensive_metrics_ip_reduce(v4(203, 0, 127, 255)), Some(network));
    assert_ne!(quic_expensive_metrics_ip_reduce(v4(203, 0, 128, 0)), Some(network));
    assert_ne!(quic_expensive_metrics_ip_reduce(v4(203, 0, 111, 255)), Some(network));

    let network =
        quic_expensive_metrics_ip_reduce(v6([0x2001, 0xdb8, 0xabcd, 0xef01, 0, 0, 0, 1])).unwrap();
    let last = v6([0x2001, 0xdb8, 0xffff, 0xffff, 0xffff, 0xffff, 0xffff, 0xffff]);
    assert_eq!(quic_expensive_metrics_ip_reduce(last), Some(network));
    assert_ne!(
        quic_expensive_metrics_ip_reduce(v6([0x2001, 0xdb9, 0, 0, 0, 0, 0, 0])),
        Some(network)
    );
}

#[test]
fn network_of_keeps_the_bits_of_the_prefix() {
    assert_eq!(network_of(v4(10, 1, 9, 32), 16), Some(v4(10, 1, 0, 0)));
    assert_eq!(network_of(v4(203, 0, 113, 77), 20), Some(v4(203, 0, 112, 0)));
    assert_eq!(network_of(v4(203, 0, 113, 77), 0), Some(v4(0, 0, 0, 0)));
    assert_eq!(network_of(v4(203, 0, 113, 77), 1), Some(v4(128, 0, 0, 0)));
    assert_eq!(network_of(v4(203, 0, 113, 77), 31), Some(v4(203, 0, 113, 76)));
    assert_eq!(network_of(v4(203, 0, 113, 77), 32), Some(v4(203, 0, 113, 77)));
    let ip = v6([0x2001, 0xdb8, 0xabcd, 0xef01, 0, 0, 0, 1]);
    assert_eq!(network_of(ip, 0), Some(v6([0; 8])));
    assert_eq!(network_of(ip, 32), Some(v6([0x2001, 0xdb8, 0, 0, 0, 0, 0, 0])));
    assert_eq!(network_of(ip, 36), Some(v6([0x2001, 0xdb8, 0xa000, 0, 0, 0, 0, 0])));
    assert_eq!(network_of(ip, 127), Some(v6([0x2001, 0xdb8, 0xabcd, 0xef01, 0, 0, 0, 0])));
    assert_eq!(network_of(ip, 128), Some(ip));
}

#[test]
fn network_of_refuses_a_prefix_longer_than_the_address() {
    assert_eq!(network_of(v4(203, 0, 113, 77), 33), None);
    assert_eq!(network_of(v4(203, 0, 113, 77), 128), None);
    assert_eq!(network_of(v4(203, 0, 113, 77), 255), None);
    assert_eq!(network_of(v6([0, 0, 0, 0, 0, 0, 0, 1]), 129), None);
    assert_eq!(network_of(v6([0, 0, 0, 0, 0, 0, 0, 1]), 255), None);
}
