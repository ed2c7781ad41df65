use libutp_rs::{
    getaddrinfo_from_cache, getaddrinfo_from_std, socketaddr_to_raw, AddrInfo, AddrInfoCache, Error,
    ErrorKind, IpAddr, Lookup, SocketAddr,
};

fn v4(ip: u32, port: u16) -> SocketAddr {
    SocketAddr::V4 { ip, port }
}

fn v6(ip: u128, port: u16, scope_id: u32) -> SocketAddr {
    SocketAddr::V6 { ip, port, flowinfo: 0, scope_id }
}

#[test]
fn test_socket_addr_to_raw() {
    let addr = v4(0x7f00_0001, 0);
    assert_eq!(addr.to_text(), "127.0.0.1:0");
    let (ip, port) = socketaddr_to_raw(addr);
    assert_eq!(ip, "127.0.0.1");
    assert_eq!(port, "0");
}

#[test]
fn texts_of_socket_addresses() {
    let cases = [
        (v4(0, 0), "0.0.0.0:0"),
        (v4(0xffff_ffff, 65535), "255.255.255.255:65535"),
        (v4(0x0a14_1e28, 8080), "10.20.30.40:8080"),
        (v6(0, 1, 0), "[::]:1"),
        (v6(1, 80, 0), "[::1]:80"),
        (v6(1, 80, 3), "[::1%3]:80"),
        (v6(0x0001 << 112, 80, 0), "[1::]:80"),
        (v6(0x2001_0db8_0000_0000_0000_0000_0000_0001, 443, 0), "[2001:db8::1]:443"),
        (v6(0x2001_0db8_0000_0001_0001_0001_0001_0001, 443, 0), "[2001:db8:0:1:1:1:1:1]:443"),
        (v6(0xffff_0102_0304, 9, 0), "[::ffff:1.2.3.4]:9"),
        (v6(0x0102_0304, 9, 0), "[::102:304]:9"),
        (
            v6(0xabcd_ef01_2345_6789_abcd_ef01_2345_6789, 10000, 0),
            "[abcd:ef01:2345:6789:abcd:ef01:2345:6789]:10000",
        ),
    ];
    for (addr, text) in cases {
        assert_eq!(addr.to_text(), text);
        let (ip, port) = socketaddr_to_raw(addr);
        assert_eq!(ip, addr.ip().to_text());
        assert_eq!(port, addr.port().to_string());
    }
}

#[test]
fn texts_tell_addresses_apart() {
    let ips = [
        IpAddr::V4(0),
        IpAddr::V4(0x0102_0304),
        IpAddr::V4(0x010b_0304),
        IpAddr::V6(0),
        IpAddr::V6(0x0102_0304),
        IpAddr::V6(0xffff_0102_0304),
        IpAddr::V6(0xffff_0102_0304 << 16),
        IpAddr::V6(0x0001 << 112),
        IpAddr::V6(0x0001 << 96),
        IpAddr::V6(1),
        IpAddr::V6(0x10),
    ];
    for (i, a) in ips.iter().enumerate() {
        for (j, b) in ips.iter().enumerate() {
            assert_eq!(a.to_text() == b.to_text(), i == j);
        }
    }
}

#[test]
fn raw_texts_hold_no_nul() {
    for addr in [v4(0, 0), v6(0, 0, 0), v6(0xffff_0000_0000, 0, 0)] {
        let (ip, port) = socketaddr_to_raw(addr);
        assert!(!ip.is_empty() && !ip.contains('\0'));
        assert!(!port.is_empty() && !port.contains('\0'));
    }
}

#[test]
fn longest_run_of_zero_groups_is_cut_short() {
    assert_eq!(IpAddr::V6(0).to_text(), "::");
    assert_eq!(IpAddr::V6(1).to_text(), "::1");
    assert_eq!(IpAddr::V6(0x2001_0000_0000_0001_0000_0000_0000_0001).to_text(), "2001:0:0:1::1");
    assert_eq!(IpAddr::V6(0x2001_0db8_0000_0000_0001_0000_0000_0001).to_text(), "2001:db8::1:0:0:1");
    assert_eq!(IpAddr::V6(0x0001_0000_0003_0004_0005_0006_0007_0008).to_text(), "1:0:3:4:5:6:7:8");
    assert_eq!(IpAddr::V6(0xffff_0102_0304).to_text(), "::ffff:1.2.3.4");
    assert_eq!(IpAddr::V6(0xffff_0102_0304_0506).to_text(), "::ffff:102:304:506");
    assert_eq!(IpAddr::V6(0x0000_0000_0001_0000_0000_0000_0000_0000).to_text(), "0:0:1::");
    assert_eq!(IpAddr::V6(0x0001_0002_0003_0004_0005_0006_0000_0000).to_text(), "1:2:3:4:5:6::");
    assert_eq!(IpAddr::V6(0x0001_0002_0003_0004_0005_0006_0007_0000).to_text(), "1:2:3:4:5:6:7:0");
}

#[test]
fn parts_of_an_address() {
    let a = v4(0x7f00_0001, 5000);
    assert_eq!(a.ip(), IpAddr::V4(0x7f00_0001));
    assert_eq!(a.port(), 5000);
    let b = v6(7, 9, 0);
    assert_eq!(b.ip(), IpAddr::V6(7));
    assert_eq!(b.port(), 9);
}

#[test]
fn an_address_is_asked_for_once() {
    let addr = v4(0x7f00_0001, 5000);
    let mut cache = AddrInfoCache::new();
    assert!(getaddrinfo_from_cache(&cache, &addr).is_none());
    match getaddrinfo_from_std(&cache, addr) {
        Lookup::Ask { ip, port } => {
            assert_eq!(ip, "127.0.0.1");
            assert_eq!(port, "5000");
        }
        Lookup::Known(_) => panic!("nothing is known yet"),
    }
    let info = AddrInfo { sockaddr: vec![2, 0, 19, 136, 127, 0, 0, 1] };
    let r: Result<AddrInfo, Error<()>> = cache.answered(addr, Ok(info));
    assert_eq!(r.unwrap().sockaddr, vec![2, 0, 19, 136, 127, 0, 0, 1]);
    match getaddrinfo_from_std(&cache, addr) {
        Lookup::Known(info) => assert_eq!(info.sockaddr, vec![2, 0, 19, 136, 127, 0, 0, 1]),
        Lookup::Ask { .. } => panic!("the address is known"),
    }
    assert!(getaddrinfo_from_cache(&cache, &v4(0x7f00_0001, 5001)).is_none());
}

#[test]
fn a_failed_look_up_is_not_kept() {
    let addr = v6(1, 5000, 0);
    let mut cache = AddrInfoCache::new();
    let e = cache.answered::<()>(addr, Err(-9)).err().unwrap();
    assert_eq!(e, Error::Lookup(-9));
    assert_eq!(e.kind(), Some(ErrorKind::Other));
    assert_eq!(
        e.message().unwrap(),
        "Failed to look up address information: getaddrinfo error code = -9"
    );
    assert!(matches!(getaddrinfo_from_std(&cache, addr), Lookup::Ask { .. }));
}

#[test]
fn messages_of_errors() {
    let e: Error<()> = Error::Connect;
    assert_eq!(e.kind(), Some(ErrorKind::Other));
    assert_eq!(e.message().unwrap(), "utp_connect returned non-zero error code");
    let e: Error<()> = Error::Lookup(i32::MIN);
    assert_eq!(
        e.message().unwrap(),
        "Failed to look up address information: getaddrinfo error code = -2147483648"
    );
    let e: Error<()> = Error::Socket(ErrorKind::TimedOut);
    assert_eq!(e.kind(), Some(ErrorKind::TimedOut));
    assert!(e.message().is_none());
    let e: Error<u8> = Error::Os(3);
    assert!(e.kind().is_none());
    assert!(e.message().is_none());
}
