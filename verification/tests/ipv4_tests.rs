use dyndnsd::ipv4::Ipv4Addr;

#[test]
fn formats_dotted_decimal() {
    assert_eq!(Ipv4Addr::new(127, 0, 0, 2).to_string(), "127.0.0.2");
    assert_eq!(Ipv4Addr::new(192, 168, 1, 100).to_string(), "192.168.1.100");
    assert_eq!(Ipv4Addr::new(0, 0, 0, 0).to_string(), "0.0.0.0");
    assert_eq!(Ipv4Addr::new(255, 255, 255, 255).to_string(), "255.255.255.255");
    assert_eq!(Ipv4Addr::new(10, 99, 100, 9).to_string(), "10.99.100.9");
}

#[test]
fn parses_dotted_decimal() {
    assert_eq!(Ipv4Addr::parse("127.0.0.3"), Some(Ipv4Addr::new(127, 0, 0, 3)));
    assert_eq!(Ipv4Addr::parse("192.168.1.100"), Some(Ipv4Addr::new(192, 168, 1, 100)));
    assert_eq!(Ipv4Addr::parse("0.0.0.0"), Some(Ipv4Addr::new(0, 0, 0, 0)));
    assert_eq!(Ipv4Addr::parse("255.255.255.255"), Some(Ipv4Addr::new(255, 255, 255, 255)));
    assert_eq!(Ipv4Addr::parse("1.20.30.4"), Some(Ipv4Addr::new(1, 20, 30, 4)));
}

#[test]
fn rejects_what_is_no_address() {
    for text in [
        "",
        ".",
        "1",
        "1.2.3",
        "1.2.3.",
        ".1.2.3",
        "1.2.3.4.",
        "1.2.3.4.5",
        "1..2.3",
        "256.0.0.1",
        "1.2.3.256",
        "1.2.3.999",
        "01.2.3.4",
        "1.2.3.04",
        "1.2.3.00",
        "1.2.3.1000",
        "1.2.3.4 ",
        " 1.2.3.4",
        "1.2.3.a",
        "a.b.c.d",
        "1,2,3,4",
        "1.2.3.-4",
        "1.2.3.+4",
        "１.2.3.4",
        "example.com",
        "::1",
    ] {
        assert_eq!(Ipv4Addr::parse(text), None, "{:?}", text);
    }
}

#[test]
fn parse_accepts_only_the_canonical_text() {
    assert_eq!(Ipv4Addr::parse("9.10.99.100"), Some(Ipv4Addr::new(9, 10, 99, 100)));
    assert_eq!(Ipv4Addr::parse("0.1.2.3"), Some(Ipv4Addr::new(0, 1, 2, 3)));
    assert_eq!(Ipv4Addr::parse("00.1.2.3"), None);
    assert_eq!(Ipv4Addr::parse("1.2.3.4/8"), None);
    assert_eq!(Ipv4Addr::parse("127.1"), None);
    assert_eq!(Ipv4Addr::parse("300.1.1.1"), None);
    assert_eq!(Ipv4Addr::parse("1.1.1.1\n"), None);
}

#[test]
fn text_round_trips_for_every_octet() {
    for n in 0..=255u8 {
        let ip = Ipv4Addr::new(n, 255 - n, n / 2, n);
        assert_eq!(Ipv4Addr::parse(&ip.to_string()), Some(ip));
        assert_eq!(ip.to_string(), format!("{}.{}.{}.{}", n, 255 - n, n / 2, n));
    }
}

#[test]
fn octets_round_trip() {
    let ip = Ipv4Addr::from_octets([203, 0, 113, 9]);
    assert_eq!(ip, Ipv4Addr::new(203, 0, 113, 9));
    assert_eq!(ip.octets(), [203, 0, 113, 9]);
    assert_eq!((ip.a, ip.b, ip.c, ip.d), (203, 0, 113, 9));
}
