use cf_ddns::addr::{Family, IpAddress, Ipv4, Ipv6};

#[test]
fn dotted_quad_is_big_endian() {
    assert_eq!(Ipv4::new(203, 0, 113, 5), Ipv4(0xCB00_7105));
    assert_eq!(Ipv4::new(203, 0, 113, 5).0, 3_405_803_781);
    assert_eq!(Ipv4::new(0, 0, 0, 0).0, 0);
    assert_eq!(Ipv4::new(255, 255, 255, 255).0, u32::MAX);
    assert_eq!(Ipv4::new(0, 0, 1, 0).0, 256);
    assert_eq!(Ipv4::new(1, 0, 0, 0).0, 16_777_216);
}

#[test]
fn dotted_quad_is_the_bytes_in_network_order() {
    assert_eq!(Ipv4::new(192, 0, 2, 33).0, u32::from_be_bytes([192, 0, 2, 33]));
    assert_eq!(Ipv4::new(10, 20, 30, 40).0.to_be_bytes(), [10, 20, 30, 40]);
}

#[test]
fn family_of_an_address() {
    assert_eq!(IpAddress::V4(Ipv4(1)).family(), Family::V4);
    assert_eq!(IpAddress::V6(Ipv6(1)).family(), Family::V6);
}

#[test]
fn record_type_of_a_family() {
    assert_eq!(Family::V4.record_type(), "A");
    assert_eq!(Family::V6.record_type(), "AAAA");
}
