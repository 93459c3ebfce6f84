use wksl::address::{BroadcastTarget, IpAddress, DEFAULT_WOL_PORT, EPHEMERAL_PORT};

#[test]
fn named_defaults() {
    assert_eq!(DEFAULT_WOL_PORT, 9);
    assert_eq!(EPHEMERAL_PORT, 0);
    assert_eq!(IpAddress::limited_broadcast(), IpAddress::V4([255, 255, 255, 255]));
}

#[test]
fn target_without_anything_named() {
    let target = BroadcastTarget::resolve(None, None);
    assert_eq!(
        target,
        BroadcastTarget { destination: IpAddress::V4([255, 255, 255, 255]), port: 9 }
    );
}

#[test]
fn target_with_only_a_port() {
    let target = BroadcastTarget::resolve(None, Some(7));
    assert_eq!(
        target,
        BroadcastTarget { destination: IpAddress::V4([255, 255, 255, 255]), port: 7 }
    );
}

#[test]
fn target_with_only_a_destination() {
    let target = BroadcastTarget::resolve(Some(IpAddress::V4([192, 168, 1, 255])), None);
    assert_eq!(target, BroadcastTarget { destination: IpAddress::V4([192, 168, 1, 255]), port: 9 });
}

#[test]
fn target_with_both_named() {
    let v6 = IpAddress::V6([0xff, 0x02, 0, 0, 0, 0, 0, 0, 0, 0, 0, 0, 0, 0, 0, 0x01]);
    let target = BroadcastTarget::resolve(Some(v6), Some(40000));
    assert_eq!(target, BroadcastTarget { destination: v6, port: 40000 });
}

#[test]
fn every_port_is_kept() {
    for port in [0u16, 1, 9, 1024, 65535] {
        assert_eq!(BroadcastTarget::resolve(None, Some(port)).port, port);
    }
}

#[test]
fn wildcard_of_each_family() {
    assert_eq!(IpAddress::V4([10, 0, 0, 255]).wildcard(), IpAddress::V4([0, 0, 0, 0]));
    assert_eq!(IpAddress::V4([255, 255, 255, 255]).wildcard(), IpAddress::V4([0, 0, 0, 0]));
    let v6 = IpAddress::V6([0xfe, 0x80, 0, 0, 0, 0, 0, 0, 0, 0, 0, 0, 0, 0, 0, 0x01]);
    assert_eq!(v6.wildcard(), IpAddress::V6([0; 16]));
}
