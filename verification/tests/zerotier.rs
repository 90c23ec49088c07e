use cliplink::zerotier::{
    detect, ip_changed, ip_from_parts, ip_to_string, is_valid_ipv4, is_zt_adapter, select_ip,
    ZtAdapter, ZtResult,
};

fn ip(s: &str) -> u32 {
    let mut o = [0u8; 4];
    for (i, p) in s.split('.').enumerate() {
        o[i] = p.parse().unwrap();
    }
    ((o[0] as u32) << 24) | ((o[1] as u32) << 16) | ((o[2] as u32) << 8) | o[3] as u32
}

fn ad(name: &str, desc: &str, ips: &[&str]) -> ZtAdapter {
    ZtAdapter {
        name: name.to_string(),
        description: desc.to_string(),
        ipv4s: ips.iter().map(|s| ip(s)).collect(),
    }
}

#[test]
fn finds_valid_zt_ip() {
    let a = [ad("ZeroTier One", "ZeroTier One", &["192.168.191.180"])];
    assert_eq!(select_ip(&a).as_deref(), Some("192.168.191.180"));
}

#[test]
fn no_zt_adapter() {
    let a = [
        ad("WLAN", "Intel Wi-Fi 6", &["192.168.1.5"]),
        ad("以太网", "Realtek GbE", &["10.0.0.2"]),
    ];
    assert_eq!(select_ip(&a), None);
}

#[test]
fn zt_adapter_without_ipv4() {
    let a = [ad("ZeroTier One", "ZeroTier One", &[])];
    assert_eq!(select_ip(&a), None);
}

#[test]
fn zt_only_link_local() {
    let a = [ad("ZeroTier One", "ZeroTier One", &["169.254.10.11"])];
    assert_eq!(select_ip(&a), None);
}

#[test]
fn zt_only_invalid() {
    let a = [ad(
        "ZeroTier One",
        "ZeroTier One",
        &["127.0.0.1", "0.0.0.0", "255.255.255.255", "224.0.0.5"],
    )];
    assert_eq!(select_ip(&a), None);
}

#[test]
fn coexists_with_other_nics() {
    let a = [
        ad("WLAN", "Intel Wi-Fi 6", &["192.168.1.5"]),
        ad("以太网", "Realtek GbE", &["10.0.0.2"]),
        ad("ZeroTier One", "ZeroTier One", &["192.168.191.180"]),
    ];
    assert_eq!(select_ip(&a).as_deref(), Some("192.168.191.180"));
}

#[test]
fn case_insensitive_match() {
    assert!(is_zt_adapter(&ad("ZeroTier One", "ZeroTier One", &[])));
    assert!(is_zt_adapter(&ad("zt0", "zerotier virtual", &[])));
    assert!(is_zt_adapter(&ad("zt1", "Zerotier X", &[])));
    assert!(!is_zt_adapter(&ad("WLAN", "Intel Wi-Fi 6", &[])));
}

#[test]
fn stable_multi_candidate() {
    let a = [ad(
        "ZeroTier One",
        "ZeroTier One",
        &["192.168.191.180", "10.147.17.36"],
    )];
    assert_eq!(select_ip(&a).as_deref(), Some("10.147.17.36"));
    let b = [ad(
        "ZeroTier One",
        "ZeroTier One",
        &["10.147.17.36", "192.168.191.180"],
    )];
    assert_eq!(select_ip(&b), select_ip(&a));
}

#[test]
fn ip_old_to_new_is_change() {
    let old = Some("192.168.191.180".to_string());
    let new = Some("192.168.191.200".to_string());
    assert!(ip_changed(&old, &new));
}

#[test]
fn ip_valid_to_none_is_change() {
    let old = Some("192.168.191.180".to_string());
    let new: Option<String> = None;
    assert!(ip_changed(&old, &new));
}

#[test]
fn same_result_no_change() {
    let old = Some("192.168.191.180".to_string());
    let new = Some("192.168.191.180".to_string());
    assert!(!ip_changed(&old, &new));
    let none_old: Option<String> = None;
    let none_new: Option<String> = None;
    assert!(!ip_changed(&none_old, &none_new));
}

#[test]
fn ip_to_string_roundtrip() {
    assert_eq!(ip_to_string(ip("192.168.191.180")), "192.168.191.180");
    assert_eq!(ip_to_string(ip("10.147.17.36")), "10.147.17.36");
}

#[test]
fn addresses_that_no_peer_can_have() {
    assert!(!is_valid_ipv4(ip("0.0.0.0")));
    assert!(!is_valid_ipv4(ip("127.0.0.1")));
    assert!(!is_valid_ipv4(ip("169.254.0.1")));
    assert!(!is_valid_ipv4(ip("224.0.0.0")));
    assert!(!is_valid_ipv4(ip("239.255.255.255")));
    assert!(!is_valid_ipv4(ip("240.0.0.1")));
    assert!(!is_valid_ipv4(ip("255.255.255.255")));
    assert!(is_valid_ipv4(ip("0.0.0.1")));
    assert!(is_valid_ipv4(ip("126.255.255.255")));
    assert!(is_valid_ipv4(ip("128.0.0.0")));
    assert!(is_valid_ipv4(ip("169.253.0.1")));
    assert!(is_valid_ipv4(ip("223.255.255.255")));
}

#[test]
fn address_from_its_parts() {
    assert_eq!(ip_from_parts(192, 168, 191, 180), ip("192.168.191.180"));
    assert_eq!(ip_from_parts(0, 0, 0, 1), 1);
    assert_eq!(ip_from_parts(255, 255, 255, 255), u32::MAX);
}

#[test]
fn findings_are_told_apart() {
    let (found, r) = detect(&[ad("ZeroTier", "x", &["10.1.2.3"])]);
    assert_eq!(found.as_deref(), Some("10.1.2.3"));
    assert_eq!(r, ZtResult::Found);
    let (found, r) = detect(&[ad("ZeroTier", "x", &["127.0.0.1"])]);
    assert_eq!(found, None);
    assert_eq!(r, ZtResult::NoValidIpv4);
    let (found, r) = detect(&[ad("WLAN", "x", &["10.1.2.3"])]);
    assert_eq!(found, None);
    assert_eq!(r, ZtResult::NoAdapter);
}

#[test]
fn least_address_over_several_adapters() {
    let a = [
        ad("ZeroTier a", "", &["10.5.0.1", "10.4.0.1"]),
        ad("eth", "", &["1.1.1.1"]),
        ad("b", "some ZEROTIER port", &["10.3.0.1", "10.3.0.1", "127.0.0.1"]),
    ];
    assert_eq!(select_ip(&a).as_deref(), Some("10.3.0.1"));
}
