use wifi_bridge::diag::{packet_info, L3Info, L4Info};

fn eth_header(dst: [u8; 6], src: [u8; 6], ethertype: u16) -> Vec<u8> {
    let mut b = Vec::new();
    b.extend_from_slice(&dst);
    b.extend_from_slice(&src);
    b.push((ethertype >> 8) as u8);
    b.push((ethertype & 0xFF) as u8);
    b
}

fn ipv4_header(src: [u8; 4], dst: [u8; 4], protocol: u8) -> Vec<u8> {
    let mut b = vec![0u8; 20];
    b[0] = 0x45; // version 4, header length 20
    b[9] = protocol;
    b[12..16].copy_from_slice(&src);
    b[16..20].copy_from_slice(&dst);
    b
}

#[test]
fn too_short_for_ethernet_is_nothing() {
    assert!(packet_info(&[0u8; 13]).is_none());
    assert!(packet_info(&[]).is_none());
}

#[test]
fn ethernet_addresses_and_type() {
    let b = eth_header([1, 2, 3, 4, 5, 6], [9, 8, 7, 6, 5, 4], 0x1234);
    let info = packet_info(&b).expect("whole ethernet header");
    assert_eq!(info.eth_dst, vec![1, 2, 3, 4, 5, 6]);
    assert_eq!(info.eth_src, vec![9, 8, 7, 6, 5, 4]);
    assert_eq!(info.ethertype, 0x1234);
    assert_eq!(info.l3, L3Info::Other);
}

#[test]
fn ipv4_tcp_ports_decoded() {
    let mut b = eth_header([0xFF; 6], [1; 6], 0x0800);
    b.extend_from_slice(&ipv4_header([192, 168, 1, 2], [10, 0, 0, 1], 6));
    // TCP header: source port 443, destination port 51000.
    b.extend_from_slice(&[0x01, 0xBB, 0xC7, 0x38]);
    let info = packet_info(&b).expect("whole frame");
    assert_eq!(info.ethertype, 0x0800);
    match info.l3 {
        L3Info::Ipv4 { src, dst, protocol, l4 } => {
            assert_eq!(src, vec![192, 168, 1, 2]);
            assert_eq!(dst, vec![10, 0, 0, 1]);
            assert_eq!(protocol, 6);
            assert_eq!(l4, L4Info::Tcp { src_port: 443, dst_port: 51000 });
        }
        other => panic!("expected an IPv4 summary, got {:?}", other),
    }
}

#[test]
fn ipv4_udp_ports_decoded() {
    let mut b = eth_header([0xFF; 6], [1; 6], 0x0800);
    b.extend_from_slice(&ipv4_header([172, 16, 0, 1], [172, 16, 0, 2], 17));
    // UDP header: source port 67, destination port 68.
    b.extend_from_slice(&[0x00, 0x43, 0x00, 0x44]);
    let info = packet_info(&b).expect("whole frame");
    match info.l3 {
        L3Info::Ipv4 { protocol, l4, .. } => {
            assert_eq!(protocol, 17);
            assert_eq!(l4, L4Info::Udp { src_port: 67, dst_port: 68 });
        }
        other => panic!("expected an IPv4 summary, got {:?}", other),
    }
}

#[test]
fn ipv4_icmp_has_no_ports() {
    let mut b = eth_header([0xFF; 6], [1; 6], 0x0800);
    b.extend_from_slice(&ipv4_header([1, 1, 1, 1], [2, 2, 2, 2], 1));
    b.extend_from_slice(&[8, 0, 0, 0]);
    let info = packet_info(&b).expect("whole frame");
    match info.l3 {
        L3Info::Ipv4 { protocol, l4, .. } => {
            assert_eq!(protocol, 1);
            assert_eq!(l4, L4Info::Other);
        }
        other => panic!("expected an IPv4 summary, got {:?}", other),
    }
}

#[test]
fn ipv4_longer_header_shifts_payload() {
    let mut b = eth_header([0xFF; 6], [1; 6], 0x0800);
    let mut ip = vec![0u8; 24];
    ip[0] = 0x46; // header length 24: four bytes of options
    ip[9] = 6;
    ip[12..16].copy_from_slice(&[1, 2, 3, 4]);
    ip[16..20].copy_from_slice(&[5, 6, 7, 8]);
    b.extend_from_slice(&ip);
    // TCP ports start after the 24-byte header.
    b.extend_from_slice(&[0x00, 0x50, 0x1F, 0x90]);
    let info = packet_info(&b).expect("whole frame");
    match info.l3 {
        L3Info::Ipv4 { l4, .. } => {
            assert_eq!(l4, L4Info::Tcp { src_port: 80, dst_port: 8080 });
        }
        other => panic!("expected an IPv4 summary, got {:?}", other),
    }
}

#[test]
fn truncated_ipv4_is_other() {
    let mut b = eth_header([0xFF; 6], [1; 6], 0x0800);
    b.extend_from_slice(&[0x45, 0, 0, 0]);
    let info = packet_info(&b).expect("ethernet still whole");
    assert_eq!(info.l3, L3Info::Other);
}

#[test]
fn arp_addresses_decoded() {
    let mut b = eth_header([0xFF; 6], [0xAA; 6], 0x0806);
    let mut arp = vec![0u8; 28];
    arp[0..2].copy_from_slice(&[0, 1]); // hardware type: ethernet
    arp[2..4].copy_from_slice(&[0x08, 0x00]);
    arp[4] = 6;
    arp[5] = 4;
    arp[6..8].copy_from_slice(&[0, 1]); // request
    arp[8..14].copy_from_slice(&[1, 2, 3, 4, 5, 6]);
    arp[14..18].copy_from_slice(&[192, 168, 0, 1]);
    arp[18..24].copy_from_slice(&[6, 5, 4, 3, 2, 1]);
    arp[24..28].copy_from_slice(&[192, 168, 0, 2]);
    b.extend_from_slice(&arp);
    let info = packet_info(&b).expect("whole frame");
    match info.l3 {
        L3Info::Arp { source_hw, target_hw, source_proto } => {
            assert_eq!(source_hw, vec![1, 2, 3, 4, 5, 6]);
            assert_eq!(target_hw, vec![6, 5, 4, 3, 2, 1]);
            assert_eq!(source_proto, vec![192, 168, 0, 1]);
        }
        other => panic!("expected an ARP summary, got {:?}", other),
    }
}

#[test]
fn ipv6_recognised_without_decode() {
    let b = eth_header([0xFF; 6], [1; 6], 0x86DD);
    let info = packet_info(&b).expect("whole ethernet header");
    assert_eq!(info.l3, L3Info::Ipv6);
}
