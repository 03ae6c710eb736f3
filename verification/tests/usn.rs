use torrent_state::usn::create_usn;
use torrent_state::usn::decimal;
use torrent_state::usn::usn_of;
use torrent_state::usn::usn_seed;

#[test]
fn seed_is_the_front_of_what_names_the_server() {
    let seed = usn_seed(b"host", "rqbit", 3030, "/upnp");
    let mut expected = [0u8; 32];
    expected[..18].copy_from_slice(b"hostrqbit3030/upnp");
    assert_eq!(seed, expected);
}

#[test]
fn seed_is_cut_at_32_bytes() {
    let seed = usn_seed(b"a-very-long-host-name.example", "living room", 80, "/x");
    assert_eq!(&seed[..29], b"a-very-long-host-name.example");
    assert_eq!(&seed[29..], b"liv");
    let seed = usn_seed(&[7u8; 40], "name", 1, "/p");
    assert_eq!(seed, [7u8; 32]);
}

#[test]
fn seed_of_nothing_holds_the_port_only() {
    let seed = usn_seed(b"", "", 0, "");
    let mut expected = [0u8; 32];
    expected[0] = b'0';
    assert_eq!(seed, expected);
}

#[test]
fn port_is_written_in_decimal() {
    assert_eq!(decimal(0), b"0".to_vec());
    assert_eq!(decimal(9), b"9".to_vec());
    assert_eq!(decimal(10), b"10".to_vec());
    assert_eq!(decimal(3030), b"3030".to_vec());
    assert_eq!(decimal(65535), b"65535".to_vec());
}

#[test]
fn usn_is_the_text_of_the_uuid() {
    let bytes = [
        0xa1, 0xa2, 0xa3, 0xa4, 0xb1, 0xb2, 0xc1, 0xc2, 0xd1, 0xd2, 0xd3, 0xd4, 0xd5, 0xd6, 0xd7,
        0xd8,
    ];
    assert_eq!(usn_of(&bytes), Ok("uuid:a1a2a3a4-b1b2-c1c2-d1d2-d3d4d5d6d7d8".to_string()));
    assert_eq!(usn_of(&[0u8; 16]), Ok("uuid:00000000-0000-0000-0000-000000000000".to_string()));
    assert_eq!(
        usn_of(&[0x0f, 0xf0, 0x09, 0x90, 0x0a, 0xa0, 0xff, 0x10, 0x01, 0x9a, 0xa9, 0, 1, 2, 3, 255]),
        Ok("uuid:0ff00990-0aa0-ff10-019a-a900010203ff".to_string())
    );
}

#[test]
fn created_usn_has_the_shape_of_a_uuid() {
    let usn = create_usn(b"host", "rqbit", 3030, "/upnp").unwrap();
    assert_eq!(usn.len(), 5 + 36);
    assert!(usn.starts_with("uuid:"));
    for (i, c) in usn[5..].chars().enumerate() {
        if i == 8 || i == 13 || i == 18 || i == 23 {
            assert_eq!(c, '-');
        } else {
            assert!(c.is_ascii_digit() || ('a'..='f').contains(&c));
        }
    }
    assert_eq!(usn, "uuid:a020a828-2aab-9c22-121f-5388f3f28d41");
    assert_eq!(create_usn(b"host", "rqbit", 3030, "/upnp").unwrap(), usn);
    assert_ne!(create_usn(b"host", "rqbit", 3031, "/upnp").unwrap(), usn);
}

#[test]
fn usn_of_an_empty_name_comes_from_the_port_alone() {
    assert_eq!(
        create_usn(b"", "", 0, "").unwrap(),
        "uuid:30000018-0000-0000-3000-001800000000"
    );
}
