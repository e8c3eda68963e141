use bitbrowser_core::netscan::{port_owner_from_lsof, port_owner_from_netstat};
use bitbrowser_core::numbers::{parse_u16, parse_u32, u16_to_dec_bytes, u64_to_string};

#[test]
fn decimal_parsing_is_exact() {
    assert_eq!(parse_u32(b"0"), Some(0));
    assert_eq!(parse_u32(b"54345"), Some(54345));
    assert_eq!(parse_u32(b"4294967295"), Some(u32::MAX));
    assert_eq!(parse_u32(b"4294967296"), None);
    assert_eq!(parse_u32(b""), None);
    assert_eq!(parse_u32(b"12a"), None);
    assert_eq!(parse_u32(b" 12"), None);
    assert_eq!(parse_u32(b"-1"), None);
}

#[test]
fn port_parsing_respects_the_range() {
    assert_eq!(parse_u16(b"54345"), Some(54345));
    assert_eq!(parse_u16(b"65535"), Some(65535));
    assert_eq!(parse_u16(b"65536"), None);
    assert_eq!(parse_u16(b""), None);
}

#[test]
fn decimal_rendering_round_trips() {
    assert_eq!(u64_to_string(0), "0");
    assert_eq!(u64_to_string(54345), "54345");
    assert_eq!(u64_to_string(1000), "1000");
    assert_eq!(u16_to_dec_bytes(54345), b"54345".to_vec());
    for p in [0u16, 1, 9, 10, 99, 100, 54345, u16::MAX] {
        assert_eq!(parse_u16(&u16_to_dec_bytes(p)), Some(p));
    }
}

#[test]
fn netstat_output_yields_the_listening_pid() {
    let out = b"\
Active Connections\r\n\
\r\n\
  Proto  Local Address          Foreign Address        State           PID\r\n\
  TCP    0.0.0.0:135            0.0.0.0:0              LISTENING       948\r\n\
  TCP    127.0.0.1:54345        0.0.0.0:0              LISTENING       4276\r\n\
  TCP    127.0.0.1:54345        127.0.0.1:50001        ESTABLISHED     4276\r\n";
    assert_eq!(port_owner_from_netstat(out, 54345), Some(4276));
    assert_eq!(port_owner_from_netstat(out, 135), Some(948));
    assert_eq!(port_owner_from_netstat(out, 50000), None);
}

#[test]
fn netstat_skips_lines_without_listening_state() {
    let out = b"  TCP    127.0.0.1:54345        127.0.0.1:50001        ESTABLISHED     4276\n";
    assert_eq!(port_owner_from_netstat(out, 54345), None);
    assert_eq!(port_owner_from_netstat(b"", 54345), None);
}

#[test]
fn netstat_skips_unparseable_pid_columns() {
    let out = b"\
  TCP    127.0.0.1:54345   0.0.0.0:0   LISTENING   pid\n\
  TCP    127.0.0.1:54345   0.0.0.0:0   LISTENING   4276\n";
    assert_eq!(port_owner_from_netstat(out, 54345), Some(4276));
}

#[test]
fn lsof_output_yields_the_first_pid() {
    assert_eq!(port_owner_from_lsof(b"1234\n5678\n"), Some(1234));
    assert_eq!(port_owner_from_lsof(b"  901\t\n"), Some(901));
    assert_eq!(port_owner_from_lsof(b""), None);
    assert_eq!(port_owner_from_lsof(b"no pid here\n"), None);
}
