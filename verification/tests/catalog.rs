use swifi::server::{ellipsize, get_servers, parse_server_id, select_server, Server, ServerList};
use swifi::TestError;

fn server(id: u32, sponsor: &str, name: &str, distance_m: u64) -> Server {
    Server {
        id,
        sponsor: sponsor.to_string(),
        name: name.to_string(),
        distance_m,
        url: format!("http://server{id}.test/upload.php"),
    }
}

#[test]
fn test_ellipsize() {
    assert_eq!(ellipsize("short", 10), "short");
    assert_eq!(ellipsize("a very long sponsor name", 10), "a very ...");
}

#[test]
fn test_server_display() {
    let server: Server = Server {
        id: 1,
        sponsor: "Sponsor Name".to_string(),
        name: "Server Name".to_string(),
        distance_m: 100_500,
        url: "http://testserver.com".to_string(),
    };
    let display_str = server.display_string();
    assert!(display_str.contains("Server 1"));
    assert!(display_str.contains("100.5 km"));
}

#[test]
fn test_select_server_invalid_id() {
    let result = select_server(Some("not_a_number".to_string()), Vec::new());
    assert!(result.is_err(), "Expected error for invalid server ID");
    if let Err(err) = result {
        assert!(err.message().contains("valid number"));
    }
}

#[test]
fn test_select_server_valid_parse() {
    let result = select_server(Some("12345".to_string()), Vec::new());
    if let Err(e) = result {
        let msg = e.message();
        assert!(!msg.contains("valid number"));
    }
}

#[test]
fn ellipsize_length_is_exactly_max() {
    let r = ellipsize("abcdefghij", 5);
    assert_eq!(r, "ab...");
    assert_eq!(r.chars().count(), 5);
    assert_eq!(ellipsize("abc", 3), "abc");
    assert_eq!(ellipsize("abcd", 3), "...");
}

#[test]
fn display_string_exact() {
    let s = server(1, "Sponsor Name", "Server Name", 100_500);
    assert_eq!(s.display_string(), "Server 1 - Sponsor Name (Server Name) - 100.5 km");
}

#[test]
fn display_string_ellipsizes_long_fields() {
    let s = server(9, "a very long sponsor name", "a very long server location name", 2_750);
    assert_eq!(s.display_string(), "Server 9 - a very long spons... (a very long serve...) - 2.7 km");
}

#[test]
fn format_table_exact() {
    let list = ServerList {
        servers: vec![server(7, "Sp", "Nm", 1_000), server(12, "a very long sponsor name", "N", 1_234_567)],
    };
    let expected = format!(
        "Available Servers:\n{:<10} {:<30} {:<40} {:<10}\n{}\n{:<10} {:<30} {:<40} {:<10}\n{:<10} {:<30} {:<40} {:<10}\n",
        "ID", "Sponsor", "Name", "Distance",
        "-".repeat(100),
        "7", "Sp", "Nm", "1.00",
        "12", "a very long spons...", "N", "1234.56",
    );
    assert_eq!(list.format_table(), expected);
}

#[test]
fn get_servers_sorts_and_truncates() {
    let raw = vec![
        server(4, "d", "d", 4_000),
        server(1, "a", "a", 1_000),
        server(3, "c", "c", 3_000),
        server(5, "e", "e", 5_000),
        server(2, "b", "b", 2_000),
    ];
    let top = get_servers(raw, 3);
    let ids: Vec<u32> = top.iter().map(|s| s.id).collect();
    assert_eq!(ids, vec![1, 2, 3]);
}

#[test]
fn get_servers_with_equal_distances_keeps_all() {
    let raw = vec![server(1, "a", "a", 1_000), server(2, "b", "b", 1_000), server(3, "c", "c", 500)];
    let top = get_servers(raw, 10);
    assert_eq!(top.len(), 3);
    assert_eq!(top[0].id, 3);
    let mut rest: Vec<u32> = top[1..].iter().map(|s| s.id).collect();
    rest.sort_unstable();
    assert_eq!(rest, vec![1, 2]);
}

#[test]
fn get_top_x_and_list_servers_lengths() {
    let raw: Vec<Server> = (0..12u32).map(|i| server(i, "s", "n", 1_000 * (12 - i as u64))).collect();
    let top = ServerList::get_top_x(raw.clone(), 4);
    assert_eq!(top.servers.len(), 4);
    let listing = ServerList::list_servers(raw);
    assert_eq!(listing.servers.len(), 10);
    for w in listing.servers.windows(2) {
        assert!(w[0].distance_m <= w[1].distance_m);
    }
}

#[test]
fn parse_server_id_bounds() {
    assert_eq!(parse_server_id("0"), Some(0));
    assert_eq!(parse_server_id("12345"), Some(12345));
    assert_eq!(parse_server_id("4294967295"), Some(u32::MAX));
    assert_eq!(parse_server_id("4294967296"), None);
    assert_eq!(parse_server_id(""), None);
    assert_eq!(parse_server_id("12a"), None);
}

#[test]
fn select_none_returns_three_nearest_in_order() {
    let raw = vec![
        server(10, "j", "j", 10_000),
        server(2, "b", "b", 2_000),
        server(7, "g", "g", 7_000),
        server(1, "a", "a", 1_000),
        server(5, "e", "e", 5_000),
    ];
    let picked = select_server(None, raw).unwrap();
    let ids: Vec<u32> = picked.iter().map(|s| s.id).collect();
    assert_eq!(ids, vec![1, 2, 5]);
}

#[test]
fn select_none_with_few_servers_returns_them_all() {
    let raw = vec![server(2, "b", "b", 2_000), server(1, "a", "a", 1_000)];
    let picked = select_server(None, raw).unwrap();
    assert_eq!(picked.len(), 2);
    assert_eq!(picked[0].id, 1);
    assert_eq!(picked[1].id, 2);
}

#[test]
fn select_by_id_returns_the_match() {
    let raw = vec![server(2, "b", "b", 2_000), server(1, "a", "a", 1_000), server(3, "c", "c", 3_000)];
    let picked = select_server(Some("3".to_string()), raw).unwrap();
    assert_eq!(picked.len(), 1);
    assert_eq!(picked[0].id, 3);
}

#[test]
fn parse_server_id_accepts_leading_zeros() {
    assert_eq!(parse_server_id("007"), Some(7));
    assert_eq!(parse_server_id("000"), Some(0));
}

#[test]
fn select_by_id_returns_every_match() {
    let raw = vec![server(3, "b", "b", 2_000), server(1, "a", "a", 1_000), server(3, "c", "c", 3_000)];
    let picked = select_server(Some("3".to_string()), raw).unwrap();
    assert_eq!(picked.len(), 2);
    assert!(picked.iter().all(|s| s.id == 3));
    assert!(picked[0].distance_m <= picked[1].distance_m);
}

#[test]
fn select_by_id_missing_is_server_not_found() {
    let raw = vec![server(2, "b", "b", 2_000), server(1, "a", "a", 1_000)];
    let result = select_server(Some("999999".to_string()), raw);
    match result {
        Err(TestError::ServerNotFound { id }) => assert_eq!(id, 999_999),
        other => panic!("expected ServerNotFound, got {other:?}"),
    }
}

#[test]
fn select_by_id_outside_the_nearest_ten_is_not_found() {
    // The eleventh-nearest server exists but is beyond the fetch window.
    let mut raw: Vec<Server> = (1..=10u32).map(|i| server(i, "s", "n", 1_000 * i as u64)).collect();
    raw.push(server(11, "far", "far", 99_000));
    let result = select_server(Some("11".to_string()), raw);
    assert!(matches!(result, Err(TestError::ServerNotFound { id: 11 })));
}
