use cm_launcher::servers::{
    check_and_send_notifications, find_server, find_server_exact, init_servers, is_available,
    notification_for, parse_server_url, remember, PreviousServerState, Server, ServerData,
    ServerHistory,
};

fn server(name: &str, status: &str, round: Option<i64>) -> Server {
    Server {
        name: name.to_string(),
        url: "h:1".to_string(),
        status: status.to_string(),
        data: round.map(|r| ServerData {
            round_id: r,
            mode: "m".to_string(),
            map_name: "Map".to_string(),
            gamestate: 1,
            players: 5,
        }),
        recommended_byond_version: None,
    }
}

#[test]
fn servers_are_found_ignoring_case_and_plus() {
    let list = vec![
        server("Other", "available", None),
        server("Alpha Colony", "available", None),
        server("ALPHA COLONY", "available", None),
        server("Ünïcode Sérver", "available", None),
    ];
    assert_eq!(find_server(&list, "Alpha+Colony"), Some(1));
    assert_eq!(find_server(&list, "alpha colony"), Some(1));
    assert_eq!(find_server(&list, "ALPHA+colony"), Some(1));
    assert_eq!(find_server(&list, "other"), Some(0));
    assert_eq!(find_server(&list, "ÜNÏCODE+SÉRVER"), Some(3));
    assert_eq!(find_server(&list, "Alpha"), None);
    assert_eq!(find_server(&list, "Alpha  Colony"), None);
    assert_eq!(find_server(&Vec::new(), "Alpha"), None);
    assert_eq!(find_server_exact(&list, "ALPHA COLONY"), Some(2));
    assert_eq!(find_server_exact(&list, "alpha colony"), None);
}

#[test]
fn port_is_read_from_the_address() {
    assert_eq!(parse_server_url("byond://host:2025"), Some("2025".to_string()));
    assert_eq!(parse_server_url("host:2025"), Some("2025".to_string()));
    assert_eq!(parse_server_url("host:2025:extra"), Some("2025".to_string()));
    assert_eq!(parse_server_url("host:"), Some("".to_string()));
    assert_eq!(parse_server_url("host"), None);
    assert_eq!(parse_server_url("byond://host"), None);
    assert_eq!(parse_server_url(""), None);
}

#[test]
fn availability_is_literal() {
    assert!(is_available(&server("a", "available", None)));
    assert!(!is_available(&server("a", "Available", None)));
    assert!(!is_available(&server("a", "offline", None)));
}

#[test]
fn notice_when_a_server_comes_online() {
    let prev = PreviousServerState { was_online: false, round_id: None };
    let n = notification_for(&server("Alpha", "available", Some(3)), Some(prev)).unwrap();
    assert_eq!(n.title, "Alpha is now online");
    assert_eq!(n.body, "The server is available to join.");
}

#[test]
fn notice_when_a_server_restarts() {
    let prev = PreviousServerState { was_online: true, round_id: Some(3) };
    let n = notification_for(&server("Alpha", "available", Some(4)), Some(prev)).unwrap();
    assert_eq!(n.title, "Alpha has restarted");
    assert_eq!(n.body, "Round #4 - Map");
    let prev = PreviousServerState { was_online: true, round_id: Some(-7) };
    let n = notification_for(&server("Alpha", "available", Some(-3)), Some(prev)).unwrap();
    assert_eq!(n.body, "Round #-3 - Map");
}

#[test]
fn no_notice_otherwise() {
    let online = PreviousServerState { was_online: true, round_id: Some(3) };
    assert!(notification_for(&server("A", "available", Some(3)), Some(online)).is_none());
    assert!(notification_for(&server("A", "available", Some(2)), Some(online)).is_none());
    assert!(notification_for(&server("A", "available", None), Some(online)).is_none());
    assert!(notification_for(&server("A", "offline", Some(9)), Some(online)).is_none());
    assert!(notification_for(&server("A", "available", Some(9)), None).is_none());
    let unknown_round = PreviousServerState { was_online: true, round_id: None };
    assert!(notification_for(&server("A", "available", Some(9)), Some(unknown_round)).is_none());
}

#[test]
fn history_remembers_by_name() {
    let mut history = ServerHistory::new();
    assert!(history.get("A").is_none());
    history.set("A", remember(&server("A", "available", Some(1))));
    history.set("B", remember(&server("B", "offline", None)));
    history.set("A", remember(&server("A", "offline", Some(2))));
    let a = history.get("A").unwrap();
    assert!(!a.was_online);
    assert_eq!(a.round_id, Some(2));
    let b = history.get("B").unwrap();
    assert!(!b.was_online);
    assert_eq!(b.round_id, None);
    assert_eq!(history.entries.len(), 2);
}

#[test]
fn looks_at_the_directory_notify_watched_servers_only() {
    let first = vec![server("A", "offline", None), server("B", "available", Some(1))];
    let mut history = init_servers(&first);
    assert_eq!(history.entries.len(), 2);
    let watched = vec!["A".to_string(), "B".to_string(), "C".to_string()];

    let second = vec![
        server("A", "available", Some(5)),
        server("B", "available", Some(2)),
        server("C", "available", Some(1)),
        server("D", "available", Some(1)),
    ];
    let notices = check_and_send_notifications(&mut history, &watched, &second);
    let titles: Vec<&str> = notices.iter().map(|n| n.title.as_str()).collect();
    assert_eq!(titles, vec!["A is now online", "B has restarted"]);
    assert!(history.get("C").is_some());
    assert!(history.get("D").is_none());

    let notices = check_and_send_notifications(&mut history, &watched, &second);
    assert!(notices.is_empty());

    let mut untouched = init_servers(&first);
    let notices = check_and_send_notifications(&mut untouched, &Vec::new(), &second);
    assert!(notices.is_empty());
    assert!(!untouched.get("A").unwrap().was_online);
}
