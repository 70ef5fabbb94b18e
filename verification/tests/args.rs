use mtpdb_manager::args::{config_from_args, find_flag, find_flag_or, parse_args, parse_port_range};

fn strings(args: &[&str]) -> Vec<String> {
    args.iter().map(|a| a.to_string()).collect()
}

fn is_random_uuid(id: &str) -> bool {
    let chars: Vec<char> = id.chars().collect();
    chars.len() == 36
        && chars.iter().enumerate().all(|(i, c)| match i {
            8 | 13 | 18 | 23 => *c == '-',
            14 => *c == '4',
            19 => "89ab".contains(*c),
            _ => "0123456789abcdef".contains(*c),
        })
}

#[test]
fn range_is_read() {
    assert_eq!(parse_port_range("15432-15532"), ((15432, 15532), None));
    assert_eq!(parse_port_range("0-65535"), ((0, 65535), None));
    assert_eq!(parse_port_range("9-3"), ((9, 3), None));
    assert_eq!(parse_port_range("+1-+2"), ((1, 2), None));
}

#[test]
fn text_that_is_no_range_gives_zeros_and_a_warning() {
    for text in ["", "15432", "-", "1-", "-1-2", "1-2-3", "1--2", "a-b", "1-65536", "1 - 2", "1–2"] {
        let (range, warning) = parse_port_range(text);
        assert_eq!(range, (0, 0), "{:?}", text);
        assert_eq!(
            warning,
            Some(format!("Warning: could not parse port range '{}', using 0-0", text))
        );
    }
}

#[test]
fn first_flag_counts() {
    let args = strings(&["prog", "--region", "eu", "--region", "us"]);
    assert_eq!(find_flag(&args, "--region"), Some("eu".to_string()));
    assert_eq!(find_flag_or(&args, "--port", "7001"), "7001");
}

#[test]
fn flag_in_the_last_place_has_no_value() {
    let args = strings(&["prog", "--region"]);
    assert_eq!(find_flag(&args, "--region"), None);
    assert_eq!(find_flag(&strings(&["--region"]), "--region"), None);
    assert_eq!(find_flag(&strings(&[]), "--region"), None);
}

#[test]
fn flag_can_be_the_value_of_another() {
    let args = strings(&["prog", "--region", "--port", "80"]);
    assert_eq!(find_flag(&args, "--region"), Some("--port".to_string()));
    assert_eq!(find_flag(&args, "--port"), Some("80".to_string()));
}

#[test]
fn defaults_without_flags() {
    let (config, warnings) = config_from_args(&strings(&["prog"]), "some-id");
    assert_eq!(config.server_id, "some-id");
    assert_eq!(config.master_url, None);
    assert_eq!(config.port, 7001);
    assert_eq!(config.region, "default");
    assert_eq!(config.data_dir, "./mtpdb_instances");
    assert_eq!(config.mtpdb_bin, "manaknightdb");
    assert_eq!(config.pg_ports, (15432, 15532));
    assert_eq!(config.mysql_ports, (13306, 13406));
    assert_eq!(config.api_ports, (18765, 18865));
    assert_eq!(config.quic_ports, (14433, 14533));
    assert!(warnings.is_empty());
}

#[test]
fn every_flag_is_taken() {
    let args = strings(&[
        "prog", "--server-id", "srv", "--master-url", "http://m", "--port", "8000", "--region",
        "eu", "--data-dir", "/data", "--mtpdb-bin", "/bin/db", "--pg-ports", "1-2",
        "--mysql-ports", "3-4", "--api-ports", "5-6", "--quic-ports", "7-8",
    ]);
    let (config, warnings) = config_from_args(&args, "some-id");
    assert_eq!(config.server_id, "srv");
    assert_eq!(config.master_url, Some("http://m".to_string()));
    assert_eq!(config.port, 8000);
    assert_eq!(config.region, "eu");
    assert_eq!(config.data_dir, "/data");
    assert_eq!(config.mtpdb_bin, "/bin/db");
    assert_eq!(config.pg_ports, (1, 2));
    assert_eq!(config.mysql_ports, (3, 4));
    assert_eq!(config.api_ports, (5, 6));
    assert_eq!(config.quic_ports, (7, 8));
    assert!(warnings.is_empty());
}

#[test]
fn port_that_cannot_be_read_falls_back() {
    for text in ["abc", "65536", "-1", ""] {
        let (config, _) = config_from_args(&strings(&["prog", "--port", text]), "id");
        assert_eq!(config.port, 7001);
    }
}

#[test]
fn warnings_come_in_the_order_of_the_pools() {
    let args = strings(&["prog", "--quic-ports", "q", "--pg-ports", "p"]);
    let (config, warnings) = config_from_args(&args, "id");
    assert_eq!(config.pg_ports, (0, 0));
    assert_eq!(config.quic_ports, (0, 0));
    assert_eq!(
        warnings,
        vec![
            "Warning: could not parse port range 'p', using 0-0".to_string(),
            "Warning: could not parse port range 'q', using 0-0".to_string(),
        ]
    );
}

#[test]
fn server_without_identifier_gets_a_random_one() {
    let (a, _) = parse_args(&strings(&["prog"]));
    let (b, _) = parse_args(&strings(&["prog"]));
    assert!(is_random_uuid(&a.server_id), "{}", a.server_id);
    assert!(is_random_uuid(&b.server_id), "{}", b.server_id);
    assert_ne!(a.server_id, b.server_id);
}

#[test]
fn given_identifier_is_kept() {
    let (config, _) = parse_args(&strings(&["prog", "--server-id", "mine"]));
    assert_eq!(config.server_id, "mine");
}
