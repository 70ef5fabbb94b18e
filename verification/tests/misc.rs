use mtpdb_manager::args::config_from_args;
use mtpdb_manager::config_toml::build_config_toml;
use mtpdb_manager::id_map::IdMap;
use mtpdb_manager::password::{generate_password, password_char, password_of};
use mtpdb_manager::register::{
    failed_line, give_up_line, refused_line, register_report, register_request, register_step,
    registered_line, RegisterReply, RegisterStep, Report,
};
use mtpdb_manager::startup::{advertised_ip, listen_addr, startup_registration};

#[test]
fn configuration_file_is_written() {
    let text = build_config_toml(15532, 13406, 18865, 14533, "/d/data", "/d/wal", "pw");
    let expected = r#"# Auto-generated by mtpdb_manager — do not edit manually.

[server]
quic_port      = 14533
api_port       = 18865
wire_port      = 13406
max_connections = 10000
ram_limit_mb   = 256

[cache]
hot_cache_size_mb = 64
eviction_policy   = "lru"

[storage]
data_dir          = "/d/data"
wal_dir           = "/d/wal"
memtable_size_mb  = 32

[postgresql]
enabled         = true
port            = 15532
max_connections = 200
enable_ssl      = false

# The password below is returned to the caller at provisioning time.
# Wire it into the instance's auth configuration as needed.
[auth]
password = "pw"
"#;
    assert_eq!(text, expected);
}

#[test]
fn alphabet_is_digits_then_small_then_capital_letters() {
    let all: String = (0..62).map(password_char).collect();
    assert_eq!(all, "0123456789abcdefghijklmnopqrstuvwxyzABCDEFGHIJKLMNOPQRSTUVWXYZ");
    assert_eq!(password_of(&vec![0, 9, 10, 35, 36, 61]), "09azAZ");
    assert_eq!(password_of(&vec![]), "");
}

#[test]
fn passwords_are_letters_and_digits() {
    assert_eq!(generate_password(0), "");
    let password = generate_password(5000);
    assert_eq!(password.chars().count(), 5000);
    assert!(password.chars().all(|c| c.is_ascii_alphanumeric()));
    let mut idx: u8 = 0;
    while idx < 62 {
        assert!(password.contains(password_char(idx)));
        idx += 1;
    }
}

#[test]
fn map_keeps_one_value_per_identifier() {
    let mut map: IdMap<u32> = IdMap::new();
    assert_eq!(map.insert("a".to_string(), 1), None);
    assert_eq!(map.insert("b".to_string(), 2), None);
    assert_eq!(map.insert("a".to_string(), 3), Some(1));
    assert_eq!(map.get("a"), Some(&3));
    assert_eq!(map.get("b"), Some(&2));
    assert_eq!(map.get("c"), None);
    assert_eq!(map.values().len(), 2);
    assert_eq!(map.remove("a"), Some(3));
    assert_eq!(map.remove("a"), None);
    assert_eq!(map.values(), vec![&2]);
}

#[test]
fn registration_request_is_addressed_to_the_master() {
    let request = register_request("http://m:1", "srv", "10.0.0.1", "eu", 7001);
    assert_eq!(request.url, "http://m:1/internal/register");
    assert_eq!(request.timeout_secs, 5);
    assert_eq!(request.server_id, "srv");
    assert_eq!(request.ip, "10.0.0.1");
    assert_eq!(request.region, "eu");
    assert_eq!(request.manager_port, 7001);
}

#[test]
fn acceptance_ends_registration() {
    for status in [200, 201, 204, 299] {
        assert_eq!(register_step(1, RegisterReply::Answered(status)), RegisterStep::Registered);
        assert_eq!(register_step(5, RegisterReply::Answered(status)), RegisterStep::Registered);
    }
}

#[test]
fn five_failures_end_registration() {
    let replies = [
        RegisterReply::Failed,
        RegisterReply::Answered(503),
        RegisterReply::Answered(199),
        RegisterReply::Answered(300),
        RegisterReply::Answered(404),
    ];
    let mut attempt: u32 = 1;
    let mut sent = 0;
    loop {
        sent += 1;
        match register_step(attempt, replies[(attempt - 1) as usize]) {
            RegisterStep::Registered => panic!("registered"),
            RegisterStep::Retry { pause_secs, attempt: next } => {
                assert_eq!(pause_secs, 2);
                assert_eq!(next, attempt + 1);
                attempt = next;
            }
            RegisterStep::GiveUp { pause_secs } => {
                assert_eq!(pause_secs, 2);
                break;
            }
        }
    }
    assert_eq!(sent, 5);
}

#[test]
fn server_without_a_master_stands_alone() {
    let args: Vec<String> = vec!["prog".to_string()];
    let (config, _) = config_from_args(&args, "id");
    assert!(startup_registration(&config, "10.0.0.1").is_none());
}

#[test]
fn server_with_a_master_registers() {
    let args: Vec<String> =
        vec!["prog".to_string(), "--master-url".to_string(), "http://m".to_string()];
    let (config, _) = config_from_args(&args, "id");
    let request = startup_registration(&config, "10.0.0.1").unwrap();
    assert_eq!(request.url, "http://m/internal/register");
    assert_eq!(request.server_id, "id");
    assert_eq!(request.ip, "10.0.0.1");
    assert_eq!(request.region, "default");
    assert_eq!(request.manager_port, 7001);
}

#[test]
fn addresses_at_start() {
    assert_eq!(listen_addr(7001), "0.0.0.0:7001");
    assert_eq!(listen_addr(0), "0.0.0.0:0");
    assert_eq!(advertised_ip(Some("10.0.0.1".to_string())), "10.0.0.1");
    assert_eq!(advertised_ip(None), "127.0.0.1");
}

#[test]
fn registration_lines() {
    assert_eq!(
        registered_line("http://m:7000"),
        "[manager] Registered with master at http://m:7000"
    );
    assert_eq!(
        refused_line(1, "503 Service Unavailable"),
        "[manager] Registration attempt 1: master returned 503 Service Unavailable"
    );
    assert_eq!(
        failed_line(12, "connection refused"),
        "[manager] Registration attempt 12 failed: connection refused"
    );
    assert_eq!(
        give_up_line("http://m"),
        "[manager] Could not register with master at http://m after 5 attempts. \
         Continuing without registration."
    );
}

#[test]
fn registration_that_succeeds_at_the_third_attempt() {
    let replies = [
        (RegisterReply::Answered(503), "503 Service Unavailable"),
        (RegisterReply::Failed, "timed out"),
        (RegisterReply::Answered(201), "201 Created"),
    ];
    let mut output: Vec<String> = Vec::new();
    let mut errors: Vec<String> = Vec::new();
    let mut attempt: u32 = 1;
    let mut sent = 0;
    loop {
        let (reply, detail) = replies[sent];
        sent += 1;
        match register_report("http://m:7000", attempt, reply, detail) {
            Report::Output(line) => output.push(line),
            Report::Error(line) => errors.push(line),
        }
        match register_step(attempt, reply) {
            RegisterStep::Registered => break,
            RegisterStep::Retry { attempt: next, .. } => attempt = next,
            RegisterStep::GiveUp { .. } => panic!("gave up"),
        }
    }
    assert_eq!(sent, 3);
    assert_eq!(output, vec!["[manager] Registered with master at http://m:7000".to_string()]);
    assert_eq!(
        errors,
        vec![
            "[manager] Registration attempt 1: master returned 503 Service Unavailable".to_string(),
            "[manager] Registration attempt 2 failed: timed out".to_string(),
        ]
    );
}

#[test]
fn different_arguments_give_different_files() {
    let file = build_config_toml(1, 2, 3, 4, "d", "w", "p");
    assert_ne!(file, build_config_toml(9, 2, 3, 4, "d", "w", "p"));
    assert_ne!(file, build_config_toml(1, 9, 3, 4, "d", "w", "p"));
    assert_ne!(file, build_config_toml(1, 2, 9, 4, "d", "w", "p"));
    assert_ne!(file, build_config_toml(1, 2, 3, 9, "d", "w", "p"));
    assert_ne!(file, build_config_toml(1, 2, 3, 4, "x", "w", "p"));
    assert_ne!(file, build_config_toml(1, 2, 3, 4, "d", "x", "p"));
    assert_ne!(file, build_config_toml(1, 2, 3, 4, "d", "w", "x"));
}
