use mtpdb_manager::args::{config_from_args, Config};
use mtpdb_manager::manager::{
    ManagerState, ProvisionAction, ProvisionEvent, ProvisionJob, ProvisionRequest, ProvisionStep,
};
use mtpdb_manager::api::{api_err, health, provisioned_line, stopped_line, ApiError};
use mtpdb_manager::instance::InstanceInfo;

fn config(pg: &str, mysql: &str, api: &str, quic: &str) -> Config {
    let args: Vec<String> = [
        "prog", "--server-id", "srv", "--region", "eu", "--data-dir", "/data", "--mtpdb-bin",
        "/bin/db", "--pg-ports", pg, "--mysql-ports", mysql, "--api-ports", api, "--quic-ports",
        quic,
    ]
    .iter()
    .map(|a| a.to_string())
    .collect();
    config_from_args(&args, "unused").0
}

fn manager() -> ManagerState<u32> {
    ManagerState::new(&config("1-2", "11-12", "21-22", "31-32"), "10.0.0.1")
}

fn unnamed() -> ProvisionRequest {
    ProvisionRequest { db_name: None }
}

fn begin(m: &mut ManagerState<u32>, id: &str) -> Result<ProvisionJob, ApiError> {
    m.begin_provision_as(unnamed(), id.to_string(), "secret".to_string())
}

fn refuse(m: &mut ManagerState<u32>, job: ProvisionJob) -> ApiError {
    match m.provision_step(job, ProvisionEvent::Failed("no luck".to_string())) {
        ProvisionStep::Refused(e) => e,
        other => panic!("{:?}", other),
    }
}

fn go_on(m: &mut ManagerState<u32>, job: ProvisionJob, event: ProvisionEvent<u32>) -> ProvisionJob {
    match m.provision_step(job, event) {
        ProvisionStep::Continue(next) => next,
        other => panic!("{:?}", other),
    }
}

fn to_spawn(m: &mut ManagerState<u32>, job: ProvisionJob) -> ProvisionJob {
    let job = go_on(m, job, ProvisionEvent::DirCreated);
    go_on(m, job, ProvisionEvent::ConfigWritten)
}

fn set_up(m: &mut ManagerState<u32>, id: &str, process: u32) -> InstanceInfo {
    let job = begin(m, id).unwrap();
    let job = to_spawn(m, job);
    match m.provision_step(job, ProvisionEvent::Spawned(process)) {
        ProvisionStep::Provisioned(info) => info,
        other => panic!("{:?}", other),
    }
}

fn ports(info: &InstanceInfo) -> (u16, u16, u16, u16) {
    (info.pg_port, info.mysql_port, info.api_port, info.quic_port)
}

fn is_utc_time(s: &str) -> bool {
    let rest = match s.strip_suffix("+00:00") {
        Some(rest) => rest,
        None => return false,
    };
    let (time, fraction) = match rest.split_once('.') {
        Some((time, fraction)) => (time, Some(fraction)),
        None => (rest, None),
    };
    let shape: String =
        time.chars().map(|c| if c.is_ascii_digit() { '0' } else { c }).collect();
    shape == "0000-00-00T00:00:00"
        && fraction.map_or(true, |f| {
            (f.len() == 3 || f.len() == 6 || f.len() == 9) && f.chars().all(|c| c.is_ascii_digit())
        })
}

#[test]
fn actions_come_in_turn() {
    let mut m = manager();
    let job = begin(&mut m, "12345678-abcd").unwrap();
    match m.next_action(&job) {
        ProvisionAction::CreateDir { path } => assert_eq!(path, "/data/12345678-abcd"),
        other => panic!("{:?}", other),
    }
    let job = go_on(&mut m, job, ProvisionEvent::DirCreated);
    match m.next_action(&job) {
        ProvisionAction::WriteFile { path, contents } => {
            assert_eq!(path, "/data/12345678-abcd/config.toml");
            assert!(contents.contains("data_dir          = \"/data/12345678-abcd/data\"\n"));
            assert!(contents.contains("wal_dir           = \"/data/12345678-abcd/wal\"\n"));
            assert!(contents.contains("quic_port      = 32\n"));
            assert!(contents.contains("api_port       = 22\n"));
            assert!(contents.contains("wire_port      = 12\n"));
            assert!(contents.contains("port            = 2\n"));
            assert!(contents.contains("password = \"secret\"\n"));
        }
        other => panic!("{:?}", other),
    }
    let job = go_on(&mut m, job, ProvisionEvent::ConfigWritten);
    match m.next_action(&job) {
        ProvisionAction::Spawn { program, arg } => {
            assert_eq!(program, "/bin/db");
            assert_eq!(arg, "/data/12345678-abcd/config.toml");
        }
        other => panic!("{:?}", other),
    }
}

#[test]
fn instance_is_entered_once_it_runs() {
    let mut m = manager();
    let info = set_up(&mut m, "12345678-abcd", 7);
    assert_eq!(info.id, "12345678-abcd");
    assert_eq!(info.db_name, "db_12345678");
    assert_eq!(ports(&info), (2, 12, 22, 32));
    assert_eq!(info.password, "secret");
    assert_eq!(info.data_dir, "/data/12345678-abcd");
    assert_eq!(info.status, "running");
    assert!(is_utc_time(&info.created_at), "{}", info.created_at);
    let found = m.get_instance("12345678-abcd").unwrap();
    assert_eq!(found.db_name, info.db_name);
    assert_eq!(found.created_at, info.created_at);
    assert_eq!(ports(found), ports(&info));
}

#[test]
fn finished_job_keeps_the_given_time() {
    let mut m = manager();
    let job = begin(&mut m, "12345678").unwrap();
    let job = to_spawn(&mut m, job);
    let info = m.finish_provision(job, 7, "some time".to_string());
    assert_eq!(info.created_at, "some time");
    assert_eq!(m.get_instance("12345678").unwrap().created_at, "some time");
}

#[test]
fn given_name_is_kept() {
    let mut m = manager();
    let req = ProvisionRequest { db_name: Some("orders".to_string()) };
    let job = m.begin_provision_as(req, "x".to_string(), "p".to_string()).unwrap();
    let job = to_spawn(&mut m, job);
    let info = m.finish_provision(job, 1, String::new());
    assert_eq!(info.db_name, "orders");
}

#[test]
fn failures_name_the_stage_and_give_the_ports_back() {
    let mut m = manager();

    let job = begin(&mut m, "aaaaaaaa").unwrap();
    let e = refuse(&mut m, job);
    assert_eq!((e.code, e.error.as_str()), (500, "mkdir failed: no luck"));

    let job = begin(&mut m, "bbbbbbbb").unwrap();
    let job = go_on(&mut m, job, ProvisionEvent::DirCreated);
    let e = refuse(&mut m, job);
    assert_eq!((e.code, e.error.as_str()), (500, "write config failed: no luck"));

    let job = begin(&mut m, "cccccccc").unwrap();
    let job = to_spawn(&mut m, job);
    let e = refuse(&mut m, job);
    assert_eq!((e.code, e.error.as_str()), (500, "Failed to spawn '/bin/db': no luck"));

    assert_eq!(m.list_instances().count, 0);
    assert_eq!(ports(&set_up(&mut m, "dddddddd", 1)), (2, 12, 22, 32));
    assert_eq!(ports(&set_up(&mut m, "eeeeeeee", 2)), (1, 11, 21, 31));
}

#[test]
fn each_pool_can_run_out() {
    let cases = [
        (config("9-1", "11-12", "21-22", "31-32"), "No PostgreSQL ports available"),
        (config("1-2", "9-1", "21-22", "31-32"), "No MySQL ports available"),
        (config("1-2", "11-12", "9-1", "31-32"), "No API ports available"),
        (config("1-2", "11-12", "21-22", "9-1"), "No QUIC ports available"),
        (config("1-2", "9-1", "9-1", "9-1"), "No MySQL ports available"),
    ];
    for (config, message) in cases {
        let mut m: ManagerState<u32> = ManagerState::new(&config, "ip");
        let mut round = 0;
        while round < 5 {
            let e = begin(&mut m, "12345678").unwrap_err();
            assert_eq!((e.code, e.error.as_str()), (503, message));
            let e = m.begin_provision(unnamed()).unwrap_err();
            assert_eq!((e.code, e.error.as_str()), (503, message));
            round += 1;
        }
    }
}

#[test]
fn refused_request_takes_no_ports() {
    let mut m: ManagerState<u32> =
        ManagerState::new(&config("1-9", "11-19", "21-29", "31-31"), "ip");
    let first = set_up(&mut m, "aaaaaaaa", 1);
    assert_eq!(ports(&first), (9, 19, 29, 31));
    assert_eq!(begin(&mut m, "bbbbbbbb").unwrap_err().error, "No QUIC ports available");
    m.stop_instance("aaaaaaaa").unwrap();
    assert_eq!(ports(&set_up(&mut m, "cccccccc", 2)), (9, 19, 29, 31));
}

#[test]
fn server_holds_as_many_instances_as_ports() {
    let mut m = manager();
    set_up(&mut m, "aaaaaaaa", 1);
    set_up(&mut m, "bbbbbbbb", 2);
    assert_eq!(begin(&mut m, "cccccccc").unwrap_err().code, 503);
    m.stop_instance("aaaaaaaa").unwrap();
    let again = set_up(&mut m, "cccccccc", 3);
    assert_eq!(ports(&again), (2, 12, 22, 32));
}

#[test]
fn stopping_hands_over_the_process() {
    let mut m = manager();
    set_up(&mut m, "aaaaaaaa", 41);
    set_up(&mut m, "bbbbbbbb", 42);
    let stopped = m.stop_instance("bbbbbbbb").unwrap();
    assert_eq!(stopped.process, Some(42));
    assert_eq!(stopped.reply.status, "stopped");
    assert_eq!(stopped.reply.id, "bbbbbbbb");
    assert_eq!(ports(m.get_instance("aaaaaaaa").unwrap()), (2, 12, 22, 32));
    let e = m.get_instance("bbbbbbbb").unwrap_err();
    assert_eq!((e.code, e.error.as_str()), (404, "Instance 'bbbbbbbb' not found"));
    let e = m.stop_instance("bbbbbbbb").unwrap_err();
    assert_eq!((e.code, e.error.as_str()), (404, "Instance 'bbbbbbbb' not found"));
}

#[test]
fn same_identifier_replaces_the_instance() {
    let mut m = manager();
    set_up(&mut m, "aaaaaaaa", 1);
    let second = set_up(&mut m, "aaaaaaaa", 2);
    assert_eq!(ports(&second), (1, 11, 21, 31));
    assert_eq!(m.list_instances().count, 1);
    assert_eq!(m.stop_instance("aaaaaaaa").unwrap().process, Some(2));
    // The ports of the instance that was replaced stay in use.
    set_up(&mut m, "bbbbbbbb", 3);
    assert_eq!(begin(&mut m, "cccccccc").unwrap_err().code, 503);
}

#[test]
fn released_ports_come_next() {
    let mut m = manager();
    set_up(&mut m, "aaaaaaaa", 1);
    begin(&mut m, "bbbbbbbb").unwrap();
    assert_eq!(begin(&mut m, "cccccccc").unwrap_err().code, 503);
    m.release_ports(1, 11, 21, 31);
    assert_eq!(ports(&set_up(&mut m, "cccccccc", 2)), (1, 11, 21, 31));
}

#[test]
fn instances_are_listed() {
    let mut m = manager();
    assert_eq!(m.info().instance_count, 0);
    set_up(&mut m, "aaaaaaaa", 1);
    set_up(&mut m, "bbbbbbbb", 2);
    let list = m.list_instances();
    let mut ids: Vec<&str> = list.instances.iter().map(|i| i.id.as_str()).collect();
    ids.sort();
    assert_eq!(ids, vec!["aaaaaaaa", "bbbbbbbb"]);
    assert_eq!(list.count, 2);
    let info = m.info();
    assert_eq!(info.server_id, "srv");
    assert_eq!(info.region, "eu");
    assert_eq!(info.ip, "10.0.0.1");
    assert_eq!(info.instance_count, 2);
    let mut ids: Vec<&str> = info.instances.iter().map(|i| i.id.as_str()).collect();
    ids.sort();
    assert_eq!(ids, vec!["aaaaaaaa", "bbbbbbbb"]);
}

#[test]
fn identifier_and_password_are_drawn_at_random() {
    let mut m: ManagerState<u32> =
        ManagerState::new(&config("1-9", "11-19", "21-29", "31-39"), "ip");
    let mut seen: Vec<InstanceInfo> = Vec::new();
    while seen.len() < 3 {
        let job = m.begin_provision(unnamed()).unwrap();
        let job = to_spawn(&mut m, job);
        let info = match m.provision_step(job, ProvisionEvent::Spawned(1)) {
            ProvisionStep::Provisioned(info) => info,
            other => panic!("{:?}", other),
        };
        assert_eq!(info.id.len(), 36);
        assert_eq!(info.id.chars().nth(14), Some('4'));
        assert_eq!(info.db_name, format!("db_{}", &info.id[..8]));
        assert_eq!(info.data_dir, format!("/data/{}", info.id));
        assert_eq!(info.password.len(), 24);
        assert!(info.password.chars().all(|c| c.is_ascii_alphanumeric()));
        for other in &seen {
            assert_ne!(other.id, info.id);
            assert_ne!(other.password, info.password);
        }
        seen.push(info);
    }
}

#[test]
fn service_says_that_it_is_up() {
    let h = health();
    assert_eq!(h.status, "ok");
    assert_eq!(h.service, "mtpdb_manager");
}

#[test]
fn error_carries_its_status() {
    let e = api_err(418, "teapot".to_string());
    assert_eq!((e.code, e.error.as_str()), (418, "teapot"));
}

#[test]
fn instance_lines() {
    let mut m = manager();
    let info = set_up(&mut m, "12345678-abcd", 7);
    assert_eq!(
        provisioned_line(&info),
        "[manager] Provisioned instance 12345678-abcd — pg:2 mysql:12 api:22 quic:32"
    );
    assert_eq!(stopped_line("12345678-abcd"), "[manager] Stopped instance 12345678-abcd");
}
