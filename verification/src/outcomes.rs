//! What comes of a request, told from what was asked for and from the settings.

use crate::args::ConfigView;
use crate::config_laws::{
    law_config_gives_arguments_back, law_config_holds_its_arguments_as_they_are,
};
use crate::config_toml::config_toml;
use crate::instance::{InstanceView, Ports};
use crate::laws::{
    in_turn, law_failed_provisioning_changes_nothing, law_initial, law_instance_ports_are_in_range,
    law_new_ports_are_unclaimed, law_pools_keep_their_ports, law_provisioning_is_all_or_nothing,
};
use crate::model::{ActionView, EventView, JobView, ManagerView, PoolsView, Stage, StepView};
use crate::port_pool::{law_new_pool_has_its_range_free, law_pool_stays_well_formed};
use crate::text::decimal;
use crate::toml_text::{is_plain, read_toml, TomlValue};
use vstd::prelude::*;

verus! {

/// A supervisor has the identifier, region, port, base directory and database binary of its
/// settings and the address that it is given. It has no instances, and in each pool the
/// ports of the range that is set for it are free, from the lowest to the highest.
pub proof fn law_supervisor_follows_its_settings<P>(config: ConfigView, advertise_ip: Seq<char>)
    ensures
        ({
            let m = ManagerView::<P>::initial(config, advertise_ip);
            let spans = |free: Seq<u16>, range: (u16, u16)|
                {
                    &&& range.0 > range.1 ==> free.len() == 0
                    &&& range.0 <= range.1 ==> free.len() == range.1 - range.0 + 1
                    &&& forall|i: int| 0 <= i < free.len() ==> (#[trigger] free[i]) == range.0 + i
                };
            &&& m.server_id == config.server_id
            &&& m.region == config.region
            &&& m.advertise_ip == advertise_ip
            &&& m.manager_port == config.port
            &&& m.data_dir == config.data_dir
            &&& m.mtpdb_bin == config.mtpdb_bin
            &&& m.instances == Map::<Seq<char>, InstanceView>::empty()
            &&& m.processes == Map::<Seq<char>, P>::empty()
            &&& spans(m.pools.pg.available, config.pg_ports)
            &&& spans(m.pools.mysql.available, config.mysql_ports)
            &&& spans(m.pools.api.available, config.api_ports)
            &&& spans(m.pools.quic.available, config.quic_ports)
            &&& m.pools.pg.used == Set::<u16>::empty()
            &&& m.pools.mysql.used == Set::<u16>::empty()
            &&& m.pools.api.used == Set::<u16>::empty()
            &&& m.pools.quic.used == Set::<u16>::empty()
        }),
{
    law_new_pool_has_its_range_free(config.pg_ports.0, config.pg_ports.1);
    law_new_pool_has_its_range_free(config.mysql_ports.0, config.mysql_ports.1);
    law_new_pool_has_its_range_free(config.api_ports.0, config.api_ports.1);
    law_new_pool_has_its_range_free(config.quic_ports.0, config.quic_ports.1);
}

/// A request is refused for want of ports exactly when a pool has none free. The refusal has
/// the status 503 and names the first such pool.
pub proof fn law_refusal_names_the_first_empty_pool(pools: PoolsView)
    ensures
        ({
            let pg = pools.pg.available.len() == 0;
            let mysql = pools.mysql.available.len() == 0;
            let api = pools.api.available.len() == 0;
            let quic = pools.quic.available.len() == 0;
            let refused = pools.shortage();
            &&& refused is Some <==> pg || mysql || api || quic
            &&& refused is Some ==> refused->0.code == 503
            &&& pg ==> refused->0.error == "No PostgreSQL ports available"@
            &&& !pg && mysql ==> refused->0.error == "No MySQL ports available"@
            &&& !pg && !mysql && api ==> refused->0.error == "No API ports available"@
            &&& !pg && !mysql && !api && quic ==> refused->0.error == "No QUIC ports available"@
        }),
{
}

/// A job starts with the making of the directory, which is named after the instance and lies
/// in the base directory. It has the identifier and the password that it is given, the name
/// that is asked for or else one made of the identifier, and the last free port of each pool.
pub proof fn law_job_follows_the_request<P>(
    m: ManagerView<P>,
    db_name: Option<Seq<char>>,
    id: Seq<char>,
    password: Seq<char>,
)
    ensures
        ({
            let job = m.job(db_name, id, password);
            &&& job.stage == Stage::MakeDir
            &&& job.id == id
            &&& job.password == password
            &&& job.dir == m.data_dir + "/"@ + id
            &&& db_name matches Some(name) ==> job.db_name == name
            &&& db_name is None ==> job.db_name == "db_"@ + id.subrange(0, 8)
            &&& m.pools.pg.available.len() > 0 ==> job.ports.pg == m.pools.pg.available.last()
            &&& m.pools.mysql.available.len() > 0 ==> job.ports.mysql
                == m.pools.mysql.available.last()
            &&& m.pools.api.available.len() > 0 ==> job.ports.api == m.pools.api.available.last()
            &&& m.pools.quic.available.len() > 0 ==> job.ports.quic
                == m.pools.quic.available.last()
        }),
{
}

/// Two requests that differ only in the name that they ask for lead to the names asked for.
pub proof fn law_different_names_stay_different<P>(
    m: ManagerView<P>,
    a: Seq<char>,
    b: Seq<char>,
    id: Seq<char>,
    password: Seq<char>,
)
    requires
        m.job(Some(a), id, password) == m.job(Some(b), id, password),
    ensures
        a == b,
{
    law_job_follows_the_request(m, Some(a), id, password);
    law_job_follows_the_request(m, Some(b), id, password);
}

/// The instance that a job sets up has what the job has, runs, and does so from the time that
/// is noted.
pub proof fn law_instance_follows_its_job(job: JobView, created_at: Seq<char>)
    ensures
        ({
            let info = job.instance(created_at);
            &&& info.id == job.id
            &&& info.db_name == job.db_name
            &&& info.ports.pg == job.ports.pg
            &&& info.ports.mysql == job.ports.mysql
            &&& info.ports.api == job.ports.api
            &&& info.ports.quic == job.ports.quic
            &&& info.password == job.password
            &&& info.data_dir == job.dir
            &&& info.created_at == created_at
            &&& info.status == "running"@
        }),
{
}

/// What is done for an instance agrees with what is reported of it. The directory that is
/// made is the instance's own. The file that is written lies in it, and where directory and
/// password hold no quote, no backslash and no control character, it reads as the instance's
/// own password, directories and ports. The program that is started is the database, with
/// that file for its argument.
pub proof fn law_actions_agree_with_the_instance(
    job: JobView,
    bin: Seq<char>,
    created_at: Seq<char>,
)
    ensures
        job.stage == Stage::MakeDir ==> {
            &&& job.action(bin) is CreateDir
            &&& job.action(bin)->CreateDir_path == job.instance(created_at).data_dir
        },
        job.stage == Stage::WriteConfig ==> {
            &&& job.action(bin) is WriteFile
            &&& job.action(bin)->WriteFile_path == job.instance(created_at).data_dir
                + "/config.toml"@
            &&& job.action(bin)->contents == config_toml(
                job.instance(created_at).ports.pg,
                job.instance(created_at).ports.mysql,
                job.instance(created_at).ports.api,
                job.instance(created_at).ports.quic,
                job.instance(created_at).data_dir + "/data"@,
                job.instance(created_at).data_dir + "/wal"@,
                job.instance(created_at).password,
            )
        },
        job.stage == Stage::WriteConfig && is_plain(job.instance(created_at).data_dir) && is_plain(
            job.instance(created_at).password,
        ) ==> {
            let info = job.instance(created_at);
            let read = read_toml(job.action(bin)->contents);
            let file = read->0;
            &&& read is Some
            &&& file["auth"@]["password"@] == TomlValue::Text(info.password)
            &&& file["storage"@]["data_dir"@] == TomlValue::Text(info.data_dir + "/data"@)
            &&& file["storage"@]["wal_dir"@] == TomlValue::Text(info.data_dir + "/wal"@)
            &&& file["server"@]["quic_port"@] == TomlValue::Number(info.ports.quic as nat)
            &&& file["server"@]["api_port"@] == TomlValue::Number(info.ports.api as nat)
            &&& file["server"@]["wire_port"@] == TomlValue::Number(info.ports.mysql as nat)
            &&& file["postgresql"@]["port"@] == TomlValue::Number(info.ports.pg as nat)
        },
        job.stage == Stage::Spawn ==> {
            &&& job.action(bin) is Spawn
            &&& job.action(bin)->program == bin
            &&& job.action(bin)->arg == job.instance(created_at).data_dir + "/config.toml"@
        },
{
    if is_plain(job.dir) && is_plain(job.password) {
        reveal_strlit("/data");
        reveal_strlit("/wal");
        assert(is_plain("/data"@));
        assert(is_plain("/wal"@));
        law_config_gives_arguments_back(
            job.ports.pg,
            job.ports.mysql,
            job.ports.api,
            job.ports.quic,
            job.dir + "/data"@,
            job.dir + "/wal"@,
            job.password,
        );
    }
}

/// Whatever the directory and the password hold, the file that is written for an instance has
/// each of the instance's ports, directories and its password in one place, just as they are
/// reported. What stands around them is the same for all instances.
pub proof fn law_written_file_holds_what_is_reported()
    ensures
        exists|k: Seq<Seq<char>>| #[trigger]
            k.len() == 8 && forall|job: JobView, bin: Seq<char>, created_at: Seq<char>|
                #![trigger job.action(bin), job.instance(created_at)]
                job.stage == Stage::WriteConfig ==> {
                    let info = job.instance(created_at);
                    job.action(bin)->contents == k[0] + decimal(info.ports.quic as nat) + k[1]
                        + decimal(info.ports.api as nat) + k[2] + decimal(info.ports.mysql as nat)
                        + k[3] + (info.data_dir + "/data"@) + k[4] + (info.data_dir + "/wal"@)
                        + k[5] + decimal(info.ports.pg as nat) + k[6] + info.password + k[7]
                },
{
    law_config_holds_its_arguments_as_they_are();
}

/// The database is started on the file that was written before.
pub proof fn law_database_is_started_on_its_file(job: JobView, bin: Seq<char>)
    ensures
        job.at(Stage::Spawn).action(bin)->arg == job.at(Stage::WriteConfig).action(
            bin,
        )->WriteFile_path,
{
}

/// Each event moves a job on by one step. The directory once made, the file is next; the file
/// once written, the database is. Neither changes anything else of the job or anything of the
/// supervisor. A database that was started is entered; a failure is answered with the status
/// 500, what failed and why.
pub proof fn law_each_event_is_one_step<P>(
    m: ManagerView<P>,
    job: JobView,
    process: P,
    reason: Seq<char>,
    now: Seq<char>,
)
    ensures
        m.step(job, EventView::DirCreated, now).0 == m,
        m.step(job, EventView::DirCreated, now).1 matches StepView::Continue(next) && next == (
        JobView { stage: Stage::WriteConfig, ..job }),
        m.step(job, EventView::ConfigWritten, now).0 == m,
        m.step(job, EventView::ConfigWritten, now).1 matches StepView::Continue(next) && next == (
        JobView { stage: Stage::Spawn, ..job }),
        ({
            let (after, step) = m.step(job, EventView::Spawned(process), now);
            &&& step is Provisioned
            &&& step->Provisioned_0.created_at == now
            &&& after.instances == m.instances.insert(job.id, step->Provisioned_0)
            &&& after.processes == m.processes.insert(job.id, process)
            &&& after.pools == m.pools
        }),
        ({
            let (after, step) = m.step(job, EventView::Failed(reason), now);
            let said = step->Refused_0.error;
            &&& step is Refused
            &&& step->Refused_0.code == 500
            &&& job.stage == Stage::MakeDir ==> said == "mkdir failed: "@ + reason
            &&& job.stage == Stage::WriteConfig ==> said == "write config failed: "@ + reason
            &&& job.stage == Stage::Spawn ==> said == "Failed to spawn '"@ + m.mtpdb_bin + "': "@
                + reason
            &&& after.instances == m.instances
            &&& after.processes == m.processes
        }),
{
}

/// A request whose actions all succeed gives the instance that was asked for. It is reported
/// and entered under its identifier, with the name asked for or else one made of the
/// identifier, the last free port of each pool, its password, and its directory in the base
/// directory. The process that was started is kept under the same identifier, and nothing
/// else of the supervisor changes but that those ports are in use.
pub proof fn law_provisioning_gives_what_was_asked_for<P>(
    m: ManagerView<P>,
    db_name: Option<Seq<char>>,
    id: Seq<char>,
    password: Seq<char>,
    process: P,
    now: Seq<char>,
)
    requires
        m.pools.shortage() is None,
    ensures
        ({
            let events = seq![
                EventView::DirCreated,
                EventView::ConfigWritten,
                EventView::Spawned(process),
            ];
            let (after, step) = m.after_reserve().run(m.job(db_name, id, password), events, now);
            let info = step->Provisioned_0;
            &&& step is Provisioned
            &&& info.id == id
            &&& db_name matches Some(name) ==> info.db_name == name
            &&& db_name is None ==> info.db_name == "db_"@ + info.id.subrange(0, 8)
            &&& info.ports.pg == m.pools.pg.available.last()
            &&& info.ports.mysql == m.pools.mysql.available.last()
            &&& info.ports.api == m.pools.api.available.last()
            &&& info.ports.quic == m.pools.quic.available.last()
            &&& info.password == password
            &&& info.data_dir == m.data_dir + "/"@ + id
            &&& info.created_at == now
            &&& info.status == "running"@
            &&& after.instances == m.instances.insert(id, info)
            &&& after.processes == m.processes.insert(id, process)
            &&& after.pools.pg.available == m.pools.pg.available.drop_last()
            &&& after.pools.mysql.available == m.pools.mysql.available.drop_last()
            &&& after.pools.api.available == m.pools.api.available.drop_last()
            &&& after.pools.quic.available == m.pools.quic.available.drop_last()
            &&& after.pools.pg.used == m.pools.pg.used.insert(info.ports.pg)
            &&& after.pools.mysql.used == m.pools.mysql.used.insert(info.ports.mysql)
            &&& after.pools.api.used == m.pools.api.used.insert(info.ports.api)
            &&& after.pools.quic.used == m.pools.quic.used.insert(info.ports.quic)
            &&& after.server_id == m.server_id
            &&& after.region == m.region
            &&& after.advertise_ip == m.advertise_ip
            &&& after.manager_port == m.manager_port
            &&& after.data_dir == m.data_dir
            &&& after.mtpdb_bin == m.mtpdb_bin
        }),
{
    reveal_with_fuel(ManagerView::run, 4);
}

/// A request that fails at any of its actions is refused with the status 500, what failed and
/// why, and leaves the supervisor as it was.
pub proof fn law_failure_is_reported_and_undone<P>(
    m: ManagerView<P>,
    db_name: Option<Seq<char>>,
    id: Seq<char>,
    password: Seq<char>,
    reason: Seq<char>,
    now: Seq<char>,
)
    requires
        m.wf(),
        m.pools.shortage() is None,
    ensures
        ({
            let job = m.job(db_name, id, password);
            let failed = EventView::<P>::Failed(reason);
            let no_dir = m.after_reserve().run(job, seq![failed], now);
            let no_file = m.after_reserve().run(job, seq![EventView::DirCreated, failed], now);
            let no_start = m.after_reserve().run(
                job,
                seq![EventView::DirCreated, EventView::ConfigWritten, failed],
                now,
            );
            &&& no_dir.0 == m
            &&& no_dir.1 is Refused
            &&& no_dir.1->Refused_0.code == 500
            &&& no_dir.1->Refused_0.error == "mkdir failed: "@ + reason
            &&& no_file.0 == m
            &&& no_file.1 is Refused
            &&& no_file.1->Refused_0.code == 500
            &&& no_file.1->Refused_0.error == "write config failed: "@ + reason
            &&& no_start.0 == m
            &&& no_start.1 is Refused
            &&& no_start.1->Refused_0.code == 500
            &&& no_start.1->Refused_0.error == "Failed to spawn '"@ + m.mtpdb_bin + "': "@ + reason
        }),
{
    reveal_with_fuel(ManagerView::run, 4);
    law_failed_provisioning_changes_nothing(m);
}

/// Stopping an instance takes it and its process out and puts each of its ports at the end of
/// the free ones of its pool, from where it is handed out again. Nothing else changes.
pub proof fn law_stopping_frees_the_ports<P>(m: ManagerView<P>, id: Seq<char>)
    requires
        m.wf(),
        m.instances.contains_key(id),
    ensures
        ({
            let after = m.after_stop(id);
            let ports = m.instances[id].ports;
            &&& after.instances == m.instances.remove(id)
            &&& after.processes == m.processes.remove(id)
            &&& after.pools.pg.available == m.pools.pg.available.push(ports.pg)
            &&& after.pools.mysql.available == m.pools.mysql.available.push(ports.mysql)
            &&& after.pools.api.available == m.pools.api.available.push(ports.api)
            &&& after.pools.quic.available == m.pools.quic.available.push(ports.quic)
            &&& after.pools.pg.used == m.pools.pg.used.remove(ports.pg)
            &&& after.pools.mysql.used == m.pools.mysql.used.remove(ports.mysql)
            &&& after.pools.api.used == m.pools.api.used.remove(ports.api)
            &&& after.pools.quic.used == m.pools.quic.used.remove(ports.quic)
            &&& after.server_id == m.server_id
            &&& after.region == m.region
            &&& after.advertise_ip == m.advertise_ip
            &&& after.manager_port == m.manager_port
            &&& after.data_dir == m.data_dir
            &&& after.mtpdb_bin == m.mtpdb_bin
        }),
{
}

/// Giving ports back puts each of them that is in use at the end of the free ones of its own
/// pool, and changes nothing else.
pub proof fn law_release_goes_to_the_own_pool<P>(
    m: ManagerView<P>,
    pg: u16,
    mysql: u16,
    api: u16,
    quic: u16,
)
    ensures
        ({
            let after = m.after_release(Ports { pg, mysql, api, quic });
            &&& after.pools.pg.available == if m.pools.pg.used.contains(pg) {
                m.pools.pg.available.push(pg)
            } else {
                m.pools.pg.available
            }
            &&& after.pools.mysql.available == if m.pools.mysql.used.contains(mysql) {
                m.pools.mysql.available.push(mysql)
            } else {
                m.pools.mysql.available
            }
            &&& after.pools.api.available == if m.pools.api.used.contains(api) {
                m.pools.api.available.push(api)
            } else {
                m.pools.api.available
            }
            &&& after.pools.quic.available == if m.pools.quic.used.contains(quic) {
                m.pools.quic.available.push(quic)
            } else {
                m.pools.quic.available
            }
            &&& after.pools.pg.used == m.pools.pg.used.remove(pg)
            &&& after.pools.mysql.used == m.pools.mysql.used.remove(mysql)
            &&& after.pools.api.used == m.pools.api.used.remove(api)
            &&& after.pools.quic.used == m.pools.quic.used.remove(quic)
            &&& after == (ManagerView { pools: after.pools, ..m })
        }),
{
}

/// A request that changes the instances.
pub enum RequestView<P> {
    /// An instance is asked for, and `events` come of the actions for it.
    Provision {
        db_name: Option<Seq<char>>,
        id: Seq<char>,
        password: Seq<char>,
        events: Seq<EventView<P>>,
        now: Seq<char>,
    },
    /// An instance is to be stopped.
    Stop { id: Seq<char> },
}

/// The supervisor once `request` has been dealt with.
pub open spec fn after_request<P>(m: ManagerView<P>, request: RequestView<P>) -> ManagerView<P> {
    match request {
        RequestView::Provision { db_name, id, password, events, now } => if m.pools.shortage()
            is Some {
            m
        } else {
            m.after_reserve().run(m.job(db_name, id, password), events, now).0
        },
        RequestView::Stop { id } => if m.instances.contains_key(id) {
            m.after_stop(id)
        } else {
            m
        },
    }
}

/// Whether each event that comes for `request` answers the action that is pending.
pub open spec fn answered<P>(request: RequestView<P>) -> bool {
    request matches RequestView::Provision { events, .. } ==> in_turn(Stage::MakeDir, events)
}

/// The supervisor once `requests` have been dealt with, one after the other.
pub open spec fn after_requests<P>(
    m: ManagerView<P>,
    requests: Seq<RequestView<P>>,
) -> ManagerView<P>
    decreases requests.len(),
{
    if requests.len() == 0 {
        m
    } else {
        after_request(after_requests(m, requests.drop_last()), requests.last())
    }
}

proof fn lemma_finishing_keeps_the_invariant<P>(
    m: ManagerView<P>,
    job: JobView,
    process: P,
    now: Seq<char>,
)
    requires
        m.wf(),
        m.runs(job),
    ensures
        m.after_finish(job, process, now).wf(),
{
    let after = m.after_finish(job, process, now);
    assert(after.processes.dom() =~= after.instances.dom());
}

proof fn lemma_stopping_keeps_the_invariant<P>(m: ManagerView<P>, id: Seq<char>)
    requires
        m.wf(),
        m.instances.contains_key(id),
    ensures
        m.after_stop(id).wf(),
{
    let after = m.after_stop(id);
    let ports = m.instances[id].ports;
    law_pool_stays_well_formed(m.pools.pg, ports.pg);
    law_pool_stays_well_formed(m.pools.mysql, ports.mysql);
    law_pool_stays_well_formed(m.pools.api, ports.api);
    law_pool_stays_well_formed(m.pools.quic, ports.quic);
    assert(after.processes.dom() =~= after.instances.dom());
}

proof fn lemma_request_keeps<P>(m: ManagerView<P>, request: RequestView<P>)
    requires
        m.wf(),
        answered(request),
    ensures
        after_request(m, request).wf(),
        after_request(m, request).pools.same_ports(m.pools),
        after_request(m, request).server_id == m.server_id,
        after_request(m, request).region == m.region,
        after_request(m, request).advertise_ip == m.advertise_ip,
        after_request(m, request).manager_port == m.manager_port,
        after_request(m, request).data_dir == m.data_dir,
        after_request(m, request).mtpdb_bin == m.mtpdb_bin,
{
    match request {
        RequestView::Provision { db_name, id, password, events, now } => {
            if m.pools.shortage() is None {
                let job = m.job(db_name, id, password);
                law_provisioning_is_all_or_nothing(m, db_name, id, password, events, now);
                law_new_ports_are_unclaimed(m);
                if m.after_reserve().run(job, events, now).1 is Provisioned {
                    let process = events[2]->Spawned_0;
                    lemma_finishing_keeps_the_invariant(m.after_reserve(), job, process, now);
                    law_pools_keep_their_ports(m, job.ports, job, process, now, id);
                } else {
                    let process = arbitrary();
                    law_pools_keep_their_ports(m, job.ports, job, process, now, id);
                }
            }
        },
        RequestView::Stop { id } => {
            if m.instances.contains_key(id) {
                let job = arbitrary();
                let process = arbitrary();
                lemma_stopping_keeps_the_invariant(m, id);
                law_pools_keep_their_ports(m, m.instances[id].ports, job, process, id, id);
            }
        },
    }
}

/// Whatever a supervisor has been asked for since it was started, it has the identifier, region,
/// port, base directory and database binary of its settings and the address that it was given.
/// Each of its instances runs in a directory that is named after it and lies in the base
/// directory of the settings, with ports from the ranges of the settings.
pub proof fn law_settings_hold_from_start_to_end<P>(
    config: ConfigView,
    advertise_ip: Seq<char>,
    requests: Seq<RequestView<P>>,
)
    requires
        forall|i: int| 0 <= i < requests.len() ==> answered(#[trigger] requests[i]),
    ensures
        ({
            let m = after_requests(ManagerView::<P>::initial(config, advertise_ip), requests);
            &&& m.wf()
            &&& m.server_id == config.server_id
            &&& m.region == config.region
            &&& m.advertise_ip == advertise_ip
            &&& m.manager_port == config.port
            &&& m.data_dir == config.data_dir
            &&& m.mtpdb_bin == config.mtpdb_bin
            &&& forall|id: Seq<char>| #[trigger]
                m.instances.contains_key(id) ==> {
                    let info = m.instances[id];
                    &&& info.id == id
                    &&& info.data_dir == config.data_dir + "/"@ + id
                    &&& info.status == "running"@
                    &&& config.pg_ports.0 <= info.ports.pg <= config.pg_ports.1
                    &&& config.mysql_ports.0 <= info.ports.mysql <= config.mysql_ports.1
                    &&& config.api_ports.0 <= info.ports.api <= config.api_ports.1
                    &&& config.quic_ports.0 <= info.ports.quic <= config.quic_ports.1
                    &&& m.processes.contains_key(id)
                }
        }),
{
    let start = ManagerView::<P>::initial(config, advertise_ip);
    let m = after_requests(start, requests);
    lemma_requests_keep(config, advertise_ip, requests);
    assert forall|id: Seq<char>| #[trigger] m.instances.contains_key(id) implies {
        let info = m.instances[id];
        &&& config.pg_ports.0 <= info.ports.pg <= config.pg_ports.1
        &&& config.mysql_ports.0 <= info.ports.mysql <= config.mysql_ports.1
        &&& config.api_ports.0 <= info.ports.api <= config.api_ports.1
        &&& config.quic_ports.0 <= info.ports.quic <= config.quic_ports.1
        &&& m.processes.dom().contains(id)
    } by {
        law_instance_ports_are_in_range(m, config, advertise_ip, id);
    }
}

proof fn lemma_requests_keep<P>(
    config: ConfigView,
    advertise_ip: Seq<char>,
    requests: Seq<RequestView<P>>,
)
    requires
        forall|i: int| 0 <= i < requests.len() ==> answered(#[trigger] requests[i]),
    ensures
        ({
            let start = ManagerView::<P>::initial(config, advertise_ip);
            let m = after_requests(start, requests);
            &&& m.wf()
            &&& m.pools.same_ports(start.pools)
            &&& m.server_id == start.server_id
            &&& m.region == start.region
            &&& m.advertise_ip == start.advertise_ip
            &&& m.manager_port == start.manager_port
            &&& m.data_dir == start.data_dir
            &&& m.mtpdb_bin == start.mtpdb_bin
        }),
    decreases requests.len(),
{
    let start = ManagerView::<P>::initial(config, advertise_ip);
    if requests.len() == 0 {
        law_initial::<P>(config, advertise_ip);
    } else {
        let before = requests.drop_last();
        assert forall|i: int| 0 <= i < before.len() implies answered(#[trigger] before[i]) by {
            assert(before[i] == requests[i]);
        }
        lemma_requests_keep(config, advertise_ip, before);
        assert(answered(requests[requests.len() - 1]));
        lemma_request_keeps(after_requests(start, before), requests.last());
    }
}

/// Whatever a supervisor has been asked for since it was started, the actions for a new
/// instance go by its settings: they make the directory named after the instance in the base
/// directory of the settings, write the configuration file in it, and start the database
/// binary of the settings on that file.
pub proof fn law_actions_follow_the_settings<P>(
    config: ConfigView,
    advertise_ip: Seq<char>,
    requests: Seq<RequestView<P>>,
    db_name: Option<Seq<char>>,
    id: Seq<char>,
    password: Seq<char>,
)
    requires
        forall|i: int| 0 <= i < requests.len() ==> answered(#[trigger] requests[i]),
    ensures
        ({
            let m = after_requests(ManagerView::<P>::initial(config, advertise_ip), requests);
            let job = m.job(db_name, id, password);
            let dir = config.data_dir + "/"@ + id;
            &&& job.at(Stage::MakeDir).action(m.mtpdb_bin) == (ActionView::CreateDir { path: dir })
            &&& job.at(Stage::WriteConfig).action(m.mtpdb_bin) is WriteFile
            &&& job.at(Stage::WriteConfig).action(m.mtpdb_bin)->WriteFile_path == dir
                + "/config.toml"@
            &&& job.at(Stage::Spawn).action(m.mtpdb_bin) == (ActionView::Spawn {
                program: config.mtpdb_bin,
                arg: dir + "/config.toml"@,
            })
        }),
{
    law_settings_hold_from_start_to_end(config, advertise_ip, requests);
}

} // verus!
