//! What holds of the supervisor as a whole.

use crate::args::ConfigView;
use crate::config_laws::law_config_gives_arguments_back;
use crate::config_toml::config_toml;
use crate::instance::{InstanceView, Ports};
use crate::model::{
    accounted_for, apart, EventView, JobView, ManagerView, PoolsView, Stage, StepView,
};
use crate::password::is_letter_or_digit;
use crate::port_pool::{
    law_acquired_port_was_free, law_ports_add_up, law_ports_are_kept,
    law_release_undoes_acquire, law_released_port_comes_next, law_span_ports, PoolView,
};
use crate::source::is_uuid_v4;
use crate::toml_text::{is_plain, is_plain_char, read_toml, TomlValue};
use vstd::prelude::*;

verus! {

/// A supervisor starts well-formed, with every port in its place.
pub proof fn law_initial<P>(config: ConfigView, advertise_ip: Seq<char>)
    ensures
        ManagerView::<P>::initial(config, advertise_ip).wf(),
        ManagerView::<P>::initial(config, advertise_ip).balanced(),
{
    law_span_ports(config.pg_ports.0, config.pg_ports.1, 0);
    law_span_ports(config.mysql_ports.0, config.mysql_ports.1, 0);
    law_span_ports(config.api_ports.0, config.api_ports.1, 0);
    law_span_ports(config.quic_ports.0, config.quic_ports.1, 0);
}

/// No two instances have a port of the same kind in common.
pub proof fn law_instances_share_no_port<P>(m: ManagerView<P>, a: Seq<char>, b: Seq<char>)
    requires
        m.wf(),
        m.instances.contains_key(a),
        m.instances.contains_key(b),
        a != b,
    ensures
        apart(m.instances[a].ports, m.instances[b].ports),
{
}

/// The ports of a new instance are those of no other instance.
pub proof fn law_new_ports_are_unclaimed<P>(m: ManagerView<P>)
    requires
        m.wf(),
        m.pools.shortage() is None,
    ensures
        m.after_reserve().wf(),
        m.after_reserve().reserved(m.pools.next_ports()),
{
    law_acquired_port_was_free(m.pools.pg);
    law_acquired_port_was_free(m.pools.mysql);
    law_acquired_port_was_free(m.pools.api);
    law_acquired_port_was_free(m.pools.quic);
}

/// Handing out the ports of a new instance and giving them back, as is done where its
/// setting up fails, leaves the supervisor as it was.
pub proof fn law_failed_provisioning_changes_nothing<P>(m: ManagerView<P>)
    requires
        m.wf(),
        m.pools.shortage() is None,
    ensures
        m.after_reserve().after_release(m.pools.next_ports()) == m,
{
    law_release_undoes_acquire(m.pools.pg);
    law_release_undoes_acquire(m.pools.mysql);
    law_release_undoes_acquire(m.pools.api);
    law_release_undoes_acquire(m.pools.quic);
}

/// Whether each of `events` answers the action that is pending when it comes.
pub open spec fn in_turn<P>(stage: Stage, events: Seq<EventView<P>>) -> bool
    decreases events.len(),
{
    events.len() > 0 ==> {
        &&& events[0].answers(stage)
        &&& match events[0] {
            EventView::DirCreated => in_turn(Stage::WriteConfig, events.skip(1)),
            EventView::ConfigWritten => in_turn(Stage::Spawn, events.skip(1)),
            _ => true,
        }
    }
}

proof fn lemma_run<P>(m: ManagerView<P>, job: JobView, events: Seq<EventView<P>>, now: Seq<char>)
    requires
        in_turn(job.stage, events),
    ensures
        match m.run(job, events, now).1 {
            StepView::Continue(next) => {
                &&& m.run(job, events, now).0 == m
                &&& next == job.at(next.stage)
            },
            StepView::Refused(_) => m.run(job, events, now).0 == m.after_release(job.ports),
            StepView::Provisioned(info) => {
                let last = match job.stage {
                    Stage::MakeDir => 2int,
                    Stage::WriteConfig => 1int,
                    Stage::Spawn => 0int,
                };
                &&& info == job.instance(now)
                &&& last < events.len()
                &&& job.stage == Stage::MakeDir ==> events[0] is DirCreated
                &&& last >= 1 ==> events[last - 1] is ConfigWritten
                &&& events[last] matches EventView::Spawned(process) && m.run(job, events, now).0
                    == m.after_finish(job, process, now)
            },
        },
    decreases events.len(),
{
    if events.len() > 0 {
        let rest = events.skip(1);
        match events[0] {
            EventView::DirCreated => {
                lemma_run(m, job.at(Stage::WriteConfig), rest, now);
            },
            EventView::ConfigWritten => {
                lemma_run(m, job.at(Stage::Spawn), rest, now);
            },
            _ => {},
        }
    }
}

/// Whatever comes of the actions for a new instance, the request ends in one of two ways.
/// Either it is refused, and the supervisor is as it was before the request. Or the
/// directory was made, then the configuration file was written, then the database was
/// started, and the instance is entered with the process that was started.
pub proof fn law_provisioning_is_all_or_nothing<P>(
    m: ManagerView<P>,
    db_name: Option<Seq<char>>,
    id: Seq<char>,
    password: Seq<char>,
    events: Seq<EventView<P>>,
    now: Seq<char>,
)
    requires
        m.wf(),
        m.pools.shortage() is None,
        in_turn(Stage::MakeDir, events),
    ensures
        ({
            let job = m.job(db_name, id, password);
            let (after, step) = m.after_reserve().run(job, events, now);
            match step {
                StepView::Continue(next) => after == m.after_reserve() && next == job.at(
                    next.stage,
                ),
                StepView::Refused(_) => after == m,
                StepView::Provisioned(info) => {
                    &&& info == job.instance(now)
                    &&& events.len() > 2
                    &&& events[0] is DirCreated
                    &&& events[1] is ConfigWritten
                    &&& events[2] matches EventView::Spawned(process) && after
                        == m.after_reserve().after_finish(job, process, now)
                },
            }
        }),
{
    lemma_run(m.after_reserve(), m.job(db_name, id, password), events, now);
    law_failed_provisioning_changes_nothing(m);
}

/// No two instances live in the same directory.
pub proof fn law_instances_share_no_directory<P>(m: ManagerView<P>, a: Seq<char>, b: Seq<char>)
    requires
        m.wf(),
        m.instances.contains_key(a),
        m.instances.contains_key(b),
        a != b,
    ensures
        m.instances[a].data_dir != m.instances[b].data_dir,
{
    let base = m.data_dir + "/"@;
    if base + a == base + b {
        assert(a =~= (base + a).skip(base.len() as int));
        assert(b =~= (base + b).skip(base.len() as int));
    }
}

/// Setting up an instance and stopping it again leaves the supervisor as it was.
pub proof fn law_stop_undoes_provisioning<P>(
    m: ManagerView<P>,
    db_name: Option<Seq<char>>,
    id: Seq<char>,
    password: Seq<char>,
    process: P,
    created_at: Seq<char>,
)
    requires
        m.wf(),
        m.pools.shortage() is None,
        !m.instances.contains_key(id),
    ensures
        m.after_reserve().after_finish(
            m.job(db_name, id, password).at(Stage::Spawn),
            process,
            created_at,
        ).after_stop(id) == m,
{
    law_failed_provisioning_changes_nothing(m);
    let job = m.job(db_name, id, password).at(Stage::Spawn);
    let after = m.after_reserve().after_finish(job, process, created_at).after_stop(id);
    assert(after.instances =~= m.instances);
    assert(!m.processes.dom().contains(id));
    assert(after.processes =~= m.processes);
    assert(after.pools == m.after_reserve().after_release(m.pools.next_ports()).pools);
}

/// An instance that was set up is found under its identifier, with its process.
pub proof fn law_provisioned_instance_is_found<P>(
    m: ManagerView<P>,
    job: JobView,
    process: P,
    created_at: Seq<char>,
)
    ensures
        ({
            let after = m.after_finish(job, process, created_at);
            &&& after.instances.contains_key(job.id)
            &&& after.instances[job.id] == job.instance(created_at)
            &&& after.processes.contains_key(job.id)
            &&& after.processes[job.id] == process
        }),
{
}

/// The configuration file of an instance holds the ports, the password and the directory
/// that are reported for it.
pub proof fn law_report_agrees_with_configuration(job: JobView, created_at: Seq<char>)
    ensures
        ({
            let info = job.instance(created_at);
            &&& job.config_path() == info.data_dir + "/config.toml"@
            &&& job.config_content() == config_toml(
                info.ports.pg,
                info.ports.mysql,
                info.ports.api,
                info.ports.quic,
                info.data_dir + "/data"@,
                info.data_dir + "/wal"@,
                info.password,
            )
        }),
{
}

/// Where the base directory holds no quote, no backslash and no control character, the
/// configuration file of an instance with a random identifier and password can be read, and
/// says the ports, the password and the directories of that instance.
pub proof fn law_instance_configuration_reads_back<P>(
    m: ManagerView<P>,
    db_name: Option<Seq<char>>,
    id: Seq<char>,
    password: Seq<char>,
)
    requires
        is_plain(m.data_dir),
        is_uuid_v4(id),
        forall|i: int| 0 <= i < password.len() ==> is_letter_or_digit(#[trigger] password[i]),
    ensures
        ({
            let job = m.job(db_name, id, password);
            let read = read_toml(job.config_content());
            let file = read->0;
            &&& read is Some
            &&& file["server"@]["quic_port"@] == TomlValue::Number(job.ports.quic as nat)
            &&& file["server"@]["api_port"@] == TomlValue::Number(job.ports.api as nat)
            &&& file["server"@]["wire_port"@] == TomlValue::Number(job.ports.mysql as nat)
            &&& file["postgresql"@]["port"@] == TomlValue::Number(job.ports.pg as nat)
            &&& file["storage"@]["data_dir"@] == TomlValue::Text(job.dir + "/data"@)
            &&& file["storage"@]["wal_dir"@] == TomlValue::Text(job.dir + "/wal"@)
            &&& file["auth"@]["password"@] == TomlValue::Text(password)
        }),
{
    let job = m.job(db_name, id, password);
    reveal_strlit("/");
    reveal_strlit("/data");
    reveal_strlit("/wal");
    assert forall|i: int| 0 <= i < id.len() implies is_plain_char(#[trigger] id[i]) by {}
    assert forall|i: int| 0 <= i < password.len() implies is_plain_char(#[trigger] password[i]) by {
        assert(is_letter_or_digit(password[i]));
    }
    assert(is_plain("/"@));
    assert(is_plain("/data"@));
    assert(is_plain("/wal"@));
    assert(is_plain(job.dir));
    law_config_gives_arguments_back(
        job.ports.pg,
        job.ports.mysql,
        job.ports.api,
        job.ports.quic,
        job.dir + "/data"@,
        job.dir + "/wal"@,
        password,
    );
}

/// An instance that was stopped is found no more, and its ports are the next to be
/// handed out.
pub proof fn law_stopped_instance_is_gone<P>(m: ManagerView<P>, id: Seq<char>)
    requires
        m.wf(),
        m.instances.contains_key(id),
    ensures
        !m.after_stop(id).instances.contains_key(id),
        !m.after_stop(id).processes.contains_key(id),
        m.after_stop(id).pools.shortage() is None,
        m.after_stop(id).pools.next_ports() == m.instances[id].ports,
{
    let ports = m.instances[id].ports;
    law_released_port_comes_next(m.pools.pg, ports.pg);
    law_released_port_comes_next(m.pools.mysql, ports.mysql);
    law_released_port_comes_next(m.pools.api, ports.api);
    law_released_port_comes_next(m.pools.quic, ports.quic);
}

/// Setting up or stopping one instance leaves every other instance alone.
pub proof fn law_other_instances_are_left_alone<P>(
    m: ManagerView<P>,
    job: JobView,
    process: P,
    created_at: Seq<char>,
    id: Seq<char>,
    other: Seq<char>,
)
    requires
        other != job.id,
        other != id,
    ensures
        ({
            let set_up = m.after_finish(job, process, created_at);
            &&& set_up.instances.contains_key(other) == m.instances.contains_key(other)
            &&& set_up.instances[other] == m.instances[other]
            &&& set_up.processes.contains_key(other) == m.processes.contains_key(other)
            &&& set_up.processes[other] == m.processes[other]
        }),
        ({
            let stopped = m.after_stop(id);
            &&& stopped.instances.contains_key(other) == m.instances.contains_key(other)
            &&& m.instances.contains_key(other) ==> stopped.instances[other] == m.instances[other]
            &&& stopped.processes.contains_key(other) == m.processes.contains_key(other)
            &&& m.processes.contains_key(other) ==> stopped.processes[other] == m.processes[other]
        }),
{
}

/// The pools neither gain nor lose a port, whatever is asked of the supervisor.
pub proof fn law_pools_keep_their_ports<P>(
    m: ManagerView<P>,
    ports: Ports,
    job: JobView,
    process: P,
    created_at: Seq<char>,
    id: Seq<char>,
)
    ensures
        m.pools.shortage() is None ==> m.after_reserve().pools.same_ports(m.pools),
        m.after_release(ports).pools.same_ports(m.pools),
        m.after_finish(job, process, created_at).pools.same_ports(m.pools),
        m.after_stop(id).pools.same_ports(m.pools),
{
    let gone = m.instances[id].ports;
    law_ports_are_kept(m.pools.pg, ports.pg);
    law_ports_are_kept(m.pools.mysql, ports.mysql);
    law_ports_are_kept(m.pools.api, ports.api);
    law_ports_are_kept(m.pools.quic, ports.quic);
    law_ports_are_kept(m.pools.pg, gone.pg);
    law_ports_are_kept(m.pools.mysql, gone.mysql);
    law_ports_are_kept(m.pools.api, gone.api);
    law_ports_are_kept(m.pools.quic, gone.quic);
}

/// Every instance has ports from the configured ranges.
pub proof fn law_instance_ports_are_in_range<P>(
    m: ManagerView<P>,
    config: ConfigView,
    advertise_ip: Seq<char>,
    id: Seq<char>,
)
    requires
        m.wf(),
        m.pools.same_ports(ManagerView::<P>::initial(config, advertise_ip).pools),
        m.instances.contains_key(id),
    ensures
        config.pg_ports.0 <= m.instances[id].ports.pg <= config.pg_ports.1,
        config.mysql_ports.0 <= m.instances[id].ports.mysql <= config.mysql_ports.1,
        config.api_ports.0 <= m.instances[id].ports.api <= config.api_ports.1,
        config.quic_ports.0 <= m.instances[id].ports.quic <= config.quic_ports.1,
{
    let ports = m.instances[id].ports;
    assert(m.pools.pg.ports().contains(ports.pg));
    assert(m.pools.mysql.ports().contains(ports.mysql));
    assert(m.pools.api.ports().contains(ports.api));
    assert(m.pools.quic.ports().contains(ports.quic));
    law_span_ports(config.pg_ports.0, config.pg_ports.1, ports.pg);
    law_span_ports(config.mysql_ports.0, config.mysql_ports.1, ports.mysql);
    law_span_ports(config.api_ports.0, config.api_ports.1, ports.api);
    law_span_ports(config.quic_ports.0, config.quic_ports.1, ports.quic);
}

/// Whether two ranges have no port in common.
pub open spec fn ranges_apart(a: (u16, u16), b: (u16, u16)) -> bool {
    a.1 < b.0 || b.1 < a.0
}

/// Where the configured ranges have no port in common, no two ports of any instances are
/// the same, of whatever kind.
pub proof fn law_separate_ranges_keep_all_ports_apart<P>(
    m: ManagerView<P>,
    config: ConfigView,
    advertise_ip: Seq<char>,
    a: Seq<char>,
    b: Seq<char>,
)
    requires
        m.wf(),
        m.pools.same_ports(ManagerView::<P>::initial(config, advertise_ip).pools),
        m.instances.contains_key(a),
        m.instances.contains_key(b),
        ranges_apart(config.pg_ports, config.mysql_ports),
        ranges_apart(config.pg_ports, config.api_ports),
        ranges_apart(config.pg_ports, config.quic_ports),
        ranges_apart(config.mysql_ports, config.api_ports),
        ranges_apart(config.mysql_ports, config.quic_ports),
        ranges_apart(config.api_ports, config.quic_ports),
    ensures
        a != b ==> apart(m.instances[a].ports, m.instances[b].ports),
        m.instances[a].ports.pg != m.instances[b].ports.mysql,
        m.instances[a].ports.pg != m.instances[b].ports.api,
        m.instances[a].ports.pg != m.instances[b].ports.quic,
        m.instances[a].ports.mysql != m.instances[b].ports.api,
        m.instances[a].ports.mysql != m.instances[b].ports.quic,
        m.instances[a].ports.api != m.instances[b].ports.quic,
{
    law_instance_ports_are_in_range(m, config, advertise_ip, a);
    law_instance_ports_are_in_range(m, config, advertise_ip, b);
}

/// A request is refused for want of ports exactly when some pool has all of its ports in
/// use.
pub proof fn law_refused_only_when_full(pools: PoolsView)
    requires
        pools.wf(),
    ensures
        pools.shortage() is Some <==> {
            ||| pools.pg.used == pools.pg.ports()
            ||| pools.mysql.used == pools.mysql.ports()
            ||| pools.api.used == pools.api.ports()
            ||| pools.quic.used == pools.quic.ports()
        },
{
    law_ports_add_up(pools.pg);
    law_ports_add_up(pools.mysql);
    law_ports_add_up(pools.api);
    law_ports_add_up(pools.quic);
}

proof fn lemma_entering_keeps_balance(
    pool: PoolView,
    instances: Map<Seq<char>, InstanceView>,
    port_of: spec_fn(Ports) -> u16,
    id: Seq<char>,
    info: InstanceView,
)
    requires
        accounted_for(pool, instances, port_of),
        !instances.contains_key(id),
        port_of(info.ports) == pool.next_port(),
    ensures
        accounted_for(pool.after_acquire(), instances.insert(id, info), port_of),
{
    let after = instances.insert(id, info);
    assert(after.contains_key(id));
    assert forall|port: u16| #[trigger] pool.after_acquire().used.contains(port) implies exists|
        i: Seq<char>,
    | #[trigger] after.contains_key(i) && port_of(after[i].ports) == port by {
        if pool.used.contains(port) {
            let i = choose|i: Seq<char>| #[trigger]
                instances.contains_key(i) && port_of(instances[i].ports) == port;
            assert(after.contains_key(i));
        }
    }
}

proof fn lemma_removing_keeps_balance(
    pool: PoolView,
    instances: Map<Seq<char>, InstanceView>,
    port_of: spec_fn(Ports) -> u16,
    id: Seq<char>,
)
    requires
        accounted_for(pool, instances, port_of),
        instances.contains_key(id),
        pool.used.contains(port_of(instances[id].ports)),
    ensures
        accounted_for(
            pool.after_release(port_of(instances[id].ports)),
            instances.remove(id),
            port_of,
        ),
{
    let smaller = pool.after_release(port_of(instances[id].ports));
    let after = instances.remove(id);
    assert forall|port: u16| #[trigger] smaller.used.contains(port) implies exists|i: Seq<char>|
        #[trigger] after.contains_key(i) && port_of(after[i].ports) == port by {
        assert(pool.used.contains(port));
        let i = choose|i: Seq<char>| #[trigger]
            instances.contains_key(i) && port_of(instances[i].ports) == port;
        assert(after.contains_key(i));
    }
}

/// No port is lost when an instance with a new identifier is set up.
pub proof fn law_provisioning_keeps_balance<P>(
    m: ManagerView<P>,
    db_name: Option<Seq<char>>,
    id: Seq<char>,
    password: Seq<char>,
    process: P,
    created_at: Seq<char>,
)
    requires
        m.wf(),
        m.balanced(),
        m.pools.shortage() is None,
        !m.instances.contains_key(id),
    ensures
        m.after_reserve().after_finish(
            m.job(db_name, id, password).at(Stage::Spawn),
            process,
            created_at,
        ).balanced(),
{
    let info = m.job(db_name, id, password).at(Stage::Spawn).instance(created_at);
    let i = m.instances;
    lemma_entering_keeps_balance(m.pools.pg, i, |ports: Ports| ports.pg, id, info);
    lemma_entering_keeps_balance(m.pools.mysql, i, |ports: Ports| ports.mysql, id, info);
    lemma_entering_keeps_balance(m.pools.api, i, |ports: Ports| ports.api, id, info);
    lemma_entering_keeps_balance(m.pools.quic, i, |ports: Ports| ports.quic, id, info);
}

/// No port is lost when an instance is stopped.
pub proof fn law_stopping_keeps_balance<P>(m: ManagerView<P>, id: Seq<char>)
    requires
        m.wf(),
        m.balanced(),
        m.instances.contains_key(id),
    ensures
        m.after_stop(id).balanced(),
{
    lemma_removing_keeps_balance(m.pools.pg, m.instances, |ports: Ports| ports.pg, id);
    lemma_removing_keeps_balance(m.pools.mysql, m.instances, |ports: Ports| ports.mysql, id);
    lemma_removing_keeps_balance(m.pools.api, m.instances, |ports: Ports| ports.api, id);
    lemma_removing_keeps_balance(m.pools.quic, m.instances, |ports: Ports| ports.quic, id);
}

/// The instances and the free ports of a pool add up to the pool, so that a pool of `n`
/// ports serves `n` instances at a time.
proof fn lemma_pool_serves<P>(
    m: ManagerView<P>,
    pool: PoolView,
    port_of: spec_fn(Ports) -> u16,
)
    requires
        pool.wf(),
        m.instances.dom().finite(),
        accounted_for(pool, m.instances, port_of),
        forall|id: Seq<char>| #[trigger]
            m.instances.contains_key(id) ==> pool.used.contains(port_of(m.instances[id].ports)),
        forall|a: Seq<char>, b: Seq<char>|
            #[trigger] m.instances.contains_key(a) && #[trigger] m.instances.contains_key(b) && a
                != b ==> port_of(m.instances[a].ports) != port_of(m.instances[b].ports),
    ensures
        m.instances.dom().len() + pool.available.len() == pool.ports().len(),
{
    let ids = m.instances.dom();
    let port_at = |id: Seq<char>| port_of(m.instances[id].ports);
    assert forall|port: u16| ids.map(port_at).contains(port) == pool.used.contains(port) by {
        if pool.used.contains(port) {
            let id = choose|id: Seq<char>| #[trigger]
                m.instances.contains_key(id) && port_of(m.instances[id].ports) == port;
            assert(ids.contains(id) && port_at(id) == port);
        }
        if ids.map(port_at).contains(port) {
            let id = choose|id: Seq<char>| ids.contains(id) && port_at(id) == port;
            assert(m.instances.contains_key(id));
        }
    }
    assert(ids.map(port_at) =~= pool.used);
    assert(vstd::relations::injective_on(port_at, ids)) by {
        assert forall|a: Seq<char>, b: Seq<char>|
            ids.contains(a) && ids.contains(b) && #[trigger] port_at(a) == #[trigger] port_at(
                b,
            ) implies a == b by {
            assert(m.instances.contains_key(a) && m.instances.contains_key(b));
        }
    }
    vstd::set_lib::lemma_map_size(ids, pool.used, port_at);
    law_ports_add_up(pool);
}

/// While no port is lost, the instances and the free ports of each pool add up to the
/// ports of that pool: a pool of `n` ports serves `n` instances at a time.
pub proof fn law_capacity<P>(m: ManagerView<P>)
    requires
        m.wf(),
        m.balanced(),
    ensures
        m.instances.dom().len() + m.pools.pg.available.len() == m.pools.pg.ports().len(),
        m.instances.dom().len() + m.pools.mysql.available.len() == m.pools.mysql.ports().len(),
        m.instances.dom().len() + m.pools.api.available.len() == m.pools.api.ports().len(),
        m.instances.dom().len() + m.pools.quic.available.len() == m.pools.quic.ports().len(),
{
    lemma_pool_serves(m, m.pools.pg, |ports: Ports| ports.pg);
    lemma_pool_serves(m, m.pools.mysql, |ports: Ports| ports.mysql);
    lemma_pool_serves(m, m.pools.api, |ports: Ports| ports.api);
    lemma_pool_serves(m, m.pools.quic, |ports: Ports| ports.quic);
}

} // verus!
