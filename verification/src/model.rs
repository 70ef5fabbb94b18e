//! What the supervisor holds, and how each request changes it.

use crate::api::{ApiErrorView, INTERNAL_SERVER_ERROR, SERVICE_UNAVAILABLE};
use crate::args::ConfigView;
use crate::config_toml::config_toml;
use crate::instance::{InstanceView, Ports};
use crate::port_pool::PoolView;
use vstd::prelude::*;

verus! {

/// The four pools of ports.
#[verifier::ext_equal]
pub struct PoolsView {
    pub pg: PoolView,
    pub mysql: PoolView,
    pub api: PoolView,
    pub quic: PoolView,
}

impl PoolsView {
    /// Each pool is well-formed.
    pub open spec fn wf(self) -> bool {
        &&& self.pg.wf()
        &&& self.mysql.wf()
        &&& self.api.wf()
        &&& self.quic.wf()
    }

    /// The refusal of a request for ports where a pool has none left. The pools are
    /// asked in a fixed order, and the first without a port is named.
    pub open spec fn shortage(self) -> Option<ApiErrorView> {
        if self.pg.exhausted() {
            Some(unavailable("No PostgreSQL ports available"@))
        } else if self.mysql.exhausted() {
            Some(unavailable("No MySQL ports available"@))
        } else if self.api.exhausted() {
            Some(unavailable("No API ports available"@))
        } else if self.quic.exhausted() {
            Some(unavailable("No QUIC ports available"@))
        } else {
            None
        }
    }

    /// The ports that are handed out next.
    pub open spec fn next_ports(self) -> Ports {
        Ports {
            pg: self.pg.next_port(),
            mysql: self.mysql.next_port(),
            api: self.api.next_port(),
            quic: self.quic.next_port(),
        }
    }

    /// The pools once the next ports have been handed out.
    pub open spec fn after_acquire(self) -> PoolsView {
        PoolsView {
            pg: self.pg.after_acquire(),
            mysql: self.mysql.after_acquire(),
            api: self.api.after_acquire(),
            quic: self.quic.after_acquire(),
        }
    }

    /// The pools once `ports` have been given back.
    pub open spec fn after_release(self, ports: Ports) -> PoolsView {
        PoolsView {
            pg: self.pg.after_release(ports.pg),
            mysql: self.mysql.after_release(ports.mysql),
            api: self.api.after_release(ports.api),
            quic: self.quic.after_release(ports.quic),
        }
    }

    /// Whether each of `ports` is in use in its pool.
    pub open spec fn in_use(self, ports: Ports) -> bool {
        &&& self.pg.used.contains(ports.pg)
        &&& self.mysql.used.contains(ports.mysql)
        &&& self.api.used.contains(ports.api)
        &&& self.quic.used.contains(ports.quic)
    }

    /// Whether both look after the same ports.
    pub open spec fn same_ports(self, other: PoolsView) -> bool {
        &&& self.pg.ports() == other.pg.ports()
        &&& self.mysql.ports() == other.mysql.ports()
        &&& self.api.ports() == other.api.ports()
        &&& self.quic.ports() == other.quic.ports()
    }
}

/// Whether two instances have no port of the same kind in common.
pub open spec fn apart(a: Ports, b: Ports) -> bool {
    &&& a.pg != b.pg
    &&& a.mysql != b.mysql
    &&& a.api != b.api
    &&& a.quic != b.quic
}

/// The refusal of a request for something that is used up.
pub open spec fn unavailable(error: Seq<char>) -> ApiErrorView {
    ApiErrorView { code: SERVICE_UNAVAILABLE, error }
}

/// The directory of the instance `id`, below `data_dir`.
pub open spec fn instance_dir(data_dir: Seq<char>, id: Seq<char>) -> Seq<char> {
    data_dir + "/"@ + id
}

/// The name of a database that is asked for as `db_name`: one that is not named is
/// named after the first eight characters of its instance's identifier.
pub open spec fn name_or_default(db_name: Option<Seq<char>>, id: Seq<char>) -> Seq<char> {
    match db_name {
        Some(name) => name,
        None => "db_"@ + id.take(8),
    }
}

/// Whether an instance with the identifier `id` can give its database a name: its first
/// eight characters are ASCII.
pub open spec fn can_name_db(id: Seq<char>) -> bool {
    &&& id.len() >= 8
    &&& forall|i: int| 0 <= i < 8 ==> ((#[trigger] id[i]) as int) < 128
}

/// How far the setting up of an instance has come: what is to be done next.
#[derive(Debug, Clone, Copy, PartialEq, Eq, Structural)]
pub enum Stage {
    /// The instance's directory is to be made.
    MakeDir,
    /// The configuration file is to be written.
    WriteConfig,
    /// The database is to be started.
    Spawn,
}

/// An instance that is being set up.
#[verifier::ext_equal]
pub struct JobView {
    pub stage: Stage,
    pub id: Seq<char>,
    pub db_name: Seq<char>,
    pub ports: Ports,
    pub password: Seq<char>,
    pub dir: Seq<char>,
}

/// Something that is to be done outside of the supervisor.
pub enum ActionView {
    CreateDir { path: Seq<char> },
    WriteFile { path: Seq<char>, contents: Seq<char> },
    Spawn { program: Seq<char>, arg: Seq<char> },
}

/// What came of an action.
pub enum EventView<P> {
    DirCreated,
    ConfigWritten,
    Spawned(P),
    Failed(Seq<char>),
}

impl<P> EventView<P> {
    /// Whether the event can come of the action at `stage`.
    pub open spec fn answers(self, stage: Stage) -> bool {
        match self {
            EventView::DirCreated => stage == Stage::MakeDir,
            EventView::ConfigWritten => stage == Stage::WriteConfig,
            EventView::Spawned(_) => stage == Stage::Spawn,
            EventView::Failed(_) => true,
        }
    }
}

/// How the setting up of an instance goes on.
pub enum StepView {
    Continue(JobView),
    Provisioned(InstanceView),
    Refused(ApiErrorView),
}

impl StepView {
    /// The time from which the instance runs, where it does.
    pub open spec fn created_at(self) -> Seq<char> {
        match self {
            StepView::Provisioned(info) => info.created_at,
            _ => Seq::empty(),
        }
    }
}

impl JobView {
    /// The path of the configuration file.
    pub open spec fn config_path(self) -> Seq<char> {
        self.dir + "/config.toml"@
    }

    /// The text of the configuration file.
    pub open spec fn config_content(self) -> Seq<char> {
        config_toml(
            self.ports.pg,
            self.ports.mysql,
            self.ports.api,
            self.ports.quic,
            self.dir + "/data"@,
            self.dir + "/wal"@,
            self.password,
        )
    }

    /// What is to be done next, where `bin` is the database to start.
    pub open spec fn action(self, bin: Seq<char>) -> ActionView {
        match self.stage {
            Stage::MakeDir => ActionView::CreateDir { path: self.dir },
            Stage::WriteConfig => ActionView::WriteFile {
                path: self.config_path(),
                contents: self.config_content(),
            },
            Stage::Spawn => ActionView::Spawn { program: bin, arg: self.config_path() },
        }
    }

    /// The job at another stage.
    pub open spec fn at(self, stage: Stage) -> JobView {
        JobView { stage, ..self }
    }

    /// The refusal where the next thing to do failed for `reason`.
    pub open spec fn failure(self, bin: Seq<char>, reason: Seq<char>) -> ApiErrorView {
        ApiErrorView {
            code: INTERNAL_SERVER_ERROR,
            error: match self.stage {
                Stage::MakeDir => "mkdir failed: "@ + reason,
                Stage::WriteConfig => "write config failed: "@ + reason,
                Stage::Spawn => "Failed to spawn '"@ + bin + "': "@ + reason,
            },
        }
    }

    /// The instance that the job sets up.
    pub open spec fn instance(self, created_at: Seq<char>) -> InstanceView {
        InstanceView {
            id: self.id,
            db_name: self.db_name,
            ports: self.ports,
            password: self.password,
            data_dir: self.dir,
            created_at,
            status: "running"@,
        }
    }
}

/// Whether every port that is in use in `pool` is the port of an instance, where `port_of`
/// picks the port of that pool.
pub open spec fn accounted_for(
    pool: PoolView,
    instances: Map<Seq<char>, InstanceView>,
    port_of: spec_fn(Ports) -> u16,
) -> bool {
    forall|port: u16| #[trigger]
        pool.used.contains(port) ==> exists|id: Seq<char>| #[trigger]
            instances.contains_key(id) && port_of(instances[id].ports) == port
}

/// The supervisor of a server. `P` is a handle on a running process.
#[verifier::ext_equal]
#[verifier::reject_recursive_types(P)]
pub struct ManagerView<P> {
    pub server_id: Seq<char>,
    pub region: Seq<char>,
    pub advertise_ip: Seq<char>,
    pub manager_port: u16,
    pub instances: Map<Seq<char>, InstanceView>,
    pub processes: Map<Seq<char>, P>,
    pub pools: PoolsView,
    pub data_dir: Seq<char>,
    pub mtpdb_bin: Seq<char>,
}

impl<P> ManagerView<P> {
    /// The supervisor of a server that has no instances yet.
    pub open spec fn initial(config: ConfigView, advertise_ip: Seq<char>) -> ManagerView<P> {
        ManagerView {
            server_id: config.server_id,
            region: config.region,
            advertise_ip,
            manager_port: config.port,
            instances: Map::empty(),
            processes: Map::empty(),
            pools: PoolsView {
                pg: PoolView::spanning(config.pg_ports.0, config.pg_ports.1),
                mysql: PoolView::spanning(config.mysql_ports.0, config.mysql_ports.1),
                api: PoolView::spanning(config.api_ports.0, config.api_ports.1),
                quic: PoolView::spanning(config.quic_ports.0, config.quic_ports.1),
            },
            data_dir: config.data_dir,
            mtpdb_bin: config.mtpdb_bin,
        }
    }

    /// Every instance is kept under its own identifier, in its own directory, and is
    /// running. Its ports are in use, and no other instance has any of them. The
    /// processes are those of the instances.
    pub open spec fn wf(self) -> bool {
        &&& self.pools.wf()
        &&& self.instances.dom().finite()
        &&& self.processes.dom() == self.instances.dom()
        &&& forall|id: Seq<char>| #[trigger]
            self.instances.contains_key(id) ==> {
                &&& self.instances[id].id == id
                &&& self.instances[id].data_dir == instance_dir(self.data_dir, id)
                &&& self.instances[id].status == "running"@
                &&& self.pools.in_use(self.instances[id].ports)
            }
        &&& forall|a: Seq<char>, b: Seq<char>|
            #[trigger] self.instances.contains_key(a) && #[trigger] self.instances.contains_key(b)
                && a != b ==> apart(self.instances[a].ports, self.instances[b].ports)
    }

    /// Whether `ports` are in use, but not by an instance.
    pub open spec fn reserved(self, ports: Ports) -> bool {
        &&& self.pools.in_use(ports)
        &&& forall|id: Seq<char>| #[trigger]
            self.instances.contains_key(id) ==> apart(self.instances[id].ports, ports)
    }

    /// Whether `job` sets up an instance of this supervisor.
    pub open spec fn runs(self, job: JobView) -> bool {
        &&& self.reserved(job.ports)
        &&& job.dir == instance_dir(self.data_dir, job.id)
    }

    /// Whether every port in use is the port of an instance.
    pub open spec fn balanced(self) -> bool {
        &&& accounted_for(self.pools.pg, self.instances, |ports: Ports| ports.pg)
        &&& accounted_for(self.pools.mysql, self.instances, |ports: Ports| ports.mysql)
        &&& accounted_for(self.pools.api, self.instances, |ports: Ports| ports.api)
        &&& accounted_for(self.pools.quic, self.instances, |ports: Ports| ports.quic)
    }

    /// The job that sets up the instance `id`, with the next ports.
    pub open spec fn job(
        self,
        db_name: Option<Seq<char>>,
        id: Seq<char>,
        password: Seq<char>,
    ) -> JobView {
        JobView {
            stage: Stage::MakeDir,
            id,
            db_name: name_or_default(db_name, id),
            ports: self.pools.next_ports(),
            password,
            dir: instance_dir(self.data_dir, id),
        }
    }

    /// The supervisor once the next ports have been handed out.
    pub open spec fn after_reserve(self) -> ManagerView<P> {
        ManagerView { pools: self.pools.after_acquire(), ..self }
    }

    /// The supervisor once `ports` have been given back.
    pub open spec fn after_release(self, ports: Ports) -> ManagerView<P> {
        ManagerView { pools: self.pools.after_release(ports), ..self }
    }

    /// The supervisor once the instance of `job` runs as `process`.
    pub open spec fn after_finish(
        self,
        job: JobView,
        process: P,
        created_at: Seq<char>,
    ) -> ManagerView<P> {
        ManagerView {
            instances: self.instances.insert(job.id, job.instance(created_at)),
            processes: self.processes.insert(job.id, process),
            ..self
        }
    }

    /// The supervisor once `event` has come of the pending action of `job`, and how the job
    /// goes on. Time matters only where the database was started: it is then `now`.
    pub open spec fn step(self, job: JobView, event: EventView<P>, now: Seq<char>) -> (
        ManagerView<P>,
        StepView,
    ) {
        match event {
            EventView::DirCreated => (self, StepView::Continue(job.at(Stage::WriteConfig))),
            EventView::ConfigWritten => (self, StepView::Continue(job.at(Stage::Spawn))),
            EventView::Spawned(process) => (
                self.after_finish(job, process, now),
                StepView::Provisioned(job.instance(now)),
            ),
            EventView::Failed(reason) => (
                self.after_release(job.ports),
                StepView::Refused(job.failure(self.mtpdb_bin, reason)),
            ),
        }
    }

    /// The supervisor once `events` have come, one after the other, of the actions of
    /// `job`, and how the job goes on. Events that come after its end change nothing.
    pub open spec fn run(self, job: JobView, events: Seq<EventView<P>>, now: Seq<char>) -> (
        ManagerView<P>,
        StepView,
    )
        decreases events.len(),
    {
        if events.len() == 0 {
            (self, StepView::Continue(job))
        } else {
            let (after, step) = self.step(job, events[0], now);
            match step {
                StepView::Continue(next) => after.run(next, events.skip(1), now),
                _ => (after, step),
            }
        }
    }

    /// The supervisor once the instance `id` has been stopped.
    pub open spec fn after_stop(self, id: Seq<char>) -> ManagerView<P> {
        ManagerView {
            instances: self.instances.remove(id),
            processes: self.processes.remove(id),
            pools: self.pools.after_release(self.instances[id].ports),
            ..self
        }
    }
}

} // verus!
