//! The supervisor itself.

use crate::api::{
    api_err, instance_not_found, lists_all, no_such_instance, ApiError, InstanceList,
    ServerInfo, StopReply, INTERNAL_SERVER_ERROR, SERVICE_UNAVAILABLE,
};
use crate::args::Config;
use crate::config_toml::{build_config_toml, config_toml};
use crate::id_map::IdMap;
use crate::instance::{InstanceInfo, InstanceView, Ports};
use crate::model::{
    can_name_db, instance_dir, name_or_default, ActionView, EventView, JobView, ManagerView,
    PoolsView, Stage, StepView,
};
use crate::password::{generate_password, is_letter_or_digit};
use crate::port_pool::PortPool;
use crate::source::{is_utc_time, is_uuid_v4, new_uuid, utc_now};
use vstd::prelude::*;
use vstd::string::*;

verus! {

/// How long the password of an instance is.
pub const PASSWORD_LEN: usize = 24;

/// The supervisor of the instances of one server. `P` is a handle on a running
/// process.
#[verifier::reject_recursive_types(P)]
pub struct ManagerState<P> {
    server_id: String,
    region: String,
    /// The address of the server as it is seen from outside.
    advertise_ip: String,
    manager_port: u16,
    instances: IdMap<InstanceInfo>,
    processes: IdMap<P>,
    pg_pool: PortPool,
    mysql_pool: PortPool,
    api_pool: PortPool,
    quic_pool: PortPool,
    /// Base directory; an instance lives in a directory named after it below this one.
    data_dir: String,
    /// Path or name of the database binary.
    mtpdb_bin: String,
}

/// What is said of each instance in a map of instances.
pub open spec fn infos(instances: Map<Seq<char>, InstanceInfo>) -> Map<Seq<char>, InstanceView> {
    instances.map_values(|info: InstanceInfo| info@)
}

impl<P> View for ManagerState<P> {
    type V = ManagerView<P>;

    closed spec fn view(&self) -> ManagerView<P> {
        ManagerView {
            server_id: self.server_id@,
            region: self.region@,
            advertise_ip: self.advertise_ip@,
            manager_port: self.manager_port,
            instances: infos(self.instances@),
            processes: self.processes@,
            pools: PoolsView {
                pg: self.pg_pool@,
                mysql: self.mysql_pool@,
                api: self.api_pool@,
                quic: self.quic_pool@,
            },
            data_dir: self.data_dir@,
            mtpdb_bin: self.mtpdb_bin@,
        }
    }
}

/// A request for a new instance.
#[derive(Debug)]
pub struct ProvisionRequest {
    pub db_name: Option<String>,
}

impl View for ProvisionRequest {
    type V = Option<Seq<char>>;

    open spec fn view(&self) -> Option<Seq<char>> {
        match self.db_name {
            Some(name) => Some(name@),
            None => None,
        }
    }
}

/// An instance that is being set up.
#[derive(Debug)]
pub struct ProvisionJob {
    stage: Stage,
    id: String,
    db_name: String,
    ports: Ports,
    password: String,
    dir: String,
}

impl View for ProvisionJob {
    type V = JobView;

    closed spec fn view(&self) -> JobView {
        JobView {
            stage: self.stage,
            id: self.id@,
            db_name: self.db_name@,
            ports: self.ports,
            password: self.password@,
            dir: self.dir@,
        }
    }
}

/// Something that is to be done outside of the supervisor.
#[derive(Debug)]
pub enum ProvisionAction {
    /// Make the directory `path`, and those above it.
    CreateDir { path: String },
    /// Write `contents` to the file `path`.
    WriteFile { path: String, contents: String },
    /// Start `program` with the one argument `arg`.
    Spawn { program: String, arg: String },
}

impl View for ProvisionAction {
    type V = ActionView;

    open spec fn view(&self) -> ActionView {
        match self {
            ProvisionAction::CreateDir { path } => ActionView::CreateDir { path: path@ },
            ProvisionAction::WriteFile { path, contents } => ActionView::WriteFile {
                path: path@,
                contents: contents@,
            },
            ProvisionAction::Spawn { program, arg } => ActionView::Spawn {
                program: program@,
                arg: arg@,
            },
        }
    }
}

/// What came of an action.
#[derive(Debug)]
pub enum ProvisionEvent<P> {
    /// The directory was made.
    DirCreated,
    /// The file was written.
    ConfigWritten,
    /// The program was started.
    Spawned(P),
    /// The action failed, for the reason given.
    Failed(String),
}

impl<P> View for ProvisionEvent<P> {
    type V = EventView<P>;

    open spec fn view(&self) -> EventView<P> {
        match *self {
            ProvisionEvent::DirCreated => EventView::DirCreated,
            ProvisionEvent::ConfigWritten => EventView::ConfigWritten,
            ProvisionEvent::Spawned(process) => EventView::Spawned(process),
            ProvisionEvent::Failed(reason) => EventView::Failed(reason@),
        }
    }
}

/// How the setting up of an instance goes on.
#[derive(Debug)]
pub enum ProvisionStep {
    /// There is more to do.
    Continue(ProvisionJob),
    /// The instance runs.
    Provisioned(InstanceInfo),
    /// The request is refused.
    Refused(ApiError),
}

impl View for ProvisionStep {
    type V = StepView;

    open spec fn view(&self) -> StepView {
        match self {
            ProvisionStep::Continue(job) => StepView::Continue(job@),
            ProvisionStep::Provisioned(info) => StepView::Provisioned(info@),
            ProvisionStep::Refused(e) => StepView::Refused(e@),
        }
    }
}

/// An instance that was stopped: its process, which is to be ended, and the answer to
/// the request.
#[derive(Debug)]
pub struct Stopped<P> {
    pub process: Option<P>,
    pub reply: StopReply,
}

impl<P> ManagerState<P> {
    /// The maps are well-formed.
    pub closed spec fn maps_wf(&self) -> bool {
        self.instances.wf() && self.processes.wf()
    }

    /// The invariant of the supervisor.
    pub open spec fn wf(&self) -> bool {
        self.maps_wf() && self@.wf()
    }

    /// The supervisor of a server that has no instances yet.
    pub fn new(config: &Config, advertise_ip: &str) -> (res: Self)
        ensures
            res@ == ManagerView::<P>::initial(config@, advertise_ip@),
            res@.server_id == config.server_id@,
            res@.region == config.region@,
            res@.advertise_ip == advertise_ip@,
            res@.manager_port == config.port,
            res@.data_dir == config.data_dir@,
            res@.mtpdb_bin == config.mtpdb_bin@,
            res.wf(),
    {
        let res = ManagerState {
            server_id: config.server_id.clone(),
            region: config.region.clone(),
            advertise_ip: advertise_ip.to_owned(),
            manager_port: config.port,
            instances: IdMap::new(),
            processes: IdMap::new(),
            pg_pool: PortPool::from_range(config.pg_ports.0, config.pg_ports.1),
            mysql_pool: PortPool::from_range(config.mysql_ports.0, config.mysql_ports.1),
            api_pool: PortPool::from_range(config.api_ports.0, config.api_ports.1),
            quic_pool: PortPool::from_range(config.quic_ports.0, config.quic_ports.1),
            data_dir: config.data_dir.clone(),
            mtpdb_bin: config.mtpdb_bin.clone(),
        };
        assert(res@ =~= ManagerView::<P>::initial(config@, advertise_ip@));
        res
    }

    /// Takes the ports of an instance back.
    pub fn release_ports(&mut self, pg: u16, mysql: u16, api: u16, quic: u16)
        ensures
            final(self)@ == old(self)@.after_release(Ports { pg, mysql, api, quic }),
            final(self).maps_wf() == old(self).maps_wf(),
            old(self).wf() && old(self)@.reserved(Ports { pg, mysql, api, quic })
                ==> final(self).wf(),
    {
        self.pg_pool.release(pg);
        self.mysql_pool.release(mysql);
        self.api_pool.release(api);
        self.quic_pool.release(quic);
    }

    /// Hands out one port of each pool, or none at all where a pool has none left.
    fn reserve_ports(&mut self) -> (res: Result<Ports, ApiError>)
        requires
            old(self).wf(),
        ensures
            match res {
                Ok(ports) => {
                    &&& old(self)@.pools.shortage() is None
                    &&& ports == old(self)@.pools.next_ports()
                    &&& final(self)@ == old(self)@.after_reserve()
                    &&& final(self)@.reserved(ports)
                },
                Err(e) => {
                    &&& old(self)@.pools.shortage() == Some(e@)
                    &&& final(self)@ == old(self)@
                },
            },
            final(self).wf(),
    {
        let pg = match self.pg_pool.acquire() {
            Some(port) => port,
            None => {
                return Err(
                    api_err(SERVICE_UNAVAILABLE, "No PostgreSQL ports available".to_owned()),
                );
            },
        };
        let mysql = match self.mysql_pool.acquire() {
            Some(port) => port,
            None => {
                self.pg_pool.release(pg);
                assert(self@ =~= old(self)@);
                return Err(api_err(SERVICE_UNAVAILABLE, "No MySQL ports available".to_owned()));
            },
        };
        let api = match self.api_pool.acquire() {
            Some(port) => port,
            None => {
                self.pg_pool.release(pg);
                self.mysql_pool.release(mysql);
                assert(self@ =~= old(self)@);
                return Err(api_err(SERVICE_UNAVAILABLE, "No API ports available".to_owned()));
            },
        };
        let quic = match self.quic_pool.acquire() {
            Some(port) => port,
            None => {
                self.pg_pool.release(pg);
                self.mysql_pool.release(mysql);
                self.api_pool.release(api);
                assert(self@ =~= old(self)@);
                return Err(api_err(SERVICE_UNAVAILABLE, "No QUIC ports available".to_owned()));
            },
        };
        assert(self@ =~= old(self)@.after_reserve());
        Ok(Ports { pg, mysql, api, quic })
    }

    /// The job that sets up the instance `id` with `ports`.
    fn new_job(&self, req: ProvisionRequest, ports: Ports, id: String, password: String) -> (res:
        ProvisionJob)
        requires
            req@ is None ==> can_name_db(id@),
        ensures
            res@ == (JobView {
                stage: Stage::MakeDir,
                id: id@,
                db_name: name_or_default(req@, id@),
                ports,
                password: password@,
                dir: instance_dir(self@.data_dir, id@),
            }),
    {
        let db_name = match req.db_name {
            Some(name) => name,
            None => {
                assert(id@.subrange(0, 8) =~= id@.take(8));
                "db_".to_owned().concat(id.as_str().substring_char(0, 8))
            },
        };
        let dir = self.data_dir.clone().concat("/").concat(id.as_str());
        ProvisionJob { stage: Stage::MakeDir, id, db_name, ports, password, dir }
    }

    /// Starts to set up the instance `id`: hands out its ports and lays down its name,
    /// password and directory. Where a pool has no port left, the request is refused
    /// and nothing changes.
    pub fn begin_provision_as(
        &mut self,
        req: ProvisionRequest,
        id: String,
        password: String,
    ) -> (res: Result<ProvisionJob, ApiError>)
        requires
            old(self).wf(),
            req@ is None ==> can_name_db(id@),
        ensures
            match res {
                Ok(job) => {
                    &&& old(self)@.pools.shortage() is None
                    &&& job@ == old(self)@.job(req@, id@, password@)
                    &&& req.db_name matches Some(name) ==> job@.db_name == name@
                    &&& req.db_name is None ==> job@.db_name == "db_"@ + id@.take(8)
                    &&& job@.dir == old(self)@.data_dir + "/"@ + id@
                    &&& final(self)@ == old(self)@.after_reserve()
                    &&& final(self)@.runs(job@)
                },
                Err(e) => {
                    &&& old(self)@.pools.shortage() == Some(e@)
                    &&& final(self)@ == old(self)@
                },
            },
            final(self).wf(),
    {
        let ports = match self.reserve_ports() {
            Ok(ports) => ports,
            Err(e) => {
                return Err(e);
            },
        };
        Ok(self.new_job(req, ports, id, password))
    }

    /// Starts to set up an instance with a random identifier and a random password.
    pub fn begin_provision(&mut self, req: ProvisionRequest) -> (res: Result<
        ProvisionJob,
        ApiError,
    >)
        requires
            old(self).wf(),
        ensures
            match res {
                Ok(job) => {
                    &&& old(self)@.pools.shortage() is None
                    &&& job@ == old(self)@.job(req@, job@.id, job@.password)
                    &&& req.db_name matches Some(name) ==> job@.db_name == name@
                    &&& req.db_name is None ==> job@.db_name == "db_"@ + job@.id.take(8)
                    &&& job@.dir == old(self)@.data_dir + "/"@ + job@.id
                    &&& is_uuid_v4(job@.id)
                    &&& job@.password.len() == PASSWORD_LEN == 24
                    &&& forall|i: int|
                        0 <= i < PASSWORD_LEN ==> is_letter_or_digit(#[trigger] job@.password[i])
                    &&& final(self)@ == old(self)@.after_reserve()
                    &&& final(self)@.runs(job@)
                },
                Err(e) => {
                    &&& old(self)@.pools.shortage() == Some(e@)
                    &&& final(self)@ == old(self)@
                },
            },
            final(self).wf(),
    {
        let ports = match self.reserve_ports() {
            Ok(ports) => ports,
            Err(e) => {
                return Err(e);
            },
        };
        let id = new_uuid();
        let password = generate_password(PASSWORD_LEN);
        Ok(self.new_job(req, ports, id, password))
    }

    /// What is to be done next for `job`.
    pub fn next_action(&self, job: &ProvisionJob) -> (res: ProvisionAction)
        ensures
            res@ == job@.action(self@.mtpdb_bin),
            match res {
                ProvisionAction::CreateDir { path } => {
                    &&& job@.stage == Stage::MakeDir
                    &&& path@ == job@.dir
                },
                ProvisionAction::WriteFile { path, contents } => {
                    &&& job@.stage == Stage::WriteConfig
                    &&& path@ == job@.dir + "/config.toml"@
                    &&& contents@ == config_toml(
                        job@.ports.pg,
                        job@.ports.mysql,
                        job@.ports.api,
                        job@.ports.quic,
                        job@.dir + "/data"@,
                        job@.dir + "/wal"@,
                        job@.password,
                    )
                },
                ProvisionAction::Spawn { program, arg } => {
                    &&& job@.stage == Stage::Spawn
                    &&& program@ == self@.mtpdb_bin
                    &&& arg@ == job@.dir + "/config.toml"@
                },
            },
    {
        match job.stage {
            Stage::MakeDir => ProvisionAction::CreateDir { path: job.dir.clone() },
            Stage::WriteConfig => {
                let data_dir = job.dir.clone().concat("/data");
                let wal_dir = job.dir.clone().concat("/wal");
                ProvisionAction::WriteFile {
                    path: job.config_path(),
                    contents: build_config_toml(
                        job.ports.pg,
                        job.ports.mysql,
                        job.ports.api,
                        job.ports.quic,
                        data_dir.as_str(),
                        wal_dir.as_str(),
                        job.password.as_str(),
                    ),
                }
            },
            Stage::Spawn => ProvisionAction::Spawn {
                program: self.mtpdb_bin.clone(),
                arg: job.config_path(),
            },
        }
    }

    /// Gives `job` up: its ports are taken back, and the request is refused for
    /// `reason`.
    fn abandon(&mut self, job: ProvisionJob, reason: String) -> (res: ApiError)
        requires
            old(self).wf(),
            old(self)@.runs(job@),
        ensures
            res@ == job@.failure(old(self)@.mtpdb_bin, reason@),
            final(self)@ == old(self)@.after_release(job@.ports),
            final(self).wf(),
    {
        let ports = job.ports;
        self.release_ports(ports.pg, ports.mysql, ports.api, ports.quic);
        let error = match job.stage {
            Stage::MakeDir => "mkdir failed: ".to_owned().concat(reason.as_str()),
            Stage::WriteConfig => "write config failed: ".to_owned().concat(reason.as_str()),
            Stage::Spawn => "Failed to spawn '".to_owned().concat(self.mtpdb_bin.as_str()).concat(
                "': ",
            ).concat(reason.as_str()),
        };
        api_err(INTERNAL_SERVER_ERROR, error)
    }

    /// Enters the instance of `job`, which runs as `process` since `created_at`. An
    /// instance with the same identifier is replaced.
    pub fn finish_provision(
        &mut self,
        job: ProvisionJob,
        process: P,
        created_at: String,
    ) -> (res: InstanceInfo)
        requires
            old(self).wf(),
            old(self)@.runs(job@),
            job@.stage == Stage::Spawn,
        ensures
            res@ == job@.instance(created_at@),
            res.id@ == job@.id,
            res.db_name@ == job@.db_name,
            res.pg_port == job@.ports.pg,
            res.mysql_port == job@.ports.mysql,
            res.api_port == job@.ports.api,
            res.quic_port == job@.ports.quic,
            res.password@ == job@.password,
            res.data_dir@ == job@.dir,
            res.created_at@ == created_at@,
            res.status@ == "running"@,
            final(self)@ == old(self)@.after_finish(job@, process, created_at@),
            final(self).wf(),
    {
        let info = InstanceInfo {
            id: job.id.clone(),
            db_name: job.db_name,
            pg_port: job.ports.pg,
            mysql_port: job.ports.mysql,
            api_port: job.ports.api,
            quic_port: job.ports.quic,
            password: job.password,
            data_dir: job.dir,
            created_at,
            status: "running".to_owned(),
        };
        self.processes.insert(job.id.clone(), process);
        self.instances.insert(job.id, info.clone());
        proof {
            let model = old(self)@.after_finish(job@, process, created_at@);
            assert(self@.instances =~= model.instances);
            assert(self@ =~= model);
        }
        info
    }

    /// Goes on with `job` after `event`. Where the pending action failed, the ports are
    /// taken back and the request is refused. Once the database has been started, the
    /// instance is entered with the time at which that was noted.
    pub fn provision_step(&mut self, job: ProvisionJob, event: ProvisionEvent<P>) -> (res:
        ProvisionStep)
        requires
            old(self).wf(),
            old(self)@.runs(job@),
            event@.answers(job@.stage),
        ensures
            (final(self)@, res@) == old(self)@.step(job@, event@, res@.created_at()),
            res@ is Provisioned ==> is_utc_time(res@.created_at()),
            res@ matches StepView::Continue(next) ==> final(self)@.runs(next),
            final(self).wf(),
    {
        match event {
            ProvisionEvent::DirCreated => {
                ProvisionStep::Continue(ProvisionJob { stage: Stage::WriteConfig, ..job })
            },
            ProvisionEvent::ConfigWritten => {
                ProvisionStep::Continue(ProvisionJob { stage: Stage::Spawn, ..job })
            },
            ProvisionEvent::Spawned(process) => {
                let created_at = utc_now();
                ProvisionStep::Provisioned(self.finish_provision(job, process, created_at))
            },
            ProvisionEvent::Failed(reason) => ProvisionStep::Refused(self.abandon(job, reason)),
        }
    }

    /// Takes the instance `id` out and its ports back. Its process is handed over, to be
    /// ended.
    pub fn stop_instance(&mut self, id: &str) -> (res: Result<Stopped<P>, ApiError>)
        requires
            old(self).wf(),
        ensures
            match res {
                Ok(stopped) => {
                    &&& old(self)@.instances.contains_key(id@)
                    &&& stopped.process == Some(old(self)@.processes[id@])
                    &&& stopped.reply.status@ == "stopped"@
                    &&& stopped.reply.id@ == id@
                    &&& final(self)@ == old(self)@.after_stop(id@)
                },
                Err(e) => {
                    &&& !old(self)@.instances.contains_key(id@)
                    &&& e@ == no_such_instance(id@)
                    &&& final(self)@ == old(self)@
                },
            },
            final(self).wf(),
    {
        let info = match self.instances.remove(id) {
            Some(info) => info,
            None => {
                assert(self@ =~= old(self)@);
                return Err(instance_not_found(id));
            },
        };
        let process = self.processes.remove(id);
        self.release_ports(info.pg_port, info.mysql_port, info.api_port, info.quic_port);
        proof {
            let model = old(self)@.after_stop(id@);
            assert(self@.instances =~= model.instances);
            assert(self@ =~= model);
        }
        Ok(
            Stopped {
                process,
                reply: StopReply { status: "stopped".to_owned(), id: id.to_owned() },
            },
        )
    }

    /// The instance `id`.
    pub fn get_instance(&self, id: &str) -> (res: Result<&InstanceInfo, ApiError>)
        requires
            self.wf(),
        ensures
            match res {
                Ok(info) => self@.instances.contains_key(id@) && info@ == self@.instances[id@],
                Err(e) => !self@.instances.contains_key(id@) && e@ == no_such_instance(id@),
            },
    {
        match self.instances.get(id) {
            Some(info) => Ok(info),
            None => Err(instance_not_found(id)),
        }
    }

    /// Every instance.
    fn listing(&self) -> (res: Vec<&InstanceInfo>)
        requires
            self.wf(),
        ensures
            lists_all(res@, self@.instances),
    {
        let res = self.instances.values();
        proof {
            let ids = self.instances.ids();
            ids.unique_seq_to_set();
            assert(self@.instances.dom() =~= ids.to_set());
            assert forall|i: int| 0 <= i < res@.len() implies (#[trigger] res@[i])@.id == ids[i]
                && self@.instances.contains_key(ids[i]) && self@.instances[ids[i]] == res@[i]@ by {
                assert(ids.to_set().contains(ids[i]));
            }
            assert forall|id: Seq<char>| #[trigger]
                self@.instances.contains_key(id) implies exists|i: int|
                0 <= i < res@.len() && (#[trigger] res@[i])@.id == id by {
                assert(ids.to_set().contains(id));
                let i = ids.index_of(id);
                assert(res@[i]@.id == id);
            }
        }
        res
    }

    /// Every instance, and how many there are.
    pub fn list_instances(&self) -> (res: InstanceList<'_>)
        requires
            self.wf(),
        ensures
            lists_all(res.instances@, self@.instances),
            res.count == self@.instances.dom().len(),
    {
        let instances = self.listing();
        let count: usize = instances.len();
        InstanceList { instances, count }
    }

    /// The server, and every instance on it.
    pub fn info(&self) -> (res: ServerInfo<'_>)
        requires
            self.wf(),
        ensures
            res.server_id@ == self@.server_id,
            res.region@ == self@.region,
            res.ip@ == self@.advertise_ip,
            lists_all(res.instances@, self@.instances),
            res.instance_count == self@.instances.dom().len(),
    {
        let instances = self.listing();
        let instance_count: usize = instances.len();
        ServerInfo {
            server_id: self.server_id.clone(),
            region: self.region.clone(),
            ip: self.advertise_ip.clone(),
            instances,
            instance_count,
        }
    }
}

impl ProvisionJob {
    /// The path of the configuration file.
    fn config_path(&self) -> (res: String)
        ensures
            res@ == self@.config_path(),
    {
        self.dir.clone().concat("/config.toml")
    }
}

/// What a request asks for is the name that stands in it.
pub proof fn law_requested_name(req: ProvisionRequest)
    ensures
        req.db_name matches Some(name) ==> req@ == Some(name@),
        req.db_name is None ==> req@ is None,
{
}

/// What an action says is what stands in its fields.
pub proof fn law_action_fields(action: ProvisionAction)
    ensures
        action matches ProvisionAction::CreateDir { path } ==> action@ == (ActionView::CreateDir {
            path: path@,
        }),
        action matches ProvisionAction::WriteFile { path, contents } ==> action@ == (
        ActionView::WriteFile { path: path@, contents: contents@ }),
        action matches ProvisionAction::Spawn { program, arg } ==> action@ == (ActionView::Spawn {
            program: program@,
            arg: arg@,
        }),
{
}

/// What an event says is what stands in it, and each event but a failure answers one action.
pub proof fn law_event_fields<P>(event: ProvisionEvent<P>, stage: Stage)
    ensures
        event is DirCreated ==> event@ is DirCreated,
        event is ConfigWritten ==> event@ is ConfigWritten,
        event matches ProvisionEvent::Spawned(process) ==> event@ == EventView::Spawned(process),
        event matches ProvisionEvent::Failed(reason) ==> event@ == EventView::<P>::Failed(reason@),
        event is DirCreated ==> (event@.answers(stage) <==> stage is MakeDir),
        event is ConfigWritten ==> (event@.answers(stage) <==> stage is WriteConfig),
        event is Spawned ==> (event@.answers(stage) <==> stage is Spawn),
        event is Failed ==> event@.answers(stage),
{
}

/// How a job goes on is what stands in the step, and the time at which it ends is that of the
/// instance.
pub proof fn law_step_fields(step: ProvisionStep)
    ensures
        step matches ProvisionStep::Continue(job) ==> step@ == StepView::Continue(job@),
        step matches ProvisionStep::Provisioned(info) ==> {
            &&& step@ == StepView::Provisioned(info@)
            &&& step@.created_at() == info.created_at@
        },
        step matches ProvisionStep::Refused(e) ==> step@ == StepView::Refused(e@),
{
}

/// What is said of the instances in a map is what is said of each of them, under its key.
pub proof fn law_infos(instances: Map<Seq<char>, InstanceInfo>, id: Seq<char>)
    ensures
        infos(instances).contains_key(id) <==> instances.contains_key(id),
        instances.contains_key(id) ==> infos(instances)[id] == instances[id]@,
{
}

} // verus!
