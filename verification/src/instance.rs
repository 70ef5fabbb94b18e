//! What is known of a database instance.

use vstd::prelude::*;

verus! {

/// A database instance, as it is reported to callers.
#[derive(Debug)]
pub struct InstanceInfo {
    pub id: String,
    pub db_name: String,
    pub pg_port: u16,
    pub mysql_port: u16,
    pub api_port: u16,
    pub quic_port: u16,
    pub password: String,
    pub data_dir: String,
    pub created_at: String,
    /// "running" | "stopped"
    pub status: String,
}

/// What an [`InstanceInfo`] says.
pub struct InstanceView {
    pub id: Seq<char>,
    pub db_name: Seq<char>,
    pub ports: Ports,
    pub password: Seq<char>,
    pub data_dir: Seq<char>,
    pub created_at: Seq<char>,
    pub status: Seq<char>,
}

/// The four ports of an instance.
#[derive(Debug, Clone, Copy, PartialEq, Eq, Structural)]
pub struct Ports {
    pub pg: u16,
    pub mysql: u16,
    pub api: u16,
    pub quic: u16,
}

impl View for InstanceInfo {
    type V = InstanceView;

    open spec fn view(&self) -> InstanceView {
        InstanceView {
            id: self.id@,
            db_name: self.db_name@,
            ports: Ports {
                pg: self.pg_port,
                mysql: self.mysql_port,
                api: self.api_port,
                quic: self.quic_port,
            },
            password: self.password@,
            data_dir: self.data_dir@,
            created_at: self.created_at@,
            status: self.status@,
        }
    }
}

impl Clone for InstanceInfo {
    fn clone(&self) -> (res: Self)
        ensures
            res@ == self@,
    {
        InstanceInfo {
            id: self.id.clone(),
            db_name: self.db_name.clone(),
            pg_port: self.pg_port,
            mysql_port: self.mysql_port,
            api_port: self.api_port,
            quic_port: self.quic_port,
            password: self.password.clone(),
            data_dir: self.data_dir.clone(),
            created_at: self.created_at.clone(),
            status: self.status.clone(),
        }
    }
}

/// What is said of an instance is what stands in its fields.
pub proof fn law_instance_fields(info: InstanceInfo)
    ensures
        info@.id == info.id@,
        info@.db_name == info.db_name@,
        info@.ports.pg == info.pg_port,
        info@.ports.mysql == info.mysql_port,
        info@.ports.api == info.api_port,
        info@.ports.quic == info.quic_port,
        info@.password == info.password@,
        info@.data_dir == info.data_dir@,
        info@.created_at == info.created_at@,
        info@.status == info.status@,
{
}

} // verus!
