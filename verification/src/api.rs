//! The answers that the supervisor gives to requests.

use crate::instance::{InstanceInfo, InstanceView};
use crate::text::{decimal, u16_to_text};
use vstd::prelude::*;
use vstd::string::*;

verus! {

/// The HTTP status of a request for something that does not exist.
pub const NOT_FOUND: u16 = 404;

/// The HTTP status of a request that failed on the way.
pub const INTERNAL_SERVER_ERROR: u16 = 500;

/// The HTTP status of a request for which no resources are left.
pub const SERVICE_UNAVAILABLE: u16 = 503;

/// The answer to a request that is refused: an HTTP status and what went wrong.
#[derive(Debug)]
pub struct ApiError {
    pub code: u16,
    pub error: String,
}

/// What an [`ApiError`] says.
pub struct ApiErrorView {
    pub code: u16,
    pub error: Seq<char>,
}

impl View for ApiError {
    type V = ApiErrorView;

    open spec fn view(&self) -> ApiErrorView {
        ApiErrorView { code: self.code, error: self.error@ }
    }
}

/// The answer to a request that is refused.
pub fn api_err(code: u16, msg: String) -> (res: ApiError)
    ensures
        res.code == code,
        res.error@ == msg@,
{
    ApiError { code, error: msg }
}

/// The refusal of a request about an instance that does not exist.
pub open spec fn no_such_instance(id: Seq<char>) -> ApiErrorView {
    ApiErrorView { code: NOT_FOUND, error: "Instance '"@ + id + "' not found"@ }
}

/// The refusal of a request about an instance that does not exist.
pub fn instance_not_found(id: &str) -> (res: ApiError)
    ensures
        res@ == no_such_instance(id@),
{
    api_err(NOT_FOUND, "Instance '".to_owned().concat(id).concat("' not found"))
}

/// The answer to a health check.
#[derive(Debug)]
pub struct Health {
    pub status: String,
    pub service: String,
}

/// Says that the service is up.
pub fn health() -> (res: Health)
    ensures
        res.status@ == "ok"@,
        res.service@ == "mtpdb_manager"@,
{
    Health { status: "ok".to_owned(), service: "mtpdb_manager".to_owned() }
}

/// What is reported of an instance that was set up.
pub fn provisioned_line(info: &InstanceInfo) -> (res: String)
    ensures
        res@ == "[manager] Provisioned instance "@ + info@.id + " — pg:"@ + decimal(
            info@.ports.pg as nat,
        ) + " mysql:"@ + decimal(info@.ports.mysql as nat) + " api:"@ + decimal(
            info@.ports.api as nat,
        ) + " quic:"@ + decimal(info@.ports.quic as nat),
{
    "[manager] Provisioned instance ".to_owned().concat(info.id.as_str()).concat(" — pg:").concat(
        u16_to_text(info.pg_port).as_str(),
    ).concat(" mysql:").concat(u16_to_text(info.mysql_port).as_str()).concat(" api:").concat(
        u16_to_text(info.api_port).as_str(),
    ).concat(" quic:").concat(u16_to_text(info.quic_port).as_str())
}

/// What is reported of an instance that was stopped.
pub fn stopped_line(id: &str) -> (res: String)
    ensures
        res@ == "[manager] Stopped instance "@ + id@,
{
    "[manager] Stopped instance ".to_owned().concat(id)
}

/// Every instance, and how many there are.
#[derive(Debug)]
pub struct InstanceList<'a> {
    pub instances: Vec<&'a InstanceInfo>,
    pub count: usize,
}

/// The server, and every instance on it.
#[derive(Debug)]
pub struct ServerInfo<'a> {
    pub server_id: String,
    pub region: String,
    pub ip: String,
    pub instances: Vec<&'a InstanceInfo>,
    pub instance_count: usize,
}

/// The answer to a request to stop an instance.
#[derive(Debug)]
pub struct StopReply {
    pub status: String,
    pub id: String,
}

/// Whether `list` holds each instance of `instances` once, and nothing else. The order
/// is left open.
pub open spec fn lists_all(
    list: Seq<&InstanceInfo>,
    instances: Map<Seq<char>, InstanceView>,
) -> bool {
    &&& list.len() == instances.dom().len()
    &&& forall|i: int|
        0 <= i < list.len() ==> instances.contains_key((#[trigger] list[i])@.id)
            && instances[list[i]@.id] == list[i]@
    &&& forall|i: int, j: int|
        0 <= i < j < list.len() ==> (#[trigger] list[i])@.id != (#[trigger] list[j])@.id
    &&& forall|id: Seq<char>| #[trigger]
        instances.contains_key(id) ==> exists|i: int|
            0 <= i < list.len() && (#[trigger] list[i])@.id == id
}

/// What a refusal says is what stands in its fields.
pub proof fn law_refusal_fields(e: ApiError)
    ensures
        e@.code == e.code,
        e@.error == e.error@,
{
}

/// A request about an instance that does not exist is answered with the status 404 and the
/// identifier that was asked for.
pub proof fn law_unknown_instances_are_named(id: Seq<char>)
    ensures
        no_such_instance(id).code == 404,
        no_such_instance(id).error == "Instance '"@ + id + "' not found"@,
{
}

/// A list of all instances has each of them in exactly one place, as it is, and is no longer
/// than their number.
pub proof fn law_lists_leave_no_instance_out(
    list: Seq<&InstanceInfo>,
    instances: Map<Seq<char>, InstanceView>,
    id: Seq<char>,
    i: int,
    j: int,
)
    requires
        lists_all(list, instances),
    ensures
        list.len() == instances.dom().len(),
        instances.contains_key(id) ==> exists|k: int|
            0 <= k < list.len() && (#[trigger] list[k])@ == instances[id],
        0 <= i < list.len() ==> instances.contains_key(list[i]@.id) && instances[list[i]@.id]
            == list[i]@,
        0 <= i < list.len() && 0 <= j < list.len() && i != j ==> list[i]@.id != list[j]@.id,
{
    if instances.contains_key(id) {
        let k = choose|k: int| 0 <= k < list.len() && (#[trigger] list[k])@.id == id;
        assert(list[k]@ == instances[id]);
    }
}

} // verus!
