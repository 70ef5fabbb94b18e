//! What is settled when the supervisor starts.

use crate::args::Config;
use crate::register::{register_request, RegisterRequest, RegisterRequestView};
use crate::text::{decimal, u16_to_text};
use vstd::prelude::*;
use vstd::string::*;

verus! {

/// The address that the supervisor listens on: `port` on every interface.
pub fn listen_addr(port: u16) -> (res: String)
    ensures
        res@ == "0.0.0.0:"@ + decimal(port as nat),
{
    "0.0.0.0:".to_owned().concat(u16_to_text(port).as_str())
}

/// The address that the server is reported under: the one that was detected, or that of
/// the local host where none was.
pub fn advertised_ip(detected: Option<String>) -> (res: String)
    ensures
        res@ == match detected {
            Some(ip) => ip@,
            None => "127.0.0.1"@,
        },
{
    match detected {
        Some(ip) => ip,
        None => "127.0.0.1".to_owned(),
    }
}

/// The request by which the supervisor registers with the master server. Where no master
/// server is given there is none, and the supervisor stands alone.
pub fn startup_registration(config: &Config, advertise_ip: &str) -> (res: Option<RegisterRequest>)
    ensures
        match res {
            Some(request) => {
                &&& config@.master_url is Some
                &&& request@ == RegisterRequestView::to_master(
                    config@.master_url->0,
                    config@.server_id,
                    advertise_ip@,
                    config@.region,
                    config@.port,
                )
                &&& request.url@ == config@.master_url->0 + "/internal/register"@
                &&& request.server_id@ == config.server_id@
                &&& request.ip@ == advertise_ip@
                &&& request.region@ == config.region@
                &&& request.manager_port == config.port
            },
            None => config@.master_url is None,
        },
{
    match &config.master_url {
        Some(master_url) => Some(
            register_request(
                master_url.as_str(),
                config.server_id.as_str(),
                advertise_ip,
                config.region.as_str(),
                config.port,
            ),
        ),
        None => None,
    }
}

} // verus!
