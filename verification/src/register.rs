//! Registration with the master server.

use crate::text::{decimal, u32_to_text};
use vstd::prelude::*;
use vstd::string::*;

verus! {

/// How often the request is sent before the supervisor goes on without registration.
pub const MAX_ATTEMPTS: u32 = 5;

/// How long to wait for an answer to the request, in seconds.
pub const TIMEOUT_SECS: u64 = 5;

/// How long to wait after an attempt that failed, in seconds.
pub const PAUSE_SECS: u64 = 2;

/// A request to the master server, and the four values of its JSON body.
#[derive(Debug)]
pub struct RegisterRequest {
    pub url: String,
    pub timeout_secs: u64,
    pub server_id: String,
    pub ip: String,
    pub region: String,
    pub manager_port: u16,
}

/// What a [`RegisterRequest`] says.
pub struct RegisterRequestView {
    pub url: Seq<char>,
    pub timeout_secs: u64,
    pub server_id: Seq<char>,
    pub ip: Seq<char>,
    pub region: Seq<char>,
    pub manager_port: u16,
}

impl View for RegisterRequest {
    type V = RegisterRequestView;

    open spec fn view(&self) -> RegisterRequestView {
        RegisterRequestView {
            url: self.url@,
            timeout_secs: self.timeout_secs,
            server_id: self.server_id@,
            ip: self.ip@,
            region: self.region@,
            manager_port: self.manager_port,
        }
    }
}

impl RegisterRequestView {
    /// The request that registers a server with the master at `master_url`.
    pub open spec fn to_master(
        master_url: Seq<char>,
        server_id: Seq<char>,
        ip: Seq<char>,
        region: Seq<char>,
        manager_port: u16,
    ) -> RegisterRequestView {
        RegisterRequestView {
            url: master_url + "/internal/register"@,
            timeout_secs: TIMEOUT_SECS,
            server_id,
            ip,
            region,
            manager_port,
        }
    }
}

/// The request that registers a server with the master at `master_url`.
pub fn register_request(
    master_url: &str,
    server_id: &str,
    ip: &str,
    region: &str,
    manager_port: u16,
) -> (res: RegisterRequest)
    ensures
        res@ == RegisterRequestView::to_master(
            master_url@,
            server_id@,
            ip@,
            region@,
            manager_port,
        ),
        res.url@ == master_url@ + "/internal/register"@,
        res.timeout_secs == TIMEOUT_SECS,
        res.server_id@ == server_id@,
        res.ip@ == ip@,
        res.region@ == region@,
        res.manager_port == manager_port,
{
    RegisterRequest {
        url: master_url.to_owned().concat("/internal/register"),
        timeout_secs: TIMEOUT_SECS,
        server_id: server_id.to_owned(),
        ip: ip.to_owned(),
        region: region.to_owned(),
        manager_port,
    }
}

/// What came of an attempt.
#[derive(Debug, Clone, Copy, PartialEq, Eq, Structural)]
pub enum RegisterReply {
    /// The master answered with this HTTP status.
    Answered(u16),
    /// There was no answer.
    Failed,
}

impl RegisterReply {
    /// Whether the master accepted the registration: it answered with one of the
    /// statuses from 200 to 299.
    pub open spec fn accepted(self) -> bool {
        self matches RegisterReply::Answered(status) && 200 <= status <= 299
    }
}

/// How registration goes on after an attempt.
#[derive(Debug, Clone, Copy, PartialEq, Eq, Structural)]
pub enum RegisterStep {
    /// The server is registered.
    Registered,
    /// Wait, then make the attempt with the given number.
    Retry { pause_secs: u64, attempt: u32 },
    /// Wait, then go on without registration.
    GiveUp { pause_secs: u64 },
}

/// How registration goes on after the attempt with the number `attempt`.
pub open spec fn step_after(attempt: u32, reply: RegisterReply) -> RegisterStep {
    if reply.accepted() {
        RegisterStep::Registered
    } else if attempt < MAX_ATTEMPTS {
        RegisterStep::Retry { pause_secs: PAUSE_SECS, attempt: (attempt + 1) as u32 }
    } else {
        RegisterStep::GiveUp { pause_secs: PAUSE_SECS }
    }
}

/// How registration goes on after the attempt with the number `attempt`. The first
/// attempt has the number 1.
pub fn register_step(attempt: u32, reply: RegisterReply) -> (res: RegisterStep)
    ensures
        res == step_after(attempt, reply),
{
    if let RegisterReply::Answered(status) = reply {
        if 200 <= status && status <= 299 {
            return RegisterStep::Registered;
        }
    }
    if attempt < MAX_ATTEMPTS {
        RegisterStep::Retry { pause_secs: PAUSE_SECS, attempt: attempt + 1 }
    } else {
        RegisterStep::GiveUp { pause_secs: PAUSE_SECS }
    }
}

/// What is reported once the master at `master_url` has accepted the registration.
pub open spec fn registered_text(master_url: Seq<char>) -> Seq<char> {
    "[manager] Registered with master at "@ + master_url
}

/// What is reported of an attempt that the master answered with `status`, which is no
/// acceptance.
pub open spec fn refused_text(attempt: u32, status: Seq<char>) -> Seq<char> {
    "[manager] Registration attempt "@ + decimal(attempt as nat) + ": master returned "@ + status
}

/// What is reported of an attempt that failed with `error`.
pub open spec fn failed_text(attempt: u32, error: Seq<char>) -> Seq<char> {
    "[manager] Registration attempt "@ + decimal(attempt as nat) + " failed: "@ + error
}

/// What is reported where the supervisor goes on without registration.
pub open spec fn give_up_text(master_url: Seq<char>) -> Seq<char> {
    "[manager] Could not register with master at "@ + master_url
        + " after 5 attempts. Continuing without registration."@
}

/// What is reported once the master at `master_url` has accepted the registration.
pub fn registered_line(master_url: &str) -> (res: String)
    ensures
        res@ == registered_text(master_url@),
{
    "[manager] Registered with master at ".to_owned().concat(master_url)
}

/// What is reported of an attempt that the master answered with `status`, which is no
/// acceptance.
pub fn refused_line(attempt: u32, status: &str) -> (res: String)
    ensures
        res@ == refused_text(attempt, status@),
{
    "[manager] Registration attempt ".to_owned().concat(u32_to_text(attempt).as_str()).concat(
        ": master returned ",
    ).concat(status)
}

/// What is reported of an attempt that failed with `error`.
pub fn failed_line(attempt: u32, error: &str) -> (res: String)
    ensures
        res@ == failed_text(attempt, error@),
{
    "[manager] Registration attempt ".to_owned().concat(u32_to_text(attempt).as_str()).concat(
        " failed: ",
    ).concat(error)
}

/// What is reported where the supervisor goes on without registration.
pub fn give_up_line(master_url: &str) -> (res: String)
    ensures
        res@ == give_up_text(master_url@),
{
    "[manager] Could not register with master at ".to_owned().concat(master_url).concat(
        " after 5 attempts. Continuing without registration.",
    )
}

/// A line for the standard output or for the standard error output.
#[derive(Debug)]
pub enum Report {
    Output(String),
    Error(String),
}

/// What a [`Report`] says.
pub enum ReportView {
    Output(Seq<char>),
    Error(Seq<char>),
}

impl View for Report {
    type V = ReportView;

    open spec fn view(&self) -> ReportView {
        match self {
            Report::Output(line) => ReportView::Output(line@),
            Report::Error(line) => ReportView::Error(line@),
        }
    }
}

/// What is reported of the attempt with the number `attempt`. The status or the error is
/// shown as `detail`.
pub open spec fn report_of(
    master_url: Seq<char>,
    attempt: u32,
    reply: RegisterReply,
    detail: Seq<char>,
) -> ReportView {
    if reply.accepted() {
        ReportView::Output(registered_text(master_url))
    } else {
        match reply {
            RegisterReply::Answered(_) => ReportView::Error(refused_text(attempt, detail)),
            RegisterReply::Failed => ReportView::Error(failed_text(attempt, detail)),
        }
    }
}

/// What is reported of the attempt with the number `attempt`. The status or the error is
/// shown as `detail`.
pub fn register_report(
    master_url: &str,
    attempt: u32,
    reply: RegisterReply,
    detail: &str,
) -> (res: Report)
    ensures
        res@ == report_of(master_url@, attempt, reply, detail@),
{
    match reply {
        RegisterReply::Answered(status) => {
            if 200 <= status && status <= 299 {
                Report::Output(registered_line(master_url))
            } else {
                Report::Error(refused_line(attempt, detail))
            }
        },
        RegisterReply::Failed => Report::Error(failed_line(attempt, detail)),
    }
}

/// Where registration stands.
pub enum RegisterRun {
    /// The server was registered by the attempt with this number.
    Registered(u32),
    /// The supervisor went on without registration after the attempt with this number.
    GaveUp(u32),
    /// The attempt with this number has not been answered yet.
    Waiting(u32),
}

/// Where registration stands once `replies` have come to the attempts from `attempt` on.
pub open spec fn run(attempt: u32, replies: Seq<RegisterReply>) -> RegisterRun
    decreases replies.len(),
{
    if replies.len() == 0 {
        RegisterRun::Waiting(attempt)
    } else {
        match step_after(attempt, replies[0]) {
            RegisterStep::Registered => RegisterRun::Registered(attempt),
            RegisterStep::GiveUp { .. } => RegisterRun::GaveUp(attempt),
            RegisterStep::Retry { attempt: next, .. } => run(next, replies.skip(1)),
        }
    }
}

proof fn lemma_run(attempt: u32, replies: Seq<RegisterReply>, k: int)
    requires
        1 <= attempt <= MAX_ATTEMPTS,
        0 <= k <= MAX_ATTEMPTS - attempt,
        k < replies.len(),
        forall|i: int| 0 <= i < k ==> !(#[trigger] replies[i]).accepted(),
    ensures
        replies[k].accepted() ==> run(attempt, replies) == RegisterRun::Registered(
            (attempt + k) as u32,
        ),
        !replies[k].accepted() && attempt + k == MAX_ATTEMPTS ==> run(attempt, replies)
            == RegisterRun::GaveUp(MAX_ATTEMPTS),
        !replies[k].accepted() && attempt + k < MAX_ATTEMPTS && k + 1 == replies.len() ==> run(
            attempt,
            replies,
        ) == RegisterRun::Waiting((attempt + k + 1) as u32),
    decreases k,
{
    if k > 0 {
        let rest = replies.skip(1);
        assert(rest[k - 1] == replies[k]);
        assert forall|i: int| 0 <= i < k - 1 implies !(#[trigger] rest[i]).accepted() by {
            assert(rest[i] == replies[i + 1]);
        }
        lemma_run((attempt + 1) as u32, rest, k - 1);
    } else if !replies[0].accepted() && attempt < MAX_ATTEMPTS && replies.len() == 1 {
        reveal_with_fuel(run, 2);
    }
}

/// The first accepting answer among the first five ends registration: the server is
/// registered, and no further request is sent.
pub proof fn law_first_acceptance_registers(replies: Seq<RegisterReply>, k: int)
    requires
        0 <= k < MAX_ATTEMPTS,
        k < replies.len(),
        replies[k].accepted(),
        forall|i: int| 0 <= i < k ==> !(#[trigger] replies[i]).accepted(),
    ensures
        run(1, replies) == RegisterRun::Registered((k + 1) as u32),
{
    lemma_run(1, replies, k);
}

/// After five attempts without acceptance the supervisor goes on without registration.
pub proof fn law_five_failures_give_up(replies: Seq<RegisterReply>)
    requires
        replies.len() >= MAX_ATTEMPTS,
        forall|i: int| 0 <= i < MAX_ATTEMPTS ==> !(#[trigger] replies[i]).accepted(),
    ensures
        run(1, replies) == RegisterRun::GaveUp(MAX_ATTEMPTS),
{
    lemma_run(1, replies, MAX_ATTEMPTS - 1);
}

/// With fewer than five answers, none of them accepting, the next attempt is made.
pub proof fn law_fewer_failures_go_on(replies: Seq<RegisterReply>)
    requires
        replies.len() < MAX_ATTEMPTS,
        forall|i: int| 0 <= i < replies.len() ==> !(#[trigger] replies[i]).accepted(),
    ensures
        run(1, replies) == RegisterRun::Waiting((replies.len() + 1) as u32),
{
    if replies.len() > 0 {
        lemma_run(1, replies, replies.len() - 1);
    }
}

/// Everything that is reported while `replies` come to the attempts from `attempt` on. The
/// status or the error of each is shown as the text of the same place in `details`.
pub open spec fn reports(
    master_url: Seq<char>,
    attempt: u32,
    replies: Seq<RegisterReply>,
    details: Seq<Seq<char>>,
) -> Seq<ReportView>
    decreases replies.len(),
{
    if replies.len() == 0 {
        Seq::empty()
    } else {
        let line = report_of(master_url, attempt, replies[0], details[0]);
        match step_after(attempt, replies[0]) {
            RegisterStep::Registered => seq![line],
            RegisterStep::GiveUp { .. } => seq![line, ReportView::Error(give_up_text(master_url))],
            RegisterStep::Retry { attempt: next, .. } => seq![line] + reports(
                master_url,
                next,
                replies.skip(1),
                details.skip(1),
            ),
        }
    }
}

proof fn lemma_reports(
    master_url: Seq<char>,
    attempt: u32,
    replies: Seq<RegisterReply>,
    details: Seq<Seq<char>>,
    k: int,
)
    requires
        1 <= attempt <= MAX_ATTEMPTS,
        0 <= k <= MAX_ATTEMPTS - attempt,
        k < replies.len(),
        replies.len() == details.len(),
        replies[k].accepted() || attempt + k == MAX_ATTEMPTS,
        forall|i: int| 0 <= i < k ==> !(#[trigger] replies[i]).accepted(),
    ensures
        ({
            let all = reports(master_url, attempt, replies, details);
            &&& all.len() == if replies[k].accepted() { k + 1 } else { k + 2 }
            &&& forall|i: int|
                0 <= i <= k ==> (#[trigger] all[i]) == report_of(
                    master_url,
                    (attempt + i) as u32,
                    replies[i],
                    details[i],
                )
            &&& !replies[k].accepted() ==> all[k + 1] == ReportView::Error(give_up_text(master_url))
        }),
    decreases k,
{
    if k > 0 {
        let rest = replies.skip(1);
        let texts = details.skip(1);
        assert(rest[k - 1] == replies[k]);
        assert forall|i: int| 0 <= i < k - 1 implies !(#[trigger] rest[i]).accepted() by {
            assert(rest[i] == replies[i + 1]);
        }
        lemma_reports(master_url, (attempt + 1) as u32, rest, texts, k - 1);
        let all = reports(master_url, attempt, replies, details);
        let later = reports(master_url, (attempt + 1) as u32, rest, texts);
        assert(!replies[0].accepted());
        assert forall|i: int| 0 <= i <= k implies (#[trigger] all[i]) == report_of(
            master_url,
            (attempt + i) as u32,
            replies[i],
            details[i],
        ) by {
            if i > 0 {
                assert(all[i] == later[i - 1]);
                assert(rest[i - 1] == replies[i]);
                assert(texts[i - 1] == details[i]);
            }
        }
        if !replies[k].accepted() {
            assert(all[k + 1] == later[k]);
        }
    }
}

/// Registration that succeeds reports each failed attempt before on the standard error
/// output, then the success on the standard output, and nothing more.
pub proof fn law_success_is_reported_once(
    master_url: Seq<char>,
    replies: Seq<RegisterReply>,
    details: Seq<Seq<char>>,
    k: int,
)
    requires
        0 <= k < MAX_ATTEMPTS,
        k < replies.len(),
        replies.len() == details.len(),
        replies[k].accepted(),
        forall|i: int| 0 <= i < k ==> !(#[trigger] replies[i]).accepted(),
    ensures
        ({
            let all = reports(master_url, 1, replies, details);
            &&& all.len() == k + 1
            &&& all[k] == ReportView::Output(registered_text(master_url))
            &&& forall|i: int|
                0 <= i < k ==> (#[trigger] all[i]) == match replies[i] {
                    RegisterReply::Answered(_) => ReportView::Error(
                        refused_text((i + 1) as u32, details[i]),
                    ),
                    RegisterReply::Failed => ReportView::Error(
                        failed_text((i + 1) as u32, details[i]),
                    ),
                }
        }),
{
    lemma_reports(master_url, 1, replies, details, k);
}

/// Registration that fails five times reports each attempt and the end of its attempts, all
/// on the standard error output.
pub proof fn law_giving_up_is_reported(
    master_url: Seq<char>,
    replies: Seq<RegisterReply>,
    details: Seq<Seq<char>>,
)
    requires
        replies.len() >= MAX_ATTEMPTS,
        replies.len() == details.len(),
        forall|i: int| 0 <= i < MAX_ATTEMPTS ==> !(#[trigger] replies[i]).accepted(),
    ensures
        ({
            let all = reports(master_url, 1, replies, details);
            &&& all.len() == MAX_ATTEMPTS + 1
            &&& all[MAX_ATTEMPTS as int] == ReportView::Error(give_up_text(master_url))
            &&& forall|i: int|
                0 <= i < MAX_ATTEMPTS ==> (#[trigger] all[i]) == match replies[i] {
                    RegisterReply::Answered(_) => ReportView::Error(
                        refused_text((i + 1) as u32, details[i]),
                    ),
                    RegisterReply::Failed => ReportView::Error(
                        failed_text((i + 1) as u32, details[i]),
                    ),
                }
        }),
{
    lemma_reports(master_url, 1, replies, details, MAX_ATTEMPTS - 1);
}

/// What a request says is what stands in its fields.
pub proof fn law_request_fields(request: RegisterRequest)
    ensures
        request@.url == request.url@,
        request@.timeout_secs == request.timeout_secs,
        request@.server_id == request.server_id@,
        request@.ip == request.ip@,
        request@.region == request.region@,
        request@.manager_port == request.manager_port,
{
}

/// A report is the line that it carries, for the output that it is for.
pub proof fn law_report_lines(report: Report)
    ensures
        report matches Report::Output(line) ==> report@ == ReportView::Output(line@),
        report matches Report::Error(line) ==> report@ == ReportView::Error(line@),
{
}

/// A registration goes to the path `/internal/register` of the master, waits five seconds,
/// and carries the server's own identifier, address, region and port.
pub proof fn law_registration_carries_the_server(
    master_url: Seq<char>,
    server_id: Seq<char>,
    ip: Seq<char>,
    region: Seq<char>,
    port: u16,
)
    ensures
        ({
            let request = RegisterRequestView::to_master(master_url, server_id, ip, region, port);
            &&& request.url == master_url + "/internal/register"@
            &&& request.timeout_secs == 5
            &&& request.server_id == server_id
            &&& request.ip == ip
            &&& request.region == region
            &&& request.manager_port == port
        }),
{
}

/// Servers that differ in anything register differently.
pub proof fn law_different_servers_register_differently(
    master_url: Seq<char>,
    a: (Seq<char>, Seq<char>, Seq<char>, u16),
    b: (Seq<char>, Seq<char>, Seq<char>, u16),
)
    requires
        RegisterRequestView::to_master(master_url, a.0, a.1, a.2, a.3)
            == RegisterRequestView::to_master(master_url, b.0, b.1, b.2, b.3),
    ensures
        a == b,
{
}

/// An attempt is accepted exactly when it is answered with a status from 200 to 299.
pub proof fn law_accepted_statuses(status: u16)
    ensures
        RegisterReply::Answered(status).accepted() <==> 200 <= status <= 299,
        !RegisterReply::Failed.accepted(),
{
}

/// An accepted attempt ends registration at once. After any other there is a pause of two
/// seconds, and then the next attempt up to the fifth, or else the end.
pub proof fn law_step_after_an_attempt(attempt: u32, reply: RegisterReply)
    ensures
        (reply matches RegisterReply::Answered(status) && 200 <= status <= 299) ==> step_after(
            attempt,
            reply,
        ) == RegisterStep::Registered,
        !(reply matches RegisterReply::Answered(status) && 200 <= status <= 299) && attempt < 5
            ==> (step_after(attempt, reply) matches RegisterStep::Retry { pause_secs, attempt: next }
            && pause_secs == 2 && next == attempt + 1),
        !(reply matches RegisterReply::Answered(status) && 200 <= status <= 299) && attempt >= 5
            ==> (step_after(attempt, reply) matches RegisterStep::GiveUp { pause_secs }
            && pause_secs == 2),
{
}

/// The lines that are reported name the master, the attempt and what went wrong.
pub proof fn law_reported_lines(
    master_url: Seq<char>,
    attempt: u32,
    status: u16,
    detail: Seq<char>,
)
    ensures
        200 <= status <= 299 ==> report_of(
            master_url,
            attempt,
            RegisterReply::Answered(status),
            detail,
        ) == ReportView::Output("[manager] Registered with master at "@ + master_url),
        !(200 <= status <= 299) ==> report_of(
            master_url,
            attempt,
            RegisterReply::Answered(status),
            detail,
        ) == ReportView::Error(
            "[manager] Registration attempt "@ + decimal(attempt as nat) + ": master returned "@
                + detail,
        ),
        report_of(master_url, attempt, RegisterReply::Failed, detail) == ReportView::Error(
            "[manager] Registration attempt "@ + decimal(attempt as nat) + " failed: "@ + detail,
        ),
        give_up_text(master_url) == "[manager] Could not register with master at "@ + master_url
            + " after 5 attempts. Continuing without registration."@,
        registered_text(master_url) == "[manager] Registered with master at "@ + master_url,
        refused_text(attempt, detail) == "[manager] Registration attempt "@ + decimal(
            attempt as nat,
        ) + ": master returned "@ + detail,
        failed_text(attempt, detail) == "[manager] Registration attempt "@ + decimal(
            attempt as nat,
        ) + " failed: "@ + detail,
{
}

} // verus!
