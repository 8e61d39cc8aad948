//! The middleware chain: which stages run around every request, and in what order.

use vstd::prelude::*;
use crate::address::{any_ipv4, bind_host, host_text};
use crate::config::Config;

verus! {

/// Largest request body accepted, in bytes (10 MiB).
pub const MAX_BODY_LENGTH: usize = 10485760;

/// A stage that runs before the handler.
#[derive(Clone, Copy, Debug, PartialEq, Eq, Structural)]
pub enum BeforeStage {
    /// Starts the request log line and its timer.
    LogRequest,
    /// Exposes the shared engine to the request.
    AttachEngine,
    /// Enforces the body size cap.
    LimitBody,
}

/// A stage that runs after the handler, whatever it answered.
#[derive(Clone, Copy, Debug, PartialEq, Eq, Structural)]
pub enum AfterStage {
    /// Finishes the request log line with status and latency.
    LogResponse,
}

/// The ordered stages of the chain.
pub struct ChainPlan {
    pub before: Vec<BeforeStage>,
    pub after: Vec<AfterStage>,
}

/// The before phase: logging first when enabled, then engine attachment, then
/// the body cap.
pub open spec fn before_stages(print_http_logs: bool) -> Seq<BeforeStage> {
    if print_http_logs {
        seq![BeforeStage::LogRequest, BeforeStage::AttachEngine, BeforeStage::LimitBody]
    } else {
        seq![BeforeStage::AttachEngine, BeforeStage::LimitBody]
    }
}

/// The after phase: only the closing log entry, when logging is enabled.
pub open spec fn after_stages(print_http_logs: bool) -> Seq<AfterStage> {
    if print_http_logs {
        seq![AfterStage::LogResponse]
    } else {
        seq![]
    }
}

/// Builds the middleware chain for a server.
pub fn chain_plan(print_http_logs: bool) -> (r: ChainPlan)
    ensures
        r.before@ == before_stages(print_http_logs),
        r.after@ == after_stages(print_http_logs),
{
    let mut before: Vec<BeforeStage> = Vec::new();
    let mut after: Vec<AfterStage> = Vec::new();
    if print_http_logs {
        before.push(BeforeStage::LogRequest);
    }
    before.push(BeforeStage::AttachEngine);
    before.push(BeforeStage::LimitBody);
    if print_http_logs {
        after.push(AfterStage::LogResponse);
    }
    proof {
        assert(before@ =~= before_stages(print_http_logs));
        assert(after@ =~= after_stages(print_http_logs));
    }
    ChainPlan { before, after }
}

/// What a server is started with: its middleware chain and the address to bind.
pub struct Startup {
    pub plan: ChainPlan,
    pub host: String,
}

/// Derives the chain and the bind address from the settings.
pub fn startup(config: &Config) -> (r: Startup)
    ensures
        r.plan.before@ == before_stages(config.print_http_logs),
        r.plan.after@ == after_stages(config.print_http_logs),
        r.host@ == host_text(any_ipv4(), config.port),
{
    Startup { plan: chain_plan(config.print_http_logs), host: bind_host(config.port) }
}

/// Whether a body of `len` bytes is within the cap.
pub fn body_within_limit(len: usize) -> (r: bool)
    ensures
        r == (len <= MAX_BODY_LENGTH),
{
    len <= MAX_BODY_LENGTH
}

/// When logging is enabled, the request log entry runs before every other
/// stage and the response log entry after every other stage; when it is not,
/// neither is installed.
pub proof fn logging_brackets_chain(print_http_logs: bool)
    ensures
        print_http_logs ==> before_stages(print_http_logs)[0] == BeforeStage::LogRequest,
        print_http_logs ==> after_stages(print_http_logs).last() == AfterStage::LogResponse,
        forall|i: int|
            1 <= i < before_stages(print_http_logs).len() ==> before_stages(print_http_logs)[i]
                != BeforeStage::LogRequest,
        !print_http_logs ==> !before_stages(print_http_logs).contains(BeforeStage::LogRequest),
        !print_http_logs ==> after_stages(print_http_logs).len() == 0,
        before_stages(print_http_logs).contains(BeforeStage::AttachEngine),
        before_stages(print_http_logs).contains(BeforeStage::LimitBody),
{
    let b = before_stages(print_http_logs);
    if print_http_logs {
        assert(b[1] == BeforeStage::AttachEngine);
        assert(b[2] == BeforeStage::LimitBody);
    } else {
        assert(b[0] == BeforeStage::AttachEngine);
        assert(b[1] == BeforeStage::LimitBody);
    }
}

} // verus!
