use vstd::prelude::*;

use crate::cooldown::CommandKind;
use crate::cooldown::CooldownState;
use crate::cooldown::spec_admits;
use crate::metrics::GenerationResult;
use crate::models::Models;
use crate::present::Reply;
use crate::present::error_reply;
use crate::present::generation_success_reply;
use crate::present::image_success_reply;
use crate::present::is_error_reply;
use crate::present::is_generation_success_reply;
use crate::present::is_image_success_reply;
use crate::present::is_stats_success_reply;
use crate::present::stats_success_reply;

verus! {

/// Lifecycle of one command invocation. A rejected invocation never
/// reaches the adapter; an admitted one is acknowledged, runs the adapter
/// call, and ends with exactly one reply.
#[derive(Clone, Copy, Debug, PartialEq, Eq, Structural)]
pub enum Phase {
    Received,
    Rejected,
    Deferred,
    Succeeded,
    Failed,
    Replied,
}

/// What happened to an invocation since its last phase.
#[derive(Clone, Copy, Debug, PartialEq, Eq, Structural)]
pub enum Event {
    CooldownRejected,
    Acknowledged,
    AdapterSucceeded,
    AdapterFailed,
    ReplySent,
}

/// The invocation state machine: `None` marks a transition the protocol
/// never takes.
pub open spec fn spec_step(p: Phase, e: Event) -> Option<Phase> {
    match (p, e) {
        (Phase::Received, Event::CooldownRejected) => Some(Phase::Rejected),
        (Phase::Received, Event::Acknowledged) => Some(Phase::Deferred),
        (Phase::Deferred, Event::AdapterSucceeded) => Some(Phase::Succeeded),
        (Phase::Deferred, Event::AdapterFailed) => Some(Phase::Failed),
        (Phase::Succeeded, Event::ReplySent) => Some(Phase::Replied),
        (Phase::Failed, Event::ReplySent) => Some(Phase::Replied),
        _ => None,
    }
}

/// Advances an invocation by one event; `None` marks a transition the
/// protocol never takes.
pub fn step(p: Phase, e: Event) -> (r: Option<Phase>)
    ensures
        r == spec_step(p, e),
{
    match (p, e) {
        (Phase::Received, Event::CooldownRejected) => Some(Phase::Rejected),
        (Phase::Received, Event::Acknowledged) => Some(Phase::Deferred),
        (Phase::Deferred, Event::AdapterSucceeded) => Some(Phase::Succeeded),
        (Phase::Deferred, Event::AdapterFailed) => Some(Phase::Failed),
        (Phase::Succeeded, Event::ReplySent) => Some(Phase::Replied),
        (Phase::Failed, Event::ReplySent) => Some(Phase::Replied),
        _ => None,
    }
}

/// Exactly one reply per invocation: a reply is sent only on the step into
/// `Replied`, that step starts from a settled adapter outcome, and from
/// `Replied` no further step exists, so no second reply can be sent.
pub proof fn lemma_exactly_one_reply(p: Phase, e: Event)
    ensures
        spec_step(p, e) == Some(Phase::Replied) ==> e == Event::ReplySent && (p == Phase::Succeeded
            || p == Phase::Failed),
        spec_step(Phase::Replied, e) is None,
{
}

/// A rejected invocation makes no adapter call: the adapter runs only out
/// of `Deferred`, and `Rejected` never reaches `Deferred`.
pub proof fn lemma_rejected_never_calls_adapter(e: Event)
    ensures
        spec_step(Phase::Rejected, e) is None,
        spec_step(Phase::Received, Event::CooldownRejected) != Some(Phase::Deferred),
{
}

/// Admission control for one inbound invocation: checks and updates the
/// cooldown state in one atomic operation. Returns `Deferred` (proceed to
/// the adapter, acknowledgment owed) exactly when the user is outside the
/// command's cooldown window, and `Rejected` (send the cooldown notice,
/// no adapter call) otherwise.
pub fn begin_invocation(
    cooldown: &mut CooldownState,
    user: u64,
    command: CommandKind,
    now: u64,
) -> (p: Phase)
    requires
        old(cooldown).wf(),
    ensures
        final(cooldown).wf(),
        (p == Phase::Deferred) == spec_admits(old(cooldown)@, user, command, now),
        p == Phase::Deferred || p == Phase::Rejected,
        p == Phase::Deferred ==> final(cooldown)@ == old(cooldown)@.insert((user, command), now),
        p == Phase::Rejected ==> final(cooldown)@ == old(cooldown)@,
{
    if cooldown.check_and_update(user, command, now) {
        Phase::Deferred
    } else {
        Phase::Rejected
    }
}

/// Startup admission of the gateway credential: the connection may only be
/// attempted with a credential in hand. Fails, with the fatal message the
/// process aborts with, exactly when the environment had no credential.
pub fn startup_credential(var: Option<String>) -> (r: Result<String, String>)
    ensures
        var matches Some(token) ==> r == Result::<String, String>::Ok(token),
        var is None ==> r is Err && r->Err_0@ == "missing DISCORD_TOKEN"@,
{
    match var {
        Some(token) => Ok(token),
        None => Err(String::from_str("missing DISCORD_TOKEN")),
    }
}

/// Relies on chrono::Utc::now for the reply's capture-time timestamp. The
/// value depends on the wall clock, so nothing is assumed of it.
#[verifier::external_body]
fn now_timestamp_millis() -> i64 {
    chrono::Utc::now().timestamp_millis()
}

/// Converts a generation outcome into the one reply owed for it, stamped
/// with the capture time: a success embed for a result, a red error embed
/// carrying the backend's message for a failure. Never panics, whatever
/// the backend returned.
pub fn generation_reply(model: &Models, outcome: &Result<GenerationResult, String>) -> (r: Reply)
    ensures
        outcome matches Ok(g) ==> is_generation_success_reply(
            r,
            *model,
            *g,
            r.embed.timestamp_millis,
        ),
        outcome matches Err(m) ==> is_error_reply(
            r,
            "Error generating response"@,
            m@,
            r.embed.timestamp_millis,
        ),
{
    let ts = now_timestamp_millis();
    match outcome {
        Ok(g) => generation_success_reply(model, g, ts),
        Err(m) => error_reply("Error generating response", m.as_str(), ts),
    }
}

/// Converts an image outcome into the one reply owed for it, stamped with
/// the capture time. A backend failure and an empty image list both give
/// a red error embed: the first image is touched only after the list is
/// known to be non-empty, so an empty result can never fault.
pub fn image_reply(
    prompt: &String,
    elapsed_ms: u64,
    outcome: Result<Vec<(String, Vec<u8>)>, String>,
) -> (r: Reply)
    ensures
        outcome matches Err(m) ==> is_error_reply(
            r,
            "Error generating image"@,
            m@,
            r.embed.timestamp_millis,
        ),
        outcome is Ok && outcome->Ok_0@.len() == 0 ==> is_error_reply(
            r,
            "Error generating image"@,
            "the backend returned no images"@,
            r.embed.timestamp_millis,
        ),
        outcome is Ok && outcome->Ok_0@.len() > 0 ==> is_image_success_reply(
            r,
            prompt@,
            elapsed_ms,
            outcome->Ok_0@[0],
            r.embed.timestamp_millis,
        ),
{
    let ts = now_timestamp_millis();
    match outcome {
        Err(m) => error_reply("Error generating image", m.as_str(), ts),
        Ok(mut images) => {
            if images.len() == 0 {
                error_reply("Error generating image", "the backend returned no images", ts)
            } else {
                let first = images.remove(0);
                image_success_reply(prompt, elapsed_ms, first, ts)
            }
        },
    }
}

/// One device of a system-stats snapshot: name and VRAM in bytes.
pub struct DeviceStats {
    pub name: String,
    pub vram_free: u64,
    pub vram_total: u64,
}

/// Converts a stats outcome into the one reply owed for it, stamped with
/// the capture time. A backend failure and an empty device list both give
/// a red error embed instead of faulting on a missing first device.
pub fn stats_reply(outcome: &Result<Vec<DeviceStats>, String>) -> (r: Reply)
    ensures
        outcome matches Err(m) ==> is_error_reply(
            r,
            "Error getting stats"@,
            m@,
            r.embed.timestamp_millis,
        ),
        outcome is Ok && outcome->Ok_0@.len() == 0 ==> is_error_reply(
            r,
            "Error getting stats"@,
            "the backend reported no devices"@,
            r.embed.timestamp_millis,
        ),
        outcome is Ok && outcome->Ok_0@.len() > 0 ==> is_stats_success_reply(
            r,
            outcome->Ok_0@[0].name@,
            outcome->Ok_0@[0].vram_free,
            outcome->Ok_0@[0].vram_total,
            r.embed.timestamp_millis,
        ),
{
    let ts = now_timestamp_millis();
    match outcome {
        Err(m) => error_reply("Error getting stats", m.as_str(), ts),
        Ok(devices) => {
            if devices.len() == 0 {
                error_reply("Error getting stats", "the backend reported no devices", ts)
            } else {
                stats_success_reply(&devices[0].name, devices[0].vram_free, devices[0].vram_total, ts)
            }
        },
    }
}

} // verus!
