//! The decisions of one run: whether to submit at all, what the one request
//! holds, how the submission progresses once a response arrives, and which
//! exit code each outcome earns.

use vstd::prelude::*;
use crate::record::ChangeRequest;
use crate::record::Entry;
use crate::record::build_batch;
use crate::record::change_of;
use crate::record::make_request;
use crate::text::dotted;
use crate::text::trim;
use crate::text::trimmed;

verus! {

/// Why a run failed, by origin.
#[derive(Debug, Clone, PartialEq, Eq)]
pub enum UpdateError {
    /// The hostname or the public address could not be obtained. Fatal: the
    /// run stops before any network activity.
    IdentityResolutionFailed,
    /// The submission never reached the provider.
    NetworkError,
    /// The provider answered and rejected the change; the payload is its
    /// verbatim text.
    ProviderRejected(String),
}

/// The outcome of one run as surfaced to the invoking environment: either
/// the provider's verbatim success payload, or the failure.
#[derive(Debug, Clone, PartialEq, Eq)]
pub enum RunOutcome {
    Accepted(String),
    Failed(UpdateError),
}

/// The record name a run publishes: the trimmed hostname, a dot, and the
/// zone-name suffix as configured.
pub open spec fn published_name(hostname: Seq<char>, zone_name: Seq<char>) -> Seq<char> {
    trimmed(hostname) + "."@ + zone_name
}

/// Decides one run from the identity results and the configuration: either
/// the single request to submit — one batch holding the one upsert for the
/// trimmed identity — or the fatal error that stops the run before any
/// network call. `None` for either identity value means that obtaining it
/// failed.
pub fn plan_update(
    hostname: Option<String>,
    address: Option<String>,
    zone_id: String,
    zone_name: &str,
) -> (r: Result<ChangeRequest, UpdateError>)
    ensures
        r is Ok <==> hostname is Some && address is Some,
        r matches Ok(req) ==> {
            &&& req.zone_id@ == zone_id@
            &&& req.batch@.len() == 1
            &&& req.batch@[0] == change_of(
                published_name(hostname.unwrap()@, zone_name@),
                trimmed(address.unwrap()@),
            )
        },
        r matches Err(e) ==> e is IdentityResolutionFailed,
{
    match (hostname, address) {
        (Some(host), Some(addr)) => {
            let host_label = trim(host.as_str());
            let name = dotted(host_label.as_str(), zone_name);
            let ip = trim(addr.as_str());
            let mut entries: Vec<Entry> = Vec::new();
            entries.push(Entry { name, ip });
            let batch = build_batch(&entries);
            Result::Ok(make_request(zone_id, batch))
        },
        _ => Result::Err(UpdateError::IdentityResolutionFailed),
    }
}

/// Progress of the one submission a run makes: pending until the provider
/// answers, then done, whatever the answer was.
#[derive(Debug, Clone, PartialEq, Eq)]
pub enum SubmissionState {
    Pending,
    Done,
}

/// One submission's lifecycle. There is no retry edge: once done, with the
/// outcome recorded, a submission never leaves that state.
#[derive(Debug, Clone, PartialEq, Eq)]
pub struct Submission {
    pub state: SubmissionState,
    pub outcome: Option<RunOutcome>,
}

impl Submission {
    /// A fresh submission: pending, with no outcome yet.
    pub fn new() -> (s: Submission)
        ensures
            s.state is Pending,
            s.outcome is None,
    {
        Submission { state: SubmissionState::Pending, outcome: Option::None }
    }

    /// Receives the response. The transition to done is unconditional: any
    /// response, acceptance or failure, ends the submission.
    pub fn on_response(&mut self, outcome: RunOutcome)
        requires
            old(self).state is Pending,
        ensures
            final(self).state is Done,
            final(self).outcome == Option::Some(outcome),
    {
        self.state = SubmissionState::Done;
        self.outcome = Option::Some(outcome);
    }
}

/// The exit code owed for an outcome: distinct per kind of failure.
pub open spec fn exit_code_of(outcome: RunOutcome) -> int {
    match outcome {
        RunOutcome::Accepted(_) => 0,
        RunOutcome::Failed(UpdateError::IdentityResolutionFailed) => 1,
        RunOutcome::Failed(UpdateError::NetworkError) => 2,
        RunOutcome::Failed(UpdateError::ProviderRejected(_)) => 3,
    }
}

/// Maps an outcome to the process exit code: 0 when the provider accepted,
/// 1 when identity resolution failed, 2 when the network failed, 3 when the
/// provider rejected the change.
pub fn exit_code(outcome: &RunOutcome) -> (code: i32)
    ensures
        code == exit_code_of(*outcome),
{
    match outcome {
        RunOutcome::Accepted(_) => 0,
        RunOutcome::Failed(UpdateError::IdentityResolutionFailed) => 1,
        RunOutcome::Failed(UpdateError::NetworkError) => 2,
        RunOutcome::Failed(UpdateError::ProviderRejected(_)) => 3,
    }
}

} // verus!
