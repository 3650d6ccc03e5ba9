//! An agent's side of the management interface: addresses, enrollment, and what errors say.

use vstd::prelude::*;
use vstd::utf8::encode_utf8;

use crate::clock::{timestamp_text, Timestamp};
use crate::enrollment::{enrollment, EnrollmentSecretsView};
use crate::heartbeat::is_valid_agent;
use crate::json::{json_text_at, json_text_field};
use crate::models::{
    AgentKind, AgentStatusReport, EnrollmentRequest, EnrollmentRequestView, EnrollmentResponse,
    EnrollmentResponseView, HeartbeatRequest, HeartbeatRequestView, PersistedAgentState,
    PersistedAgentStateView, StatusRequest, StatusRequestView,
};
use crate::security::stored_time;
use crate::store::ManagerStoreView;
use crate::text::{
    join, join_spec, option_view, trim, trim_end_class, trim_end_spec, trim_spec, words, words_spec,
    CharClass,
};

verus! {

/// How an agent finds its manager and introduces itself.
#[derive(Debug)]
pub struct AgentBootstrap {
    pub kind: AgentKind,
    pub management_url: String,
    pub enrollment_token: String,
    pub node_name: String,
    pub state_dir: String,
}

/// The address of a manager.
#[derive(Debug)]
pub struct ManagerHttpClient {
    base_url: String,
}

impl Clone for ManagerHttpClient {
    fn clone(&self) -> (copy: Self)
        ensures
            copy.base() == self.base(),
    {
        ManagerHttpClient { base_url: self.base_url.clone() }
    }
}

impl ManagerHttpClient {
    /// The address, without slashes at its end.
    pub closed spec fn base(&self) -> Seq<char> {
        self.base_url@
    }

    /// The manager at an address.
    pub fn new(base_url: &str) -> (client: Self)
        ensures
            client.base() == trim_end_spec(base_url@, CharClass::Slash),
    {
        ManagerHttpClient { base_url: trim_end_class(base_url, CharClass::Slash) }
    }

    /// The address of a path.
    pub fn url(&self, path: &str) -> (url: String)
        ensures
            url@ == self.base() + path@,
    {
        let mut url = self.base_url.clone();
        url.append(path);
        url
    }

    /// Where agents enroll.
    pub fn enroll_url(&self) -> (url: String)
        ensures
            url@ == self.base() + "/api/agent/enroll"@,
    {
        self.url("/api/agent/enroll")
    }

    /// Where heartbeats go.
    pub fn heartbeat_url(&self) -> (url: String)
        ensures
            url@ == self.base() + "/api/agent/heartbeat"@,
    {
        self.url("/api/agent/heartbeat")
    }

    /// Where reports go.
    pub fn status_url(&self) -> (url: String)
        ensures
            url@ == self.base() + "/api/agent/status"@,
    {
        self.url("/api/agent/status")
    }
}

/// A text with each run of white space made one space, and none at the ends.
pub open spec fn collapsed(text: Seq<char>) -> Seq<char> {
    join_spec(words_spec(text), " "@)
}

/// What an error reply says, given what its field `error` holds: that field, else the whole text in
/// one line, if there is any.
pub open spec fn error_text(field: Option<Seq<char>>, body: Seq<char>) -> Option<Seq<char>> {
    match field {
        Some(error) => Some(trim_spec(error)),
        None => if collapsed(body).len() == 0 {
            None
        } else {
            Some(collapsed(body))
        },
    }
}

/// The text in the field `error` of a reply.
pub open spec fn error_field(body: Seq<char>) -> Option<Seq<char>> {
    match json_text_at(encode_utf8(body), "error"@) {
        Ok(field) => field,
        Err(_) => None,
    }
}

/// What an error reply says, given what its field `error` holds.
pub fn management_error(field: Option<String>, body: &str) -> (r: Option<String>)
    ensures
        option_view(r) == error_text(option_view(field), body@),
{
    if let Some(error) = field {
        return Some(trim(error.as_str()));
    }
    let text = join(&words(body), " ");
    if text.as_str().is_empty() {
        None
    } else {
        Some(text)
    }
}

/// What an error reply says.
pub fn extract_management_error(body: &str) -> (r: Option<String>)
    ensures
        option_view(r) == error_text(error_field(body@), body@),
{
    let field = match json_text_field(body.as_bytes(), "error") {
        Ok(found) => found,
        Err(_) => None,
    };
    management_error(field, body)
}

/// How a refused request is told: what the reply says, else the HTTP status.
pub open spec fn refusal_text(body: Option<Seq<char>>, status: Seq<char>) -> Seq<char> {
    "management server returned "@ + match body {
        Some(text) => match error_text(error_field(text), text) {
            Some(detail) => detail,
            None => status,
        },
        None => status,
    }
}

/// How a refused request is told: what the reply says, else the HTTP status.
pub fn refusal_message(body: &Option<String>, status: &str) -> (r: String)
    ensures
        r@ == refusal_text(option_view(*body), status@),
{
    let mut r = String::from_str("management server returned ");
    let detail = match body {
        Some(text) => extract_management_error(text.as_str()),
        None => None,
    };
    match detail {
        Some(text) => r.append(text.as_str()),
        None => r.append(status),
    }
    r
}

/// How an agent asks to be enrolled.
pub open spec fn request_of(bootstrap: AgentBootstrap) -> EnrollmentRequestView {
    EnrollmentRequestView {
        kind: bootstrap.kind,
        enrollment_token: bootstrap.enrollment_token@,
        node_name: bootstrap.node_name@,
    }
}

/// How an agent asks to be enrolled.
pub fn enrollment_request(bootstrap: &AgentBootstrap) -> (request: EnrollmentRequest)
    ensures
        request@ == request_of(*bootstrap),
{
    EnrollmentRequest {
        kind: bootstrap.kind,
        enrollment_token: bootstrap.enrollment_token.clone(),
        node_name: bootstrap.node_name.clone(),
    }
}

/// What an agent has to do to have an identity.
#[derive(Debug)]
pub enum IdentityStep<E> {
    /// It has one.
    Use(PersistedAgentState),
    /// It sends this request, and keeps the identity that it is given.
    Enroll(EnrollmentRequest),
    /// It cannot tell whether it has one.
    Fail(E),
}

/// The view of [`IdentityStep`].
pub enum IdentityView<E> {
    Use(PersistedAgentStateView),
    Enroll(EnrollmentRequestView),
    Fail(E),
}

impl<E> View for IdentityStep<E> {
    type V = IdentityView<E>;

    open spec fn view(&self) -> IdentityView<E> {
        match self {
            IdentityStep::Use(state) => IdentityView::Use(state@),
            IdentityStep::Enroll(request) => IdentityView::Enroll(request@),
            IdentityStep::Fail(error) => IdentityView::Fail(*error),
        }
    }
}

/// The view of what was read or received, or of the error.
pub open spec fn outcome_view<T: View, E>(outcome: Result<T, E>) -> Result<T::V, E> {
    match outcome {
        Ok(value) => Ok(value@),
        Err(error) => Err(error),
    }
}

/// The view of the identity that was read, if one was kept, or of the error.
pub open spec fn stored_view<E>(stored: Result<Option<PersistedAgentState>, E>) -> Result<
    Option<PersistedAgentStateView>,
    E,
> {
    match stored {
        Ok(found) => Ok(option_view(found)),
        Err(error) => Err(error),
    }
}

/// What an agent does about its identity, given what it read: it uses the one that was kept, and
/// enrolls where none was.
pub open spec fn identity_step<E>(
    bootstrap: AgentBootstrap,
    stored: Result<Option<PersistedAgentStateView>, E>,
) -> IdentityView<E> {
    match stored {
        Ok(Some(state)) => IdentityView::Use(state),
        Ok(None) => IdentityView::Enroll(request_of(bootstrap)),
        Err(error) => IdentityView::Fail(error),
    }
}

/// Uses the identity that was kept, or enrolls. An identity that cannot be read is an error.
pub fn load_or_enroll<E>(
    bootstrap: &AgentBootstrap,
    stored: Result<Option<PersistedAgentState>, E>,
) -> (step: IdentityStep<E>)
    ensures
        step@ == identity_step(*bootstrap, stored_view(stored)),
{
    match stored {
        Ok(Some(state)) => IdentityStep::Use(state),
        Ok(None) => IdentityStep::Enroll(enrollment_request(bootstrap)),
        Err(error) => IdentityStep::Fail(error),
    }
}

/// The identity that an agent keeps after it was enrolled.
pub open spec fn identity_of(
    bootstrap: AgentBootstrap,
    enrollment: EnrollmentResponseView,
    now: Timestamp,
) -> PersistedAgentStateView {
    PersistedAgentStateView {
        agent_id: enrollment.agent_id,
        agent_secret: enrollment.agent_secret,
        kind: bootstrap.kind,
        enrolled_at: stored_time(now),
    }
}

/// The identity that an agent keeps after it was enrolled.
pub fn enrolled_state(
    bootstrap: &AgentBootstrap,
    enrollment: &EnrollmentResponse,
    now: Timestamp,
) -> (state:
    PersistedAgentState)
    requires
        now.valid(),
    ensures
        state@ == identity_of(*bootstrap, enrollment@, now),
{
    PersistedAgentState {
        agent_id: enrollment.agent_id.clone(),
        agent_secret: enrollment.agent_secret.clone(),
        kind: bootstrap.kind,
        enrolled_at: timestamp_text(now),
    }
}

/// The identity to keep, given the reply to the request for enrollment; an agent that was not
/// enrolled keeps none.
pub open spec fn identity_to_keep<E>(
    bootstrap: AgentBootstrap,
    reply: Result<EnrollmentResponseView, E>,
    now: Timestamp,
) -> Result<PersistedAgentStateView, E> {
    match reply {
        Ok(enrollment) => Ok(identity_of(bootstrap, enrollment, now)),
        Err(error) => Err(error),
    }
}

/// The identity to keep, given the reply to the request for enrollment.
pub fn after_enrollment<E>(
    bootstrap: &AgentBootstrap,
    reply: Result<EnrollmentResponse, E>,
    now: Timestamp,
) -> (r: Result<PersistedAgentState, E>)
    requires
        now.valid(),
    ensures
        outcome_view(r) == identity_to_keep(*bootstrap, outcome_view(reply), now),
{
    match reply {
        Ok(enrollment) => Ok(enrolled_state(bootstrap, &enrollment, now)),
        Err(error) => Err(error),
    }
}

/// The identity of a new agent, given whether it could be kept.
pub open spec fn new_identity<E>(
    state: PersistedAgentStateView,
    kept: Result<(), E>,
) -> Result<PersistedAgentStateView, E> {
    match kept {
        Ok(_) => Ok(state),
        Err(error) => Err(error),
    }
}

/// The identity of a new agent, given whether it could be kept.
pub fn after_keeping<E>(state: PersistedAgentState, kept: Result<(), E>) -> (r: Result<
    PersistedAgentState,
    E,
>)
    ensures
        outcome_view(r) == new_identity(state@, kept),
{
    match kept {
        Ok(_) => Ok(state),
        Err(error) => Err(error),
    }
}

/// How an agent comes to its identity: the requests that it sends, the identities that it has
/// kept, in order, and what it has in the end.
pub struct IdentityRun<E> {
    pub requests: Seq<EnrollmentRequestView>,
    pub written: Seq<PersistedAgentStateView>,
    pub identity: Result<PersistedAgentStateView, E>,
}

/// How an agent comes to its identity, given what it reads, and the reply to a request and the
/// result of keeping an identity where it comes to that.
pub open spec fn identity_run<E>(
    bootstrap: AgentBootstrap,
    stored: Result<Option<PersistedAgentStateView>, E>,
    reply: Result<EnrollmentResponseView, E>,
    now: Timestamp,
    kept: Result<(), E>,
) -> IdentityRun<E> {
    match identity_step(bootstrap, stored) {
        IdentityView::Use(state) => IdentityRun {
            requests: Seq::empty(),
            written: Seq::empty(),
            identity: Ok(state),
        },
        IdentityView::Fail(error) => IdentityRun {
            requests: Seq::empty(),
            written: Seq::empty(),
            identity: Err(error),
        },
        IdentityView::Enroll(request) => match identity_to_keep(bootstrap, reply, now) {
            Ok(state) => IdentityRun {
                requests: seq![request],
                written: seq![state],
                identity: new_identity(state, kept),
            },
            Err(error) => IdentityRun {
                requests: seq![request],
                written: Seq::empty(),
                identity: Err(error),
            },
        },
    }
}

/// An agent that has an identity uses it, and one that cannot read whether it has one fails with
/// that error; neither sends a request, and what was kept stays as it is.
pub proof fn law_kept_identity_is_used<E>(
    bootstrap: AgentBootstrap,
    stored: Result<Option<PersistedAgentStateView>, E>,
    reply: Result<EnrollmentResponseView, E>,
    now: Timestamp,
    kept: Result<(), E>,
)
    requires
        stored != Ok::<Option<PersistedAgentStateView>, E>(None),
    ensures
        ({
            let run = identity_run(bootstrap, stored, reply, now, kept);
            &&& run.requests.len() == 0
            &&& run.written.len() == 0
            &&& run.identity == match stored {
                Ok(found) => Ok(found->Some_0),
                Err(error) => Err(error),
            }
        }),
{
}

/// An agent without an identity sends one request, with its kind, its token and its name. Where
/// that fails, nothing is kept, and the agent fails with that error. Where it succeeds, the agent
/// has the identity and the secret of the reply and its own kind, that is what is kept, and once it
/// was kept the agent uses it from then on, without a request.
pub proof fn law_enrolled_identity_is_kept<E>(
    bootstrap: AgentBootstrap,
    reply: Result<EnrollmentResponseView, E>,
    now: Timestamp,
    kept: Result<(), E>,
    later_bootstrap: AgentBootstrap,
    later_reply: Result<EnrollmentResponseView, E>,
    later_now: Timestamp,
    later_kept: Result<(), E>,
)
    ensures
        ({
            let none = Ok::<Option<PersistedAgentStateView>, E>(None);
            let run = identity_run(bootstrap, none, reply, now, kept);
            &&& run.requests == seq![request_of(bootstrap)]
            &&& reply matches Err(error) ==> run.written.len() == 0 && run.identity == Err::<
                PersistedAgentStateView,
                E,
            >(error)
            &&& reply matches Ok(enrollment) ==> {
                let state = identity_of(bootstrap, enrollment, now);
                let later = identity_run(
                    later_bootstrap,
                    Ok(Some(run.written.last())),
                    later_reply,
                    later_now,
                    later_kept,
                );
                &&& state.agent_id == enrollment.agent_id
                &&& state.agent_secret == enrollment.agent_secret
                &&& state.kind == bootstrap.kind
                &&& run.written == seq![state]
                &&& run.identity == new_identity(state, kept)
                &&& later.identity == Ok::<PersistedAgentStateView, E>(state)
                &&& later.requests.len() == 0
                &&& later.written.len() == 0
            }
        }),
{
}

/// The heartbeat of an agent with a status.
pub fn heartbeat_request(
    state: &PersistedAgentState,
    kind: AgentKind,
    status: AgentStatusReport,
) -> (request:
    HeartbeatRequest)
    ensures
        request@ == (HeartbeatRequestView {
            agent_id: state@.agent_id,
            agent_secret: state@.agent_secret,
            kind,
            current_version: status@.applied_version,
            status: status@,
        }),
{
    HeartbeatRequest {
        agent_id: state.agent_id.clone(),
        agent_secret: state.agent_secret.clone(),
        kind,
        current_version: status.applied_version,
        status,
    }
}

/// The report of an agent with a status.
pub fn status_request(
    state: &PersistedAgentState,
    kind: AgentKind,
    status: AgentStatusReport,
) -> (request:
    StatusRequest)
    ensures
        request@ == (StatusRequestView {
            agent_id: state@.agent_id,
            agent_secret: state@.agent_secret,
            kind,
            status: status@,
        }),
{
    StatusRequest {
        agent_id: state.agent_id.clone(),
        agent_secret: state.agent_secret.clone(),
        kind,
        status,
    }
}

/// What an error reply says: the text of its field `error`, where it has one; else the whole reply
/// in one line; else nothing.
pub proof fn law_error_replies(field: Seq<char>, body: Seq<char>)
    ensures
        error_text(Some(field), body) == Some(trim_spec(field)),
        error_text(None, body) is None <==> collapsed(body).len() == 0,
        error_text(None, body) matches Some(text) ==> text == join_spec(words_spec(body), " "@),
        json_text_at(encode_utf8(body), "error"@) == Ok::<Option<Seq<char>>, Seq<char>>(Some(field))
            ==> error_field(body) == Some(field),
        json_text_at(encode_utf8(body), "error"@) is Err ==> error_field(body) is None,
{
}

/// A refused request is told with what the reply says, and with the HTTP status where it says
/// nothing or cannot be read.
pub proof fn law_refusals_are_told(body: Seq<char>, status: Seq<char>)
    ensures
        refusal_text(None, status) == "management server returned "@ + status,
        error_text(error_field(body), body) matches Some(detail) ==> refusal_text(
            Some(body),
            status,
        ) == "management server returned "@ + detail,
        error_text(error_field(body), body) is None ==> refusal_text(Some(body), status)
            == "management server returned "@ + status,
{
}

/// An agent asks to be enrolled with its kind, its token and its name.
pub proof fn law_enrollment_requests(bootstrap: AgentBootstrap)
    ensures
        request_of(bootstrap).kind == bootstrap.kind,
        request_of(bootstrap).enrollment_token == bootstrap.enrollment_token@,
        request_of(bootstrap).node_name == bootstrap.node_name@,
{
}

/// What an agent keeps of an enrollment is what the manager knows it by: with the identity and the
/// secret that it keeps, its reports are taken.
pub proof fn law_kept_identity_is_good(
    bootstrap: AgentBootstrap,
    store: ManagerStoreView,
    now: Timestamp,
    fresh: EnrollmentSecretsView,
)
    requires
        enrollment(store, now, request_of(bootstrap), fresh) is Ok,
    ensures
        ({
            let (after, response) = enrollment(store, now, request_of(bootstrap), fresh)->Ok_0;
            let state = identity_of(bootstrap, response, now);
            is_valid_agent(after.agents, state.agent_id, state.agent_secret, state.kind)
        }),
{
}

} // verus!
