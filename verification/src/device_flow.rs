//! The OAuth 2.0 device authorization grant as a state machine.
//!
//! The machine never waits and never sends. The caller carries out each
//! [`FlowAction`] and reports what happened, with its own clock's reading
//! in seconds, as the next [`FlowEvent`]. A caller that wants to give up
//! drops the state; one that wants to give up after a time of its own
//! hands the codes in with that time as their lifetime.

use vstd::prelude::*;
use vstd::string::*;
use crate::error::{CoreError, ErrorKind, ErrorModel};
use crate::text::same_text;

verus! {

/// The seconds by which polling slows down when the provider asks for it.
pub const SLOW_DOWN_SECS: u64 = 5;

/// The endpoints and the identity that a flow runs with.
#[derive(Clone, Debug, PartialEq, Eq)]
pub struct OAuthConfig {
    pub client_id: String,
    pub scope: String,
    pub auth_url: String,
    pub device_authorization_url: String,
    pub token_url: String,
}

/// What the provider hands out for one flow. It is dropped when the flow
/// ends.
#[derive(Clone, Debug, PartialEq, Eq)]
pub struct DeviceAuthorizationGrant {
    pub device_code: String,
    pub user_code: String,
    pub verification_uri: String,
    /// The seconds to wait between two polls.
    pub interval_secs: u64,
    /// The seconds for which the codes are good.
    pub expires_in_secs: u64,
}

/// Where a flow stands.
#[derive(Clone, Debug, PartialEq, Eq)]
pub enum FlowState {
    /// No codes have been issued.
    Idle,
    /// The codes were issued at `issued_at` and are being shown to the
    /// user.
    AwaitingUserAuthorization { grant: DeviceAuthorizationGrant, issued_at: u64 },
    /// The token endpoint is being polled.
    PollingForToken { grant: DeviceAuthorizationGrant, issued_at: u64 },
    /// The flow ended with a token.
    TokenObtained { access_token: String },
    /// The flow ended because the authorization was declined.
    Denied,
    /// The flow ended because the codes ran out.
    Expired,
}

/// What happened since the last action.
#[derive(Clone, Debug, PartialEq, Eq)]
pub enum FlowEvent {
    /// The caller asks for a login.
    Start,
    /// The provider issued codes; the clock read `now`.
    CodeIssued { grant: DeviceAuthorizationGrant, now: u64 },
    /// The device authorization endpoint answered with the error `code`.
    CodeRefused { status: u16, code: String },
    /// The user code was shown; the clock reads `now`.
    UserPrompted { now: u64 },
    /// The wait is over; the clock reads `now`.
    WaitElapsed { now: u64 },
    /// The token endpoint handed out a token.
    TokenGranted { access_token: String },
    /// The token endpoint answered with the error `code`.
    TokenRefused { status: u16, code: String },
    /// The provider could not be reached.
    TransportFailed { detail: String },
    /// The provider answered, but not with the JSON that was expected.
    AnswerUnreadable { detail: String },
}

/// What the caller is to do next.
#[derive(Clone, Debug, PartialEq, Eq)]
pub enum FlowAction {
    /// Ask the device authorization endpoint for codes.
    RequestDeviceCode { client_id: String, scope: String },
    /// Show the code and the address to the user.
    ShowUserCode { user_code: String, verification_uri: String },
    /// Ask the token endpoint for the token of this device code.
    PollToken { device_code: String },
    /// Wait, then report `WaitElapsed`.
    Wait { seconds: u64 },
    /// The flow is over: hand the token to whoever asked.
    Deliver { access_token: String },
    /// The flow is over: hand the error to whoever asked.
    Fail { error: CoreError },
    /// The event does not apply to the state; nothing is to be done.
    Nothing,
}

/// What an error code of the token endpoint means for the flow.
#[derive(Clone, Copy, Debug, PartialEq, Eq, Structural)]
pub enum Refusal {
    /// The user has not decided yet.
    Pending,
    /// The user has not decided yet, and polling is too fast.
    SlowDown,
    /// The authorization was declined.
    Declined,
    /// The device code ran out.
    Expired,
    /// Any other code.
    Other,
}

/// The mathematical content of an [`OAuthConfig`].
pub struct ConfigModel {
    pub client_id: Seq<char>,
    pub scope: Seq<char>,
    pub auth_url: Seq<char>,
    pub device_authorization_url: Seq<char>,
    pub token_url: Seq<char>,
}

/// The mathematical content of a [`DeviceAuthorizationGrant`].
pub struct GrantModel {
    pub device_code: Seq<char>,
    pub user_code: Seq<char>,
    pub verification_uri: Seq<char>,
    pub interval_secs: u64,
    pub expires_in_secs: u64,
}

/// The mathematical content of a [`FlowState`].
pub enum StateModel {
    Idle,
    AwaitingUserAuthorization { grant: GrantModel, issued_at: u64 },
    PollingForToken { grant: GrantModel, issued_at: u64 },
    TokenObtained { access_token: Seq<char> },
    Denied,
    Expired,
}

/// The mathematical content of a [`FlowEvent`].
pub enum EventModel {
    Start,
    CodeIssued { grant: GrantModel, now: u64 },
    CodeRefused { status: u16, code: Seq<char> },
    UserPrompted { now: u64 },
    WaitElapsed { now: u64 },
    TokenGranted { access_token: Seq<char> },
    TokenRefused { status: u16, code: Seq<char> },
    TransportFailed { detail: Seq<char> },
    AnswerUnreadable { detail: Seq<char> },
}

/// The mathematical content of a [`FlowAction`].
pub enum ActionModel {
    RequestDeviceCode { client_id: Seq<char>, scope: Seq<char> },
    ShowUserCode { user_code: Seq<char>, verification_uri: Seq<char> },
    PollToken { device_code: Seq<char> },
    Wait { seconds: u64 },
    Deliver { access_token: Seq<char> },
    Fail { error: ErrorModel },
    Nothing,
}

impl View for OAuthConfig {
    type V = ConfigModel;

    open spec fn view(&self) -> ConfigModel {
        ConfigModel {
            client_id: self.client_id@,
            scope: self.scope@,
            auth_url: self.auth_url@,
            device_authorization_url: self.device_authorization_url@,
            token_url: self.token_url@,
        }
    }
}

impl View for DeviceAuthorizationGrant {
    type V = GrantModel;

    open spec fn view(&self) -> GrantModel {
        GrantModel {
            device_code: self.device_code@,
            user_code: self.user_code@,
            verification_uri: self.verification_uri@,
            interval_secs: self.interval_secs,
            expires_in_secs: self.expires_in_secs,
        }
    }
}

impl View for FlowState {
    type V = StateModel;

    open spec fn view(&self) -> StateModel {
        match *self {
            FlowState::Idle => StateModel::Idle,
            FlowState::AwaitingUserAuthorization { grant, issued_at } => {
                StateModel::AwaitingUserAuthorization { grant: grant@, issued_at }
            },
            FlowState::PollingForToken { grant, issued_at } => StateModel::PollingForToken {
                grant: grant@,
                issued_at,
            },
            FlowState::TokenObtained { access_token } => StateModel::TokenObtained {
                access_token: access_token@,
            },
            FlowState::Denied => StateModel::Denied,
            FlowState::Expired => StateModel::Expired,
        }
    }
}

impl View for FlowEvent {
    type V = EventModel;

    open spec fn view(&self) -> EventModel {
        match *self {
            FlowEvent::Start => EventModel::Start,
            FlowEvent::CodeIssued { grant, now } => EventModel::CodeIssued { grant: grant@, now },
            FlowEvent::CodeRefused { status, code } => EventModel::CodeRefused {
                status,
                code: code@,
            },
            FlowEvent::UserPrompted { now } => EventModel::UserPrompted { now },
            FlowEvent::WaitElapsed { now } => EventModel::WaitElapsed { now },
            FlowEvent::TokenGranted { access_token } => EventModel::TokenGranted {
                access_token: access_token@,
            },
            FlowEvent::TokenRefused { status, code } => EventModel::TokenRefused {
                status,
                code: code@,
            },
            FlowEvent::TransportFailed { detail } => EventModel::TransportFailed {
                detail: detail@,
            },
            FlowEvent::AnswerUnreadable { detail } => EventModel::AnswerUnreadable {
                detail: detail@,
            },
        }
    }
}

impl View for FlowAction {
    type V = ActionModel;

    open spec fn view(&self) -> ActionModel {
        match *self {
            FlowAction::RequestDeviceCode { client_id, scope } => ActionModel::RequestDeviceCode {
                client_id: client_id@,
                scope: scope@,
            },
            FlowAction::ShowUserCode { user_code, verification_uri } => ActionModel::ShowUserCode {
                user_code: user_code@,
                verification_uri: verification_uri@,
            },
            FlowAction::PollToken { device_code } => ActionModel::PollToken {
                device_code: device_code@,
            },
            FlowAction::Wait { seconds } => ActionModel::Wait { seconds },
            FlowAction::Deliver { access_token } => ActionModel::Deliver {
                access_token: access_token@,
            },
            FlowAction::Fail { error } => ActionModel::Fail { error: error@ },
            FlowAction::Nothing => ActionModel::Nothing,
        }
    }
}

/// The configuration for Azure DevOps: the public client of the
/// application and the scope that reads and writes work items.
pub open spec fn azure_devops_config() -> ConfigModel {
    ConfigModel {
        client_id: "99dade1a-b65d-4672-bd1c-29804d696a8f"@,
        scope: "499b84ac-1321-427f-aa17-267ca6975798/vso.work"@,
        auth_url: "https://login.microsoftonline.com/common/oauth2/v2.0/authorize"@,
        device_authorization_url: "https://login.microsoftonline.com/common/oauth2/v2.0/devicecode"@,
        token_url: "https://login.microsoftonline.com/common/oauth2/v2.0/token"@,
    }
}

/// What an error code of the token endpoint means.
pub open spec fn refusal_of(code: Seq<char>) -> Refusal {
    if code == "authorization_pending"@ {
        Refusal::Pending
    } else if code == "slow_down"@ {
        Refusal::SlowDown
    } else if code == "authorization_declined"@ || code == "access_denied"@ {
        Refusal::Declined
    } else if code == "expired_token"@ {
        Refusal::Expired
    } else {
        Refusal::Other
    }
}

/// Whether codes issued at `issued_at` have run out at `now`: more than
/// their lifetime has passed.
pub open spec fn has_expired(grant: GrantModel, issued_at: u64, now: u64) -> bool {
    now > issued_at + grant.expires_in_secs
}

/// The interval after the provider asked to slow down: five seconds more,
/// as far as the number goes.
pub open spec fn slower(interval_secs: u64) -> u64 {
    if interval_secs + SLOW_DOWN_SECS <= u64::MAX {
        (interval_secs + SLOW_DOWN_SECS) as u64
    } else {
        u64::MAX
    }
}

/// The grant with a longer interval.
pub open spec fn slowed_down(grant: GrantModel) -> GrantModel {
    GrantModel { interval_secs: slower(grant.interval_secs), ..grant }
}

/// The error of a flow whose authorization was declined.
pub open spec fn declined_error() -> ErrorModel {
    ErrorModel { kind: ErrorKind::AuthorizationDenied, message: "Authorization was declined"@ }
}

/// The error of a flow whose codes ran out.
pub open spec fn expired_error() -> ErrorModel {
    ErrorModel { kind: ErrorKind::Expired, message: "This device code has expired."@ }
}

/// The error of a flow that could not reach the provider.
pub open spec fn transport_error(detail: Seq<char>) -> ErrorModel {
    ErrorModel { kind: ErrorKind::TransportError, message: detail }
}

/// The error of a flow whose answer from the provider could not be read.
pub open spec fn unreadable_error(detail: Seq<char>) -> ErrorModel {
    ErrorModel { kind: ErrorKind::DeserializationError, message: detail }
}

/// The error of a flow that the provider ended with an error code that
/// stands for nothing the grant knows.
pub open spec fn provider_error(status: u16, code: Seq<char>) -> ErrorModel {
    ErrorModel {
        kind: ErrorKind::RemoteError { status },
        message: "The identity provider refused the request: "@ + code,
    }
}

/// The step before a poll: the codes are checked against the clock first.
pub open spec fn poll_or_expire(grant: GrantModel, issued_at: u64, now: u64) -> (
    StateModel,
    ActionModel,
) {
    if has_expired(grant, issued_at, now) {
        (StateModel::Expired, ActionModel::Fail { error: expired_error() })
    } else {
        (
            StateModel::PollingForToken { grant, issued_at },
            ActionModel::PollToken { device_code: grant.device_code },
        )
    }
}

/// The step after the token endpoint answered with an error code.
pub open spec fn refused_step(grant: GrantModel, issued_at: u64, status: u16, code: Seq<char>) -> (
    StateModel,
    ActionModel,
) {
    match refusal_of(code) {
        Refusal::Pending => (
            StateModel::PollingForToken { grant, issued_at },
            ActionModel::Wait { seconds: grant.interval_secs },
        ),
        Refusal::SlowDown => (
            StateModel::PollingForToken { grant: slowed_down(grant), issued_at },
            ActionModel::Wait { seconds: slower(grant.interval_secs) },
        ),
        Refusal::Declined => (
            StateModel::Denied,
            ActionModel::Fail { error: declined_error() },
        ),
        Refusal::Expired => (
            StateModel::Expired,
            ActionModel::Fail { error: expired_error() },
        ),
        Refusal::Other => (
            StateModel::Idle,
            ActionModel::Fail { error: provider_error(status, code) },
        ),
    }
}

/// The machine: the next state and the action for a state and an event.
///
/// An event that does not apply to the state changes nothing. The three
/// states that end a flow take no event.
pub open spec fn flow_step(config: ConfigModel, state: StateModel, event: EventModel) -> (
    StateModel,
    ActionModel,
) {
    match state {
        StateModel::Idle => match event {
            EventModel::Start => (
                StateModel::Idle,
                ActionModel::RequestDeviceCode { client_id: config.client_id, scope: config.scope },
            ),
            EventModel::CodeIssued { grant, now } => (
                StateModel::AwaitingUserAuthorization { grant, issued_at: now },
                ActionModel::ShowUserCode {
                    user_code: grant.user_code,
                    verification_uri: grant.verification_uri,
                },
            ),
            EventModel::CodeRefused { status, code } => (
                StateModel::Idle,
                ActionModel::Fail { error: provider_error(status, code) },
            ),
            EventModel::TransportFailed { detail } => (
                StateModel::Idle,
                ActionModel::Fail { error: transport_error(detail) },
            ),
            EventModel::AnswerUnreadable { detail } => (
                StateModel::Idle,
                ActionModel::Fail { error: unreadable_error(detail) },
            ),
            _ => (state, ActionModel::Nothing),
        },
        StateModel::AwaitingUserAuthorization { grant, issued_at } => match event {
            EventModel::UserPrompted { now } => poll_or_expire(grant, issued_at, now),
            _ => (state, ActionModel::Nothing),
        },
        StateModel::PollingForToken { grant, issued_at } => match event {
            EventModel::WaitElapsed { now } => poll_or_expire(grant, issued_at, now),
            EventModel::TokenGranted { access_token } => (
                StateModel::TokenObtained { access_token },
                ActionModel::Deliver { access_token },
            ),
            EventModel::TokenRefused { status, code } => refused_step(
                grant,
                issued_at,
                status,
                code,
            ),
            EventModel::TransportFailed { detail } => (
                StateModel::Idle,
                ActionModel::Fail { error: transport_error(detail) },
            ),
            EventModel::AnswerUnreadable { detail } => (
                StateModel::Idle,
                ActionModel::Fail { error: unreadable_error(detail) },
            ),
            _ => (state, ActionModel::Nothing),
        },
        _ => (state, ActionModel::Nothing),
    }
}

/// Whether a state ends a flow.
pub open spec fn is_settled(state: StateModel) -> bool {
    state is TokenObtained || state is Denied || state is Expired
}

impl OAuthConfig {
    /// The configuration for Azure DevOps.
    pub fn azure_devops() -> (config: OAuthConfig)
        ensures
            config@ == azure_devops_config(),
    {
        OAuthConfig {
            client_id: String::from_str("99dade1a-b65d-4672-bd1c-29804d696a8f"),
            scope: String::from_str("499b84ac-1321-427f-aa17-267ca6975798/vso.work"),
            auth_url: String::from_str(
                "https://login.microsoftonline.com/common/oauth2/v2.0/authorize",
            ),
            device_authorization_url: String::from_str(
                "https://login.microsoftonline.com/common/oauth2/v2.0/devicecode",
            ),
            token_url: String::from_str(
                "https://login.microsoftonline.com/common/oauth2/v2.0/token",
            ),
        }
    }
}

/// Reads an error code of the token endpoint.
pub fn classify_refusal(code: &str) -> (refusal: Refusal)
    ensures
        refusal == refusal_of(code@),
{
    if same_text(code, "authorization_pending") {
        Refusal::Pending
    } else if same_text(code, "slow_down") {
        Refusal::SlowDown
    } else if same_text(code, "authorization_declined") || same_text(code, "access_denied") {
        Refusal::Declined
    } else if same_text(code, "expired_token") {
        Refusal::Expired
    } else {
        Refusal::Other
    }
}

/// The error of a flow whose codes ran out.
fn expired() -> (error: CoreError)
    ensures
        error@ == expired_error(),
{
    CoreError::new(ErrorKind::Expired, "This device code has expired.")
}

/// Checks the codes against the clock, then asks for a poll.
fn poll_unless_expired(grant: DeviceAuthorizationGrant, issued_at: u64, now: u64) -> (next: (
    FlowState,
    FlowAction,
))
    ensures
        (next.0@, next.1@) == poll_or_expire(grant@, issued_at, now),
{
    if now > issued_at && now - issued_at > grant.expires_in_secs {
        (FlowState::Expired, FlowAction::Fail { error: expired() })
    } else {
        let device_code = grant.device_code.clone();
        (FlowState::PollingForToken { grant, issued_at }, FlowAction::PollToken { device_code })
    }
}

/// Goes on after the token endpoint answered with an error code.
fn after_refusal(grant: DeviceAuthorizationGrant, issued_at: u64, status: u16, code: String) -> (next:
    (FlowState, FlowAction))
    ensures
        (next.0@, next.1@) == refused_step(grant@, issued_at, status, code@),
{
    match classify_refusal(code.as_str()) {
        Refusal::Pending => {
            let seconds = grant.interval_secs;
            (FlowState::PollingForToken { grant, issued_at }, FlowAction::Wait { seconds })
        },
        Refusal::SlowDown => {
            let seconds = if grant.interval_secs <= u64::MAX - SLOW_DOWN_SECS {
                grant.interval_secs + SLOW_DOWN_SECS
            } else {
                u64::MAX
            };
            let slowed = DeviceAuthorizationGrant {
                device_code: grant.device_code,
                user_code: grant.user_code,
                verification_uri: grant.verification_uri,
                interval_secs: seconds,
                expires_in_secs: grant.expires_in_secs,
            };
            (FlowState::PollingForToken { grant: slowed, issued_at }, FlowAction::Wait { seconds })
        },
        Refusal::Declined => (
            FlowState::Denied,
            FlowAction::Fail {
                error: CoreError::new(ErrorKind::AuthorizationDenied, "Authorization was declined"),
            },
        ),
        Refusal::Expired => (FlowState::Expired, FlowAction::Fail { error: expired() }),
        Refusal::Other => provider_refused(status, code),
    }
}

/// The end of a flow that could not reach the provider: the error goes
/// out at once, and a new flow starts from `Idle`.
fn transport_failed(detail: String) -> (next: (FlowState, FlowAction))
    ensures
        next.0@ == StateModel::Idle,
        next.1@ == (ActionModel::Fail { error: transport_error(detail@) }),
{
    let error = CoreError { kind: ErrorKind::TransportError, message: detail };
    (FlowState::Idle, FlowAction::Fail { error })
}

/// The end of a flow whose answer from the provider could not be read.
fn answer_unreadable(detail: String) -> (next: (FlowState, FlowAction))
    ensures
        next.0@ == StateModel::Idle,
        next.1@ == (ActionModel::Fail { error: unreadable_error(detail@) }),
{
    let error = CoreError { kind: ErrorKind::DeserializationError, message: detail };
    (FlowState::Idle, FlowAction::Fail { error })
}

/// The end of a flow that the provider refused with an error code that
/// stands for nothing the grant knows.
fn provider_refused(status: u16, code: String) -> (next: (FlowState, FlowAction))
    ensures
        next.0@ == StateModel::Idle,
        next.1@ == (ActionModel::Fail { error: provider_error(status, code@) }),
{
    let error = CoreError::with_detail(
        ErrorKind::RemoteError { status },
        "The identity provider refused the request: ",
        code.as_str(),
    );
    (FlowState::Idle, FlowAction::Fail { error })
}

/// Takes one step of the device authorization grant: from the state and
/// what happened to the next state and what to do.
pub fn device_flow_step(config: &OAuthConfig, state: FlowState, event: FlowEvent) -> (next: (
    FlowState,
    FlowAction,
))
    ensures
        (next.0@, next.1@) == flow_step(config@, state@, event@),
{
    match state {
        FlowState::Idle => match event {
            FlowEvent::Start => (
                FlowState::Idle,
                FlowAction::RequestDeviceCode {
                    client_id: config.client_id.clone(),
                    scope: config.scope.clone(),
                },
            ),
            FlowEvent::CodeIssued { grant, now } => {
                let user_code = grant.user_code.clone();
                let verification_uri = grant.verification_uri.clone();
                (
                    FlowState::AwaitingUserAuthorization { grant, issued_at: now },
                    FlowAction::ShowUserCode { user_code, verification_uri },
                )
            },
            FlowEvent::CodeRefused { status, code } => provider_refused(status, code),
            FlowEvent::TransportFailed { detail } => transport_failed(detail),
            FlowEvent::AnswerUnreadable { detail } => answer_unreadable(detail),
            _ => (FlowState::Idle, FlowAction::Nothing),
        },
        FlowState::AwaitingUserAuthorization { grant, issued_at } => match event {
            FlowEvent::UserPrompted { now } => poll_unless_expired(grant, issued_at, now),
            _ => (FlowState::AwaitingUserAuthorization { grant, issued_at }, FlowAction::Nothing),
        },
        FlowState::PollingForToken { grant, issued_at } => match event {
            FlowEvent::WaitElapsed { now } => poll_unless_expired(grant, issued_at, now),
            FlowEvent::TokenGranted { access_token } => {
                let token = access_token.clone();
                (
                    FlowState::TokenObtained { access_token },
                    FlowAction::Deliver { access_token: token },
                )
            },
            FlowEvent::TokenRefused { status, code } => after_refusal(
                grant,
                issued_at,
                status,
                code,
            ),
            FlowEvent::TransportFailed { detail } => transport_failed(detail),
            FlowEvent::AnswerUnreadable { detail } => answer_unreadable(detail),
            _ => (FlowState::PollingForToken { grant, issued_at }, FlowAction::Nothing),
        },
        FlowState::TokenObtained { access_token } => (
            FlowState::TokenObtained { access_token },
            FlowAction::Nothing,
        ),
        FlowState::Denied => (FlowState::Denied, FlowAction::Nothing),
        FlowState::Expired => (FlowState::Expired, FlowAction::Nothing),
    }
}

/// Begins a login: the flow is idle, and the first thing to do is to ask
/// for codes for the configured client and scope.
pub fn login_to_azure(config: &OAuthConfig) -> (first: (FlowState, FlowAction))
    ensures
        (first.0@, first.1@) == flow_step(config@, StateModel::Idle, EventModel::Start),
{
    device_flow_step(config, FlowState::Idle, FlowEvent::Start)
}

/// A flow that has ended takes no further step.
pub proof fn law_settled_states_absorb(config: ConfigModel, state: StateModel, event: EventModel)
    requires
        is_settled(state),
    ensures
        flow_step(config, state, event) == (state, ActionModel::Nothing),
{
}

/// A token leaves the machine only when the token endpoint granted it to
/// a flow that was polling, and it is the token that was granted.
pub proof fn law_token_only_when_granted(
    config: ConfigModel,
    state: StateModel,
    event: EventModel,
    token: Seq<char>,
)
    requires
        flow_step(config, state, event).1 == (ActionModel::Deliver { access_token: token }),
    ensures
        state is PollingForToken,
        event == (EventModel::TokenGranted { access_token: token }),
        flow_step(config, state, event).0 == (StateModel::TokenObtained { access_token: token }),
{
}

/// A declined authorization ends a polling flow as `Denied`, with the
/// error `AuthorizationDenied`.
pub proof fn law_declined_ends_denied(
    config: ConfigModel,
    grant: GrantModel,
    issued_at: u64,
    status: u16,
    code: Seq<char>,
)
    requires
        refusal_of(code) == Refusal::Declined,
    ensures
        flow_step(
            config,
            StateModel::PollingForToken { grant, issued_at },
            EventModel::TokenRefused { status, code },
        ) == (StateModel::Denied, ActionModel::Fail { error: declined_error() }),
{
}

/// A failure to reach the provider goes out at once as `TransportError`,
/// while codes are asked for and while the token is polled, and the flow
/// is back at `Idle`.
pub proof fn law_transport_failure_surfaces(
    config: ConfigModel,
    state: StateModel,
    detail: Seq<char>,
)
    requires
        state is Idle || state is PollingForToken,
    ensures
        flow_step(config, state, EventModel::TransportFailed { detail }) == (
            StateModel::Idle,
            ActionModel::Fail { error: transport_error(detail) },
        ),
{
}

/// The clock's reading that an event carries, where it is one that
/// comes before a poll.
pub open spec fn reading_before_poll(event: EventModel) -> Option<u64> {
    match event {
        EventModel::UserPrompted { now } => Some(now),
        EventModel::WaitElapsed { now } => Some(now),
        _ => None,
    }
}

/// No poll is asked for once the codes have run out: a poll follows only
/// an event that carries the clock's reading, and at that reading the
/// codes of the polling flow are still good.
pub proof fn law_no_poll_after_expiry(
    config: ConfigModel,
    state: StateModel,
    event: EventModel,
    device_code: Seq<char>,
)
    requires
        flow_step(config, state, event).1 == (ActionModel::PollToken { device_code }),
    ensures
        reading_before_poll(event) is Some,
        flow_step(config, state, event).0 is PollingForToken,
        flow_step(config, state, event).0->PollingForToken_grant.device_code == device_code,
        !has_expired(
            flow_step(config, state, event).0->PollingForToken_grant,
            flow_step(config, state, event).0->PollingForToken_issued_at,
            reading_before_poll(event)->0,
        ),
{
}

} // verus!
