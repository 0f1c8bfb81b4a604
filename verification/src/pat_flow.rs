//! The storing of a personal access token as a state machine: the token
//! is tried on the tracker first and written only where the trial
//! succeeded.
//!
//! The caller carries out each [`StoreStep`] and reports what happened as
//! the next [`StoreEvent`]. A [`StoreFlow`] can only be made idle and
//! moved by [`store_devops_pat`], so the token of a write is always the
//! token that was tried.

use vstd::prelude::*;
use vstd::string::*;
use crate::auth::basic_header;
use crate::error::{CoreError, ErrorKind, ErrorModel};
use crate::pat::{
    authorization_for_pat,
    pat_authorization,
    target_read,
    tracker_target,
    CredentialWrite,
    ReadModel,
    StoreModel,
    StoreRead,
    StoreWrite,
    WriteModel,
    WriteReplyModel,
    PAT_ACCOUNT,
    SERVICE,
};
use crate::text::{is_blank, is_blank_text};
use crate::tracker::{
    outcome_result,
    read_outcome,
    text_result,
    wiql_model,
    wiql_request,
    HttpOutcome,
    HttpRequest,
    OutcomeModel,
    RequestModel,
    ALL_IDS_QUERY,
};

verus! {

/// Where the storing of a token stands.
#[derive(Clone, Copy, Debug, PartialEq, Eq, Structural)]
pub enum StoreStage {
    /// Nothing is being stored.
    Idle,
    /// The target of the trial is being looked up.
    Targeting,
    /// The token is being tried on the tracker.
    Validating,
    /// The token is being written.
    Persisting,
}

/// The storing of one token: the stage and, while it matters, the token.
#[derive(Debug, PartialEq, Eq)]
pub struct StoreFlow {
    stage: StoreStage,
    pat: String,
}

/// What happened since the last step.
#[derive(Clone, Debug, PartialEq, Eq)]
pub enum StoreEvent {
    /// The user asks to store this token.
    Begin { pat: String },
    /// The credential store answered the reads of the organization and of
    /// the project.
    TargetRead { organization: StoreRead, project: StoreRead },
    /// The trial on the tracker ended.
    Validated { outcome: HttpOutcome },
    /// The credential store answered the write.
    Persisted { reply: StoreWrite },
}

/// The next thing to do while a token is being stored.
#[derive(Clone, Debug, PartialEq, Eq)]
pub enum StoreStep {
    /// Read the organization and the project from the credential store and
    /// report `TargetRead`.
    ResolveTarget,
    /// Send the request and report `Validated`.
    Validate { request: HttpRequest },
    /// Write the secret and report `Persisted`.
    Persist { write: CredentialWrite },
    /// The token is stored; this is the message for the user.
    Stored { message: String },
    /// The token was refused, or could not be written.
    Refused { error: CoreError },
    /// The event does not apply to the stage; nothing is to be done.
    Nothing,
}

/// The mathematical content of a [`StoreFlow`].
pub struct StoreFlowModel {
    pub stage: StoreStage,
    pub pat: Seq<char>,
}

/// The mathematical content of a [`StoreEvent`].
pub enum StoreEventModel {
    Begin { pat: Seq<char> },
    TargetRead { organization: ReadModel, project: ReadModel },
    Validated { outcome: OutcomeModel },
    Persisted { reply: WriteReplyModel },
}

/// The mathematical content of a [`StoreStep`].
pub enum StepModel {
    ResolveTarget,
    Validate { request: RequestModel },
    Persist { write: WriteModel },
    Stored { message: Seq<char> },
    Refused { error: ErrorModel },
    Nothing,
}

impl View for StoreFlow {
    type V = StoreFlowModel;

    closed spec fn view(&self) -> StoreFlowModel {
        StoreFlowModel { stage: self.stage, pat: self.pat@ }
    }
}

impl View for StoreEvent {
    type V = StoreEventModel;

    open spec fn view(&self) -> StoreEventModel {
        match *self {
            StoreEvent::Begin { pat } => StoreEventModel::Begin { pat: pat@ },
            StoreEvent::TargetRead { organization, project } => StoreEventModel::TargetRead {
                organization: organization@,
                project: project@,
            },
            StoreEvent::Validated { outcome } => StoreEventModel::Validated { outcome: outcome@ },
            StoreEvent::Persisted { reply } => StoreEventModel::Persisted { reply: reply@ },
        }
    }
}

impl View for StoreStep {
    type V = StepModel;

    open spec fn view(&self) -> StepModel {
        match *self {
            StoreStep::ResolveTarget => StepModel::ResolveTarget,
            StoreStep::Validate { request } => StepModel::Validate { request: request@ },
            StoreStep::Persist { write } => StepModel::Persist { write: write@ },
            StoreStep::Stored { message } => StepModel::Stored { message: message@ },
            StoreStep::Refused { error } => StepModel::Refused { error: error@ },
            StoreStep::Nothing => StepModel::Nothing,
        }
    }
}

/// The flow in which nothing is being stored.
pub open spec fn idle_flow() -> StoreFlowModel {
    StoreFlowModel { stage: StoreStage::Idle, pat: Seq::empty() }
}

/// What every flow that the machine makes has: while a token is looked up
/// a target for, or tried, it is not blank and can be encoded.
pub open spec fn flow_wf(flow: StoreFlowModel) -> bool {
    flow.stage is Targeting || flow.stage is Validating ==> !is_blank(flow.pat)
        && pat_authorization(flow.pat) is Ok
}

/// The error for an empty or blank token.
pub open spec fn empty_error() -> ErrorModel {
    ErrorModel { kind: ErrorKind::InvalidInput, message: "PAT cannot be empty"@ }
}

/// The first step for a token, from the answer of the blank test and the
/// token's header: a blank token is refused at once, and so is one too
/// long to encode; for any other the target of the trial is looked up.
pub open spec fn first_step(blank: bool, authorization: Result<Seq<char>, ErrorModel>)
    -> StepModel {
    if blank {
        StepModel::Refused { error: empty_error() }
    } else {
        match authorization {
            Err(error) => StepModel::Refused { error },
            Ok(_) => StepModel::ResolveTarget,
        }
    }
}

/// The write that stores a token.
pub open spec fn pat_write(pat: Seq<char>) -> WriteModel {
    WriteModel { service: "quick-notes"@, account: "azure_devops_pat"@, secret: pat }
}

/// The end of storing a token.
pub open spec fn store_persisted(reply: WriteReplyModel) -> StepModel {
    match reply {
        WriteReplyModel::Done => StepModel::Stored { message: "PAT stored successfully"@ },
        WriteReplyModel::Failed { detail } => StepModel::Refused {
            error: ErrorModel {
                kind: ErrorKind::StoreUnavailable,
                message: "Failed to store PAT: "@ + detail,
            },
        },
    }
}

/// The step after the target was looked up: without a target the token
/// is refused, with one it is tried on the tracker with a query that
/// reads all ids.
pub open spec fn targeted_step(pat: Seq<char>, organization: ReadModel, project: ReadModel)
    -> StepModel {
    match target_read(organization, project) {
        Err(error) => StepModel::Refused { error },
        Ok(target) => match pat_authorization(pat) {
            Err(error) => StepModel::Refused { error },
            Ok(header) => StepModel::Validate {
                request: wiql_model(target, header, "Select [System.Id] From WorkItems"@),
            },
        },
    }
}

/// The step after the trial: the token is written where the tracker
/// accepted it, and refused with the error of the trial where it did not.
pub open spec fn validated_step(pat: Seq<char>, outcome: OutcomeModel) -> StepModel {
    match outcome_result(outcome) {
        Ok(_) => StepModel::Persist { write: pat_write(pat) },
        Err(error) => StepModel::Refused { error },
    }
}

/// The stage that follows a step: each request to the caller has its
/// stage, and everything else ends the storing.
pub open spec fn stage_after(step: StepModel) -> StoreStage {
    match step {
        StepModel::ResolveTarget => StoreStage::Targeting,
        StepModel::Validate { .. } => StoreStage::Validating,
        StepModel::Persist { .. } => StoreStage::Persisting,
        _ => StoreStage::Idle,
    }
}

/// The flow that follows a step taken for the token `pat`: the token is
/// kept while it is still to be tried or written.
pub open spec fn flow_after(step: StepModel, pat: Seq<char>) -> StoreFlowModel {
    match stage_after(step) {
        StoreStage::Targeting => StoreFlowModel { stage: StoreStage::Targeting, pat },
        StoreStage::Validating => StoreFlowModel { stage: StoreStage::Validating, pat },
        StoreStage::Persisting => StoreFlowModel { stage: StoreStage::Persisting, pat: Seq::empty() },
        StoreStage::Idle => idle_flow(),
    }
}

/// The step that a flow takes on an event. An event that does not apply
/// to the stage asks for nothing.
pub open spec fn step_of(flow: StoreFlowModel, event: StoreEventModel) -> StepModel {
    match (flow.stage, event) {
        (StoreStage::Idle, StoreEventModel::Begin { pat }) => first_step(
            is_blank(pat),
            pat_authorization(pat),
        ),
        (StoreStage::Targeting, StoreEventModel::TargetRead { organization, project }) => {
            targeted_step(flow.pat, organization, project)
        },
        (StoreStage::Validating, StoreEventModel::Validated { outcome }) => validated_step(
            flow.pat,
            outcome,
        ),
        (StoreStage::Persisting, StoreEventModel::Persisted { reply }) => store_persisted(reply),
        _ => StepModel::Nothing,
    }
}

/// The machine: the next flow and the step for a flow and an event.
pub open spec fn store_step(flow: StoreFlowModel, event: StoreEventModel) -> (
    StoreFlowModel,
    StepModel,
) {
    let step = step_of(flow, event);
    match step {
        StepModel::Nothing => (flow, step),
        _ => match event {
            StoreEventModel::Begin { pat } => (flow_after(step, pat), step),
            _ => (flow_after(step, flow.pat), step),
        },
    }
}

/// Whether a step has the caller turn to the credential store, to read
/// or to write.
pub open spec fn touches_store(step: StepModel) -> bool {
    step is ResolveTarget || step is Persist
}

/// The credential store once a step was carried out: a `Persist` sets one
/// secret, every other step leaves the store as it is.
pub open spec fn store_after(step: StepModel, store: StoreModel) -> StoreModel {
    match step {
        StepModel::Persist { write } => store.insert((write.service, write.account), write.secret),
        _ => store,
    }
}

impl StoreFlow {
    #[verifier::type_invariant]
    closed spec fn well_formed(self) -> bool {
        flow_wf(self@)
    }

    /// A flow in which nothing is being stored.
    pub fn new() -> (flow: StoreFlow)
        ensures
            flow@ == idle_flow(),
    {
        StoreFlow { stage: StoreStage::Idle, pat: String::new() }
    }

    /// The stage of the flow.
    pub fn stage(&self) -> (stage: StoreStage)
        ensures
            stage == self@.stage,
    {
        self.stage
    }

    /// The flow after `step` was taken for the token `pat`.
    fn after(step: &StoreStep, pat: String) -> (flow: StoreFlow)
        requires
            step@ is ResolveTarget || step@ is Validate ==> !is_blank(pat@) && pat_authorization(
                pat@,
            ) is Ok,
        ensures
            flow@ == flow_after(step@, pat@),
    {
        match step {
            StoreStep::ResolveTarget => StoreFlow { stage: StoreStage::Targeting, pat },
            StoreStep::Validate { .. } => StoreFlow { stage: StoreStage::Validating, pat },
            StoreStep::Persist { .. } => StoreFlow {
                stage: StoreStage::Persisting,
                pat: String::new(),
            },
            _ => StoreFlow { stage: StoreStage::Idle, pat: String::new() },
        }
    }
}

/// The first step for a token, from the answer of the blank test and the
/// token's header.
pub fn begin_decision(blank: bool, authorization: Result<String, CoreError>) -> (step: StoreStep)
    ensures
        step@ == first_step(blank, text_result(authorization)),
{
    if blank {
        StoreStep::Refused { error: CoreError::new(ErrorKind::InvalidInput, "PAT cannot be empty") }
    } else {
        match authorization {
            Err(error) => StoreStep::Refused { error },
            Ok(_) => StoreStep::ResolveTarget,
        }
    }
}

/// The step after the organization and the project were read.
fn pat_targeted(pat: &str, organization: StoreRead, project: StoreRead) -> (step: StoreStep)
    ensures
        step@ == targeted_step(pat@, organization@, project@),
{
    match tracker_target(organization, project) {
        Err(error) => StoreStep::Refused { error },
        Ok(target) => match authorization_for_pat(pat) {
            Err(error) => StoreStep::Refused { error },
            Ok(header) => StoreStep::Validate {
                request: wiql_request(&target, header.as_str(), ALL_IDS_QUERY),
            },
        },
    }
}

/// The step after the trial of `pat` on the tracker.
fn pat_validated(pat: &str, outcome: HttpOutcome) -> (step: StoreStep)
    ensures
        step@ == validated_step(pat@, outcome@),
{
    match read_outcome(outcome) {
        Ok(_) => StoreStep::Persist {
            write: CredentialWrite {
                service: String::from_str(SERVICE),
                account: String::from_str(PAT_ACCOUNT),
                secret: String::from_str(pat),
            },
        },
        Err(error) => StoreStep::Refused { error },
    }
}

/// The step after the credential store answered the write.
fn pat_persisted(reply: StoreWrite) -> (step: StoreStep)
    ensures
        step@ == store_persisted(reply@),
{
    match reply {
        StoreWrite::Done => StoreStep::Stored { message: String::from_str("PAT stored successfully") },
        StoreWrite::Failed { detail } => StoreStep::Refused {
            error: CoreError::with_detail(
                ErrorKind::StoreUnavailable,
                "Failed to store PAT: ",
                detail.as_str(),
            ),
        },
    }
}

/// Takes one step of storing a token: from the flow and what happened to
/// the next flow and what to do.
///
/// A blank token is refused as `InvalidInput` before anything is sent,
/// read or written. Any other token is tried on the tracker with a query
/// that reads all ids; it is written only where that trial succeeded, and
/// any failure of the trial comes back unchanged.
pub fn store_devops_pat(flow: StoreFlow, event: StoreEvent) -> (next: (StoreFlow, StoreStep))
    ensures
        (next.0@, next.1@) == store_step(flow@, event@),
{
    proof {
        use_type_invariant(&flow);
    }
    match flow.stage {
        StoreStage::Idle => match event {
            StoreEvent::Begin { pat } => {
                let step = begin_decision(
                    is_blank_text(pat.as_str()),
                    authorization_for_pat(pat.as_str()),
                );
                (StoreFlow::after(&step, pat), step)
            },
            _ => (flow, StoreStep::Nothing),
        },
        StoreStage::Targeting => match event {
            StoreEvent::TargetRead { organization, project } => {
                let step = pat_targeted(flow.pat.as_str(), organization, project);
                (StoreFlow::after(&step, flow.pat), step)
            },
            _ => (flow, StoreStep::Nothing),
        },
        StoreStage::Validating => match event {
            StoreEvent::Validated { outcome } => {
                let step = pat_validated(flow.pat.as_str(), outcome);
                (StoreFlow::after(&step, flow.pat), step)
            },
            _ => (flow, StoreStep::Nothing),
        },
        StoreStage::Persisting => match event {
            StoreEvent::Persisted { reply } => {
                let step = pat_persisted(reply);
                (StoreFlow::after(&step, flow.pat), step)
            },
            _ => (flow, StoreStep::Nothing),
        },
    }
}

/// A blank token is refused as `InvalidInput`, the flow stays idle, and
/// the caller is not sent to the credential store, neither to read nor to
/// write.
pub proof fn law_blank_pat_never_reaches_store(pat: Seq<char>, store: StoreModel)
    requires
        is_blank(pat),
    ensures
        store_step(idle_flow(), StoreEventModel::Begin { pat }) == (
            idle_flow(),
            StepModel::Refused { error: empty_error() },
        ),
        empty_error().kind == ErrorKind::InvalidInput,
        !touches_store(store_step(idle_flow(), StoreEventModel::Begin { pat }).1),
        store_after(store_step(idle_flow(), StoreEventModel::Begin { pat }).1, store) == store,
{
}

/// A token that fails its trial is refused with the error of the trial,
/// the flow is idle again, and the credential store keeps what it held.
pub proof fn law_failed_validation_keeps_store(
    pat: Seq<char>,
    outcome: OutcomeModel,
    store: StoreModel,
)
    requires
        outcome_result(outcome) is Err,
    ensures
        store_step(
            StoreFlowModel { stage: StoreStage::Validating, pat },
            StoreEventModel::Validated { outcome },
        ) == (idle_flow(), StepModel::Refused { error: outcome_result(outcome)->Err_0 }),
        !touches_store(
            store_step(
                StoreFlowModel { stage: StoreStage::Validating, pat },
                StoreEventModel::Validated { outcome },
            ).1,
        ),
        store_after(
            store_step(
                StoreFlowModel { stage: StoreStage::Validating, pat },
                StoreEventModel::Validated { outcome },
            ).1,
            store,
        ) == store,
{
}

/// Every step keeps a flow as the machine makes them.
pub proof fn law_step_keeps_flows_well_formed(flow: StoreFlowModel, event: StoreEventModel)
    requires
        flow_wf(flow),
    ensures
        flow_wf(store_step(flow, event).0),
{
}

/// A token is written only after a successful trial of that very token:
/// a write comes out of the trial stage alone, on a trial that the
/// tracker accepted, and its secret is the token of the flow, which is
/// not blank and went out in the trial's `Authorization` header.
pub proof fn law_persist_only_after_successful_trial(
    flow: StoreFlowModel,
    event: StoreEventModel,
    write: WriteModel,
)
    requires
        flow_wf(flow),
        store_step(flow, event).1 == (StepModel::Persist { write }),
    ensures
        flow.stage is Validating,
        event is Validated,
        outcome_result(event->Validated_outcome) is Ok,
        write == pat_write(flow.pat),
        !is_blank(write.secret),
        pat_authorization(write.secret) == Ok::<Seq<char>, ErrorModel>(basic_header(write.secret)),
{
}

/// The trial stage is reached only by sending the trial of the flow's
/// token: the request that leads there carries the Basic header of that
/// token.
pub proof fn law_trial_carries_the_token(
    flow: StoreFlowModel,
    event: StoreEventModel,
    request: RequestModel,
)
    requires
        store_step(flow, event).1 == (StepModel::Validate { request }),
    ensures
        flow.stage is Targeting,
        store_step(flow, event).0 == (StoreFlowModel {
            stage: StoreStage::Validating,
            pat: flow.pat,
        }),
        request.authorization == basic_header(flow.pat),
{
}

} // verus!
