use devops_sync::error::{CoreError, ErrorKind};
use devops_sync::pat::{CredentialWrite, StoreRead, StoreWrite};
use devops_sync::pat_flow::{
    begin_decision, store_devops_pat, StoreEvent, StoreFlow, StoreStage, StoreStep,
};
use devops_sync::tracker::{HttpMethod, HttpOutcome, HttpRequest};

fn present(secret: &str) -> StoreRead {
    StoreRead::Found { secret: secret.to_string() }
}

fn begin(pat: &str) -> (StoreFlow, StoreStep) {
    store_devops_pat(StoreFlow::new(), StoreEvent::Begin { pat: pat.to_string() })
}

fn targeted(pat: &str) -> (StoreFlow, StoreStep) {
    let (flow, _) = begin(pat);
    store_devops_pat(
        flow,
        StoreEvent::TargetRead {
            organization: present("Lbalstad"),
            project: present("Quick%20Notes"),
        },
    )
}

fn validated(pat: &str, status: u16, status_text: &str) -> (StoreFlow, StoreStep) {
    let (flow, _) = targeted(pat);
    store_devops_pat(
        flow,
        StoreEvent::Validated {
            outcome: HttpOutcome::Answered {
                status,
                status_text: status_text.to_string(),
                body: "{\"workItems\":[]}".to_string(),
            },
        },
    )
}

fn refused(kind: ErrorKind, message: &str) -> StoreStep {
    StoreStep::Refused { error: CoreError { kind, message: message.to_string() } }
}

#[test]
fn a_new_store_flow_is_idle() {
    assert_eq!(StoreFlow::new().stage(), StoreStage::Idle);
}

#[test]
fn an_empty_pat_is_invalid_input() {
    let (flow, step) = begin("");
    assert_eq!(step, refused(ErrorKind::InvalidInput, "PAT cannot be empty"));
    assert_eq!(flow, StoreFlow::new());
}

#[test]
fn a_blank_pat_is_invalid_input() {
    for pat in ["   ", "\t\n ", "\u{a0}\u{3000}"] {
        let (flow, step) = begin(pat);
        assert_eq!(step, refused(ErrorKind::InvalidInput, "PAT cannot be empty"));
        assert_eq!(flow.stage(), StoreStage::Idle);
    }
}

#[test]
fn the_target_of_the_trial_is_looked_up_first() {
    let (flow, step) = begin("abc");
    assert_eq!(step, StoreStep::ResolveTarget);
    assert_eq!(flow.stage(), StoreStage::Targeting);
}

#[test]
fn a_pat_is_tried_on_the_tracker_before_it_is_stored() {
    let (flow, step) = targeted("abc");
    assert_eq!(flow.stage(), StoreStage::Validating);
    assert_eq!(
        step,
        StoreStep::Validate {
            request: HttpRequest {
                method: HttpMethod::Post,
                url: "https://dev.azure.com/Lbalstad/Quick%20Notes/_apis/wit/wiql?api-version=7.1"
                    .to_string(),
                authorization: "Basic OmFiYw==".to_string(),
                body: Some("{\"query\": \"Select [System.Id] From WorkItems\"}".to_string()),
            },
        }
    );
}

#[test]
fn a_pat_with_spaces_around_it_is_sent_as_it_stands() {
    match targeted(" a ").1 {
        StoreStep::Validate { request } => assert_eq!(request.authorization, "Basic OiBhIA=="),
        other => panic!("unexpected step {:?}", other),
    }
}

#[test]
fn a_pat_without_a_target_is_refused() {
    let (flow, _) = begin("abc");
    let (flow, step) = store_devops_pat(
        flow,
        StoreEvent::TargetRead { organization: StoreRead::Missing, project: present("p") },
    );
    assert_eq!(step, refused(ErrorKind::NotFound, "No organization stored"));
    assert_eq!(flow.stage(), StoreStage::Idle);
    let (flow, _) = begin("abc");
    let (_, step) = store_devops_pat(
        flow,
        StoreEvent::TargetRead {
            organization: present("o"),
            project: StoreRead::Failed { detail: "locked".to_string() },
        },
    );
    assert_eq!(step, refused(ErrorKind::StoreUnavailable, "Failed to access keychain"));
}

#[test]
fn an_accepted_pat_is_written_to_the_store() {
    let (flow, step) = validated("abc", 200, "OK");
    assert_eq!(flow.stage(), StoreStage::Persisting);
    assert_eq!(
        step,
        StoreStep::Persist {
            write: CredentialWrite {
                service: "quick-notes".to_string(),
                account: "azure_devops_pat".to_string(),
                secret: "abc".to_string(),
            },
        }
    );
}

#[test]
fn a_pat_without_the_scope_is_refused_and_not_written() {
    let (flow, step) = validated("abc", 203, "Non-Authoritative Information");
    assert_eq!(step, refused(ErrorKind::PermissionDenied, "Pat does not have permission (203)"));
    assert_eq!(flow, StoreFlow::new());
}

#[test]
fn a_pat_that_the_tracker_rejects_is_refused_with_that_error() {
    let (flow, step) = validated("abc", 401, "Unauthorized");
    assert_eq!(
        step,
        refused(
            ErrorKind::RemoteError { status: 401 },
            "Azure DevOps returned returned an error status: 401 Unauthorized"
        )
    );
    assert_eq!(flow.stage(), StoreStage::Idle);
}

#[test]
fn a_pat_whose_trial_did_not_get_through_is_refused() {
    let (flow, _) = targeted("abc");
    let (flow, step) = store_devops_pat(
        flow,
        StoreEvent::Validated { outcome: HttpOutcome::SendFailed { detail: "dns".to_string() } },
    );
    assert_eq!(step, refused(ErrorKind::TransportError, "Read error: dns"));
    assert_eq!(flow.stage(), StoreStage::Idle);
}

#[test]
fn a_written_pat_is_reported_as_stored() {
    let (flow, _) = validated("abc", 200, "OK");
    let (flow, step) = store_devops_pat(flow, StoreEvent::Persisted { reply: StoreWrite::Done });
    assert_eq!(step, StoreStep::Stored { message: "PAT stored successfully".to_string() });
    assert_eq!(flow, StoreFlow::new());
}

#[test]
fn a_failed_write_is_store_unavailable() {
    let (flow, _) = validated("abc", 200, "OK");
    let (flow, step) = store_devops_pat(
        flow,
        StoreEvent::Persisted { reply: StoreWrite::Failed { detail: "locked".to_string() } },
    );
    assert_eq!(step, refused(ErrorKind::StoreUnavailable, "Failed to store PAT: locked"));
    assert_eq!(flow.stage(), StoreStage::Idle);
}

#[test]
fn a_successful_outcome_writes_nothing_unless_a_pat_is_on_trial() {
    let accepted = || StoreEvent::Validated {
        outcome: HttpOutcome::Answered {
            status: 200,
            status_text: "OK".to_string(),
            body: String::new(),
        },
    };
    let (flow, step) = store_devops_pat(StoreFlow::new(), accepted());
    assert_eq!(step, StoreStep::Nothing);
    assert_eq!(flow.stage(), StoreStage::Idle);
    let (flow, _) = begin("abc");
    let (flow, step) = store_devops_pat(flow, accepted());
    assert_eq!(step, StoreStep::Nothing);
    assert_eq!(flow.stage(), StoreStage::Targeting);
    let (flow, _) = begin("  ");
    let (_, step) = store_devops_pat(flow, accepted());
    assert_eq!(step, StoreStep::Nothing);
}

#[test]
fn events_out_of_place_leave_the_store_flow_as_it_is() {
    let (flow, _) = targeted("abc");
    let (flow, step) =
        store_devops_pat(flow, StoreEvent::Persisted { reply: StoreWrite::Done });
    assert_eq!(step, StoreStep::Nothing);
    assert_eq!(flow.stage(), StoreStage::Validating);
    let (flow, step) = store_devops_pat(flow, StoreEvent::Begin { pat: "other".to_string() });
    assert_eq!(step, StoreStep::Nothing);
    assert_eq!(flow.stage(), StoreStage::Validating);
}

#[test]
fn the_first_decision_follows_the_blank_test_and_the_header() {
    let too_long = CoreError { kind: ErrorKind::InvalidInput, message: "PAT is too long".to_string() };
    assert_eq!(
        begin_decision(true, Ok("Basic Og==".to_string())),
        refused(ErrorKind::InvalidInput, "PAT cannot be empty")
    );
    assert_eq!(
        begin_decision(true, Err(too_long.clone())),
        refused(ErrorKind::InvalidInput, "PAT cannot be empty")
    );
    assert_eq!(begin_decision(false, Ok("Basic OmE=".to_string())), StoreStep::ResolveTarget);
    assert_eq!(begin_decision(false, Err(too_long.clone())), StoreStep::Refused { error: too_long });
}
