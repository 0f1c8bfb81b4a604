use devops_sync::error::{CoreError, ErrorKind};
use devops_sync::pat::{
    authorization_for_pat, delete_devops_pat, get_devops_pat, get_pat, has_devops_pat,
    is_missing_entry, org_project_persisted, pat_removal, required_entry,
    save_devops_org_project, tracker_target, CredentialWrite, StoreRead, StoreWrite,
    ORG_ACCOUNT, PAT_ACCOUNT, PROJECT_ACCOUNT, SERVICE,
};
use devops_sync::tracker::TrackerTarget;

fn quick_notes() -> TrackerTarget {
    TrackerTarget { organization: "Lbalstad".to_string(), project: "Quick%20Notes".to_string() }
}

fn found(secret: &str) -> StoreRead {
    StoreRead::Found { secret: secret.to_string() }
}

fn read_failed(detail: &str) -> StoreRead {
    StoreRead::Failed { detail: detail.to_string() }
}

fn write_failed(detail: &str) -> StoreWrite {
    StoreWrite::Failed { detail: detail.to_string() }
}

#[test]
fn store_keys_are_fixed() {
    assert_eq!(SERVICE, "quick-notes");
    assert_eq!(PAT_ACCOUNT, "azure_devops_pat");
    assert_eq!(ORG_ACCOUNT, "azure_devops_org");
    assert_eq!(PROJECT_ACCOUNT, "azure_devops_project");
}

#[test]
fn no_pat_stored_means_has_is_false_and_get_is_none() {
    assert!(!has_devops_pat(StoreRead::Missing));
    assert_eq!(get_devops_pat(StoreRead::Missing), Ok(None));
}

#[test]
fn a_not_found_error_of_the_store_is_no_error() {
    assert!(!has_devops_pat(read_failed("No entry found for the given account")));
    assert_eq!(get_devops_pat(read_failed("No entry found for the given account")), Ok(None));
    assert_eq!(get_devops_pat(read_failed("secret not found")), Ok(None));
}

#[test]
fn a_stored_pat_is_read_back() {
    assert!(has_devops_pat(found("abc")));
    assert_eq!(get_devops_pat(found("abc")), Ok(Some("abc".to_string())));
}

#[test]
fn a_store_that_cannot_be_read_is_store_unavailable() {
    assert!(!has_devops_pat(read_failed("keychain is locked")));
    assert_eq!(
        get_devops_pat(read_failed("keychain is locked")),
        Err(CoreError {
            kind: ErrorKind::StoreUnavailable,
            message: "Failed to read PAT: keychain is locked".to_string(),
        })
    );
}

#[test]
fn missing_entries_are_told_by_their_words() {
    assert!(is_missing_entry("No entry"));
    assert!(is_missing_entry("Error: No entry for account"));
    assert!(is_missing_entry("item not found."));
    assert!(!is_missing_entry("no entry"));
    assert!(!is_missing_entry("Not Found"));
    assert!(!is_missing_entry(""));
    assert!(!is_missing_entry("No entr"));
}

#[test]
fn a_call_needs_a_stored_pat() {
    assert_eq!(get_pat(found("abc")), Ok("abc".to_string()));
    assert_eq!(
        get_pat(StoreRead::Missing),
        Err(CoreError { kind: ErrorKind::NotFound, message: "No PAT stored".to_string() })
    );
    assert_eq!(
        get_pat(read_failed("No entry")),
        Err(CoreError { kind: ErrorKind::NotFound, message: "No PAT stored".to_string() })
    );
    assert_eq!(
        get_pat(read_failed("locked")),
        Err(CoreError {
            kind: ErrorKind::StoreUnavailable,
            message: "Failed to access keychain".to_string(),
        })
    );
}

#[test]
fn a_required_entry_names_what_is_missing() {
    assert_eq!(
        required_entry(StoreRead::Missing, "No organization stored"),
        Err(CoreError { kind: ErrorKind::NotFound, message: "No organization stored".to_string() })
    );
}

#[test]
fn deleting_a_stored_pat_succeeds() {
    assert_eq!(delete_devops_pat(StoreWrite::Done), Ok("PAT deleted successfully".to_string()));
}

#[test]
fn deleting_a_pat_that_is_not_there_is_not_found() {
    assert_eq!(
        delete_devops_pat(write_failed("No entry found")),
        Err(CoreError { kind: ErrorKind::NotFound, message: "PAT not found".to_string() })
    );
    assert_eq!(
        delete_devops_pat(write_failed("credential not found")),
        Err(CoreError { kind: ErrorKind::NotFound, message: "PAT not found".to_string() })
    );
}

#[test]
fn a_failed_delete_is_store_unavailable() {
    assert_eq!(
        delete_devops_pat(write_failed("access denied")),
        Err(CoreError {
            kind: ErrorKind::StoreUnavailable,
            message: "Failed to delete PAT: access denied".to_string(),
        })
    );
}

#[test]
fn organization_and_project_go_to_their_own_accounts() {
    let (org, project) = save_devops_org_project("Lbalstad", "Quick Notes");
    assert_eq!(
        org,
        CredentialWrite {
            service: "quick-notes".to_string(),
            account: "azure_devops_org".to_string(),
            secret: "Lbalstad".to_string(),
        }
    );
    assert_eq!(
        project,
        CredentialWrite {
            service: "quick-notes".to_string(),
            account: "azure_devops_project".to_string(),
            secret: "Quick Notes".to_string(),
        }
    );
}

#[test]
fn a_target_needs_organization_and_project() {
    assert_eq!(tracker_target(found("Lbalstad"), found("Quick%20Notes")), Ok(quick_notes()));
    assert_eq!(
        tracker_target(StoreRead::Missing, found("p")),
        Err(CoreError { kind: ErrorKind::NotFound, message: "No organization stored".to_string() })
    );
    assert_eq!(
        tracker_target(found("o"), StoreRead::Missing),
        Err(CoreError { kind: ErrorKind::NotFound, message: "No project stored".to_string() })
    );
    assert_eq!(
        tracker_target(read_failed("locked"), StoreRead::Missing),
        Err(CoreError {
            kind: ErrorKind::StoreUnavailable,
            message: "Failed to access keychain".to_string(),
        })
    );
}

#[test]
fn a_stored_pat_gives_its_basic_header() {
    assert_eq!(authorization_for_pat("secret-token"), Ok("Basic OnNlY3JldC10b2tlbg==".to_string()));
}

#[test]
fn written_settings_are_done_and_failed_ones_store_unavailable() {
    assert_eq!(org_project_persisted(StoreWrite::Done), Ok(()));
    assert_eq!(
        org_project_persisted(write_failed("locked")),
        Err(CoreError {
            kind: ErrorKind::StoreUnavailable,
            message: "Failed to store setting: locked".to_string(),
        })
    );
}

#[test]
fn deleting_the_pat_removes_the_pat_entry_and_no_other() {
    let (service, account) = pat_removal();
    assert_eq!(service, "quick-notes");
    assert_eq!(account, "azure_devops_pat");
    assert_ne!(account, ORG_ACCOUNT);
    assert_ne!(account, PROJECT_ACCOUNT);
}
