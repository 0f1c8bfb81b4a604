//! Core of a note-taking client's work-item mirror: authenticated access to a
//! remote issue tracker and the reconciliation of its items with local notes.
//!
//! Nothing in this crate performs I/O. Network calls and the credential
//! store are driven by the caller: the crate builds the requests, interprets
//! the replies and decides what happens next.

pub mod auth;
pub mod device_flow;
pub mod error;
pub mod pat;
pub mod pat_flow;
pub mod sync;
pub mod text;
pub mod tracker;

pub use auth::{
    basic_auth_header_for_pat, basic_header_around, bearer_auth_header,
    checked_basic_auth_header,
};
pub use device_flow::{
    device_flow_step, login_to_azure, DeviceAuthorizationGrant, FlowAction, FlowEvent, FlowState,
    OAuthConfig,
};
pub use error::{CoreError, ErrorKind};
pub use pat::{
    authorization_for_pat, delete_devops_pat, get_devops_pat, get_pat, has_devops_pat,
    org_project_persisted, pat_removal, save_devops_org_project, tracker_target,
    CredentialWrite, StoreRead, StoreWrite,
};
pub use pat_flow::{
    begin_decision, store_devops_pat, StoreEvent, StoreFlow, StoreStage, StoreStep,
};
pub use sync::{
    sync_notes_with_devops, DevOpsCreateNoteReq, DevOpsDeleteNoteReq, DevOpsFields,
    DevOpsWorkItem, SyncInstruction,
};
pub use tracker::{
    content_type_of, extract_item_ids, get_request, mirrored_items_request, post_request,
    read_outcome, wiql_request, work_item_request, work_items_batch_request, HttpMethod,
    HttpOutcome, HttpRequest, TrackerTarget, WiqlResponse, WiqlWorkItem,
};
