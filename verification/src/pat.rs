//! The credential store as the core sees it: what to write, what to
//! remove, and how to read the store's replies.
//!
//! The store itself belongs to the caller, who carries out the writes and
//! removals that the functions here name and hands back what the store
//! said.

use vstd::prelude::*;
use vstd::string::*;
use crate::auth::{base64_fits, basic_credentials, basic_header, checked_basic_auth_header};
use crate::error::{CoreError, ErrorKind, ErrorModel};
use crate::text::{occurs_in, str_contains};
use crate::tracker::{text_result, TargetModel, TrackerTarget};

verus! {

/// The service under which the credential store files every secret.
pub const SERVICE: &'static str = "quick-notes";

/// The account of the personal access token.
pub const PAT_ACCOUNT: &'static str = "azure_devops_pat";

/// The account of the organization's name.
pub const ORG_ACCOUNT: &'static str = "azure_devops_org";

/// The account of the project's name.
pub const PROJECT_ACCOUNT: &'static str = "azure_devops_project";

/// What the credential store said to a read.
#[derive(Clone, Debug, PartialEq, Eq)]
pub enum StoreRead {
    /// The account has this secret.
    Found { secret: String },
    /// The account has no secret.
    Missing,
    /// The store reported an error, in these words.
    Failed { detail: String },
}

/// What the credential store said to a write or a removal.
#[derive(Clone, Debug, PartialEq, Eq)]
pub enum StoreWrite {
    Done,
    /// The store reported an error, in these words.
    Failed { detail: String },
}

/// A secret to put into the credential store.
#[derive(Clone, Debug, PartialEq, Eq)]
pub struct CredentialWrite {
    pub service: String,
    pub account: String,
    pub secret: String,
}

/// The mathematical content of a [`StoreRead`].
pub enum ReadModel {
    Found { secret: Seq<char> },
    Missing,
    Failed { detail: Seq<char> },
}

/// The mathematical content of a [`StoreWrite`].
pub enum WriteReplyModel {
    Done,
    Failed { detail: Seq<char> },
}

/// The mathematical content of a [`CredentialWrite`].
pub struct WriteModel {
    pub service: Seq<char>,
    pub account: Seq<char>,
    pub secret: Seq<char>,
}

/// A credential store as a value: the secret of each service and account.
pub type StoreModel = Map<(Seq<char>, Seq<char>), Seq<char>>;

impl View for StoreRead {
    type V = ReadModel;

    open spec fn view(&self) -> ReadModel {
        match *self {
            StoreRead::Found { secret } => ReadModel::Found { secret: secret@ },
            StoreRead::Missing => ReadModel::Missing,
            StoreRead::Failed { detail } => ReadModel::Failed { detail: detail@ },
        }
    }
}

impl View for StoreWrite {
    type V = WriteReplyModel;

    open spec fn view(&self) -> WriteReplyModel {
        match *self {
            StoreWrite::Done => WriteReplyModel::Done,
            StoreWrite::Failed { detail } => WriteReplyModel::Failed { detail: detail@ },
        }
    }
}

impl View for CredentialWrite {
    type V = WriteModel;

    open spec fn view(&self) -> WriteModel {
        WriteModel { service: self.service@, account: self.account@, secret: self.secret@ }
    }
}

/// Whether a store's error says that the entry does not exist.
pub open spec fn says_missing(detail: Seq<char>) -> bool {
    occurs_in("No entry"@, detail) || occurs_in("not found"@, detail)
}

/// What a read found: the secret, nothing, or the words of an error that
/// is no "not found".
pub open spec fn entry_read(reply: ReadModel) -> Result<Option<Seq<char>>, Seq<char>> {
    match reply {
        ReadModel::Found { secret } => Ok(Some(secret)),
        ReadModel::Missing => Ok(None),
        ReadModel::Failed { detail } => if says_missing(detail) {
            Ok(None)
        } else {
            Err(detail)
        },
    }
}

/// The stored token as the user asked for it.
pub open spec fn pat_read(reply: ReadModel) -> Result<Option<Seq<char>>, ErrorModel> {
    match entry_read(reply) {
        Ok(found) => Ok(found),
        Err(detail) => Err(
            ErrorModel { kind: ErrorKind::StoreUnavailable, message: "Failed to read PAT: "@ + detail },
        ),
    }
}

/// A stored value that a call cannot do without; `missing` is the message
/// where there is none.
pub open spec fn required_read(reply: ReadModel, missing: Seq<char>) -> Result<
    Seq<char>,
    ErrorModel,
> {
    match entry_read(reply) {
        Ok(Some(secret)) => Ok(secret),
        Ok(None) => Err(ErrorModel { kind: ErrorKind::NotFound, message: missing }),
        Err(_) => Err(
            ErrorModel { kind: ErrorKind::StoreUnavailable, message: "Failed to access keychain"@ },
        ),
    }
}

/// The service and the account under which the token is stored.
pub open spec fn pat_key() -> (Seq<char>, Seq<char>) {
    ("quick-notes"@, "azure_devops_pat"@)
}

/// The service and the account under which the organization is stored.
pub open spec fn org_key() -> (Seq<char>, Seq<char>) {
    ("quick-notes"@, "azure_devops_org"@)
}

/// The service and the account under which the project is stored.
pub open spec fn project_key() -> (Seq<char>, Seq<char>) {
    ("quick-notes"@, "azure_devops_project"@)
}

/// The credential store without the token's entry.
pub open spec fn store_without_pat(store: StoreModel) -> StoreModel {
    store.remove(pat_key())
}

/// The credential store once the removal of the token was answered: the
/// token's entry is gone where the store did it, and the store is as it
/// was where it did not.
pub open spec fn store_after_removal(reply: WriteReplyModel, store: StoreModel) -> StoreModel {
    match reply {
        WriteReplyModel::Done => store_without_pat(store),
        WriteReplyModel::Failed { .. } => store,
    }
}

/// The end of a removal of the token.
pub open spec fn pat_removed(reply: WriteReplyModel) -> Result<Seq<char>, ErrorModel> {
    match reply {
        WriteReplyModel::Done => Ok("PAT deleted successfully"@),
        WriteReplyModel::Failed { detail } => if says_missing(detail) {
            Err(ErrorModel { kind: ErrorKind::NotFound, message: "PAT not found"@ })
        } else {
            Err(
                ErrorModel {
                    kind: ErrorKind::StoreUnavailable,
                    message: "Failed to delete PAT: "@ + detail,
                },
            )
        },
    }
}

/// The error for a token too long to encode on this machine.
pub open spec fn too_long_error() -> ErrorModel {
    ErrorModel { kind: ErrorKind::InvalidInput, message: "PAT is too long"@ }
}

/// The Basic header of a token, or `InvalidInput` where the machine cannot
/// hold the encoded text.
pub open spec fn pat_authorization(pat: Seq<char>) -> Result<Seq<char>, ErrorModel> {
    if base64_fits(basic_credentials(pat).len()) {
        Ok(basic_header(pat))
    } else {
        Err(too_long_error())
    }
}

/// The end of a write of the organization or of the project.
pub open spec fn setting_stored(reply: WriteReplyModel) -> Result<(), ErrorModel> {
    match reply {
        WriteReplyModel::Done => Ok(()),
        WriteReplyModel::Failed { detail } => Err(
            ErrorModel {
                kind: ErrorKind::StoreUnavailable,
                message: "Failed to store setting: "@ + detail,
            },
        ),
    }
}

/// The mathematical content of a result that holds nothing or an error.
pub open spec fn done_result(result: Result<(), CoreError>) -> Result<(), ErrorModel> {
    match result {
        Ok(_) => Ok(()),
        Err(error) => Err(error@),
    }
}

/// The two writes that store an organization and a project.
pub open spec fn org_project_writes(organization: Seq<char>, project: Seq<char>) -> (
    WriteModel,
    WriteModel,
) {
    (
        WriteModel {
            service: "quick-notes"@,
            account: "azure_devops_org"@,
            secret: organization,
        },
        WriteModel { service: "quick-notes"@, account: "azure_devops_project"@, secret: project },
    )
}

/// The target of a call, from the replies to the reads of the
/// organization and of the project. Both are needed, and the organization
/// is looked at first.
pub open spec fn target_read(organization: ReadModel, project: ReadModel) -> Result<
    TargetModel,
    ErrorModel,
> {
    match required_read(organization, "No organization stored"@) {
        Err(error) => Err(error),
        Ok(organization) => match required_read(project, "No project stored"@) {
            Err(error) => Err(error),
            Ok(project) => Ok(TargetModel { organization, project }),
        },
    }
}

/// The mathematical content of the result of resolving a target.
pub open spec fn target_result(result: Result<TrackerTarget, CoreError>) -> Result<
    TargetModel,
    ErrorModel,
> {
    match result {
        Ok(target) => Ok(target@),
        Err(error) => Err(error@),
    }
}

/// The mathematical content of the result of a read.
pub open spec fn found_result(result: Result<Option<String>, CoreError>) -> Result<
    Option<Seq<char>>,
    ErrorModel,
> {
    match result {
        Ok(Some(secret)) => Ok(Some(secret@)),
        Ok(None) => Ok(None),
        Err(error) => Err(error@),
    }
}

/// Whether a store's error says that the entry does not exist.
pub fn is_missing_entry(detail: &str) -> (missing: bool)
    ensures
        missing == says_missing(detail@),
{
    str_contains(detail, "No entry") || str_contains(detail, "not found")
}

/// Reads the reply to a read of the token: the token, `None` where none
/// is stored (also where the store reports that as an error), or
/// `StoreUnavailable`.
pub fn get_devops_pat(reply: StoreRead) -> (result: Result<Option<String>, CoreError>)
    ensures
        found_result(result) == pat_read(reply@),
{
    match reply {
        StoreRead::Found { secret } => Ok(Some(secret)),
        StoreRead::Missing => Ok(None),
        StoreRead::Failed { detail } => {
            if is_missing_entry(detail.as_str()) {
                Ok(None)
            } else {
                Err(
                    CoreError::with_detail(
                        ErrorKind::StoreUnavailable,
                        "Failed to read PAT: ",
                        detail.as_str(),
                    ),
                )
            }
        },
    }
}

/// Whether the reply to a read of the token holds one. A store that
/// cannot be read counts as holding none.
pub fn has_devops_pat(reply: StoreRead) -> (has: bool)
    ensures
        has == (pat_read(reply@) matches Ok(Some(_))),
{
    match reply {
        StoreRead::Found { .. } => true,
        _ => false,
    }
}

/// Reads the reply to a read of a value that a call needs: the value,
/// `NotFound` with the message `missing` where none is stored, or
/// `StoreUnavailable`.
pub fn required_entry(reply: StoreRead, missing: &str) -> (result: Result<String, CoreError>)
    ensures
        text_result(result) == required_read(reply@, missing@),
{
    match reply {
        StoreRead::Found { secret } => Ok(secret),
        StoreRead::Missing => Err(CoreError::new(ErrorKind::NotFound, missing)),
        StoreRead::Failed { detail } => {
            if is_missing_entry(detail.as_str()) {
                Err(CoreError::new(ErrorKind::NotFound, missing))
            } else {
                Err(CoreError::new(ErrorKind::StoreUnavailable, "Failed to access keychain"))
            }
        },
    }
}

/// Reads the reply to a read of the token on behalf of a call to the
/// tracker, which cannot go on without one.
pub fn get_pat(reply: StoreRead) -> (result: Result<String, CoreError>)
    ensures
        text_result(result) == required_read(reply@, "No PAT stored"@),
{
    required_entry(reply, "No PAT stored")
}

/// The entry to remove when the token is deleted: the service and the
/// account of the token, and no other.
pub fn pat_removal() -> (key: (String, String))
    ensures
        key.0@ == "quick-notes"@,
        key.1@ == "azure_devops_pat"@,
        (key.0@, key.1@) == pat_key(),
{
    (String::from_str(SERVICE), String::from_str(PAT_ACCOUNT))
}

/// Reads the reply to the removal of the token: done, `NotFound` where
/// there was none, or `StoreUnavailable`.
pub fn delete_devops_pat(reply: StoreWrite) -> (result: Result<String, CoreError>)
    ensures
        text_result(result) == pat_removed(reply@),
{
    match reply {
        StoreWrite::Done => Ok(String::from_str("PAT deleted successfully")),
        StoreWrite::Failed { detail } => {
            if is_missing_entry(detail.as_str()) {
                Err(CoreError::new(ErrorKind::NotFound, "PAT not found"))
            } else {
                Err(
                    CoreError::with_detail(
                        ErrorKind::StoreUnavailable,
                        "Failed to delete PAT: ",
                        detail.as_str(),
                    ),
                )
            }
        },
    }
}

/// The value of the `Authorization` header for a stored token, or
/// `InvalidInput` where the machine cannot hold the encoded text.
pub fn authorization_for_pat(pat: &str) -> (result: Result<String, CoreError>)
    ensures
        text_result(result) == pat_authorization(pat@),
{
    match checked_basic_auth_header(pat) {
        Some(header) => Ok(header),
        None => Err(CoreError::new(ErrorKind::InvalidInput, "PAT is too long")),
    }
}

/// Reads the reply to a write of the organization or of the project.
pub fn org_project_persisted(reply: StoreWrite) -> (result: Result<(), CoreError>)
    ensures
        done_result(result) == setting_stored(reply@),
{
    match reply {
        StoreWrite::Done => Ok(()),
        StoreWrite::Failed { detail } => Err(
            CoreError::with_detail(
                ErrorKind::StoreUnavailable,
                "Failed to store setting: ",
                detail.as_str(),
            ),
        ),
    }
}

/// The writes that store the organization and the project that the calls
/// to the tracker are about.
pub fn save_devops_org_project(organization: &str, project: &str) -> (writes: (
    CredentialWrite,
    CredentialWrite,
))
    ensures
        (writes.0@, writes.1@) == org_project_writes(organization@, project@),
{
    (
        CredentialWrite {
            service: String::from_str(SERVICE),
            account: String::from_str(ORG_ACCOUNT),
            secret: String::from_str(organization),
        },
        CredentialWrite {
            service: String::from_str(SERVICE),
            account: String::from_str(PROJECT_ACCOUNT),
            secret: String::from_str(project),
        },
    )
}

/// Resolves the target of a call from the replies to the reads of the
/// organization and of the project.
pub fn tracker_target(organization: StoreRead, project: StoreRead) -> (result: Result<
    TrackerTarget,
    CoreError,
>)
    ensures
        target_result(result) == target_read(organization@, project@),
{
    match required_entry(organization, "No organization stored") {
        Err(error) => Err(error),
        Ok(organization) => match required_entry(project, "No project stored") {
            Err(error) => Err(error),
            Ok(project) => Ok(TrackerTarget { organization, project }),
        },
    }
}

/// The removal of the token takes away the token's entry and no other:
/// the organization, the project and every other entry stay as they were.
pub proof fn law_removal_takes_only_the_token(store: StoreModel)
    ensures
        !store_without_pat(store).dom().contains(pat_key()),
        forall|key: (Seq<char>, Seq<char>)|
            key != pat_key() ==> (#[trigger] store_without_pat(store).dom().contains(key)
                == store.dom().contains(key)) && store_without_pat(store)[key] == store[key],
        org_key() != pat_key(),
        project_key() != pat_key(),
        store_after_removal(WriteReplyModel::Done, store) == store_without_pat(store),
        forall|detail: Seq<char>|
            #[trigger] store_after_removal(WriteReplyModel::Failed { detail }, store) == store,
{
    reveal_strlit("azure_devops_pat");
    reveal_strlit("azure_devops_org");
    reveal_strlit("azure_devops_project");
    assert("azure_devops_pat"@[13] == 'p');
    assert("azure_devops_org"@[13] == 'o');
    assert("azure_devops_project"@.len() == 20);
    assert("azure_devops_pat"@.len() == 16);
}

} // verus!
