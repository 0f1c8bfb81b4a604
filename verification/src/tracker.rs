//! The tracker's REST interface: the requests that the core sends and the
//! reading of what comes back.
//!
//! The caller owns the connection. It sends an [`HttpRequest`] as it
//! stands and reports what happened as an [`HttpOutcome`].

use vstd::prelude::*;
use vstd::string::*;
use crate::error::{CoreError, ErrorKind, ErrorModel};
use crate::text::{
    decimal,
    json_string,
    push_decimal,
    push_json_string,
    push_signed_decimal,
    signed_decimal,
};

verus! {

/// The query that lists the work items assigned to the token's owner.
pub const ASSIGNED_TO_ME_QUERY: &'static str =
    "Select [System.Id] From WorkItems Where [System.AssignedTo] = @Me";

/// The harmless query that a new token is tried on.
pub const ALL_IDS_QUERY: &'static str = "Select [System.Id] From WorkItems";

/// The field that holds a work item's title.
pub const TITLE_FIELD: &'static str = "System.Title";

/// The field that holds the date at which a work item was closed.
pub const CLOSED_DATE_FIELD: &'static str = "Microsoft.VSTS.Common.ClosedDate";

/// The media type of every request body.
pub const JSON_CONTENT_TYPE: &'static str = "application/json";

/// The method of a request.
#[derive(Clone, Copy, Debug, PartialEq, Eq, Structural)]
pub enum HttpMethod {
    Get,
    Post,
}

/// The organization and the project that a call is about.
#[derive(Clone, Debug, PartialEq, Eq)]
pub struct TrackerTarget {
    pub organization: String,
    pub project: String,
}

/// A request to the tracker. One with a body is sent with the header
/// `Content-Type: application/json`, as [`content_type_of`] says.
#[derive(Clone, Debug, PartialEq, Eq)]
pub struct HttpRequest {
    pub method: HttpMethod,
    pub url: String,
    /// The value of the `Authorization` header.
    pub authorization: String,
    pub body: Option<String>,
}

/// What became of a request.
#[derive(Clone, Debug, PartialEq, Eq)]
pub enum HttpOutcome {
    /// The tracker answered and the body was read.
    Answered { status: u16, status_text: String, body: String },
    /// The tracker answered, but the body could not be read.
    BodyUnread { status: u16, status_text: String, detail: String },
    /// The request did not reach the tracker, or no answer came back.
    SendFailed { detail: String },
}

/// One entry of the answer to a query.
#[derive(Clone, Copy, Debug, PartialEq, Eq)]
pub struct WiqlWorkItem {
    pub id: i32,
}

/// The answer to a query, once parsed.
#[derive(Clone, Debug, PartialEq, Eq)]
pub struct WiqlResponse {
    pub work_items: Vec<WiqlWorkItem>,
}

/// The mathematical content of a [`TrackerTarget`].
pub struct TargetModel {
    pub organization: Seq<char>,
    pub project: Seq<char>,
}

/// The mathematical content of an [`HttpRequest`].
pub struct RequestModel {
    pub method: HttpMethod,
    pub url: Seq<char>,
    pub authorization: Seq<char>,
    pub body: Option<Seq<char>>,
}

/// The mathematical content of an [`HttpOutcome`].
pub enum OutcomeModel {
    Answered { status: u16, status_text: Seq<char>, body: Seq<char> },
    BodyUnread { status: u16, status_text: Seq<char>, detail: Seq<char> },
    SendFailed { detail: Seq<char> },
}

impl View for TrackerTarget {
    type V = TargetModel;

    open spec fn view(&self) -> TargetModel {
        TargetModel { organization: self.organization@, project: self.project@ }
    }
}

impl View for HttpRequest {
    type V = RequestModel;

    open spec fn view(&self) -> RequestModel {
        RequestModel {
            method: self.method,
            url: self.url@,
            authorization: self.authorization@,
            body: match self.body {
                Some(body) => Some(body@),
                None => None,
            },
        }
    }
}

impl View for HttpOutcome {
    type V = OutcomeModel;

    open spec fn view(&self) -> OutcomeModel {
        match *self {
            HttpOutcome::Answered { status, status_text, body } => OutcomeModel::Answered {
                status,
                status_text: status_text@,
                body: body@,
            },
            HttpOutcome::BodyUnread { status, status_text, detail } => OutcomeModel::BodyUnread {
                status,
                status_text: status_text@,
                detail: detail@,
            },
            HttpOutcome::SendFailed { detail } => OutcomeModel::SendFailed { detail: detail@ },
        }
    }
}

/// The media type that a request is sent with: `application/json` where it
/// has a body, none where it has none.
pub open spec fn content_type(request: RequestModel) -> Option<Seq<char>> {
    match request.body {
        Some(_) => Some("application/json"@),
        None => None,
    }
}

/// A GET request as a value.
pub open spec fn get_model(url: Seq<char>, authorization: Seq<char>) -> RequestModel {
    RequestModel { method: HttpMethod::Get, url, authorization, body: None }
}

/// A POST request as a value.
pub open spec fn post_model(url: Seq<char>, body: Seq<char>, authorization: Seq<char>)
    -> RequestModel {
    RequestModel { method: HttpMethod::Post, url, authorization, body: Some(body) }
}

/// The address of a project's REST interface.
pub open spec fn project_url(target: TargetModel) -> Seq<char> {
    "https://dev.azure.com/"@ + target.organization + "/"@ + target.project
}

/// The address of the query endpoint.
pub open spec fn wiql_url(target: TargetModel) -> Seq<char> {
    project_url(target) + "/_apis/wit/wiql?api-version=7.1"@
}

/// The address of one work item.
pub open spec fn work_item_url(target: TargetModel, id: int) -> Seq<char> {
    project_url(target) + "/_apis/wit/workitems/"@ + signed_decimal(id)
        + "?api-version=7.2-preview.3"@
}

/// The address of the batch endpoint.
pub open spec fn work_items_batch_url(target: TargetModel) -> Seq<char> {
    project_url(target) + "/_apis/wit/workitemsbatch?api-version=7.1"@
}

/// The body that carries a query: a JSON object whose one field, `query`,
/// is the text as a JSON string.
pub open spec fn wiql_body(wiql: Seq<char>) -> Seq<char> {
    "{\"query\": "@ + json_string(wiql) + "}"@
}

/// The request that runs a query.
pub open spec fn wiql_model(target: TargetModel, authorization: Seq<char>, wiql: Seq<char>)
    -> RequestModel {
    post_model(wiql_url(target), wiql_body(wiql), authorization)
}

/// The ids of a batch, as decimal numerals with commas between them.
pub open spec fn id_list(ids: Seq<i32>) -> Seq<char>
    decreases ids.len(),
{
    if ids.len() == 0 {
        Seq::empty()
    } else if ids.len() == 1 {
        signed_decimal(ids[0] as int)
    } else {
        id_list(ids.drop_last()) + ","@ + signed_decimal(ids.last() as int)
    }
}

/// The field names of a batch, each as a JSON string, with commas between
/// them.
pub open spec fn field_list(fields: Seq<Seq<char>>) -> Seq<char>
    decreases fields.len(),
{
    if fields.len() == 0 {
        Seq::empty()
    } else if fields.len() == 1 {
        json_string(fields[0])
    } else {
        field_list(fields.drop_last()) + ","@ + json_string(fields.last())
    }
}

/// The body that asks for the given fields of the given work items: a
/// JSON object with the ids as numbers and the field names as strings.
pub open spec fn batch_body(ids: Seq<i32>, fields: Seq<Seq<char>>) -> Seq<char> {
    "{\"ids\": ["@ + id_list(ids) + "], \"fields\": ["@ + field_list(fields) + "]}"@
}

/// The fields that the mirror reads of a work item: the title and the
/// date of closing.
pub open spec fn mirror_fields() -> Seq<Seq<char>> {
    seq!["System.Title"@, "Microsoft.VSTS.Common.ClosedDate"@]
}

/// The field names, as values.
pub open spec fn field_names(fields: Seq<String>) -> Seq<Seq<char>> {
    fields.map_values(|name: String| name@)
}

/// Whether a status counts as success: 200 to 299.
pub open spec fn is_success(status: u16) -> bool {
    200 <= status <= 299
}

/// The error for a status that is no success.
pub open spec fn remote_error(status: u16, status_text: Seq<char>) -> ErrorModel {
    ErrorModel {
        kind: ErrorKind::RemoteError { status },
        message: "Azure DevOps returned returned an error status: "@ + decimal(status as nat)
            + " "@ + status_text,
    }
}

/// The error for the status 203, by which the tracker says that the token
/// lacks the scope that the call needs.
pub open spec fn permission_denied() -> ErrorModel {
    ErrorModel {
        kind: ErrorKind::PermissionDenied,
        message: "Pat does not have permission (203)"@,
    }
}

/// What a status alone decides: 203 is a refusal, any other status from
/// 200 to 299 passes, and every other status is an error of the tracker.
pub open spec fn status_verdict(status: u16, status_text: Seq<char>) -> Option<ErrorModel> {
    if status == 203 {
        Some(permission_denied())
    } else if is_success(status) {
        None
    } else {
        Some(remote_error(status, status_text))
    }
}

/// What an outcome means to the caller: the body as text, or the error.
/// The status is judged before the body.
pub open spec fn outcome_result(outcome: OutcomeModel) -> Result<Seq<char>, ErrorModel> {
    match outcome {
        OutcomeModel::Answered { status, status_text, body } => match status_verdict(
            status,
            status_text,
        ) {
            Some(error) => Err(error),
            None => Ok(body),
        },
        OutcomeModel::BodyUnread { status, status_text, detail } => match status_verdict(
            status,
            status_text,
        ) {
            Some(error) => Err(error),
            None => Err(
                ErrorModel { kind: ErrorKind::TransportError, message: "Read body error: "@ + detail },
            ),
        },
        OutcomeModel::SendFailed { detail } => Err(
            ErrorModel { kind: ErrorKind::TransportError, message: "Read error: "@ + detail },
        ),
    }
}

/// The mathematical content of a result that holds text or an error.
pub open spec fn text_result(result: Result<String, CoreError>) -> Result<Seq<char>, ErrorModel> {
    match result {
        Ok(text) => Ok(text@),
        Err(error) => Err(error@),
    }
}

/// The value of the `Content-Type` header that a request is sent with, if
/// it is sent with one.
pub fn content_type_of(request: &HttpRequest) -> (media: Option<&'static str>)
    ensures
        (media is Some) == (request@.body is Some),
        media is Some ==> media->0@ == "application/json"@,
        match media {
            Some(text) => content_type(request@) == Some(text@),
            None => content_type(request@) is None,
        },
{
    match &request.body {
        Some(_) => Some(JSON_CONTENT_TYPE),
        None => None,
    }
}

/// An authenticated GET of `url`.
pub fn get_request(url: &str, authorization: &str) -> (request: HttpRequest)
    ensures
        request@ == get_model(url@, authorization@),
{
    HttpRequest {
        method: HttpMethod::Get,
        url: String::from_str(url),
        authorization: String::from_str(authorization),
        body: None,
    }
}

/// An authenticated POST of the JSON text `body` to `url`.
pub fn post_request(url: &str, body: &str, authorization: &str) -> (request: HttpRequest)
    ensures
        request@ == post_model(url@, body@, authorization@),
{
    HttpRequest {
        method: HttpMethod::Post,
        url: String::from_str(url),
        authorization: String::from_str(authorization),
        body: Some(String::from_str(body)),
    }
}

/// The address of the target's REST interface.
fn project_address(target: &TrackerTarget) -> (url: String)
    ensures
        url@ == project_url(target@),
{
    let mut url = String::from_str("https://dev.azure.com/");
    url.append(target.organization.as_str());
    url.append("/");
    url.append(target.project.as_str());
    url
}

/// The request that runs the query `wiql` on the target's query endpoint.
/// The answer's body is the raw JSON that lists the matching ids.
pub fn wiql_request(target: &TrackerTarget, authorization: &str, wiql: &str) -> (request:
    HttpRequest)
    ensures
        request@ == wiql_model(target@, authorization@, wiql@),
{
    let mut url = project_address(target);
    url.append("/_apis/wit/wiql?api-version=7.1");
    let mut body = String::from_str("{\"query\": ");
    push_json_string(&mut body, wiql);
    body.append("}");
    post_request(url.as_str(), body.as_str(), authorization)
}

/// The request that fetches the work item `id`.
pub fn work_item_request(target: &TrackerTarget, authorization: &str, id: i32) -> (request:
    HttpRequest)
    ensures
        request@ == get_model(work_item_url(target@, id as int), authorization@),
{
    let mut url = project_address(target);
    url.append("/_apis/wit/workitems/");
    push_signed_decimal(&mut url, id as i64);
    url.append("?api-version=7.2-preview.3");
    get_request(url.as_str(), authorization)
}

/// The request that fetches the given fields of the given work items in
/// one call.
pub fn work_items_batch_request(
    target: &TrackerTarget,
    authorization: &str,
    ids: &Vec<i32>,
    fields: &Vec<String>,
) -> (request: HttpRequest)
    ensures
        request@ == post_model(
            work_items_batch_url(target@),
            batch_body(ids@, field_names(fields@)),
            authorization@,
        ),
{
    let mut url = project_address(target);
    url.append("/_apis/wit/workitemsbatch?api-version=7.1");
    let mut body = String::from_str("{\"ids\": [");
    let ghost opening = body@;
    let mut i: usize = 0;
    while i < ids.len()
        invariant
            i <= ids.len(),
            body@ == opening + id_list(ids@.take(i as int)),
        decreases ids.len() - i,
    {
        let ghost before = ids@.take(i as int);
        assert(ids@.take(i + 1).drop_last() =~= before);
        if i > 0 {
            body.append(",");
        }
        push_signed_decimal(&mut body, ids[i] as i64);
        assert(body@ =~= opening + id_list(ids@.take(i + 1)));
        i += 1;
    }
    assert(ids@.take(ids.len() as int) =~= ids@);
    body.append("], \"fields\": [");
    let ghost middle = body@;
    let ghost names = field_names(fields@);
    let mut j: usize = 0;
    while j < fields.len()
        invariant
            j <= fields.len(),
            names == field_names(fields@),
            body@ == middle + field_list(names.take(j as int)),
        decreases fields.len() - j,
    {
        let ghost before = names.take(j as int);
        assert(names.take(j + 1).drop_last() =~= before);
        assert(names[j as int] == fields@[j as int]@);
        if j > 0 {
            body.append(",");
        }
        push_json_string(&mut body, fields[j].as_str());
        assert(body@ =~= middle + field_list(names.take(j + 1)));
        j += 1;
    }
    assert(names.take(fields.len() as int) =~= names);
    body.append("]}");
    post_request(url.as_str(), body.as_str(), authorization)
}

/// The request that fetches, of the given work items, what the mirror
/// reads: the title and the date of closing.
pub fn mirrored_items_request(target: &TrackerTarget, authorization: &str, ids: &Vec<i32>) -> (request:
    HttpRequest)
    ensures
        request@ == post_model(
            work_items_batch_url(target@),
            batch_body(ids@, mirror_fields()),
            authorization@,
        ),
{
    let mut fields: Vec<String> = Vec::new();
    fields.push(String::from_str(TITLE_FIELD));
    fields.push(String::from_str(CLOSED_DATE_FIELD));
    assert(field_names(fields@) =~= mirror_fields());
    work_items_batch_request(target, authorization, ids, &fields)
}

/// The error that a status alone decides, if it decides one.
pub fn check_status(status: u16, status_text: &str) -> (verdict: Option<CoreError>)
    ensures
        match verdict {
            Some(error) => status_verdict(status, status_text@) == Some(error@),
            None => status_verdict(status, status_text@) is None,
        },
{
    if status == 203 {
        Some(CoreError::new(ErrorKind::PermissionDenied, "Pat does not have permission (203)"))
    } else if 200 <= status && status <= 299 {
        None
    } else {
        let mut message = String::from_str("Azure DevOps returned returned an error status: ");
        push_decimal(&mut message, status as u64);
        message.append(" ");
        message.append(status_text);
        Some(CoreError { kind: ErrorKind::RemoteError { status }, message })
    }
}

/// Reads an outcome: the body of a successful answer as it came, or the
/// error. Nothing is retried.
pub fn read_outcome(outcome: HttpOutcome) -> (result: Result<String, CoreError>)
    ensures
        text_result(result) == outcome_result(outcome@),
{
    match outcome {
        HttpOutcome::Answered { status, status_text, body } => {
            match check_status(status, status_text.as_str()) {
                Some(error) => Err(error),
                None => Ok(body),
            }
        },
        HttpOutcome::BodyUnread { status, status_text, detail } => {
            match check_status(status, status_text.as_str()) {
                Some(error) => Err(error),
                None => Err(
                    CoreError::with_detail(
                        ErrorKind::TransportError,
                        "Read body error: ",
                        detail.as_str(),
                    ),
                ),
            }
        },
        HttpOutcome::SendFailed { detail } => Err(
            CoreError::with_detail(ErrorKind::TransportError, "Read error: ", detail.as_str()),
        ),
    }
}

/// The ids that the answer to a query lists, in the answer's order.
pub fn extract_item_ids(parsed: &WiqlResponse) -> (ids: Vec<i32>)
    ensures
        ids@ == parsed.work_items@.map_values(|item: WiqlWorkItem| item.id),
{
    let mut ids: Vec<i32> = Vec::new();
    let mut i: usize = 0;
    while i < parsed.work_items.len()
        invariant
            i <= parsed.work_items.len(),
            ids@ == parsed.work_items@.take(i as int).map_values(|item: WiqlWorkItem| item.id),
        decreases parsed.work_items.len() - i,
    {
        ids.push(parsed.work_items[i].id);
        assert(parsed.work_items@.take(i + 1) =~= parsed.work_items@.take(i as int).push(
            parsed.work_items@[i as int],
        ));
        i += 1;
    }
    assert(parsed.work_items@.take(parsed.work_items.len() as int) =~= parsed.work_items@);
    ids
}

} // verus!
