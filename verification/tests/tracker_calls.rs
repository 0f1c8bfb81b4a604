use devops_sync::error::{CoreError, ErrorKind};
use devops_sync::tracker::{
    check_status, content_type_of, extract_item_ids, get_request, mirrored_items_request,
    post_request,
    read_outcome, wiql_request, work_item_request, work_items_batch_request, HttpMethod,
    HttpOutcome, HttpRequest, TrackerTarget, WiqlResponse, WiqlWorkItem, ALL_IDS_QUERY,
    ASSIGNED_TO_ME_QUERY, CLOSED_DATE_FIELD, JSON_CONTENT_TYPE, TITLE_FIELD,
};

fn quick_notes() -> TrackerTarget {
    TrackerTarget { organization: "Lbalstad".to_string(), project: "Quick%20Notes".to_string() }
}

fn answered(status: u16, status_text: &str, body: &str) -> HttpOutcome {
    HttpOutcome::Answered {
        status,
        status_text: status_text.to_string(),
        body: body.to_string(),
    }
}

#[test]
fn get_request_carries_url_and_authorization() {
    let request = get_request("https://example.test/x", "Basic Og==");
    assert_eq!(
        request,
        HttpRequest {
            method: HttpMethod::Get,
            url: "https://example.test/x".to_string(),
            authorization: "Basic Og==".to_string(),
            body: None,
        }
    );
}

#[test]
fn post_request_carries_the_body() {
    let request = post_request("https://example.test/x", "{}", "Bearer t");
    assert_eq!(
        request,
        HttpRequest {
            method: HttpMethod::Post,
            url: "https://example.test/x".to_string(),
            authorization: "Bearer t".to_string(),
            body: Some("{}".to_string()),
        }
    );
}

#[test]
fn wiql_request_posts_the_query_to_the_query_endpoint() {
    let request = wiql_request(&quick_notes(), "Basic OmFiYw==", ALL_IDS_QUERY);
    assert_eq!(request.method, HttpMethod::Post);
    assert_eq!(
        request.url,
        "https://dev.azure.com/Lbalstad/Quick%20Notes/_apis/wit/wiql?api-version=7.1"
    );
    assert_eq!(request.authorization, "Basic OmFiYw==");
    assert_eq!(
        request.body,
        Some("{\"query\": \"Select [System.Id] From WorkItems\"}".to_string())
    );
}

#[test]
fn wiql_request_for_the_users_items() {
    let request = wiql_request(&quick_notes(), "Bearer t", ASSIGNED_TO_ME_QUERY);
    assert_eq!(
        request.body,
        Some(
            "{\"query\": \"Select [System.Id] From WorkItems Where [System.AssignedTo] = @Me\"}"
                .to_string()
        )
    );
}

#[test]
fn request_bodies_are_json() {
    assert_eq!(JSON_CONTENT_TYPE, "application/json");
    let post = post_request("https://example.test/x", "{}", "Bearer t");
    assert_eq!(content_type_of(&post), Some("application/json"));
    let query = wiql_request(&quick_notes(), "Basic Og==", ALL_IDS_QUERY);
    assert_eq!(content_type_of(&query), Some("application/json"));
}

#[test]
fn a_request_without_a_body_has_no_content_type() {
    let get = get_request("https://example.test/x", "Bearer t");
    assert_eq!(content_type_of(&get), None);
    assert_eq!(content_type_of(&work_item_request(&quick_notes(), "Basic Og==", 1)), None);
}

#[test]
fn a_quote_in_the_query_is_escaped() {
    let request = wiql_request(&quick_notes(), "Basic Og==", "x\"y");
    assert_eq!(request.body, Some("{\"query\": \"x\\\"y\"}".to_string()));
}

#[test]
fn backslashes_and_control_characters_in_the_query_are_escaped() {
    let request = wiql_request(&quick_notes(), "Basic Og==", "a\\b\nc\td\u{1f}e\u{0}");
    assert_eq!(
        request.body,
        Some("{\"query\": \"a\\\\b\\u000ac\\u0009d\\u001fe\\u0000\"}".to_string())
    );
}

#[test]
fn other_characters_of_the_query_stand_as_they_are() {
    let request = wiql_request(&quick_notes(), "x", "Where [System.Title] = 'é/ü' \u{7f}\u{20}");
    assert_eq!(
        request.body,
        Some("{\"query\": \"Where [System.Title] = 'é/ü' \u{7f}\u{20}\"}".to_string())
    );
}

#[test]
fn the_empty_query_is_the_empty_json_string() {
    let request = wiql_request(&quick_notes(), "x", "");
    assert_eq!(request.body, Some("{\"query\": \"\"}".to_string()));
}

#[test]
fn field_names_of_a_batch_are_escaped() {
    let fields = vec!["a\"b".to_string(), "c\\d".to_string()];
    let request = work_items_batch_request(&quick_notes(), "x", &vec![1], &fields);
    assert_eq!(
        request.body,
        Some("{\"ids\": [1], \"fields\": [\"a\\\"b\",\"c\\\\d\"]}".to_string())
    );
}

#[test]
fn work_item_request_names_the_id_in_the_url() {
    let request = work_item_request(&quick_notes(), "Basic Og==", 1);
    assert_eq!(request.method, HttpMethod::Get);
    assert_eq!(
        request.url,
        "https://dev.azure.com/Lbalstad/Quick%20Notes/_apis/wit/workitems/1?api-version=7.2-preview.3"
    );
    assert_eq!(request.body, None);
    let other = work_item_request(&quick_notes(), "Basic Og==", 20481);
    assert_eq!(
        other.url,
        "https://dev.azure.com/Lbalstad/Quick%20Notes/_apis/wit/workitems/20481?api-version=7.2-preview.3"
    );
}

#[test]
fn batch_request_lists_ids_and_fields() {
    let fields = vec!["System.Title".to_string(), "Microsoft.VSTS.Common.ClosedDate".to_string()];
    let request = work_items_batch_request(&quick_notes(), "Basic Og==", &vec![1, 22, 333], &fields);
    assert_eq!(request.method, HttpMethod::Post);
    assert_eq!(
        request.url,
        "https://dev.azure.com/Lbalstad/Quick%20Notes/_apis/wit/workitemsbatch?api-version=7.1"
    );
    assert_eq!(
        request.body,
        Some(
            "{\"ids\": [1,22,333], \"fields\": [\"System.Title\",\"Microsoft.VSTS.Common.ClosedDate\"]}"
                .to_string()
        )
    );
}

#[test]
fn batch_request_with_one_id_and_one_field() {
    let request =
        work_items_batch_request(&quick_notes(), "x", &vec![-5], &vec!["System.Id".to_string()]);
    assert_eq!(request.body, Some("{\"ids\": [-5], \"fields\": [\"System.Id\"]}".to_string()));
}

#[test]
fn batch_request_with_nothing_to_fetch() {
    let request = work_items_batch_request(&quick_notes(), "x", &vec![], &vec![]);
    assert_eq!(request.body, Some("{\"ids\": [], \"fields\": []}".to_string()));
}

#[test]
fn a_successful_answer_gives_the_body_as_it_came() {
    assert_eq!(read_outcome(answered(200, "OK", "{\"workItems\":[]}")), Ok("{\"workItems\":[]}".to_string()));
    assert_eq!(read_outcome(answered(201, "Created", "")), Ok(String::new()));
    assert_eq!(read_outcome(answered(299, "", "x")), Ok("x".to_string()));
}

#[test]
fn status_203_is_permission_denied() {
    let result = read_outcome(answered(203, "Non-Authoritative Information", "<html>"));
    assert_eq!(
        result,
        Err(CoreError {
            kind: ErrorKind::PermissionDenied,
            message: "Pat does not have permission (203)".to_string(),
        })
    );
}

#[test]
fn status_404_is_a_remote_error_and_no_permission_error() {
    let result = read_outcome(answered(404, "Not Found", "gone"));
    assert_eq!(
        result,
        Err(CoreError {
            kind: ErrorKind::RemoteError { status: 404 },
            message: "Azure DevOps returned returned an error status: 404 Not Found".to_string(),
        })
    );
    assert_ne!(result.unwrap_err().kind, ErrorKind::PermissionDenied);
}

#[test]
fn statuses_outside_200_to_299_are_remote_errors() {
    for status in [100u16, 199, 300, 301, 401, 500, 503, 999] {
        let result = read_outcome(answered(status, "Reason", "body"));
        assert_eq!(result.unwrap_err().kind, ErrorKind::RemoteError { status });
    }
}

#[test]
fn check_status_passes_success_only() {
    assert_eq!(check_status(200, "OK"), None);
    assert_eq!(check_status(204, "No Content"), None);
    assert_eq!(check_status(203, "x").map(|e| e.kind), Some(ErrorKind::PermissionDenied));
    assert_eq!(
        check_status(500, "Internal Server Error"),
        Some(CoreError {
            kind: ErrorKind::RemoteError { status: 500 },
            message: "Azure DevOps returned returned an error status: 500 Internal Server Error"
                .to_string(),
        })
    );
}

#[test]
fn a_request_that_was_not_answered_is_a_transport_error() {
    let result = read_outcome(HttpOutcome::SendFailed { detail: "connection refused".to_string() });
    assert_eq!(
        result,
        Err(CoreError {
            kind: ErrorKind::TransportError,
            message: "Read error: connection refused".to_string(),
        })
    );
}

#[test]
fn an_unread_body_is_a_transport_error() {
    let result = read_outcome(HttpOutcome::BodyUnread {
        status: 200,
        status_text: "OK".to_string(),
        detail: "stream closed".to_string(),
    });
    assert_eq!(
        result,
        Err(CoreError {
            kind: ErrorKind::TransportError,
            message: "Read body error: stream closed".to_string(),
        })
    );
}

#[test]
fn the_status_is_judged_before_the_body() {
    let denied = read_outcome(HttpOutcome::BodyUnread {
        status: 203,
        status_text: "x".to_string(),
        detail: "stream closed".to_string(),
    });
    assert_eq!(denied.unwrap_err().kind, ErrorKind::PermissionDenied);
    let failed = read_outcome(HttpOutcome::BodyUnread {
        status: 502,
        status_text: "Bad Gateway".to_string(),
        detail: "stream closed".to_string(),
    });
    assert_eq!(failed.unwrap_err().kind, ErrorKind::RemoteError { status: 502 });
}

#[test]
fn item_ids_come_out_in_the_answers_order() {
    let parsed = WiqlResponse {
        work_items: vec![WiqlWorkItem { id: 3 }, WiqlWorkItem { id: 1 }, WiqlWorkItem { id: 3 }],
    };
    assert_eq!(extract_item_ids(&parsed), vec![3, 1, 3]);
    assert_eq!(extract_item_ids(&WiqlResponse { work_items: vec![] }), Vec::<i32>::new());
}

#[test]
fn the_mirror_asks_for_title_and_closing_date() {
    assert_eq!(TITLE_FIELD, "System.Title");
    assert_eq!(CLOSED_DATE_FIELD, "Microsoft.VSTS.Common.ClosedDate");
    let request = mirrored_items_request(&quick_notes(), "Basic Og==", &vec![7, 8]);
    assert_eq!(request.method, HttpMethod::Post);
    assert_eq!(
        request.url,
        "https://dev.azure.com/Lbalstad/Quick%20Notes/_apis/wit/workitemsbatch?api-version=7.1"
    );
    assert_eq!(
        request.body,
        Some(
            "{\"ids\": [7,8], \"fields\": [\"System.Title\",\"Microsoft.VSTS.Common.ClosedDate\"]}"
                .to_string()
        )
    );
}

#[test]
fn the_query_body_parses_as_json_with_the_query_as_its_one_field() {
    let mut every_control = String::new();
    for code in 0u32..0x20 {
        every_control.push(char::from_u32(code).unwrap());
    }
    let texts = vec![
        "Select [System.Id] From WorkItems".to_string(),
        "x\"y".to_string(),
        "\\\"\\".to_string(),
        "tab\there \r\n new line".to_string(),
        "é€𝄞 \u{7f} \u{85} \u{2028}".to_string(),
        every_control,
        String::new(),
    ];
    for text in texts {
        let request = wiql_request(&quick_notes(), "Basic Og==", &text);
        let body = request.body.unwrap();
        let parsed: serde_json::Value = serde_json::from_str(&body).unwrap();
        let object = parsed.as_object().unwrap();
        assert_eq!(object.len(), 1);
        assert_eq!(object.get("query").and_then(|q| q.as_str()), Some(text.as_str()));
    }
}

#[test]
fn the_batch_body_parses_as_json_with_ids_and_fields() {
    let fields = vec!["System.Title".to_string(), "odd \"name\"\\\n".to_string()];
    let ids = vec![3, -4, 2147483647, -2147483648];
    let request = work_items_batch_request(&quick_notes(), "x", &ids, &fields);
    let parsed: serde_json::Value = serde_json::from_str(&request.body.unwrap()).unwrap();
    let object = parsed.as_object().unwrap();
    assert_eq!(object.len(), 2);
    let got_ids: Vec<i64> =
        object["ids"].as_array().unwrap().iter().map(|v| v.as_i64().unwrap()).collect();
    assert_eq!(got_ids, vec![3, -4, 2147483647, -2147483648]);
    let got_fields: Vec<&str> =
        object["fields"].as_array().unwrap().iter().map(|v| v.as_str().unwrap()).collect();
    assert_eq!(got_fields, vec!["System.Title", "odd \"name\"\\\n"]);
}
