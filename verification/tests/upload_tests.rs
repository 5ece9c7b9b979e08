use upload_gateway::app_config::{GoogleStorageConfig, ProjectConfig, SlackConfig};
use upload_gateway::auth_token_provider::{ReceivedTokenInfo, RefreshPolicy, TokenEvent};
use upload_gateway::error::{ErrorKind, ErrorWithStatusAndDesc};
use upload_gateway::handlers::file_upload::{file_upload, file_upload_with, UploadJob};
use upload_gateway::handlers::router::{
    finish_request, handle_request, handle_request_with, process_req, process_req_with, route,
    unwrap_result_to_response, unwrap_result_to_response_with_trace_id, ProcessStep, Route,
};
use upload_gateway::helpers::{HeaderMap, Response};
use upload_gateway::metrics::Metrics;
use upload_gateway::oauth2::TokenData;
use upload_gateway::project::google::{StorageEvent, StorageRequest};
use upload_gateway::project::proj::{build_success_response, Project, UploadEvent, UploadStep};
use upload_gateway::project::slack::{create_qr_data, SlackEvent, SlackMessage, SlackStep};
use upload_gateway::types::{App, QueryInput, Request, UploadQuery};

const CREDENTIALS: &[u8] = br#"{"client_email":"svc@example.com","token_uri":"https://oauth2.googleapis.com/token","private_key":"KEY"}"#;
const ID: &str = "0123456789abcdef0123456789abcdef";
const REQUEST_ID: &str = "fedcba9876543210fedcba9876543210";

fn tenant(token: &str, bucket: &str, slack: Option<SlackConfig>) -> Project {
    Project::new(
        ProjectConfig {
            api_token: token.to_string(),
            google_storage_target: GoogleStorageConfig {
                credentials_file: "/creds.json".to_string(),
                bucket_name: bucket.to_string(),
            },
            slack_link_dub: slack,
        },
        CREDENTIALS,
        RefreshPolicy::Eager,
    )
    .unwrap()
}

fn slack_config() -> SlackConfig {
    SlackConfig {
        token: "xoxb".to_string(),
        targets: vec!["C1".to_string(), "C2".to_string()],
        qr_code: true,
        default_text_before: None,
    }
}

fn app() -> App {
    App {
        projects: vec![
            tenant("tok1", "bucket1", None),
            tenant("tok2", "bucket2", Some(slack_config())),
        ],
    }
}

fn request(method: &str, path: &str, query: QueryInput, lines: Vec<(&str, &[u8])>) -> Request {
    let mut headers = HeaderMap::new();
    for (name, value) in lines {
        headers.append(name, value);
    }
    Request { method: method.to_string(), path: path.to_string(), query, headers }
}

fn query(filename: Option<&str>, slack_send: Option<bool>, prefix: Option<&str>) -> QueryInput {
    QueryInput::Parsed(UploadQuery {
        filename: filename.map(|s| s.to_string()),
        slack_send,
        slack_text_prefix: prefix.map(|s| s.to_string()),
    })
}

fn plain_upload(token: &str, query: QueryInput) -> Request {
    request(
        "POST",
        "/upload_file",
        query,
        vec![
            ("x-api-token", token.as_bytes()),
            ("content-type", b"text/plain"),
            ("content-length", b"9"),
        ],
    )
}

fn refusal(kind: ErrorKind, desc: &str) -> ErrorWithStatusAndDesc {
    ErrorWithStatusAndDesc { kind, desc: desc.to_string() }
}

fn granted(token: &str) -> UploadEvent {
    UploadEvent::Storage(StorageEvent::Token(TokenEvent::Fetched(ReceivedTokenInfo::request(
        TokenData { access_token: token.to_string(), expires_in: 3600 },
        0,
    ))))
}

fn stored(name: &str, bucket: &str, bytes_sent: u64) -> UploadEvent {
    UploadEvent::Storage(StorageEvent::Reply {
        status: 200,
        body: Some(format!("{{\"name\":\"{}\",\"bucket\":\"{}\"}}", name, bucket).into_bytes()),
        bytes_sent,
    })
}

#[test]
fn routes_follow_method_and_path() {
    assert_eq!(route("POST", "/upload_file"), Route::Upload);
    assert_eq!(route("POST", "/upload_file/"), Route::Upload);
    assert_eq!(route("POST", "/upload_file//"), Route::Upload);
    assert_eq!(route("GET", "/upload_file"), Route::Unknown);
    assert_eq!(route("post", "/upload_file"), Route::Unknown);
    assert_eq!(route("GET", "/health"), Route::Health);
    assert_eq!(route("GET", "/health/"), Route::Health);
    assert_eq!(route("POST", "/health"), Route::Unknown);
    assert_eq!(route("GET", "/prometheus_metrics"), Route::Metrics);
    assert_eq!(route("GET", "/"), Route::Unknown);
    assert_eq!(route("GET", "/upload_file/extra"), Route::Unknown);
}

#[test]
fn plain_text_upload_is_named_and_compressed() {
    let job = file_upload_with(&app(), &plain_upload("tok1", QueryInput::Absent), ID).unwrap();
    assert_eq!(
        job,
        UploadJob {
            project: 0,
            file_name: "0123456789abcdef0123456789abcdef.txt.gz".to_string(),
            compress: true,
            link_to_slack: false,
            slack_text_prefix: None,
            content_length: 9,
        }
    );
}

#[test]
fn upload_goes_to_the_tenant_of_its_token() {
    let a = app();
    assert_eq!(a.find_project("tok1"), Some(0));
    assert_eq!(a.find_project("tok2"), Some(1));
    assert_eq!(a.find_project("tok"), None);
    assert_eq!(a.find_project("TOK1"), None);
    assert_eq!(a.find_project(""), None);
    let job = file_upload_with(&a, &plain_upload("tok2", QueryInput::Absent), ID).unwrap();
    assert_eq!(job.project, 1);
    assert!(a.projects[job.project].check_token("tok2"));
    assert!(!a.projects[job.project].check_token("tok1"));
}

#[test]
fn first_tenant_of_a_repeated_token_is_served() {
    let a = App { projects: vec![tenant("same", "b1", None), tenant("same", "b2", None)] };
    assert_eq!(a.find_project("same"), Some(0));
}

#[test]
fn missing_token_is_unauthorized() {
    let r = request("POST", "/upload_file", QueryInput::Absent, vec![("content-length", b"9")]);
    assert_eq!(
        file_upload_with(&app(), &r, ID),
        Err(refusal(ErrorKind::Unauthorized, "Api token parsing failed"))
    );
}

#[test]
fn token_that_is_no_text_is_unauthorized() {
    let r = request(
        "POST",
        "/upload_file",
        QueryInput::Absent,
        vec![("x-api-token", &[0xff, 0xff]), ("content-length", b"9")],
    );
    assert_eq!(
        file_upload_with(&app(), &r, ID),
        Err(refusal(ErrorKind::Unauthorized, "Api token parsing failed"))
    );
}

#[test]
fn unknown_token_is_a_bad_request() {
    assert_eq!(
        file_upload_with(&app(), &plain_upload("nobody", QueryInput::Absent), ID),
        Err(refusal(ErrorKind::BadRequest, "Requested project is missing"))
    );
}

#[test]
fn malformed_query_is_a_bad_request() {
    assert_eq!(
        file_upload_with(&app(), &plain_upload("tok1", QueryInput::Malformed), ID),
        Err(refusal(ErrorKind::BadRequest, "Query parsing error"))
    );
}

#[test]
fn unknown_tenant_comes_before_the_query() {
    assert_eq!(
        file_upload_with(&app(), &plain_upload("nobody", QueryInput::Malformed), ID),
        Err(refusal(ErrorKind::BadRequest, "Requested project is missing"))
    );
}

#[test]
fn missing_content_length_is_refused() {
    let r = request("POST", "/upload_file", QueryInput::Absent, vec![("x-api-token", b"tok1")]);
    assert_eq!(
        file_upload_with(&app(), &r, ID),
        Err(refusal(ErrorKind::LengthRequired, "Content-Length header is missing"))
    );
}

#[test]
fn unreadable_content_length_is_refused() {
    let r = request(
        "POST",
        "/upload_file",
        QueryInput::Absent,
        vec![("x-api-token", b"tok1"), ("content-length", b"nine")],
    );
    assert_eq!(
        file_upload_with(&app(), &r, ID),
        Err(refusal(ErrorKind::LengthRequired, "Content-Length header parsing failed"))
    );
}

#[test]
fn refusals_carry_their_status() {
    assert_eq!(refusal(ErrorKind::BadRequest, "").status(), 400);
    assert_eq!(refusal(ErrorKind::Unauthorized, "").status(), 401);
    assert_eq!(refusal(ErrorKind::LengthRequired, "").status(), 411);
    assert_eq!(refusal(ErrorKind::UpstreamError, "").status(), 500);
    assert_eq!(refusal(ErrorKind::InternalError, "").status(), 500);
    let e = ErrorWithStatusAndDesc::new_with_status_desc(ErrorKind::BadRequest, "why");
    assert_eq!(e, refusal(ErrorKind::BadRequest, "why"));
}

#[test]
fn name_of_the_query_is_kept_exactly() {
    let q = query(Some("file_1700000000_2.txt"), None, None);
    let job = file_upload_with(&app(), &plain_upload("tok1", q), ID).unwrap();
    assert_eq!(job.file_name, "file_1700000000_2.txt");
    assert!(!job.compress);
}

#[test]
fn name_of_the_header_is_kept_exactly() {
    let r = request(
        "POST",
        "/upload_file",
        QueryInput::Absent,
        vec![
            ("x-api-token", b"tok1"),
            ("content-length", b"16"),
            ("content-type", b"text/plain"),
            ("x-filename", b"file_1700000000_1.txt"),
        ],
    );
    let job = file_upload_with(&app(), &r, ID).unwrap();
    assert_eq!(job.file_name, "file_1700000000_1.txt");
    assert!(!job.compress);
    assert_eq!(job.content_length, 16);
}

#[test]
fn header_name_comes_before_query_name() {
    let r = request(
        "POST",
        "/upload_file",
        query(Some("from_query.txt"), None, None),
        vec![
            ("x-api-token", b"tok1"),
            ("content-length", b"1"),
            ("x-filename", b"from_header.txt"),
        ],
    );
    assert_eq!(file_upload_with(&app(), &r, ID).unwrap().file_name, "from_header.txt");
}

#[test]
fn header_name_that_is_no_text_is_a_bad_request() {
    let r = request(
        "POST",
        "/upload_file",
        QueryInput::Absent,
        vec![("x-api-token", b"tok1"), ("content-length", b"1"), ("x-filename", &[0xc0])],
    );
    assert_eq!(
        file_upload_with(&app(), &r, ID),
        Err(refusal(ErrorKind::BadRequest, "Filename parsing failed"))
    );
}

#[test]
fn unreadable_content_type_is_refused_without_a_name() {
    let r = request(
        "POST",
        "/upload_file",
        QueryInput::Absent,
        vec![("x-api-token", b"tok1"), ("content-length", b"1"), ("content-type", b"??")],
    );
    assert_eq!(
        file_upload_with(&app(), &r, ID),
        Err(refusal(ErrorKind::BadRequest, "Content type parsing failed"))
    );
}

#[test]
fn query_members_reach_the_job() {
    let q = query(None, Some(true), Some("Custom prefix text from query: "));
    let job = file_upload_with(&app(), &plain_upload("tok2", q), ID).unwrap();
    assert!(job.link_to_slack);
    assert_eq!(job.slack_text_prefix, Some("Custom prefix text from query: ".to_string()));
    let q = query(None, Some(false), None);
    assert!(!file_upload_with(&app(), &plain_upload("tok2", q), ID).unwrap().link_to_slack);
    let q = query(None, None, None);
    assert!(!file_upload_with(&app(), &plain_upload("tok2", q), ID).unwrap().link_to_slack);
}

#[test]
fn mirror_is_refused_for_a_tenant_without_one() {
    let q = query(None, Some(true), None);
    assert_eq!(
        file_upload_with(&app(), &plain_upload("tok1", q), ID),
        Err(refusal(
            ErrorKind::BadRequest,
            "Slack posting is not configured for this application"
        ))
    );
}

#[test]
fn upload_without_name_draws_a_fresh_id() {
    let a = file_upload(&app(), &plain_upload("tok1", QueryInput::Absent)).unwrap();
    let b = file_upload(&app(), &plain_upload("tok1", QueryInput::Absent)).unwrap();
    assert_eq!(a.file_name.len(), 39);
    assert!(a.file_name.ends_with(".txt.gz"));
    assert!(a.file_name[..32].chars().all(|c| matches!(c, '0'..='9' | 'a'..='f')));
    assert_ne!(a.file_name, b.file_name);
}

#[test]
fn wrong_method_is_a_bad_request() {
    let r = request(
        "GET",
        "/upload_file",
        QueryInput::Absent,
        vec![("x-api-token", b"tok1"), ("content-length", b"0")],
    );
    let expected = Err(refusal(ErrorKind::BadRequest, "Wrong path or method"));
    assert_eq!(handle_request_with(&app(), &r, ID), expected);
    assert_eq!(handle_request(&app(), &r), expected);
    let r = request("POST", "/other", QueryInput::Absent, vec![("x-api-token", b"tok1")]);
    assert_eq!(handle_request_with(&app(), &r, ID), expected);
}

#[test]
fn upload_route_is_checked() {
    let job = handle_request_with(&app(), &plain_upload("tok1", QueryInput::Absent), ID).unwrap();
    assert_eq!(job.file_name, "0123456789abcdef0123456789abcdef.txt.gz");
}

#[test]
fn get_on_upload_route_answers_400_and_is_counted() {
    let mut m = Metrics::new();
    let r = request("GET", "/upload_file/", QueryInput::Absent, vec![("x-api-token", b"tok1")]);
    match process_req_with(&app(), &r, &mut m, REQUEST_ID, ID) {
        ProcessStep::Respond(result) => {
            assert!(result.allow_metric_count);
            assert_eq!(result.response.status, 400);
            assert_eq!(
                result.response.body,
                "{\"request_id\":\"fedcba9876543210fedcba9876543210\",\"desc\":\"Wrong path or method\"}"
            );
            assert!(result.response.close_connection);
            assert_eq!(result.response.content_type, Some("application/json".to_string()));
            assert_eq!(result.response.content_length, Some(result.response.body.len()));
        }
        other => panic!("unexpected step {:?}", other),
    }
    assert_eq!(m.total_requests(), 1);
    assert_eq!(m.return_codes().len(), 1);
    assert_eq!(m.return_codes()[0].api_path, "/upload_file");
    assert_eq!(m.return_codes()[0].method, "GET");
    assert_eq!(m.return_codes()[0].status_code, 400);
    assert_eq!(m.return_codes()[0].count, 1);
}

#[test]
fn missing_token_answers_401_with_the_request_id() {
    let mut m = Metrics::new();
    let r = request("POST", "/upload_file", QueryInput::Absent, vec![("content-length", b"9")]);
    match process_req(&app(), &r, &mut m) {
        ProcessStep::Respond(result) => {
            assert_eq!(result.response.status, 401);
            let value: serde_json::Value = serde_json::from_str(&result.response.body).unwrap();
            assert_eq!(
                value.get("desc").and_then(|v| v.as_str()),
                Some("Api token parsing failed")
            );
            let id = value.get("request_id").and_then(|v| v.as_str()).unwrap();
            assert_eq!(id.len(), 32);
            assert!(id.chars().all(|c| matches!(c, '0'..='9' | 'a'..='f')));
        }
        other => panic!("unexpected step {:?}", other),
    }
    assert_eq!(m.return_codes()[0].status_code, 401);
}

#[test]
fn health_is_answered_empty_and_not_counted() {
    let mut m = Metrics::new();
    let r = request("GET", "/health", QueryInput::Absent, vec![]);
    match process_req_with(&app(), &r, &mut m, REQUEST_ID, ID) {
        ProcessStep::Respond(result) => {
            assert!(!result.allow_metric_count);
            assert_eq!(
                result.response,
                Response {
                    status: 200,
                    content_type: None,
                    content_length: None,
                    close_connection: false,
                    body: String::new(),
                }
            );
        }
        other => panic!("unexpected step {:?}", other),
    }
    assert_eq!(m, Metrics::new());
}

#[test]
fn metrics_route_is_rendered_and_not_counted() {
    let mut m = Metrics::new();
    let r = request("GET", "/prometheus_metrics/", QueryInput::Absent, vec![]);
    assert_eq!(process_req_with(&app(), &r, &mut m, REQUEST_ID, ID), ProcessStep::RenderMetrics);
    assert_eq!(m, Metrics::new());
}

#[test]
fn upload_that_passes_is_run() {
    let mut m = Metrics::new();
    let r = plain_upload("tok1", QueryInput::Absent);
    match process_req_with(&app(), &r, &mut m, REQUEST_ID, ID) {
        ProcessStep::Upload { request_id, job } => {
            assert_eq!(request_id, REQUEST_ID);
            assert_eq!(job.file_name, "0123456789abcdef0123456789abcdef.txt.gz");
        }
        other => panic!("unexpected step {:?}", other),
    }
    assert_eq!(m.total_requests(), 1);
    assert!(m.return_codes().is_empty());
}

#[test]
fn request_ids_are_fresh() {
    let mut m = Metrics::new();
    let r = plain_upload("tok1", QueryInput::Absent);
    let a = process_req(&app(), &r, &mut m);
    let b = process_req(&app(), &r, &mut m);
    match (a, b) {
        (
            ProcessStep::Upload { request_id: id_a, job: job_a },
            ProcessStep::Upload { request_id: id_b, job: job_b },
        ) => {
            assert_eq!(id_a.len(), 32);
            assert_ne!(id_a, id_b);
            assert_ne!(job_a.file_name, job_b.file_name);
            assert_ne!(&job_a.file_name[..32], id_a.as_str());
        }
        other => panic!("unexpected steps {:?}", other),
    }
    assert_eq!(m.total_requests(), 2);
}

#[test]
fn results_become_answers() {
    let ok = build_success_response("https://l", "id", false);
    assert_eq!(unwrap_result_to_response_with_trace_id(Ok(ok.clone()), "trace"), ok);
    assert_eq!(unwrap_result_to_response(Ok(ok.clone())), ok);
    let with_id = unwrap_result_to_response_with_trace_id(
        Err(refusal(ErrorKind::LengthRequired, "Content-Length header is missing")),
        "trace",
    );
    assert_eq!(with_id.status, 411);
    assert_eq!(
        with_id.body,
        "{\"request_id\":\"trace\",\"desc\":\"Content-Length header is missing\"}"
    );
    assert!(with_id.close_connection);
    let plain = unwrap_result_to_response(Err(refusal(ErrorKind::InternalError, "Empty body")));
    assert_eq!(plain.status, 500);
    assert_eq!(plain.body, "{\"desc\":\"Empty body\"}");
    assert!(!plain.close_connection);
}

#[test]
fn success_answer_is_compact_json() {
    let r = build_success_response(
        "https://storage.cloud.google.com/bucket1/a.txt.gz",
        REQUEST_ID,
        true,
    );
    assert_eq!(r.status, 200);
    assert_eq!(r.content_type, Some("application/json".to_string()));
    assert_eq!(
        r.body,
        "{\"link\":\"https://storage.cloud.google.com/bucket1/a.txt.gz\",\"request_id\":\"fedcba9876543210fedcba9876543210\",\"slack_sent\":true}"
    );
    assert_eq!(r.content_length, Some(r.body.len()));
    assert!(!r.close_connection);
}

#[test]
fn plain_upload_runs_to_the_link() {
    let mut a = app();
    let mut m = Metrics::new();
    let r = plain_upload("tok1", QueryInput::Absent);
    let (request_id, job) = match process_req_with(&a, &r, &mut m, REQUEST_ID, ID) {
        ProcessStep::Upload { request_id, job } => (request_id, job),
        other => panic!("unexpected step {:?}", other),
    };
    let project = &mut a.projects[job.project];
    let mut run = |event: UploadEvent, m: &mut Metrics| {
        project.upload(
            &job.file_name,
            job.link_to_slack,
            job.slack_text_prefix.as_ref(),
            &request_id,
            event,
            10,
            m,
        )
    };
    assert_eq!(run(UploadEvent::Start, &mut m), UploadStep::FetchToken);
    assert_eq!(
        run(granted("ya29"), &mut m),
        UploadStep::Store {
            request: StorageRequest {
                method: "POST".to_string(),
                http2: true,
                url: "https://storage.googleapis.com/upload/storage/v1/b/bucket1/o?name=0123456789abcdef0123456789abcdef.txt.gz&uploadType=media&fields=id%2Cname%2Cbucket%2CselfLink%2Cmd5Hash%2CmediaLink".to_string(),
                authorization: "Bearer ya29".to_string(),
                accept: "application/json".to_string(),
                content_type: "application/octet-stream".to_string(),
                user_agent: "hyper".to_string(),
            },
            refresh: false,
        }
    );
    let result = match run(stored(&job.file_name, "bucket1", 29), &mut m) {
        UploadStep::Respond(result) => result,
        other => panic!("unexpected step {:?}", other),
    };
    let response = finish_request(&r, &request_id, result, &mut m);
    assert_eq!(response.status, 200);
    assert_eq!(
        response.body,
        "{\"link\":\"https://storage.cloud.google.com/bucket1/0123456789abcdef0123456789abcdef.txt.gz\",\"request_id\":\"fedcba9876543210fedcba9876543210\",\"slack_sent\":false}"
    );
    assert_eq!(m.total_requests(), 1);
    assert_eq!(m.total_bytes_uploaded(), 29);
    assert_eq!(m.upload_sizes_ok().count(), 1);
    assert_eq!(m.return_codes().len(), 1);
    assert_eq!(m.return_codes()[0].status_code, 200);
    assert_eq!(m.return_codes()[0].api_path, "/upload_file");
    assert_eq!(m.return_codes()[0].method, "POST");
}

#[test]
fn mirror_without_chat_is_refused_before_anything_is_stored() {
    let mut a = app();
    let mut m = Metrics::new();
    let step =
        a.projects[0].upload("n.txt", true, None, REQUEST_ID, UploadEvent::Start, 0, &mut m);
    assert_eq!(
        step,
        UploadStep::Respond(Err(refusal(
            ErrorKind::BadRequest,
            "Slack posting is not configured for this application"
        )))
    );
    assert_eq!(m, Metrics::new());
    assert!(!a.projects[0].google_uploader.token_provider.in_flight);
    assert_eq!(a.projects[0].google_uploader.token_provider.iteration, 0);
    let q = query(None, Some(true), None);
    match process_req_with(&a, &plain_upload("tok1", q), &mut m, REQUEST_ID, ID) {
        ProcessStep::Respond(result) => {
            assert_eq!(result.response.status, 400);
            assert_eq!(
                result.response.body,
                "{\"request_id\":\"fedcba9876543210fedcba9876543210\",\"desc\":\"Slack posting is not configured for this application\"}"
            );
        }
        other => panic!("unexpected step {:?}", other),
    }
    assert_eq!(m.total_bytes_uploaded(), 0);
}

#[test]
fn mirrored_upload_posts_message_and_picture_to_both_channels() {
    let mut a = app();
    let mut m = Metrics::new();
    let q = query(None, Some(true), Some("Custom prefix text from query: "));
    let r = plain_upload("tok2", q);
    let (request_id, job) = match process_req_with(&a, &r, &mut m, REQUEST_ID, ID) {
        ProcessStep::Upload { request_id, job } => (request_id, job),
        other => panic!("unexpected step {:?}", other),
    };
    assert_eq!(job.project, 1);
    let project = &mut a.projects[job.project];
    let mut run = |event: UploadEvent, m: &mut Metrics| {
        project.upload(
            &job.file_name,
            job.link_to_slack,
            job.slack_text_prefix.as_ref(),
            &request_id,
            event,
            10,
            m,
        )
    };
    assert_eq!(run(UploadEvent::Start, &mut m), UploadStep::FetchToken);
    assert!(matches!(run(granted("ya29"), &mut m), UploadStep::Store { .. }));
    let link = "https://storage.cloud.google.com/bucket2/0123456789abcdef0123456789abcdef.txt.gz";
    assert_eq!(
        run(stored(&job.file_name, "bucket2", 29), &mut m),
        UploadStep::Notify {
            link: link.to_string(),
            step: SlackStep::SendMessages {
                text: format!("Custom prefix text from query: <{}|link>", link),
                targets: vec!["C1".to_string(), "C2".to_string()],
            },
        }
    );
    let sent = vec![
        Some(SlackMessage { channel_id: "C1".to_string(), thread_id: "1.1".to_string() }),
        Some(SlackMessage { channel_id: "C2".to_string(), thread_id: "2.2".to_string() }),
    ];
    let step = run(
        UploadEvent::Slack { link: link.to_string(), event: SlackEvent::MessagesSent(Ok(sent)) },
        &mut m,
    );
    assert_eq!(
        step,
        UploadStep::Notify {
            link: link.to_string(),
            step: SlackStep::SendImages {
                image: create_qr_data(link).unwrap(),
                threads: vec![
                    SlackMessage { channel_id: "C1".to_string(), thread_id: "1.1".to_string() },
                    SlackMessage { channel_id: "C2".to_string(), thread_id: "2.2".to_string() },
                ],
            },
        }
    );
    let result = match run(
        UploadEvent::Slack { link: link.to_string(), event: SlackEvent::ImagesSent(Ok(())) },
        &mut m,
    ) {
        UploadStep::Respond(result) => result,
        other => panic!("unexpected step {:?}", other),
    };
    let response = finish_request(&r, &request_id, result, &mut m);
    assert_eq!(response.status, 200);
    assert_eq!(
        response.body,
        format!(
            "{{\"link\":\"{}\",\"request_id\":\"fedcba9876543210fedcba9876543210\",\"slack_sent\":true}}",
            link
        )
    );
}

#[test]
fn failure_of_the_mirror_fails_the_request() {
    let mut a = app();
    let mut m = Metrics::new();
    let step = a.projects[1].upload(
        "n",
        true,
        None,
        REQUEST_ID,
        UploadEvent::Slack {
            link: "https://l".to_string(),
            event: SlackEvent::MessagesSent(Err("boom".to_string())),
        },
        0,
        &mut m,
    );
    assert_eq!(
        step,
        UploadStep::Respond(Err(refusal(ErrorKind::UpstreamError, "Slack error: boom")))
    );
}

#[test]
fn failure_of_the_storage_fails_the_request() {
    let mut a = app();
    let mut m = Metrics::new();
    let mut step =
        a.projects[1].upload("n", true, None, REQUEST_ID, UploadEvent::Start, 0, &mut m);
    let mut fetches = 0;
    while step == UploadStep::FetchToken {
        fetches += 1;
        step = a.projects[1].upload(
            "n",
            true,
            None,
            REQUEST_ID,
            UploadEvent::Storage(StorageEvent::Token(TokenEvent::Fetched(None))),
            0,
            &mut m,
        );
    }
    assert_eq!(fetches, 10);
    assert_eq!(
        step,
        UploadStep::Respond(Err(refusal(
            ErrorKind::Unauthorized,
            "Google cloud token receive failed"
        )))
    );
    let result = match step {
        UploadStep::Respond(result) => result,
        other => panic!("unexpected step {:?}", other),
    };
    let r = plain_upload("tok2", QueryInput::Absent);
    let response = finish_request(&r, REQUEST_ID, result, &mut m);
    assert_eq!(response.status, 401);
    assert_eq!(m.return_codes()[0].status_code, 401);
}

#[test]
fn tenant_is_made_from_its_configuration() {
    let p = tenant("tok2", "bucket2", Some(slack_config()));
    assert_eq!(p.api_token, "tok2");
    assert_eq!(p.google_uploader.target_bucket, "bucket2");
    let sender = p.slack_link_sender.unwrap();
    assert_eq!(sender.targets, vec!["C1".to_string(), "C2".to_string()]);
    assert!(sender.qr_code);
    let none = Project::new(
        ProjectConfig {
            api_token: "t".to_string(),
            google_storage_target: GoogleStorageConfig {
                credentials_file: "/c".to_string(),
                bucket_name: "b".to_string(),
            },
            slack_link_dub: None,
        },
        b"not json",
        RefreshPolicy::Eager,
    );
    assert_eq!(none, None);
}

#[test]
fn success_answer_is_json_for_any_name() {
    let link = "https://storage.cloud.google.com/bucket1/a \"b\" \\ c\n.txt";
    let r = build_success_response(link, REQUEST_ID, false);
    let value: serde_json::Value = serde_json::from_str(&r.body).unwrap();
    assert_eq!(value.get("link").and_then(|v| v.as_str()), Some(link));
    assert_eq!(value.get("request_id").and_then(|v| v.as_str()), Some(REQUEST_ID));
    assert_eq!(value.get("slack_sent").and_then(|v| v.as_bool()), Some(false));
    assert_eq!(r.content_length, Some(r.body.len()));
    assert_eq!(
        r.body,
        "{\"link\":\"https://storage.cloud.google.com/bucket1/a \\\"b\\\" \\\\ c\\n.txt\",\"request_id\":\"fedcba9876543210fedcba9876543210\",\"slack_sent\":false}"
    );
}

#[test]
fn refusal_of_the_storage_service_reaches_the_client_as_json() {
    let mut a = app();
    let mut m = Metrics::new();
    let step = a.projects[0].upload(
        "n",
        false,
        None,
        REQUEST_ID,
        UploadEvent::Storage(StorageEvent::Reply {
            status: 403,
            body: Some(b"{\n \"error\": {\"message\": \"Access \\\"denied\\\"\"}\n}".to_vec()),
            bytes_sent: 9,
        }),
        0,
        &mut m,
    );
    let result = match step {
        UploadStep::Respond(result) => result,
        other => panic!("unexpected step {:?}", other),
    };
    let r = plain_upload("tok1", QueryInput::Absent);
    let response = finish_request(&r, REQUEST_ID, result, &mut m);
    assert_eq!(response.status, 500);
    let value: serde_json::Value = serde_json::from_str(&response.body).unwrap();
    assert_eq!(
        value.get("desc").and_then(|v| v.as_str()),
        Some("Google error response: {\"error\":{\"message\":\"Access \\\"denied\\\"\"}}")
    );
    assert_eq!(value.get("request_id").and_then(|v| v.as_str()), Some(REQUEST_ID));
    assert_eq!(response.content_length, Some(response.body.len()));
    assert_eq!(m.upload_sizes_fail().count(), 1);
}

#[test]
fn failed_transport_is_counted_and_answered() {
    let mut a = app();
    let mut m = Metrics::new();
    let step = a.projects[0].upload(
        "n",
        false,
        None,
        REQUEST_ID,
        UploadEvent::Storage(StorageEvent::Failed { bytes_sent: 5 }),
        0,
        &mut m,
    );
    assert_eq!(
        step,
        UploadStep::Respond(Err(refusal(ErrorKind::UpstreamError, "Google cloud error")))
    );
    assert_eq!(m.total_bytes_uploaded(), 5);
    assert_eq!(m.upload_sizes_fail().count(), 1);
    assert_eq!(m.upload_sizes_ok().count(), 0);
}

#[test]
fn tenant_keeps_the_token_of_its_mirror() {
    let p = tenant("tok2", "bucket2", Some(slack_config()));
    assert_eq!(p.slack_link_sender.as_ref().unwrap().token, "xoxb");
    let mut a = app();
    let mut m = Metrics::new();
    let before = a.projects[1].slack_link_sender.clone();
    a.projects[1].upload("n", true, None, REQUEST_ID, UploadEvent::Start, 0, &mut m);
    a.projects[1].upload("n", true, None, REQUEST_ID, granted("ya29"), 0, &mut m);
    a.projects[1].upload("n", true, None, REQUEST_ID, stored("n", "bucket2", 1), 0, &mut m);
    assert_eq!(a.projects[1].slack_link_sender, before);
    assert_eq!(a.projects[1].api_token, "tok2");
    assert_eq!(a.projects[1].google_uploader.target_bucket, "bucket2");
}
