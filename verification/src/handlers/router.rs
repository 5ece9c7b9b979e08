//! The routes of the gateway, and the bookkeeping around each request.

use crate::error::{failure, status_of, ErrorKind, ErrorView, ErrorWithStatusAndDesc};
use crate::handlers::file_upload::{
    checked_upload, file_upload_with, is_object_id, job_view, UploadJob, UploadJobView,
};
use crate::helpers::{
    error_json, error_json_with_id, json_response, response_with_status_and_error,
    response_with_status_desc_and_trace_id, Response, ResponseView,
};
use crate::metrics::{
    count_request, count_response_status, counted_request, counted_status, Metrics, MetricsView,
    ReturnCodeLabels,
};
use crate::outside::random_uuid_hex;
use crate::project::proj::{respond_view, ProjectView};
use crate::text::{str_eq, trim_trailing_slashes, without_trailing_slashes};
use crate::types::{App, Request, RequestView};
use vstd::prelude::*;

verus! {

/// The routes of the gateway.
#[derive(Debug, Clone, Copy, PartialEq, Eq, Structural)]
pub enum Route {
    /// `POST /upload_file`
    Upload,
    /// `GET /health`
    Health,
    /// `GET /prometheus_metrics`
    Metrics,
    /// Everything else.
    Unknown,
}

/// The route of a method and a path. Slashes at the end of the path do not
/// count.
pub open spec fn route_of(method: Seq<char>, path: Seq<char>) -> Route {
    let path = without_trailing_slashes(path);
    if method == "POST"@ && path == "/upload_file"@ {
        Route::Upload
    } else if method == "GET"@ && path == "/health"@ {
        Route::Health
    } else if method == "GET"@ && path == "/prometheus_metrics"@ {
        Route::Metrics
    } else {
        Route::Unknown
    }
}

/// Finds the route of a method and a path.
pub fn route(method: &str, path: &str) -> (r: Route)
    ensures
        r == route_of(method@, path@),
{
    let path = trim_trailing_slashes(path);
    if str_eq(method, "POST") && str_eq(path, "/upload_file") {
        Route::Upload
    } else if str_eq(method, "GET") && str_eq(path, "/health") {
        Route::Health
    } else if str_eq(method, "GET") && str_eq(path, "/prometheus_metrics") {
        Route::Metrics
    } else {
        Route::Unknown
    }
}

/// An answer, and whether the request counts in the business metrics.
#[derive(Debug, Clone, PartialEq, Eq)]
pub struct RequestProcessResult {
    pub response: Response,
    pub allow_metric_count: bool,
}

/// The answer to a health check: status 200 and nothing else.
pub open spec fn health_response() -> ResponseView {
    ResponseView {
        status: 200,
        content_type: None,
        content_length: None,
        close_connection: false,
        body: Seq::empty(),
    }
}

/// The answer that a result stands for, for the request with the given id: a
/// failure becomes the error answer of its status that names the request.
pub open spec fn response_or_error(
    r: Result<ResponseView, ErrorView>,
    request_id: Seq<char>,
) -> ResponseView {
    match r {
        Ok(response) => response,
        Err(e) => json_response(status_of(e.kind), error_json_with_id(e.desc, request_id), true),
    }
}

/// The answer that a result stands for where no request is named.
pub open spec fn response_or_plain_error(r: Result<ResponseView, ErrorView>) -> ResponseView {
    match r {
        Ok(response) => response,
        Err(e) => json_response(status_of(e.kind), error_json(e.desc), false),
    }
}

/// Turns a result into the answer for the request with the given id.
pub fn unwrap_result_to_response_with_trace_id(
    res: Result<Response, ErrorWithStatusAndDesc>,
    trace_id: &str,
) -> (r: Response)
    ensures
        r@ == response_or_error(respond_view(res), trace_id@),
{
    match res {
        Ok(response) => response,
        Err(e) => response_with_status_desc_and_trace_id(e.status(), e.desc.as_str(), trace_id),
    }
}

/// Turns a result into an answer that names no request.
pub fn unwrap_result_to_response(res: Result<Response, ErrorWithStatusAndDesc>) -> (r: Response)
    ensures
        r@ == response_or_plain_error(respond_view(res)),
{
    match res {
        Ok(response) => response,
        Err(e) => response_with_status_and_error(e.status(), e.desc.as_str()),
    }
}

/// What the business routes make of a request: an upload request is checked,
/// every other request is refused.
pub open spec fn handled(
    app: Seq<ProjectView>,
    request: RequestView,
    object_id: Seq<char>,
) -> Result<UploadJobView, ErrorView> {
    if route_of(request.method, request.path) == Route::Upload {
        checked_upload(app, request, object_id)
    } else {
        Err(failure(ErrorKind::BadRequest, "Wrong path or method"@))
    }
}

/// Handles a request of the business routes, with the object id to use where
/// an upload has no name.
pub fn handle_request_with(app: &App, request: &Request, object_id: &str) -> (r: Result<
    UploadJob,
    ErrorWithStatusAndDesc,
>)
    ensures
        job_view(r) == handled(app@, request@, object_id@),
{
    match route(request.method.as_str(), request.path.as_str()) {
        Route::Upload => file_upload_with(app, request, object_id),
        _ => Err(
            ErrorWithStatusAndDesc::new_with_status_desc(
                ErrorKind::BadRequest,
                "Wrong path or method",
            ),
        ),
    }
}

/// Handles a request of the business routes.
///
/// An upload without a name gets a fresh random id, so the contract speaks
/// of some id: [`handle_request_with`] says what comes out for each.
pub fn handle_request(app: &App, request: &Request) -> (r: Result<
    UploadJob,
    ErrorWithStatusAndDesc,
>)
    ensures
        exists|id: Seq<char>|
            is_object_id(id) && job_view(r) == #[trigger] handled(app@, request@, id),
{
    let id = random_uuid_hex();
    let r = handle_request_with(app, request, id.as_str());
    assert(is_object_id(id@));
    r
}

/// What the gateway does with a request.
#[derive(Debug, PartialEq, Eq)]
pub enum ProcessStep {
    /// Answer with this.
    Respond(RequestProcessResult),
    /// Answer with the metrics in the text format. The request does not
    /// count.
    RenderMetrics,
    /// Run this upload for the request with this id, and hand its end to
    /// [`finish_request`].
    Upload { request_id: String, job: UploadJob },
}

/// The mathematical content of a [`ProcessStep`].
pub ghost enum ProcessStepView {
    Respond { response: ResponseView, allow_metric_count: bool },
    RenderMetrics,
    Upload { request_id: Seq<char>, job: UploadJobView },
}

impl View for ProcessStep {
    type V = ProcessStepView;

    open spec fn view(&self) -> ProcessStepView {
        match *self {
            ProcessStep::Respond(result) => ProcessStepView::Respond {
                response: result.response@,
                allow_metric_count: result.allow_metric_count,
            },
            ProcessStep::RenderMetrics => ProcessStepView::RenderMetrics,
            ProcessStep::Upload { request_id, job } => ProcessStepView::Upload {
                request_id: request_id@,
                job: job@,
            },
        }
    }
}

/// What the gateway does with a request, for the id of the request and the
/// object id to use where an upload has no name.
///
/// The service routes are answered at once. Every other request is handled by
/// the business routes: a refusal is answered at once, with the request's id,
/// and an upload that passed its checks is run.
pub open spec fn processed(
    app: Seq<ProjectView>,
    request: RequestView,
    request_id: Seq<char>,
    object_id: Seq<char>,
) -> ProcessStepView {
    match route_of(request.method, request.path) {
        Route::Health => ProcessStepView::Respond {
            response: health_response(),
            allow_metric_count: false,
        },
        Route::Metrics => ProcessStepView::RenderMetrics,
        _ => match handled(app, request, object_id) {
            Ok(job) => ProcessStepView::Upload { request_id, job },
            Err(e) => ProcessStepView::Respond {
                response: response_or_error(Err(e), request_id),
                allow_metric_count: true,
            },
        },
    }
}

/// The labels under which the answer to a request is counted.
pub open spec fn labels_of(request: RequestView, status: u16) -> ReturnCodeLabels {
    ReturnCodeLabels {
        api_path: without_trailing_slashes(request.path),
        method: request.method,
        status_code: status,
    }
}

/// The metrics after a request was taken up: the service routes leave them
/// alone; every other request is counted, and its answer too where it is
/// answered at once.
pub open spec fn process_metrics(
    before: MetricsView,
    app: Seq<ProjectView>,
    request: RequestView,
    object_id: Seq<char>,
    after: MetricsView,
) -> bool {
    match route_of(request.method, request.path) {
        Route::Health => after == before,
        Route::Metrics => after == before,
        _ => match handled(app, request, object_id) {
            Ok(_) => after == counted_request(before),
            Err(e) => counted_status(
                counted_request(before),
                labels_of(request, status_of(e.kind)),
                after,
            ),
        },
    }
}

/// Takes up a request, with the id of the request and the object id to use
/// where an upload has no name.
pub fn process_req_with(
    app: &App,
    request: &Request,
    metrics: &mut Metrics,
    request_id: &str,
    object_id: &str,
) -> (step: ProcessStep)
    ensures
        step@ == processed(app@, request@, request_id@, object_id@),
        process_metrics(old(metrics)@, app@, request@, object_id@, final(metrics)@),
{
    match route(request.method.as_str(), request.path.as_str()) {
        Route::Health => ProcessStep::Respond(
            RequestProcessResult {
                response: Response {
                    status: 200,
                    content_type: None,
                    content_length: None,
                    close_connection: false,
                    body: String::new(),
                },
                allow_metric_count: false,
            },
        ),
        Route::Metrics => ProcessStep::RenderMetrics,
        _ => {
            count_request(metrics);
            match handle_request_with(app, request, object_id) {
                Ok(job) => ProcessStep::Upload { request_id: String::from_str(request_id), job },
                Err(e) => {
                    let response = unwrap_result_to_response_with_trace_id(Err(e), request_id);
                    let path = trim_trailing_slashes(request.path.as_str());
                    count_response_status(
                        metrics,
                        path,
                        request.method.as_str(),
                        response.status,
                    );
                    ProcessStep::Respond(
                        RequestProcessResult { response, allow_metric_count: true },
                    )
                },
            }
        },
    }
}

/// Takes up a request.
///
/// The request's id and, for an upload without a name, the object id are
/// fresh random ids, so the contract speaks of some ids:
/// [`process_req_with`] says what comes out for each.
pub fn process_req(app: &App, request: &Request, metrics: &mut Metrics) -> (step: ProcessStep)
    ensures
        exists|request_id: Seq<char>, object_id: Seq<char>|
            is_object_id(request_id) && is_object_id(object_id) && step@ == #[trigger] processed(
                app@,
                request@,
                request_id,
                object_id,
            ) && process_metrics(old(metrics)@, app@, request@, object_id, final(metrics)@),
{
    let request_id = random_uuid_hex();
    let object_id = random_uuid_hex();
    let step = process_req_with(app, request, metrics, request_id.as_str(), object_id.as_str());
    assert(is_object_id(request_id@) && is_object_id(object_id@));
    step
}

/// Ends a request that ran an upload: the upload's result becomes the answer,
/// and the answer is counted under the request's path, method and status.
pub fn finish_request(
    request: &Request,
    request_id: &str,
    result: Result<Response, ErrorWithStatusAndDesc>,
    metrics: &mut Metrics,
) -> (r: Response)
    ensures
        r@ == response_or_error(respond_view(result), request_id@),
        counted_status(old(metrics)@, labels_of(request@, r.status), final(metrics)@),
{
    let response = unwrap_result_to_response_with_trace_id(result, request_id);
    let path = trim_trailing_slashes(request.path.as_str());
    count_response_status(metrics, path, request.method.as_str(), response.status);
    response
}

} // verus!
