//! The upload of one object to cloud storage: the request, and what each
//! reply of the storage service means.

use crate::app_config::GoogleStorageConfig;
use crate::auth_token_provider::{
    empty_cache, min_life, provider_step, AuthTokenProvider, CacheView, RefreshPolicy, TokenEvent,
    TokenEventView, TokenStep, TokenStepView,
};
use crate::error::{failure, ErrorKind, ErrorView, ErrorWithStatusAndDesc};
use crate::metrics::{
    chunk_sum, count_uploaded_size, counted_upload, lemma_streamed_total, observed,
    streamed_total, Metrics, MetricsView,
};
use crate::oauth2::{is_success, service_account_of, status_is_success, ServiceAccountData};
use crate::json::{json_string_field, json_string_member};
use crate::outside::{
    minified_json, minify_json, percent_encoded, string_from_utf8, url_encode,
};
use vstd::prelude::*;
use vstd::utf8::*;

verus! {

/// The OAuth2 scope that uploads need.
pub open spec fn storage_scope() -> Seq<char> {
    "https://www.googleapis.com/auth/devstorage.read_write"@
}

/// The members of the stored object that the storage service is asked to
/// report.
pub open spec fn reported_fields() -> Seq<char> {
    "id,name,bucket,selfLink,md5Hash,mediaLink"@
}

/// The address to which an object of the given name is posted for the given
/// bucket. Bucket, name and field list are URL-encoded.
pub open spec fn upload_url(bucket: Seq<char>, name: Seq<char>) -> Seq<char> {
    "https://storage.googleapis.com/upload/storage/v1/b/"@ + percent_encoded(encode_utf8(bucket))
        + "/o?name="@ + percent_encoded(encode_utf8(name)) + "&uploadType=media&fields="@
        + percent_encoded(encode_utf8(reported_fields()))
}

/// The link under which a stored object can be downloaded.
pub open spec fn download_link(bucket: Seq<char>, name: Seq<char>) -> Seq<char> {
    "https://storage.cloud.google.com/"@ + bucket + "/"@ + name
}

/// Builds the upload address.
pub fn build_upload_uri(bucket_name: &str, file_name: &str) -> (r: String)
    ensures
        r@ == upload_url(bucket_name@, file_name@),
{
    let mut url = String::from_str("https://storage.googleapis.com/upload/storage/v1/b/");
    let bucket = url_encode(bucket_name);
    url.append(bucket.as_str());
    url.append("/o?name=");
    let name = url_encode(file_name);
    url.append(name.as_str());
    url.append("&uploadType=media&fields=");
    let fields = url_encode("id,name,bucket,selfLink,md5Hash,mediaLink");
    url.append(fields.as_str());
    url
}

/// The request that uploads an object. Its body is the stream of the
/// object's bytes.
#[derive(Debug, Clone, PartialEq, Eq)]
pub struct StorageRequest {
    pub method: String,
    /// Whether the request goes out over HTTP/2.
    pub http2: bool,
    pub url: String,
    pub authorization: String,
    pub accept: String,
    pub content_type: String,
    pub user_agent: String,
}

/// The mathematical content of a [`StorageRequest`].
pub ghost struct StorageRequestView {
    pub method: Seq<char>,
    pub http2: bool,
    pub url: Seq<char>,
    pub authorization: Seq<char>,
    pub accept: Seq<char>,
    pub content_type: Seq<char>,
    pub user_agent: Seq<char>,
}

impl View for StorageRequest {
    type V = StorageRequestView;

    open spec fn view(&self) -> StorageRequestView {
        StorageRequestView {
            method: self.method@,
            http2: self.http2,
            url: self.url@,
            authorization: self.authorization@,
            accept: self.accept@,
            content_type: self.content_type@,
            user_agent: self.user_agent@,
        }
    }
}

/// The request that posts a stream of bytes to the given address with the
/// given access token: a POST over HTTP/2 that accepts JSON.
pub open spec fn upload_request_to(url: Seq<char>, token: Seq<char>) -> StorageRequestView {
    StorageRequestView {
        method: "POST"@,
        http2: true,
        url,
        authorization: "Bearer "@ + token,
        accept: "application/json"@,
        content_type: "application/octet-stream"@,
        user_agent: "hyper"@,
    }
}

/// The request that uploads an object of the given name to the given bucket
/// with the given access token.
pub open spec fn upload_request(
    bucket: Seq<char>,
    name: Seq<char>,
    token: Seq<char>,
) -> StorageRequestView {
    upload_request_to(upload_url(bucket, name), token)
}

/// Builds the upload request.
pub fn build_upload_request(uri: String, token: &str) -> (r: StorageRequest)
    ensures
        r@ == upload_request_to(uri@, token@),
{
    let mut authorization = String::from_str("Bearer ");
    authorization.append(token);
    StorageRequest {
        method: String::from_str("POST"),
        http2: true,
        url: uri,
        authorization,
        accept: String::from_str("application/json"),
        content_type: String::from_str("application/octet-stream"),
        user_agent: String::from_str("hyper"),
    }
}

/// What the storage service reports of a stored object.
#[derive(Debug, Clone, PartialEq, Eq)]
pub struct UploadResultData {
    pub name: String,
    pub bucket: String,
}

/// The link that a reply body of the storage service leads to: the body must
/// be a JSON object with the strings `name` and `bucket`.
pub open spec fn link_of_body(body: Seq<u8>) -> Option<Seq<char>> {
    match (json_string_member(body, "name"@), json_string_member(body, "bucket"@)) {
        (Some(name), Some(bucket)) => Some(download_link(bucket, name)),
        _ => None,
    }
}

/// Reads what the storage service reports of the stored object.
pub fn parse_response_body(body: &[u8]) -> (r: Option<UploadResultData>)
    ensures
        match r {
            Some(data) => json_string_member(body@, "name"@) == Some(data.name@)
                && json_string_member(body@, "bucket"@) == Some(data.bucket@),
            None => json_string_member(body@, "name"@) is None || json_string_member(
                body@,
                "bucket"@,
            ) is None,
        },
{
    let name = match json_string_field(body, "name") {
        Some(v) => v,
        None => {
            return None;
        },
    };
    let bucket = match json_string_field(body, "bucket") {
        Some(v) => v,
        None => {
            return None;
        },
    };
    Some(UploadResultData { name, bucket })
}

/// What an upload ends with after the storage service has answered: the
/// download link, or the failure.
///
/// A reply of success must carry the stored object's name and bucket. Any
/// other reply is a failure that quotes the reply body, minified, where that
/// is text.
pub open spec fn upload_outcome(status: u16, body: Option<Seq<u8>>) -> Result<
    Seq<char>,
    ErrorView,
> {
    match body {
        None => Err(failure(ErrorKind::UpstreamError, "Google cloud response receive failed"@)),
        Some(body) => if is_success(status) {
            match link_of_body(body) {
                Some(link) => Ok(link),
                None => Err(
                    failure(ErrorKind::UpstreamError, "Google cloud response parsing failed"@),
                ),
            }
        } else if valid_utf8(body) {
            Err(
                failure(
                    ErrorKind::UpstreamError,
                    "Google error response: "@ + minified_json(decode_utf8(body)),
                ),
            )
        } else {
            Err(failure(ErrorKind::UpstreamError, "Google uploading failed"@))
        },
    }
}

/// The view of a link or a failure.
pub open spec fn link_view(r: Result<String, ErrorWithStatusAndDesc>) -> Result<
    Seq<char>,
    ErrorView,
> {
    match r {
        Ok(link) => Ok(link@),
        Err(e) => Err(e@),
    }
}

/// Reads the answer of the storage service.
pub fn read_upload_reply(status: u16, body: Option<&Vec<u8>>) -> (r: Result<
    String,
    ErrorWithStatusAndDesc,
>)
    ensures
        link_view(r) == upload_outcome(
            status,
            match body {
                Some(b) => Some(b@),
                None => None,
            },
        ),
{
    let body = match body {
        Some(body) => body,
        None => {
            return Err(
                ErrorWithStatusAndDesc::new_with_status_desc(
                    ErrorKind::UpstreamError,
                    "Google cloud response receive failed",
                ),
            );
        },
    };
    if status_is_success(status) {
        match parse_response_body(body.as_slice()) {
            Some(info) => {
                let mut link = String::from_str("https://storage.cloud.google.com/");
                link.append(info.bucket.as_str());
                link.append("/");
                link.append(info.name.as_str());
                Ok(link)
            },
            None => Err(
                ErrorWithStatusAndDesc::new_with_status_desc(
                    ErrorKind::UpstreamError,
                    "Google cloud response parsing failed",
                ),
            ),
        }
    } else {
        match string_from_utf8(body.as_slice()) {
            Some(text) => {
                let minified = minify_json(text.as_str());
                let mut desc = String::from_str("Google error response: ");
                desc.append(minified.as_str());
                Err(ErrorWithStatusAndDesc { kind: ErrorKind::UpstreamError, desc })
            },
            None => Err(
                ErrorWithStatusAndDesc::new_with_status_desc(
                    ErrorKind::UpstreamError,
                    "Google uploading failed",
                ),
            ),
        }
    }
}

/// What happened in an upload.
#[derive(Debug, PartialEq, Eq)]
pub enum StorageEvent {
    /// Something for the tenant's token provider. An upload starts with
    /// [`TokenEvent::Asked`].
    Token(TokenEvent),
    /// The upload request could not be put together.
    Unsendable,
    /// The request failed before any answer came. `bytes_sent` counts the
    /// bytes of the object that had left by then, after compression.
    Failed { bytes_sent: u64 },
    /// The storage service answered. `body` is the whole reply body, or
    /// nothing where it could not be received; `bytes_sent` counts the bytes
    /// of the object that left, after compression.
    Reply { status: u16, body: Option<Vec<u8>>, bytes_sent: u64 },
}

/// The mathematical content of a [`StorageEvent`].
pub ghost enum StorageEventView {
    Token(TokenEventView),
    Unsendable,
    Failed { bytes_sent: u64 },
    Reply { status: u16, body: Option<Seq<u8>>, bytes_sent: u64 },
}

impl View for StorageEvent {
    type V = StorageEventView;

    open spec fn view(&self) -> StorageEventView {
        match *self {
            StorageEvent::Token(event) => StorageEventView::Token(event@),
            StorageEvent::Unsendable => StorageEventView::Unsendable,
            StorageEvent::Failed { bytes_sent } => StorageEventView::Failed { bytes_sent },
            StorageEvent::Reply { status, body, bytes_sent } => StorageEventView::Reply {
                status,
                body: body_view(body),
                bytes_sent,
            },
        }
    }
}

/// The view of an optional body.
pub open spec fn body_view(body: Option<Vec<u8>>) -> Option<Seq<u8>> {
    match body {
        Some(b) => Some(b@),
        None => None,
    }
}

/// What an upload does next.
#[derive(Debug, PartialEq, Eq)]
pub enum StorageStep {
    /// Fetch a grant from the token endpoint and come back with
    /// [`TokenEvent::Fetched`].
    FetchToken,
    /// Wait for the refresh that runs in the background and come back with
    /// its grant, or with [`TokenEvent::JoinFailed`].
    JoinToken,
    /// Another upload is fetching a grant: wait for it and come back with
    /// [`TokenEvent::Asked`].
    WaitForToken,
    /// Send this request with the object as its body, and come back with the
    /// reply. Where `refresh` is set, also start a refresh of the token in the
    /// background.
    Send { request: StorageRequest, refresh: bool },
    /// The upload is over: the download link, or the failure.
    Done(Result<String, ErrorWithStatusAndDesc>),
}

/// The mathematical content of a [`StorageStep`].
pub ghost enum StorageStepView {
    FetchToken,
    JoinToken,
    WaitForToken,
    Send { request: StorageRequestView, refresh: bool },
    Done(Result<Seq<char>, ErrorView>),
}

impl View for StorageStep {
    type V = StorageStepView;

    open spec fn view(&self) -> StorageStepView {
        match *self {
            StorageStep::FetchToken => StorageStepView::FetchToken,
            StorageStep::JoinToken => StorageStepView::JoinToken,
            StorageStep::WaitForToken => StorageStepView::WaitForToken,
            StorageStep::Send { request, refresh } => StorageStepView::Send {
                request: request@,
                refresh,
            },
            StorageStep::Done(r) => StorageStepView::Done(link_view(r)),
        }
    }
}

/// What an upload does with the answer of the token provider: with a token
/// the request goes out; without one the provider's wish is passed on, and
/// where the provider gives up the upload ends unauthorized.
pub open spec fn after_token(
    bucket: Seq<char>,
    name: Seq<char>,
    step: TokenStepView,
) -> StorageStepView {
    match step {
        TokenStepView::Ready(token) => StorageStepView::Send {
            request: upload_request(bucket, name, token),
            refresh: false,
        },
        TokenStepView::ReadyAndRefresh(token) => StorageStepView::Send {
            request: upload_request(bucket, name, token),
            refresh: true,
        },
        TokenStepView::Fetch => StorageStepView::FetchToken,
        TokenStepView::Join => StorageStepView::JoinToken,
        TokenStepView::Wait => StorageStepView::WaitForToken,
        TokenStepView::Exhausted => StorageStepView::Done(Err(no_token())),
        TokenStepView::Failed => StorageStepView::Done(Err(no_token())),
    }
}

/// The failure of an upload for which no token can be had.
pub open spec fn no_token() -> ErrorView {
    failure(ErrorKind::Unauthorized, "Google cloud token receive failed"@)
}

/// The next step of an upload of `name` to `bucket` at the time `now`, and
/// the token cache after it.
///
/// Token events go to the token provider, whose answer decides. A request
/// that cannot be built or sent ends the upload, and so does every answer of
/// the storage service: nothing is tried twice.
pub open spec fn storage_step(
    policy: RefreshPolicy,
    cache: CacheView,
    bucket: Seq<char>,
    name: Seq<char>,
    event: StorageEventView,
    now: u64,
) -> (CacheView, StorageStepView) {
    match event {
        StorageEventView::Token(event) => {
            let (next, step) = provider_step(policy, cache, event, now);
            (next, after_token(bucket, name, step))
        },
        StorageEventView::Unsendable => (
            cache,
            StorageStepView::Done(
                Err(failure(ErrorKind::InternalError, "Upload request build failed"@)),
            ),
        ),
        StorageEventView::Failed { bytes_sent } => (
            cache,
            StorageStepView::Done(Err(failure(ErrorKind::UpstreamError, "Google cloud error"@))),
        ),
        StorageEventView::Reply { status, body, bytes_sent } => (
            cache,
            StorageStepView::Done(upload_outcome(status, body)),
        ),
    }
}

/// The token in the header of an upload request is alive: a request that
/// goes out carries the cached token, which at that time has the least life
/// of the policy left.
pub proof fn lemma_upload_carries_live_token(
    policy: RefreshPolicy,
    cache: CacheView,
    bucket: Seq<char>,
    name: Seq<char>,
    event: StorageEventView,
    now: u64,
)
    ensures
        ({
            let (next, step) = storage_step(policy, cache, bucket, name, event, now);
            step matches StorageStepView::Send { request, refresh } ==> {
                &&& next.token matches Some(info)
                &&& request == upload_request(bucket, name, info.data.access_token)
                &&& info.expire_time >= now + min_life(policy)
                &&& info.expire_time > now
            }
        }),
{
}

/// Whether an event ends the sending of an object with success: only an
/// answer of the storage service with a status of success does.
pub open spec fn sent_with_success(event: StorageEventView) -> bool {
    event matches StorageEventView::Reply { status, body, bytes_sent } && is_success(status)
}

/// The metrics after an event of an upload. When the sending of the object
/// is over, by an answer of the storage service or by a failure of the
/// transport, the bytes that were sent add to the byte total and are observed
/// once, in the histogram of the outcome: that of successes exactly when the
/// storage service answered with a status of success. No other event touches
/// the metrics.
pub open spec fn storage_metrics(before: MetricsView, event: StorageEventView) -> MetricsView {
    match event {
        StorageEventView::Reply { status, body, bytes_sent } => counted_upload(
            before,
            bytes_sent,
            is_success(status),
        ),
        StorageEventView::Failed { bytes_sent } => counted_upload(before, bytes_sent, false),
        _ => before,
    }
}

/// Byte accounting: when the storage service answers with success to an
/// upload whose chunks passed the byte counter, the counter shows the number
/// of bytes that were streamed, and that number is observed exactly once, in
/// the histogram of successes: the histogram of failures stays as it was.
pub proof fn lemma_byte_accounting(
    before: MetricsView,
    chunks: Seq<usize>,
    status: u16,
    body: Option<Seq<u8>>,
)
    requires
        chunk_sum(chunks) <= u64::MAX,
        is_success(status),
    ensures
        streamed_total(chunks) == chunk_sum(chunks),
        ({
            let after = storage_metrics(
                before,
                StorageEventView::Reply { status, body, bytes_sent: streamed_total(chunks) },
            );
            &&& after.upload_sizes_ok == observed(before.upload_sizes_ok, chunk_sum(chunks) as u64)
            &&& after.upload_sizes_ok.count == before.upload_sizes_ok.count.saturating_add(1)
            &&& after.upload_sizes_ok.sum == before.upload_sizes_ok.sum.saturating_add(
                chunk_sum(chunks) as u64,
            )
            &&& after.upload_sizes_fail == before.upload_sizes_fail
            &&& after.total_bytes_uploaded == before.total_bytes_uploaded.saturating_add(
                chunk_sum(chunks) as u64,
            )
            &&& after.total_requests == before.total_requests
            &&& after.return_codes == before.return_codes
        }),
{
    lemma_streamed_total(chunks);
}

/// Byte accounting of failures: when the sending of an object ends without
/// an answer of success, be it a refusal of the storage service or a failure
/// of the transport, the bytes that the counter shows are observed exactly
/// once, in the histogram of failures, and never in that of successes.
pub proof fn lemma_failure_accounting(
    before: MetricsView,
    chunks: Seq<usize>,
    event: StorageEventView,
)
    requires
        chunk_sum(chunks) <= u64::MAX,
        event matches StorageEventView::Failed { bytes_sent } ==> bytes_sent == streamed_total(
            chunks,
        ),
        event matches StorageEventView::Reply { status, body, bytes_sent } ==> bytes_sent
            == streamed_total(chunks) && !is_success(status),
        event is Failed || event is Reply,
    ensures
        streamed_total(chunks) == chunk_sum(chunks),
        ({
            let after = storage_metrics(before, event);
            &&& after.upload_sizes_fail == observed(
                before.upload_sizes_fail,
                chunk_sum(chunks) as u64,
            )
            &&& after.upload_sizes_fail.count == before.upload_sizes_fail.count.saturating_add(1)
            &&& after.upload_sizes_ok == before.upload_sizes_ok
            &&& after.total_bytes_uploaded == before.total_bytes_uploaded.saturating_add(
                chunk_sum(chunks) as u64,
            )
            &&& after.total_requests == before.total_requests
            &&& after.return_codes == before.return_codes
        }),
{
    lemma_streamed_total(chunks);
}

/// The uploader of one tenant.
#[derive(Debug, Clone, PartialEq, Eq)]
pub struct GoogleUploader {
    pub token_provider: AuthTokenProvider,
    pub target_bucket: String,
}

impl GoogleUploader {
    /// The uploader for a bucket, with the service account that the bytes of
    /// the credentials file describe. There is none where they describe no
    /// account.
    pub fn new(credentials: &[u8], google_config: GoogleStorageConfig, policy: RefreshPolicy) -> (r:
        Option<GoogleUploader>)
        ensures
            match r {
                Some(uploader) => {
                    &&& service_account_of(credentials@) == Some(
                        uploader.token_provider.account_data@,
                    )
                    &&& uploader.token_provider.scopes@ == storage_scope()
                    &&& uploader.token_provider.policy == policy
                    &&& uploader.token_provider.cache() == empty_cache()
                    &&& uploader.target_bucket@ == google_config@.bucket_name
                },
                None => service_account_of(credentials@) is None,
            },
    {
        let account = match ServiceAccountData::parse(credentials) {
            Some(account) => account,
            None => {
                return None;
            },
        };
        let token_provider = AuthTokenProvider::new(
            account,
            "https://www.googleapis.com/auth/devstorage.read_write",
            policy,
        );
        Some(GoogleUploader { token_provider, target_bucket: google_config.bucket_name })
    }

    /// Turns the answer of the token provider into the next step.
    fn continue_after_token(&self, filename: &str, step: TokenStep) -> (r: StorageStep)
        ensures
            r@ == after_token(self.target_bucket@, filename@, step@),
    {
        match step {
            TokenStep::Ready(token) => {
                let uri = build_upload_uri(self.target_bucket.as_str(), filename);
                StorageStep::Send {
                    request: build_upload_request(uri, token.as_str()),
                    refresh: false,
                }
            },
            TokenStep::ReadyAndRefresh(token) => {
                let uri = build_upload_uri(self.target_bucket.as_str(), filename);
                StorageStep::Send {
                    request: build_upload_request(uri, token.as_str()),
                    refresh: true,
                }
            },
            TokenStep::Fetch => StorageStep::FetchToken,
            TokenStep::Join => StorageStep::JoinToken,
            TokenStep::Wait => StorageStep::WaitForToken,
            TokenStep::Exhausted => StorageStep::Done(
                Err(
                    ErrorWithStatusAndDesc::new_with_status_desc(
                        ErrorKind::Unauthorized,
                        "Google cloud token receive failed",
                    ),
                ),
            ),
            TokenStep::Failed => StorageStep::Done(
                Err(
                    ErrorWithStatusAndDesc::new_with_status_desc(
                        ErrorKind::Unauthorized,
                        "Google cloud token receive failed",
                    ),
                ),
            ),
        }
    }

    /// Runs one step of the upload of an object named `filename`, at the
    /// time `now` on the monotonic clock in milliseconds.
    pub fn upload(
        &mut self,
        filename: &str,
        event: StorageEvent,
        now: u64,
        metrics: &mut Metrics,
    ) -> (step: StorageStep)
        ensures
            (final(self).token_provider.cache(), step@) == storage_step(
                old(self).token_provider.policy,
                old(self).token_provider.cache(),
                old(self).target_bucket@,
                filename@,
                event@,
                now,
            ),
            final(self).token_provider.account_data == old(self).token_provider.account_data,
            final(self).token_provider.scopes == old(self).token_provider.scopes,
            final(self).token_provider.policy == old(self).token_provider.policy,
            final(self).target_bucket == old(self).target_bucket,
            final(metrics)@ == storage_metrics(old(metrics)@, event@),
    {
        match event {
            StorageEvent::Token(event) => {
                let step = self.token_provider.get_token(event, now);
                self.continue_after_token(filename, step)
            },
            StorageEvent::Unsendable => StorageStep::Done(
                Err(
                    ErrorWithStatusAndDesc::new_with_status_desc(
                        ErrorKind::InternalError,
                        "Upload request build failed",
                    ),
                ),
            ),
            StorageEvent::Failed { bytes_sent } => {
                count_uploaded_size(metrics, bytes_sent, false);
                StorageStep::Done(
                    Err(
                        ErrorWithStatusAndDesc::new_with_status_desc(
                            ErrorKind::UpstreamError,
                            "Google cloud error",
                        ),
                    ),
                )
            },
            StorageEvent::Reply { status, body, bytes_sent } => {
                count_uploaded_size(metrics, bytes_sent, status_is_success(status));
                StorageStep::Done(read_upload_reply(status, body.as_ref()))
            },
        }
    }
}

} // verus!
