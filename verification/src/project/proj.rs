//! One tenant and the course of an upload to it.

use crate::app_config::{ProjectConfig, ProjectConfigView};
use crate::auth_token_provider::{
    empty_cache, CacheView, RefreshPolicy, TokenEvent, TokenEventView,
};
use crate::error::{failure, ErrorKind, ErrorView, ErrorWithStatusAndDesc};
use crate::helpers::{json_response, json_response_from, Response, ResponseView};
use crate::json::{json_escape, json_escaped};
use crate::metrics::{Metrics, MetricsView};
use crate::oauth2::service_account_of;
use crate::project::google::{
    lemma_upload_carries_live_token, storage_metrics, storage_scope, storage_step,
    upload_outcome, upload_request, GoogleUploader, StorageEvent, StorageEventView,
    StorageRequest, StorageRequestView, StorageStep, StorageStepView,
};
use crate::project::slack::{
    sender_of, slack_step, SenderView, SlackEvent, SlackEventView, SlackLinkSender, SlackStep,
    SlackStepView,
};
use crate::text::str_eq;
use vstd::prelude::*;

verus! {

/// A tenant: its API token, its uploader and, where it has one, its mirror
/// into chat.
#[derive(Debug, Clone, PartialEq, Eq)]
pub struct Project {
    pub api_token: String,
    pub google_uploader: GoogleUploader,
    pub slack_link_sender: Option<SlackLinkSender>,
}

/// The view of an optional mirror.
pub open spec fn sender_view(s: Option<SlackLinkSender>) -> Option<SenderView> {
    match s {
        Some(s) => Some(s@),
        None => None,
    }
}

/// What a tenant's uploads depend on.
pub ghost struct ProjectView {
    pub api_token: Seq<char>,
    pub bucket: Seq<char>,
    pub sender: Option<SenderView>,
}

impl View for Project {
    type V = ProjectView;

    open spec fn view(&self) -> ProjectView {
        ProjectView {
            api_token: self.api_token@,
            bucket: self.google_uploader.target_bucket@,
            sender: sender_view(self.slack_link_sender),
        }
    }
}

/// The tenant that a configuration describes.
pub open spec fn project_of(config: ProjectConfigView) -> ProjectView {
    ProjectView {
        api_token: config.api_token,
        bucket: config.google_storage_target.bucket_name,
        sender: match config.slack_link_dub {
            Some(slack) => Some(sender_of(slack)),
            None => None,
        },
    }
}

/// What happened in the course of an upload.
#[derive(Debug, PartialEq, Eq)]
pub enum UploadEvent {
    /// The upload is wanted.
    Start,
    /// Something happened at the storage service.
    Storage(StorageEvent),
    /// Something happened while `link` was mirrored into chat.
    Slack { link: String, event: SlackEvent },
}

/// The mathematical content of an [`UploadEvent`].
pub ghost enum UploadEventView {
    Start,
    Storage(StorageEventView),
    Slack { link: Seq<char>, event: SlackEventView },
}

impl View for UploadEvent {
    type V = UploadEventView;

    open spec fn view(&self) -> UploadEventView {
        match *self {
            UploadEvent::Start => UploadEventView::Start,
            UploadEvent::Storage(event) => UploadEventView::Storage(event@),
            UploadEvent::Slack { link, event } => UploadEventView::Slack {
                link: link@,
                event: event@,
            },
        }
    }
}

/// What an upload does next.
#[derive(Debug, PartialEq, Eq)]
pub enum UploadStep {
    /// Fetch a grant from the token endpoint and come back with it.
    FetchToken,
    /// Wait for the refresh that runs in the background and come back with
    /// its grant.
    JoinToken,
    /// Another upload is fetching a grant: wait for it and ask again.
    WaitForToken,
    /// Send the object with this request and come back with the reply. Where
    /// `refresh` is set, also start a refresh of the token in the background.
    Store { request: StorageRequest, refresh: bool },
    /// Do this for the mirror of `link` and come back with what happened.
    Notify { link: String, step: SlackStep },
    /// The upload is over: answer the client.
    Respond(Result<Response, ErrorWithStatusAndDesc>),
}

/// The mathematical content of an [`UploadStep`].
pub ghost enum UploadStepView {
    FetchToken,
    JoinToken,
    WaitForToken,
    Store { request: StorageRequestView, refresh: bool },
    Notify { link: Seq<char>, step: SlackStepView },
    Respond(Result<ResponseView, ErrorView>),
}

/// The view of an answer or a failure.
pub open spec fn respond_view(r: Result<Response, ErrorWithStatusAndDesc>) -> Result<
    ResponseView,
    ErrorView,
> {
    match r {
        Ok(response) => Ok(response@),
        Err(e) => Err(e@),
    }
}

impl View for UploadStep {
    type V = UploadStepView;

    open spec fn view(&self) -> UploadStepView {
        match *self {
            UploadStep::FetchToken => UploadStepView::FetchToken,
            UploadStep::JoinToken => UploadStepView::JoinToken,
            UploadStep::WaitForToken => UploadStepView::WaitForToken,
            UploadStep::Store { request, refresh } => UploadStepView::Store {
                request: request@,
                refresh,
            },
            UploadStep::Notify { link, step } => UploadStepView::Notify {
                link: link@,
                step: step@,
            },
            UploadStep::Respond(r) => UploadStepView::Respond(respond_view(r)),
        }
    }
}

/// The body of the answer to a finished upload: a JSON object with the link
/// and the request's id, each escaped as a JSON string, and whether the link
/// was mirrored.
pub open spec fn success_body(
    link: Seq<char>,
    request_id: Seq<char>,
    slack_sent: bool,
) -> Seq<char> {
    "{\"link\":\""@ + json_escaped(link) + "\",\"request_id\":\""@ + json_escaped(request_id)
        + "\",\"slack_sent\":"@ + (
    if slack_sent {
        "true"@
    } else {
        "false"@
    }) + "}"@
}

/// The answer to a finished upload.
pub open spec fn success_response(
    link: Seq<char>,
    request_id: Seq<char>,
    slack_sent: bool,
) -> ResponseView {
    json_response(200, success_body(link, request_id, slack_sent), false)
}

/// The failure of an upload that wants a mirror from a tenant without one.
pub open spec fn slack_not_configured() -> ErrorView {
    failure(ErrorKind::BadRequest, "Slack posting is not configured for this application"@)
}

/// What an upload does once the mirror has taken a step.
pub open spec fn after_slack(
    link: Seq<char>,
    request_id: Seq<char>,
    step: SlackStepView,
) -> UploadStepView {
    match step {
        SlackStepView::Done(Ok(())) => UploadStepView::Respond(
            Ok(success_response(link, request_id, true)),
        ),
        SlackStepView::Done(Err(e)) => UploadStepView::Respond(Err(e)),
        _ => UploadStepView::Notify { link, step },
    }
}

/// What an upload does once the object is stored under `link`.
pub open spec fn after_storage(
    project: ProjectView,
    link_to_slack: bool,
    slack_text_prefix: Option<Seq<char>>,
    request_id: Seq<char>,
    link: Seq<char>,
) -> UploadStepView {
    if link_to_slack {
        match project.sender {
            Some(sender) => after_slack(
                link,
                request_id,
                slack_step(sender, link, slack_text_prefix, SlackEventView::Start),
            ),
            None => UploadStepView::Respond(Err(slack_not_configured())),
        }
    } else {
        UploadStepView::Respond(Ok(success_response(link, request_id, false)))
    }
}

/// What an upload does once its storage side has taken a step.
pub open spec fn after_storage_step(
    project: ProjectView,
    link_to_slack: bool,
    slack_text_prefix: Option<Seq<char>>,
    request_id: Seq<char>,
    step: StorageStepView,
) -> UploadStepView {
    match step {
        StorageStepView::FetchToken => UploadStepView::FetchToken,
        StorageStepView::JoinToken => UploadStepView::JoinToken,
        StorageStepView::WaitForToken => UploadStepView::WaitForToken,
        StorageStepView::Send { request, refresh } => UploadStepView::Store { request, refresh },
        StorageStepView::Done(Err(e)) => UploadStepView::Respond(Err(e)),
        StorageStepView::Done(Ok(link)) => after_storage(
            project,
            link_to_slack,
            slack_text_prefix,
            request_id,
            link,
        ),
    }
}

/// What an upload depends on besides the tenant: the name of the object,
/// whether and with which words the link is mirrored, and the request's id.
pub ghost struct UploadOrder {
    pub file_name: Seq<char>,
    pub link_to_slack: bool,
    pub slack_text_prefix: Option<Seq<char>>,
    pub request_id: Seq<char>,
}

/// The next step of an upload at the time `now`, and the token cache after
/// it.
///
/// An upload that wants a mirror from a tenant without one is refused at
/// once, before a token is asked for or anything is stored. Otherwise a token
/// is asked of the tenant's provider and the object is stored; a failure
/// there ends the upload. Then the link is mirrored if that was asked for; a
/// failure there ends the upload as well. At last the client gets the link,
/// the request's id and whether the link was mirrored.
pub open spec fn upload_step(
    project: ProjectView,
    policy: RefreshPolicy,
    cache: CacheView,
    order: UploadOrder,
    event: UploadEventView,
    now: u64,
) -> (CacheView, UploadStepView) {
    match event {
        UploadEventView::Start => if order.link_to_slack && project.sender is None {
            (cache, UploadStepView::Respond(Err(slack_not_configured())))
        } else {
            let (next, step) = storage_step(
                policy,
                cache,
                project.bucket,
                order.file_name,
                StorageEventView::Token(TokenEventView::Asked),
                now,
            );
            (
                next,
                after_storage_step(
                    project,
                    order.link_to_slack,
                    order.slack_text_prefix,
                    order.request_id,
                    step,
                ),
            )
        },
        UploadEventView::Storage(event) => {
            let (next, step) = storage_step(
                policy,
                cache,
                project.bucket,
                order.file_name,
                event,
                now,
            );
            (
                next,
                after_storage_step(
                    project,
                    order.link_to_slack,
                    order.slack_text_prefix,
                    order.request_id,
                    step,
                ),
            )
        },
        UploadEventView::Slack { link, event } => (
            cache,
            match project.sender {
                Some(sender) => after_slack(
                    link,
                    order.request_id,
                    slack_step(sender, link, order.slack_text_prefix, event),
                ),
                None => UploadStepView::Respond(Err(slack_not_configured())),
            },
        ),
    }
}

/// The metrics after an event of an upload: only the end of the sending of
/// the object changes them, be it an answer of the storage service or a
/// failure of the transport.
pub open spec fn upload_metrics(before: MetricsView, event: UploadEventView) -> MetricsView {
    match event {
        UploadEventView::Storage(event) => storage_metrics(before, event),
        _ => before,
    }
}

/// Slack gating: an upload that wants a mirror from a tenant without one
/// ends with its first step, a refusal. The token provider is not asked and
/// nothing is sent to the storage service.
pub proof fn lemma_slack_gating(
    project: ProjectView,
    policy: RefreshPolicy,
    cache: CacheView,
    order: UploadOrder,
    now: u64,
)
    requires
        project.sender is None,
        order.link_to_slack,
    ensures
        upload_step(project, policy, cache, order, UploadEventView::Start, now) == (
            cache,
            UploadStepView::Respond(Err(slack_not_configured())),
        ),
{
}

/// Nothing is stored without a live token: whenever an upload sends its
/// object to the storage service, the request carries the token that the
/// tenant's provider holds, and that token has not expired.
pub proof fn lemma_store_carries_live_token(
    project: ProjectView,
    policy: RefreshPolicy,
    cache: CacheView,
    order: UploadOrder,
    event: UploadEventView,
    now: u64,
)
    ensures
        ({
            let (next, step) = upload_step(project, policy, cache, order, event, now);
            step matches UploadStepView::Store { request, refresh } ==> {
                &&& next.token matches Some(info)
                &&& request == upload_request(
                    project.bucket,
                    order.file_name,
                    info.data.access_token,
                )
                &&& info.expire_time > now
            }
        }),
{
    match event {
        UploadEventView::Start => {
            lemma_upload_carries_live_token(
                policy,
                cache,
                project.bucket,
                order.file_name,
                StorageEventView::Token(TokenEventView::Asked),
                now,
            );
        },
        UploadEventView::Storage(event) => {
            lemma_upload_carries_live_token(
                policy,
                cache,
                project.bucket,
                order.file_name,
                event,
                now,
            );
        },
        UploadEventView::Slack { link, event } => {},
    }
}

/// An upload answers with success only once the object is stored: the
/// answer names a link that the storage service reported, or one that the
/// caller reported as mirrored.
pub proof fn lemma_success_names_stored_link(
    project: ProjectView,
    policy: RefreshPolicy,
    cache: CacheView,
    order: UploadOrder,
    event: UploadEventView,
    now: u64,
)
    ensures
        ({
            let step = upload_step(project, policy, cache, order, event, now).1;
            step matches UploadStepView::Respond(Ok(response)) ==> match event {
                UploadEventView::Start => false,
                UploadEventView::Storage(event) => {
                    &&& event matches StorageEventView::Reply { status, body, bytes_sent }
                    &&& upload_outcome(status, body) matches Ok(link)
                    &&& !order.link_to_slack
                    &&& response == success_response(link, order.request_id, false)
                },
                UploadEventView::Slack { link, event } => response == success_response(
                    link,
                    order.request_id,
                    true,
                ),
            }
        }),
{
}

/// Builds the answer to a finished upload.
pub fn build_success_response(link: &str, request_id: &str, slack_sent: bool) -> (r: Response)
    ensures
        r@ == success_response(link@, request_id@, slack_sent),
{
    let mut body = String::from_str("{\"link\":\"");
    let link = json_escape(link);
    body.append(link.as_str());
    body.append("\",\"request_id\":\"");
    let request_id = json_escape(request_id);
    body.append(request_id.as_str());
    body.append("\",\"slack_sent\":");
    if slack_sent {
        body.append("true");
    } else {
        body.append("false");
    }
    body.append("}");
    json_response_from(200, body, false)
}

/// The refusal of an upload that wants a mirror from a tenant without one.
fn refuse_slack() -> (r: UploadStep)
    ensures
        r@ == UploadStepView::Respond(Err(slack_not_configured())),
{
    UploadStep::Respond(
        Err(
            ErrorWithStatusAndDesc::new_with_status_desc(
                ErrorKind::BadRequest,
                "Slack posting is not configured for this application",
            ),
        ),
    )
}

/// Carries a step of the mirror on into the upload.
fn continue_after_slack(link: String, request_id: &str, step: SlackStep) -> (r: UploadStep)
    ensures
        r@ == after_slack(link@, request_id@, step@),
{
    match step {
        SlackStep::Done(Ok(())) => UploadStep::Respond(
            Ok(build_success_response(link.as_str(), request_id, true)),
        ),
        SlackStep::Done(Err(e)) => UploadStep::Respond(Err(e)),
        SlackStep::SendMessages { text, targets } => UploadStep::Notify {
            link,
            step: SlackStep::SendMessages { text, targets },
        },
        SlackStep::SendImages { image, threads } => UploadStep::Notify {
            link,
            step: SlackStep::SendImages { image, threads },
        },
    }
}

impl Project {
    /// The tenant that a configuration describes, with the service account
    /// that the bytes of its credentials file describe. There is none where
    /// they describe no account.
    pub fn new(config: ProjectConfig, credentials: &[u8], policy: RefreshPolicy) -> (r: Option<
        Project,
    >)
        ensures
            match r {
                Some(project) => {
                    &&& service_account_of(credentials@) == Some(
                        project.google_uploader.token_provider.account_data@,
                    )
                    &&& project.google_uploader.token_provider.scopes@ == storage_scope()
                    &&& project.google_uploader.token_provider.policy == policy
                    &&& project.google_uploader.token_provider.cache() == empty_cache()
                    &&& project@ == project_of(config@)
                },
                None => service_account_of(credentials@) is None,
            },
    {
        let google_uploader = match GoogleUploader::new(
            credentials,
            config.google_storage_target,
            policy,
        ) {
            Some(uploader) => uploader,
            None => {
                return None;
            },
        };
        let slack_link_sender = match config.slack_link_dub {
            Some(slack) => Some(SlackLinkSender::new(slack)),
            None => None,
        };
        Some(Project { api_token: config.api_token, google_uploader, slack_link_sender })
    }

    /// Whether the given token is this tenant's.
    pub fn check_token(&self, token: &str) -> (r: bool)
        ensures
            r == (self.api_token@ == token@),
    {
        str_eq(self.api_token.as_str(), token)
    }

    /// Carries a step of the storage side on into the upload.
    fn continue_after_storage(
        &self,
        link_to_slack: bool,
        slack_text_prefix: Option<&String>,
        request_id: &str,
        step: StorageStep,
    ) -> (r: UploadStep)
        ensures
            r@ == after_storage_step(
                self@,
                link_to_slack,
                match slack_text_prefix {
                    Some(p) => Some(p@),
                    None => None,
                },
                request_id@,
                step@,
            ),
    {
        match step {
            StorageStep::FetchToken => UploadStep::FetchToken,
            StorageStep::JoinToken => UploadStep::JoinToken,
            StorageStep::WaitForToken => UploadStep::WaitForToken,
            StorageStep::Send { request, refresh } => UploadStep::Store { request, refresh },
            StorageStep::Done(Err(e)) => UploadStep::Respond(Err(e)),
            StorageStep::Done(Ok(link)) => {
                if link_to_slack {
                    match &self.slack_link_sender {
                        Some(sender) => {
                            let step = sender.post_link(
                                link.as_str(),
                                slack_text_prefix,
                                SlackEvent::Start,
                            );
                            continue_after_slack(link, request_id, step)
                        },
                        None => refuse_slack(),
                    }
                } else {
                    UploadStep::Respond(
                        Ok(build_success_response(link.as_str(), request_id, false)),
                    )
                }
            },
        }
    }

    /// Runs one step of an upload to this tenant, at the time `now` on the
    /// monotonic clock in milliseconds.
    pub fn upload(
        &mut self,
        file_name: &str,
        link_to_slack: bool,
        slack_text_prefix: Option<&String>,
        request_id: &str,
        event: UploadEvent,
        now: u64,
        metrics: &mut Metrics,
    ) -> (step: UploadStep)
        ensures
            (final(self).google_uploader.token_provider.cache(), step@) == upload_step(
                old(self)@,
                old(self).google_uploader.token_provider.policy,
                old(self).google_uploader.token_provider.cache(),
                UploadOrder {
                    file_name: file_name@,
                    link_to_slack,
                    slack_text_prefix: match slack_text_prefix {
                        Some(p) => Some(p@),
                        None => None,
                    },
                    request_id: request_id@,
                },
                event@,
                now,
            ),
            final(self)@ == old(self)@,
            final(self).api_token == old(self).api_token,
            final(self).slack_link_sender == old(self).slack_link_sender,
            final(self).google_uploader.target_bucket == old(self).google_uploader.target_bucket,
            final(self).google_uploader.token_provider.account_data == old(
                self,
            ).google_uploader.token_provider.account_data,
            final(self).google_uploader.token_provider.scopes == old(
                self,
            ).google_uploader.token_provider.scopes,
            final(self).google_uploader.token_provider.policy == old(
                self,
            ).google_uploader.token_provider.policy,
            final(metrics)@ == upload_metrics(old(metrics)@, event@),
    {
        match event {
            UploadEvent::Start => {
                if link_to_slack && self.slack_link_sender.is_none() {
                    refuse_slack()
                } else {
                    let step = self.google_uploader.upload(
                        file_name,
                        StorageEvent::Token(TokenEvent::Asked),
                        now,
                        metrics,
                    );
                    self.continue_after_storage(link_to_slack, slack_text_prefix, request_id, step)
                }
            },
            UploadEvent::Storage(event) => {
                let step = self.google_uploader.upload(file_name, event, now, metrics);
                self.continue_after_storage(link_to_slack, slack_text_prefix, request_id, step)
            },
            UploadEvent::Slack { link, event } => {
                match &self.slack_link_sender {
                    Some(sender) => {
                        let step = sender.post_link(link.as_str(), slack_text_prefix, event);
                        continue_after_slack(link, request_id, step)
                    },
                    None => refuse_slack(),
                }
            },
        }
    }
}

} // verus!
