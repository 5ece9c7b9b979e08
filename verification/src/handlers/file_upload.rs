//! The checks of an upload request, and the name and encoding of the stored
//! object.

use crate::error::{failure, ErrorKind, ErrorView, ErrorWithStatusAndDesc};
use crate::helpers::{
    content_length_of, content_type_of, get_content_length, get_content_type,
    get_required_str_header, get_str_header, header_text, required_header_text, text_view,
    ContentType, ContentTypeView, HeaderMap,
};
use crate::json::{json_escaped, lemma_plain_text_is_kept, needs_escape};
use crate::outside::{is_lower_hex, random_uuid_hex};
use crate::project::proj::{slack_not_configured, ProjectView};
use crate::text::str_eq;
use crate::types::{
    is_first_with_token, no_tenant_has, tokens_of, App, QueryInput, QueryView, Request,
    RequestView,
};
use vstd::prelude::*;

verus! {

/// The kinds of object names that the gateway makes up, by content type.
#[derive(Debug, Clone, Copy, PartialEq, Eq, Structural)]
pub enum NameRule {
    /// `text/*`
    Text,
    /// `application/json`
    Json,
    /// `application/zip`
    Zip,
    /// `application/gz`
    Gz,
    /// Everything else, and requests without a content type.
    Binary,
}

/// The rule for a content type.
pub open spec fn name_rule(content_type: Option<ContentTypeView>) -> NameRule {
    match content_type {
        None => NameRule::Binary,
        Some(t) => if t.type_ == "text"@ {
            NameRule::Text
        } else if t.type_ == "application"@ {
            if t.subtype == "json"@ {
                NameRule::Json
            } else if t.subtype == "zip"@ {
                NameRule::Zip
            } else if t.subtype == "gz"@ {
                NameRule::Gz
            } else {
                NameRule::Binary
            }
        } else {
            NameRule::Binary
        },
    }
}

/// The ending of the names of a rule.
pub open spec fn extension_of(rule: NameRule) -> Seq<char> {
    match rule {
        NameRule::Text => ".txt.gz"@,
        NameRule::Json => ".json.gz"@,
        NameRule::Zip => ".zip"@,
        NameRule::Gz => ".gz"@,
        NameRule::Binary => ".bin.gz"@,
    }
}

/// Whether the objects of a rule are compressed on their way: all but those
/// that are compressed already.
pub open spec fn compressed(rule: NameRule) -> bool {
    match rule {
        NameRule::Zip => false,
        NameRule::Gz => false,
        _ => true,
    }
}

/// The name under which an object is stored, and whether it is compressed
/// with gzip on its way.
#[derive(Debug, Clone, PartialEq, Eq)]
pub struct NamedBody {
    pub name: String,
    pub compress: bool,
}

/// The mathematical content of a [`NamedBody`].
pub ghost struct NamedBodyView {
    pub name: Seq<char>,
    pub compress: bool,
}

impl View for NamedBody {
    type V = NamedBodyView;

    open spec fn view(&self) -> NamedBodyView {
        NamedBodyView { name: self.name@, compress: self.compress }
    }
}

/// Name and encoding of an object.
///
/// A name that the client gave is kept as it is, and the object is stored as
/// it comes. Otherwise the name is the fresh id with the ending of the
/// content type's rule, and the rule says whether the object is compressed.
pub open spec fn named_body(
    input_filename: Option<Seq<char>>,
    content_type: Option<ContentTypeView>,
    object_id: Seq<char>,
) -> NamedBodyView {
    match input_filename {
        Some(name) => NamedBodyView { name, compress: false },
        None => NamedBodyView {
            name: object_id + extension_of(name_rule(content_type)),
            compress: compressed(name_rule(content_type)),
        },
    }
}

/// Whether a text is an object id: 32 lower-case hexadecimal digits.
pub open spec fn is_object_id(id: Seq<char>) -> bool {
    &&& id.len() == 32
    &&& forall|i: int| 0 <= i < 32 ==> is_lower_hex(#[trigger] id[i])
}

/// An object id is written into a JSON string as it is.
pub proof fn lemma_object_id_is_plain(id: Seq<char>)
    requires
        is_object_id(id),
    ensures
        json_escaped(id) == id,
{
    assert forall|i: int| 0 <= i < id.len() implies !needs_escape(#[trigger] id[i]) by {
        assert(is_lower_hex(id[i]));
    }
    lemma_plain_text_is_kept(id);
}

impl NameRule {
    /// Picks the rule for a content type.
    pub fn of(content_type: Option<&ContentType>) -> (r: NameRule)
        ensures
            r == name_rule(
                match content_type {
                    Some(t) => Some(t@),
                    None => None,
                },
            ),
    {
        match content_type {
            None => NameRule::Binary,
            Some(t) => {
                if str_eq(t.type_.as_str(), "text") {
                    NameRule::Text
                } else if str_eq(t.type_.as_str(), "application") {
                    if str_eq(t.subtype.as_str(), "json") {
                        NameRule::Json
                    } else if str_eq(t.subtype.as_str(), "zip") {
                        NameRule::Zip
                    } else if str_eq(t.subtype.as_str(), "gz") {
                        NameRule::Gz
                    } else {
                        NameRule::Binary
                    }
                } else {
                    NameRule::Binary
                }
            },
        }
    }

    /// The ending of the names of this rule.
    pub fn extension(&self) -> (r: &'static str)
        ensures
            r@ == extension_of(*self),
    {
        match self {
            NameRule::Text => ".txt.gz",
            NameRule::Json => ".json.gz",
            NameRule::Zip => ".zip",
            NameRule::Gz => ".gz",
            NameRule::Binary => ".bin.gz",
        }
    }

    /// Whether the objects of this rule are compressed on their way.
    pub fn compresses(&self) -> (r: bool)
        ensures
            r == compressed(*self),
    {
        match self {
            NameRule::Zip => false,
            NameRule::Gz => false,
            _ => true,
        }
    }
}

/// Names an object and decides on its encoding, with the id to use where the
/// client gave no name.
pub fn name_body(
    input_filename: Option<String>,
    content_type: Option<&ContentType>,
    object_id: &str,
) -> (r: NamedBody)
    ensures
        r@ == named_body(
            text_view(input_filename),
            match content_type {
                Some(t) => Some(t@),
                None => None,
            },
            object_id@,
        ),
{
    match input_filename {
        Some(name) => NamedBody { name, compress: false },
        None => {
            let rule = NameRule::of(content_type);
            let mut name = String::from_str(object_id);
            name.append(rule.extension());
            NamedBody { name, compress: rule.compresses() }
        },
    }
}

/// What the naming of an object ends with: an unreadable content type is a
/// failure, but only where the client gave no name.
pub open spec fn named_body_of(
    headers: Seq<(Seq<char>, Seq<u8>)>,
    input_filename: Option<Seq<char>>,
    object_id: Seq<char>,
) -> Result<NamedBodyView, ErrorView> {
    match input_filename {
        Some(name) => Ok(named_body(input_filename, None, object_id)),
        None => match content_type_of(headers) {
            Ok(content_type) => Ok(named_body(None, content_type, object_id)),
            Err(_) => Err(failure(ErrorKind::BadRequest, "Content type parsing failed"@)),
        },
    }
}

/// The view of a naming or its failure.
pub open spec fn naming_view(r: Result<NamedBody, ErrorWithStatusAndDesc>) -> Result<
    NamedBodyView,
    ErrorView,
> {
    match r {
        Ok(b) => Ok(b@),
        Err(e) => Err(e@),
    }
}

/// Names the object of a request with the given id.
pub fn build_name_and_body_with(
    headers: &HeaderMap,
    input_filename: Option<String>,
    object_id: &str,
) -> (r: Result<NamedBody, ErrorWithStatusAndDesc>)
    ensures
        naming_view(r) == named_body_of(headers@, text_view(input_filename), object_id@),
{
    match input_filename {
        Some(name) => Ok(name_body(Some(name), None, object_id)),
        None => {
            match get_content_type(headers) {
                Ok(content_type) => Ok(name_body(None, content_type.as_ref(), object_id)),
                Err(_) => Err(
                    ErrorWithStatusAndDesc::new_with_status_desc(
                        ErrorKind::BadRequest,
                        "Content type parsing failed",
                    ),
                ),
            }
        },
    }
}

/// Names the object of a request and decides on its encoding.
///
/// Where the client gave no name, a fresh random id is drawn, so the contract
/// speaks of some id: [`build_name_and_body_with`] says what comes out for
/// each.
pub fn build_name_and_body(headers: &HeaderMap, input_filename: Option<String>) -> (r: Result<
    NamedBody,
    ErrorWithStatusAndDesc,
>)
    ensures
        exists|id: Seq<char>|
            is_object_id(id) && naming_view(r) == #[trigger] named_body_of(
                headers@,
                text_view(input_filename),
                id,
            ),
        input_filename matches Some(name) ==> naming_view(r) == Ok::<NamedBodyView, ErrorView>(
            NamedBodyView { name: name@, compress: false },
        ),
{
    let id = random_uuid_hex();
    let r = build_name_and_body_with(headers, input_filename, id.as_str());
    assert(is_object_id(id@));
    r
}

/// An upload that has passed every check of its request.
#[derive(Debug, Clone, PartialEq, Eq)]
pub struct UploadJob {
    /// Index of the tenant among the gateway's tenants.
    pub project: usize,
    /// Name of the object in the tenant's bucket.
    pub file_name: String,
    /// Whether the body is compressed with gzip on its way.
    pub compress: bool,
    /// Whether the link is mirrored into chat.
    pub link_to_slack: bool,
    /// The words before the link in chat, where the request gave them.
    pub slack_text_prefix: Option<String>,
    /// The length of the body that the request announced.
    pub content_length: usize,
}

/// The mathematical content of an [`UploadJob`].
pub ghost struct UploadJobView {
    pub project: int,
    pub file_name: Seq<char>,
    pub compress: bool,
    pub link_to_slack: bool,
    pub slack_text_prefix: Option<Seq<char>>,
    pub content_length: usize,
}

impl View for UploadJob {
    type V = UploadJobView;

    open spec fn view(&self) -> UploadJobView {
        UploadJobView {
            project: self.project as int,
            file_name: self.file_name@,
            compress: self.compress,
            link_to_slack: self.link_to_slack,
            slack_text_prefix: text_view(self.slack_text_prefix),
            content_length: self.content_length,
        }
    }
}

/// The name that the query gives.
pub open spec fn query_filename(query: QueryView) -> Option<Seq<char>> {
    match query {
        QueryView::Parsed(q) => q.filename,
        _ => None,
    }
}

/// Whether the query asks for the mirror into chat. It does not by default.
pub open spec fn query_slack_send(query: QueryView) -> bool {
    match query {
        QueryView::Parsed(q) => q.slack_send == Some(true),
        _ => false,
    }
}

/// The words before the link that the query gives.
pub open spec fn query_slack_prefix(query: QueryView) -> Option<Seq<char>> {
    match query {
        QueryView::Parsed(q) => q.slack_text_prefix,
        _ => None,
    }
}

/// The name that the client gave: that of the header `X-Filename`, else that
/// of the query.
pub open spec fn explicit_filename(header_name: Option<Seq<char>>, query: QueryView) -> Option<
    Seq<char>,
> {
    match header_name {
        Some(name) => Some(name),
        None => query_filename(query),
    }
}

/// The index of the first tenant with the given token.
pub open spec fn tenant_of(tokens: Seq<Seq<char>>, token: Seq<char>) -> int {
    choose|i: int| is_first_with_token(tokens, token, i)
}

/// The tenant of a token is the only first one with it.
proof fn lemma_tenant_of(tokens: Seq<Seq<char>>, token: Seq<char>, i: int)
    requires
        is_first_with_token(tokens, token, i),
    ensures
        tenant_of(tokens, token) == i,
{
    let k = tenant_of(tokens, token);
    assert(is_first_with_token(tokens, token, k));
    if k < i {
        assert(tokens[k] != token);
    }
    if i < k {
        assert(tokens[i] != token);
    }
}

/// What the checks of an upload request end with, for the object id to use
/// where the client gave no name. The checks come in this order, and the
/// first that fails decides:
///
/// 1. `X-Api-Token` must be there and be text, else the request is
///    unauthorized;
/// 2. a tenant must have exactly that token;
/// 3. the query must follow its grammar;
/// 4. `Content-Length` must be there and be a number;
/// 5. `X-Filename`, if there, must be text, and the content type must be
///    readable where no name is given;
/// 6. a mirror into chat can be asked only of a tenant that has one.
pub open spec fn checked_upload(
    app: Seq<ProjectView>,
    request: RequestView,
    object_id: Seq<char>,
) -> Result<UploadJobView, ErrorView> {
    let headers = request.headers;
    let tokens = tokens_of(app);
    match required_header_text(headers, "X-Api-Token"@) {
        Err(_) => Err(failure(ErrorKind::Unauthorized, "Api token parsing failed"@)),
        Ok(token) => if no_tenant_has(tokens, token) {
            Err(failure(ErrorKind::BadRequest, "Requested project is missing"@))
        } else if request.query is Malformed {
            Err(failure(ErrorKind::BadRequest, "Query parsing error"@))
        } else {
            match content_length_of(headers) {
                Err(_) => Err(
                    failure(ErrorKind::LengthRequired, "Content-Length header parsing failed"@),
                ),
                Ok(None) => Err(
                    failure(ErrorKind::LengthRequired, "Content-Length header is missing"@),
                ),
                Ok(Some(content_length)) => match header_text(headers, "X-Filename"@) {
                    Err(_) => Err(failure(ErrorKind::BadRequest, "Filename parsing failed"@)),
                    Ok(header_name) => match named_body_of(
                        headers,
                        explicit_filename(header_name, request.query),
                        object_id,
                    ) {
                        Err(e) => Err(e),
                        Ok(body) => {
                            let project = tenant_of(tokens, token);
                            if query_slack_send(request.query)
                                && app[project].sender is None {
                                Err(slack_not_configured())
                            } else {
                                Ok(
                                    UploadJobView {
                                        project,
                                        file_name: body.name,
                                        compress: body.compress,
                                        link_to_slack: query_slack_send(request.query),
                                        slack_text_prefix: query_slack_prefix(request.query),
                                        content_length,
                                    },
                                )
                            }
                        },
                    },
                },
            }
        },
    }
}

/// The view of a checked upload or its failure.
pub open spec fn job_view(r: Result<UploadJob, ErrorWithStatusAndDesc>) -> Result<
    UploadJobView,
    ErrorView,
> {
    match r {
        Ok(job) => Ok(job@),
        Err(e) => Err(e@),
    }
}

/// A failure of the given kind.
fn fail(kind: ErrorKind, desc: &str) -> (r: Result<UploadJob, ErrorWithStatusAndDesc>)
    ensures
        job_view(r) == Err::<UploadJobView, ErrorView>(failure(kind, desc@)),
{
    Err(ErrorWithStatusAndDesc::new_with_status_desc(kind, desc))
}

/// Copies an optional text.
pub fn clone_text(t: &Option<String>) -> (r: Option<String>)
    ensures
        text_view(r) == text_view(*t),
{
    match t {
        Some(t) => Some(t.clone()),
        None => None,
    }
}

/// Checks an upload request, with the object id to use where the client gave
/// no name.
pub fn file_upload_with(app: &App, request: &Request, object_id: &str) -> (r: Result<
    UploadJob,
    ErrorWithStatusAndDesc,
>)
    ensures
        job_view(r) == checked_upload(app@, request@, object_id@),
{
    let token = match get_required_str_header(&request.headers, "X-Api-Token") {
        Ok(token) => token,
        Err(_) => {
            return fail(ErrorKind::Unauthorized, "Api token parsing failed");
        },
    };
    let project = match app.find_project(token.as_str()) {
        Some(project) => project,
        None => {
            return fail(ErrorKind::BadRequest, "Requested project is missing");
        },
    };
    proof {
        lemma_tenant_of(tokens_of(app@), token@, project as int);
        assert(!no_tenant_has(tokens_of(app@), token@)) by {
            assert(tokens_of(app@)[project as int] == token@);
        }
    }
    let (filename, slack_send, slack_text_prefix) = match &request.query {
        QueryInput::Malformed => {
            return fail(ErrorKind::BadRequest, "Query parsing error");
        },
        QueryInput::Absent => (None, false, None),
        QueryInput::Parsed(q) => (
            clone_text(&q.filename),
            match q.slack_send {
                Some(b) => b,
                None => false,
            },
            clone_text(&q.slack_text_prefix),
        ),
    };
    let content_length = match get_content_length(&request.headers) {
        Err(_) => {
            return fail(ErrorKind::LengthRequired, "Content-Length header parsing failed");
        },
        Ok(None) => {
            return fail(ErrorKind::LengthRequired, "Content-Length header is missing");
        },
        Ok(Some(n)) => n,
    };
    let input_filename = match get_str_header(&request.headers, "X-Filename") {
        Err(_) => {
            return fail(ErrorKind::BadRequest, "Filename parsing failed");
        },
        Ok(Some(name)) => Some(name),
        Ok(None) => filename,
    };
    let body = match build_name_and_body_with(&request.headers, input_filename, object_id) {
        Ok(body) => body,
        Err(e) => {
            return Err(e);
        },
    };
    if slack_send && app.projects[project].slack_link_sender.is_none() {
        return fail(
            ErrorKind::BadRequest,
            "Slack posting is not configured for this application",
        );
    }
    Ok(
        UploadJob {
            project,
            file_name: body.name,
            compress: body.compress,
            link_to_slack: slack_send,
            slack_text_prefix,
            content_length,
        },
    )
}

/// Checks an upload request.
///
/// Where the client gave no name, a fresh random id is drawn, so the contract
/// speaks of some id: [`file_upload_with`] says what comes out for each. A
/// request that passes is dispatched to the tenant whose API token it
/// carries, and a name that the client gave is kept exactly.
pub fn file_upload(app: &App, request: &Request) -> (r: Result<UploadJob, ErrorWithStatusAndDesc>)
    ensures
        exists|id: Seq<char>|
            is_object_id(id) && job_view(r) == #[trigger] checked_upload(app@, request@, id),
{
    let id = random_uuid_hex();
    let r = file_upload_with(app, request, id.as_str());
    assert(is_object_id(id@));
    r
}

/// Tenant isolation: a request that passes its checks carries the API token
/// of the tenant to which it is dispatched, and no earlier tenant has that
/// token. Every other request is refused.
pub proof fn lemma_tenant_isolation(
    app: Seq<ProjectView>,
    request: RequestView,
    object_id: Seq<char>,
)
    ensures
        checked_upload(app, request, object_id) matches Ok(job) ==> {
            &&& required_header_text(request.headers, "X-Api-Token"@) matches Ok(token)
            &&& is_first_with_token(tokens_of(app), token, job.project)
            &&& app[job.project].api_token == token
        },
{
    if let Ok(job) = checked_upload(app, request, object_id) {
        let tokens = tokens_of(app);
        let token = required_header_text(request.headers, "X-Api-Token"@)->Ok_0;
        assert(!no_tenant_has(tokens, token));
        let j = choose|j: int| 0 <= j < tokens.len() && tokens[j] == token;
        lemma_first_exists(tokens, token, j);
    }
}

/// Where a tenant has a token, a first tenant has it.
proof fn lemma_first_exists(tokens: Seq<Seq<char>>, token: Seq<char>, j: int)
    requires
        0 <= j < tokens.len(),
        tokens[j] == token,
    ensures
        is_first_with_token(tokens, token, tenant_of(tokens, token)),
    decreases j,
{
    if exists|k: int| 0 <= k < j && tokens[k] == token {
        let k = choose|k: int| 0 <= k < j && tokens[k] == token;
        lemma_first_exists(tokens, token, k);
    } else {
        assert(is_first_with_token(tokens, token, j));
    }
}

/// Naming determinism: the object of a request that passes its checks is
/// stored under the name that the client gave, that of `X-Filename` or else
/// that of the query, whenever the client gave one; and then as it comes,
/// without compression.
pub proof fn lemma_explicit_name_is_kept(
    app: Seq<ProjectView>,
    request: RequestView,
    object_id: Seq<char>,
)
    ensures
        checked_upload(app, request, object_id) matches Ok(job) ==> (header_text(
            request.headers,
            "X-Filename"@,
        ) matches Ok(header_name) && (explicit_filename(header_name, request.query) matches Some(
            name,
        ) ==> job.file_name == name && !job.compress)),
{
}

/// Compression policy: the object of a request that passes its checks
/// without a name from the client is named by the id and the ending of its
/// content type's rule, and compressed as that rule says.
pub proof fn lemma_compression_policy(
    app: Seq<ProjectView>,
    request: RequestView,
    object_id: Seq<char>,
)
    ensures
        checked_upload(app, request, object_id) matches Ok(job) ==> (header_text(
            request.headers,
            "X-Filename"@,
        ) matches Ok(header_name) && (explicit_filename(header_name, request.query) is None ==> (
        content_type_of(request.headers) matches Ok(content_type) && job.file_name == object_id
            + extension_of(name_rule(content_type)) && job.compress == compressed(
            name_rule(content_type),
        )))),
{
}

} // verus!
