//! The upstream server value: the external spec-to-registry translation is
//! delegated to `rmcp_openapi`, and its result — an opaque server holding
//! the translated tool collection — is checked here by a verified
//! post-build pass before anything is served from it.
use vstd::prelude::*;

verus! {

use vstd::utf8::encode_utf8;

use crate::config::url_well_formed;
use crate::registry::bearer_header_value;
use crate::registry::spec_bearer;

#[verifier::external_type_specification]
#[verifier::external_body]
pub struct ExServer(rmcp_openapi::Server);

/// A byte accepted in an HTTP header value: tab, or anything from space
/// upward except DEL.
pub open spec fn header_byte_ok(b: u8) -> bool {
    b >= 32 && b != 127 || b == 9
}

/// Whether a string is accepted as an HTTP header value: every byte of its
/// UTF-8 encoding must be acceptable.
pub open spec fn header_value_ok(s: Seq<char>) -> bool {
    forall|i: int| 0 <= i < encode_utf8(s).len() ==> header_byte_ok(#[trigger] encode_utf8(s)[i])
}

/// Whether the external translation accepts a document.
pub uninterp spec fn doc_translates(d: serde_json::Value) -> bool;

/// The names of the tools a document translates to, in collection order.
pub uninterp spec fn doc_tool_names(d: serde_json::Value) -> Seq<Seq<char>>;

/// The names of the tools an upstream server holds, in collection order.
pub uninterp spec fn server_tool_names(s: rmcp_openapi::Server) -> Seq<Seq<char>>;

/// A fault while building the upstream server; all are fatal.
#[derive(Debug)]
pub enum UpstreamBuildError {
    InvalidBaseUrl,
    InvalidCredentialHeader,
    SpecRejected { message: String },
    DuplicateToolName,
    EmptyRegistry,
}

impl UpstreamBuildError {
    /// The user-visible diagnostic for this fault.
    pub fn diagnostic(&self) -> (r: String)
        ensures
            *self is InvalidBaseUrl ==> r@ == "Error: base URL is not a valid URL"@,
            *self is InvalidCredentialHeader ==> r@ == "Error: the API key cannot be carried in an authorization header"@,
            *self matches UpstreamBuildError::SpecRejected { message } ==> r@ == "Error: cannot load the OpenAPI document: "@ + message@,
            *self is DuplicateToolName ==> r@ == "Error: registry validation failed: duplicate tool name"@,
            *self is EmptyRegistry ==> r@ == "Error: registry validation failed: no tools loaded"@,
    {
        match self {
            UpstreamBuildError::InvalidBaseUrl => String::from_str(
                "Error: base URL is not a valid URL",
            ),
            UpstreamBuildError::InvalidCredentialHeader => String::from_str(
                "Error: the API key cannot be carried in an authorization header",
            ),
            UpstreamBuildError::SpecRejected { message } => {
                let mut s = String::from_str("Error: cannot load the OpenAPI document: ");
                s.append(message.as_str());
                s
            },
            UpstreamBuildError::DuplicateToolName => String::from_str(
                "Error: registry validation failed: duplicate tool name",
            ),
            UpstreamBuildError::EmptyRegistry => String::from_str(
                "Error: registry validation failed: no tools loaded",
            ),
        }
    }
}

/// Relies on `url::Url::parse`, `reqwest::header::HeaderValue::from_str`
/// and `rmcp_openapi::Server`'s builder and `load_openapi_spec`: the two
/// parses are byte-wise checks of their strings; whether the translation
/// accepts the held document, and which tool names it produces, are
/// functions of the document alone; nothing is claimed of the failure
/// message.
#[verifier::external_body]
fn translate_document(doc: serde_json::Value, base_url: &str, authorization: &str) -> (r: Result<rmcp_openapi::Server, UpstreamBuildError>)
    ensures
        (r is Ok) <==> (url_well_formed(base_url@) && header_value_ok(authorization@)
            && doc_translates(doc)),
        (r matches Err(e) && e is InvalidBaseUrl) <==> !url_well_formed(base_url@),
        (r matches Err(e) && e is InvalidCredentialHeader) <==> (url_well_formed(base_url@)
            && !header_value_ok(authorization@)),
        (r matches Err(e) && e is SpecRejected) <==> (url_well_formed(base_url@)
            && header_value_ok(authorization@) && !doc_translates(doc)),
        r matches Ok(s) ==> server_tool_names(s) == doc_tool_names(doc),
{
    let base = url::Url::parse(base_url).map_err(|_| UpstreamBuildError::InvalidBaseUrl)?;
    let auth = reqwest::header::HeaderValue::from_str(authorization)
        .map_err(|_| UpstreamBuildError::InvalidCredentialHeader)?;
    let mut headers = reqwest::header::HeaderMap::new();
    headers.insert(reqwest::header::AUTHORIZATION, auth);
    let b = rmcp_openapi::Server::builder().openapi_spec(doc).base_url(base);
    let mut server = b.default_headers(headers).build();
    server.load_openapi_spec().map_err(|e| UpstreamBuildError::SpecRejected {
        message: e.to_string(),
    })?;
    Ok(server)
}

/// Relies on `rmcp_openapi::Server::tool_count`: the length of the loaded
/// tool collection, of which `get_tool_names` lists one name per tool.
#[verifier::external_body]
fn upstream_tool_count(s: &rmcp_openapi::Server) -> (r: usize)
    ensures
        r == server_tool_names(*s).len(),
{
    s.tool_count()
}

/// Relies on `rmcp_openapi::Server::get_tool_names`: one name per tool of
/// the loaded collection, in collection order.
#[verifier::external_body]
fn upstream_tool_names(s: &rmcp_openapi::Server) -> (r: Vec<String>)
    ensures
        r@.len() == server_tool_names(*s).len(),
        forall|i: int| 0 <= i < r@.len() ==> r@[i]@ == server_tool_names(*s)[i],
{
    s.get_tool_names()
}

/// Relies on `rmcp_openapi::Server::validate_registry`: it rejects exactly
/// an empty tool collection.
#[verifier::external_body]
fn upstream_validate(s: &rmcp_openapi::Server) -> (r: bool)
    ensures
        r <==> server_tool_names(*s).len() > 0,
{
    s.validate_registry().is_ok()
}

/// No two strings of the list read the same.
pub open spec fn unique_string_views(names: Seq<String>) -> bool {
    forall|i: int, j: int| 0 <= i < j < names.len() ==> names[i]@ != names[j]@
}

/// No two names of the sequence are the same.
pub open spec fn distinct_names(names: Seq<Seq<char>>) -> bool {
    forall|i: int, j: int| 0 <= i < j < names.len() ==> names[i] != names[j]
}

fn names_unique(names: &Vec<String>) -> (r: bool)
    ensures
        r <==> unique_string_views(names@),
{
    let n = names.len();
    let mut i: usize = 0;
    while i < n
        invariant
            0 <= i <= n,
            n == names@.len(),
            forall|a: int, b: int| 0 <= a < b < n && a < i ==> names@[a]@ != names@[b]@,
        decreases n - i,
    {
        let mut j: usize = i + 1;
        while j < n
            invariant
                0 <= i < j <= n,
                n == names@.len(),
                forall|b: int| i < b < j ==> names@[i as int]@ != names@[b]@,
            decreases n - j,
        {
            if names[i] == names[j] {
                return false;
            }
            j = j + 1;
        }
        i = i + 1;
    }
    true
}

/// The built upstream server with its diagnostic counts: the opaque server
/// value, the tool count, and the tool names for logging.
pub struct UpstreamServer {
    pub server: rmcp_openapi::Server,
    pub tool_count: usize,
    pub tool_names: Vec<String>,
}

impl UpstreamServer {
    /// The upstream registry invariant: the diagnostics match the held
    /// collection, the collection is non-empty, and no two tools share a
    /// name.
    pub open spec fn wf(self) -> bool {
        &&& self.tool_count == server_tool_names(self.server).len()
        &&& self.tool_names@.len() == server_tool_names(self.server).len()
        &&& forall|i: int|
            0 <= i < self.tool_names@.len() ==> self.tool_names@[i]@ == server_tool_names(
                self.server,
            )[i]
        &&& server_tool_names(self.server).len() > 0
        &&& distinct_names(server_tool_names(self.server))
    }
}

/// The conditions under which the upstream build is owed success: the base
/// address parses, the bearer header derived from the credential is a
/// valid header value, the translation accepts the document, and the
/// translated names are distinct and non-empty.
pub open spec fn upstream_build_ok(doc: serde_json::Value, base_url: Seq<char>, api_key: Seq<char>) -> bool {
    &&& url_well_formed(base_url)
    &&& header_value_ok(spec_bearer(api_key))
    &&& doc_translates(doc)
    &&& distinct_names(doc_tool_names(doc))
    &&& doc_tool_names(doc).len() > 0
}

/// Assembles the upstream server from the decoded document, the base
/// address and the credential, delegates the translation, then runs the
/// post-build consistency pass: names must be unique and the collection
/// non-empty. Each fault is reported in order — base address, credential
/// header, translation, duplicate names, emptiness — and the build
/// succeeds exactly when none occurs.
pub fn build_upstream_server(doc: serde_json::Value, base_url: &str, api_key: &str) -> (r: Result<UpstreamServer, UpstreamBuildError>)
    ensures
        (r is Ok) <==> upstream_build_ok(doc, base_url@, api_key@),
        r matches Ok(u) ==> u.wf() && server_tool_names(u.server) == doc_tool_names(doc),
        (r matches Err(e) && e is InvalidBaseUrl) <==> !url_well_formed(base_url@),
        (r matches Err(e) && e is InvalidCredentialHeader) <==> (url_well_formed(base_url@)
            && !header_value_ok(spec_bearer(api_key@))),
        (r matches Err(e) && e is SpecRejected) <==> (url_well_formed(base_url@)
            && header_value_ok(spec_bearer(api_key@)) && !doc_translates(doc)),
        (r matches Err(e) && e is DuplicateToolName) <==> (url_well_formed(base_url@)
            && header_value_ok(spec_bearer(api_key@)) && doc_translates(doc) && !distinct_names(
            doc_tool_names(doc),
        )),
        (r matches Err(e) && e is EmptyRegistry) <==> (url_well_formed(base_url@)
            && header_value_ok(spec_bearer(api_key@)) && doc_translates(doc) && distinct_names(
            doc_tool_names(doc),
        ) && doc_tool_names(doc).len() == 0),
{
    let authorization = bearer_header_value(api_key);
    let server = match translate_document(doc, base_url, authorization.as_str()) {
        Ok(s) => s,
        Err(e) => {
            return Err(e);
        },
    };
    let tool_names = upstream_tool_names(&server);
    proof {
        let sn = server_tool_names(server);
        if unique_string_views(tool_names@) {
            assert forall|i: int, j: int| 0 <= i < j < sn.len() implies sn[i] != sn[j] by {
                assert(tool_names@[i]@ != tool_names@[j]@);
            }
            assert(distinct_names(sn));
        } else {
            assert(exists|i: int, j: int|
                0 <= i < j < tool_names@.len() && tool_names@[i]@ == tool_names@[j]@);
            let (i, j) = choose|i: int, j: int|
                0 <= i < j < tool_names@.len() && tool_names@[i]@ == tool_names@[j]@;
            assert(sn[i] == sn[j]);
            assert(!distinct_names(sn));
        }
    }
    if !names_unique(&tool_names) {
        return Err(UpstreamBuildError::DuplicateToolName);
    }
    if !upstream_validate(&server) {
        return Err(UpstreamBuildError::EmptyRegistry);
    }
    let tool_count = upstream_tool_count(&server);
    Ok(UpstreamServer { server, tool_count, tool_names })
}

/// The upstream build is deterministic: two built servers carrying the
/// same document's translation have the same tool count and, name by
/// name, the same tool names.
pub proof fn lemma_upstream_build_deterministic(
    doc: serde_json::Value,
    u1: UpstreamServer,
    u2: UpstreamServer,
)
    requires
        u1.wf(),
        u2.wf(),
        server_tool_names(u1.server) == doc_tool_names(doc),
        server_tool_names(u2.server) == doc_tool_names(doc),
    ensures
        u1.tool_count == u2.tool_count,
        u1.tool_names@.len() == u2.tool_names@.len(),
        forall|i: int| 0 <= i < u1.tool_names@.len() ==> u1.tool_names@[i]@ == u2.tool_names@[i]@,
{
    assert forall|i: int| 0 <= i < u1.tool_names@.len() implies u1.tool_names@[i]@
        == u2.tool_names@[i]@ by {
        assert(u1.tool_names@[i]@ == server_tool_names(u1.server)[i]);
        assert(u2.tool_names@[i]@ == server_tool_names(u2.server)[i]);
    }
}

} // verus!
