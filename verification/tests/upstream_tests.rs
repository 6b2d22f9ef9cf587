use resend_mcp::registry::decode_spec_document;
use resend_mcp::upstream::{UpstreamBuildError, build_upstream_server};

const THREE_TOOL_SPEC: &str = "\
openapi: 3.0.0
info:
  title: Test API
  version: 1.0.0
paths:
  /emails:
    post:
      operationId: send_email
      summary: Send an email
      responses:
        '200':
          description: OK
    get:
      operationId: list_emails
      summary: List emails
      responses:
        '200':
          description: OK
  /domains:
    get:
      operationId: list_domains
      summary: List domains
      responses:
        '200':
          description: OK
";

const EMPTY_SPEC: &str = "\
openapi: 3.0.0
info:
  title: Empty API
  version: 1.0.0
paths: {}
";

#[test]
fn three_unique_tool_definitions_report_a_count_of_three() {
    let doc = decode_spec_document(THREE_TOOL_SPEC).unwrap();
    let server = build_upstream_server(doc, "https://api.resend.com", "k").unwrap();
    assert_eq!(server.tool_count, 3);
    assert_eq!(server.tool_names.len(), 3);
    assert!(server.tool_names.iter().any(|n| n == "send_email"));
    assert!(server.tool_names.iter().any(|n| n == "list_emails"));
    assert!(server.tool_names.iter().any(|n| n == "list_domains"));
}

#[test]
fn upstream_builds_are_deterministic() {
    let doc1 = decode_spec_document(THREE_TOOL_SPEC).unwrap();
    let doc2 = decode_spec_document(THREE_TOOL_SPEC).unwrap();
    let a = build_upstream_server(doc1, "https://api.resend.com", "k").unwrap();
    let b = build_upstream_server(doc2, "https://api.resend.com", "k").unwrap();
    assert_eq!(a.tool_count, b.tool_count);
    assert_eq!(a.tool_names, b.tool_names);
}

#[test]
fn a_bad_base_address_is_rejected_first() {
    let doc = decode_spec_document(THREE_TOOL_SPEC).unwrap();
    let r = build_upstream_server(doc, "not a url", "k");
    assert!(matches!(r, Err(UpstreamBuildError::InvalidBaseUrl)));
}

#[test]
fn a_credential_with_forbidden_bytes_is_rejected() {
    let doc = decode_spec_document(THREE_TOOL_SPEC).unwrap();
    let r = build_upstream_server(doc, "https://api.resend.com", "k\ny");
    assert!(matches!(r, Err(UpstreamBuildError::InvalidCredentialHeader)));
}

#[test]
fn a_document_that_is_not_a_specification_is_rejected() {
    let doc = decode_spec_document("just: text").unwrap();
    let r = build_upstream_server(doc, "https://api.resend.com", "k");
    assert!(matches!(r, Err(UpstreamBuildError::SpecRejected { .. })));
}

const DUPLICATE_ID_SPEC: &str = "\
openapi: 3.0.0
info:
  title: Clashing API
  version: 1.0.0
paths:
  /a:
    get:
      operationId: dup_op
      summary: First
      responses:
        '200':
          description: OK
  /b:
    get:
      operationId: dup_op
      summary: Second
      responses:
        '200':
          description: OK
";

#[test]
fn duplicate_operation_ids_fail_the_consistency_pass() {
    let doc = decode_spec_document(DUPLICATE_ID_SPEC).unwrap();
    let r = build_upstream_server(doc, "https://api.resend.com", "k");
    assert!(matches!(r, Err(UpstreamBuildError::DuplicateToolName)));
}

#[test]
fn a_specification_without_operations_is_an_empty_registry() {
    let doc = decode_spec_document(EMPTY_SPEC).unwrap();
    let r = build_upstream_server(doc, "https://api.resend.com", "k");
    assert!(matches!(r, Err(UpstreamBuildError::EmptyRegistry)));
}

#[test]
fn upstream_diagnostics_name_the_fault() {
    assert_eq!(
        UpstreamBuildError::InvalidBaseUrl.diagnostic(),
        "Error: base URL is not a valid URL"
    );
    assert_eq!(
        UpstreamBuildError::SpecRejected { message: "bad paths".to_string() }.diagnostic(),
        "Error: cannot load the OpenAPI document: bad paths"
    );
    assert_eq!(
        UpstreamBuildError::EmptyRegistry.diagnostic(),
        "Error: registry validation failed: no tools loaded"
    );
}
