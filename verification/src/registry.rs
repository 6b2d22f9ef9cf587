//! The tool registry: an immutable, ordered collection of tool descriptors
//! built once from a decoded specification document, validated for internal
//! consistency (unique tool names) before serving starts, and shared
//! read-only afterwards.
use vstd::prelude::*;

verus! {

#[verifier::external_type_specification]
#[verifier::external_body]
pub struct ExValue(serde_json::Value);

#[verifier::external_type_specification]
#[verifier::external_body]
pub struct ExYamlError(serde_yaml::Error);

/// Whether a specification document's text decodes as YAML.
pub uninterp spec fn yaml_document_well_formed(s: Seq<char>) -> bool;

/// The document value a well-formed text decodes to.
pub uninterp spec fn yaml_value_of(s: Seq<char>) -> serde_json::Value;

/// Relies on `serde_yaml::from_str::<serde_json::Value>`: whether a
/// document decodes, and to which value, is a function of the text alone.
#[verifier::external_body]
fn decode_yaml_value(s: &str) -> (r: Result<serde_json::Value, serde_yaml::Error>)
    ensures
        r is Ok <==> yaml_document_well_formed(s@),
        r matches Ok(v) ==> v == yaml_value_of(s@),
{
    serde_yaml::from_str::<serde_json::Value>(s)
}

/// Relies on `serde_yaml::Error`'s `Display` implementation for the
/// user-visible diagnostic; nothing is claimed of the text.
#[verifier::external_body]
fn yaml_error_message(e: &serde_yaml::Error) -> String {
    e.to_string()
}

/// A malformed specification document; fatal before serving.
#[derive(Debug)]
pub struct SpecLoadError {
    pub message: String,
}

/// Decodes the specification document text into an opaque document value
/// for the external spec-to-registry translation; a document that does not
/// decode is a fatal `SpecLoadError`.
pub fn decode_spec_document(text: &str) -> (r: Result<serde_json::Value, SpecLoadError>)
    ensures
        r is Ok <==> yaml_document_well_formed(text@),
        r matches Ok(v) ==> v == yaml_value_of(text@),
{
    match decode_yaml_value(text) {
        Ok(v) => Ok(v),
        Err(e) => Err(SpecLoadError { message: yaml_error_message(&e) }),
    }
}

/// One upstream operation of the specification document, as plain values:
/// its id, summary, HTTP method and path.
#[derive(Debug)]
pub struct OperationSpec {
    pub operation_id: String,
    pub summary: String,
    pub method: String,
    pub path: String,
}

/// The decoded specification document, as the ordered list of operations
/// it defines.
#[derive(Debug)]
pub struct SpecDocument {
    pub operations: Vec<OperationSpec>,
}

/// One callable tool descriptor: its name, description, and the invocation
/// mapping to the upstream operation backing it.
#[derive(Debug)]
pub struct Tool {
    pub name: String,
    pub description: String,
    pub method: String,
    pub path: String,
    pub operation_id: String,
}

/// The default headers attached to every upstream call the registry makes;
/// the authorization header is derived from the credential.
#[derive(Debug)]
pub struct DefaultHeaders {
    pub authorization: String,
}

/// The bearer authorization value derived from a credential.
pub open spec fn spec_bearer(key: Seq<char>) -> Seq<char> {
    "Bearer "@ + key
}

/// Builds the authorization header value for a credential.
pub fn bearer_header_value(api_key: &str) -> (r: String)
    ensures
        r@ == spec_bearer(api_key@),
{
    let mut s = String::new();
    s.append("Bearer ");
    s.append(api_key);
    proof {
        assert(s@ =~= spec_bearer(api_key@));
    }
    s
}

impl DefaultHeaders {
    pub open spec fn wf(self, api_key: Seq<char>) -> bool {
        self.authorization@ == spec_bearer(api_key)
    }

    /// The headers every upstream call carries: authorization derived from
    /// the credential.
    pub fn new(api_key: &str) -> (r: DefaultHeaders)
        ensures
            r.wf(api_key@),
    {
        DefaultHeaders { authorization: bearer_header_value(api_key) }
    }
}

/// The tool a single operation translates to: named by the operation id,
/// described by its summary, invoking the operation's method and path.
pub open spec fn tool_matches_op(t: Tool, op: OperationSpec) -> bool {
    &&& t.name@ == op.operation_id@
    &&& t.description@ == op.summary@
    &&& t.method@ == op.method@
    &&& t.path@ == op.path@
    &&& t.operation_id@ == op.operation_id@
}

/// No two tools share a name.
pub open spec fn unique_names(tools: Seq<Tool>) -> bool {
    forall|i: int, j: int| 0 <= i < j < tools.len() ==> tools[i].name@ != tools[j].name@
}

/// No two operations share an id; since tools are named by operation id,
/// this is exactly what the registry's consistency pass accepts.
pub open spec fn unique_operation_ids(ops: Seq<OperationSpec>) -> bool {
    forall|i: int, j: int| 0 <= i < j < ops.len() ==> ops[i].operation_id@ != ops[j].operation_id@
}

/// A broken registry: the post-build consistency pass failed.
#[derive(Clone, Copy, Debug, PartialEq, Eq, Structural)]
pub enum RegistryValidationError {
    DuplicateToolName,
}

impl RegistryValidationError {
    /// The user-visible diagnostic for this fault.
    pub fn diagnostic(&self) -> (r: &'static str)
        ensures
            r@ == "Error: registry validation failed: duplicate tool name"@,
    {
        match self {
            RegistryValidationError::DuplicateToolName => "Error: registry validation failed: duplicate tool name",
        }
    }
}

/// The immutable tool registry, with its default headers.
#[derive(Debug)]
pub struct ToolRegistry {
    pub tools: Vec<Tool>,
    pub headers: DefaultHeaders,
}

/// The registry a document builds: one tool per operation, in document
/// order.
pub open spec fn built_from(doc: SpecDocument, reg: ToolRegistry) -> bool {
    &&& reg.tools@.len() == doc.operations@.len()
    &&& forall|i: int|
        0 <= i < doc.operations@.len() ==> tool_matches_op(reg.tools@[i], doc.operations@[i])
}

/// Two documents with the same contents, operation by operation.
pub open spec fn doc_contents_equal(d1: SpecDocument, d2: SpecDocument) -> bool {
    &&& d1.operations@.len() == d2.operations@.len()
    &&& forall|i: int|
        0 <= i < d1.operations@.len() ==> {
            &&& d1.operations@[i].operation_id@ == d2.operations@[i].operation_id@
            &&& d1.operations@[i].summary@ == d2.operations@[i].summary@
            &&& d1.operations@[i].method@ == d2.operations@[i].method@
            &&& d1.operations@[i].path@ == d2.operations@[i].path@
        }
}

/// The tool names of a registry, in registry order.
pub open spec fn names_of(reg: ToolRegistry) -> Seq<Seq<char>> {
    reg.tools@.map(|i: int, t: Tool| t.name@)
}

fn find_duplicate_name(tools: &Vec<Tool>) -> (r: bool)
    ensures
        r <==> !unique_names(tools@),
{
    let n = tools.len();
    let mut i: usize = 0;
    while i < n
        invariant
            0 <= i <= n,
            n == tools@.len(),
            forall|a: int, b: int|
                0 <= a < b < n && a < i ==> tools@[a].name@ != tools@[b].name@,
        decreases n - i,
    {
        let mut j: usize = i + 1;
        while j < n
            invariant
                0 <= i < j <= n,
                n == tools@.len(),
                forall|b: int| i < b < j ==> tools@[i as int].name@ != tools@[b].name@,
            decreases n - j,
        {
            if tools[i].name == tools[j].name {
                return true;
            }
            j = j + 1;
        }
        i = i + 1;
    }
    false
}

impl ToolRegistry {
    /// The registry invariant: tool names are unique.
    pub open spec fn wf(self) -> bool {
        unique_names(self.tools@)
    }

    /// Builds the registry from a decoded document and the default headers,
    /// then runs the post-build consistency pass; a duplicate tool name is
    /// a fatal `RegistryValidationError`.
    pub fn build(doc: &SpecDocument, headers: DefaultHeaders) -> (r: Result<
        ToolRegistry,
        RegistryValidationError,
    >)
        ensures
            r matches Ok(reg) ==> {
                &&& built_from(*doc, reg)
                &&& reg.headers == headers
                &&& reg.wf()
            },
            r is Err <==> !unique_operation_ids(doc.operations@),
    {
        let n = doc.operations.len();
        let mut tools: Vec<Tool> = Vec::new();
        let mut i: usize = 0;
        while i < n
            invariant
                0 <= i <= n,
                n == doc.operations@.len(),
                tools@.len() == i,
                forall|j: int| 0 <= j < i ==> tool_matches_op(tools@[j], doc.operations@[j]),
            decreases n - i,
        {
            let op = &doc.operations[i];
            tools.push(
                Tool {
                    name: op.operation_id.clone(),
                    description: op.summary.clone(),
                    method: op.method.clone(),
                    path: op.path.clone(),
                    operation_id: op.operation_id.clone(),
                },
            );
            i = i + 1;
        }
        if find_duplicate_name(&tools) {
            proof {
                assert(exists|a: int, b: int|
                    0 <= a < b < tools@.len() && tools@[a].name@ == tools@[b].name@);
                let (a, b) = choose|a: int, b: int|
                    0 <= a < b < tools@.len() && tools@[a].name@ == tools@[b].name@;
                assert(tool_matches_op(tools@[a], doc.operations@[a]));
                assert(tool_matches_op(tools@[b], doc.operations@[b]));
                assert(doc.operations@[a].operation_id@ == doc.operations@[b].operation_id@);
                assert(!unique_operation_ids(doc.operations@));
            }
            Err(RegistryValidationError::DuplicateToolName)
        } else {
            proof {
                assert forall|a: int, b: int|
                    0 <= a < b < doc.operations@.len() implies doc.operations@[a].operation_id@
                    != doc.operations@[b].operation_id@ by {
                    assert(tool_matches_op(tools@[a], doc.operations@[a]));
                    assert(tool_matches_op(tools@[b], doc.operations@[b]));
                    assert(tools@[a].name@ != tools@[b].name@);
                }
            }
            Ok(ToolRegistry { tools, headers })
        }
    }

    /// The number of tools in the registry.
    pub fn tool_count(&self) -> (r: usize)
        ensures
            r == self.tools@.len(),
    {
        self.tools.len()
    }

    /// The tool names, in registry order, for diagnostic logging.
    pub fn get_tool_names(&self) -> (r: Vec<String>)
        ensures
            r@.len() == self.tools@.len(),
            forall|i: int| 0 <= i < r@.len() ==> r@[i]@ == self.tools@[i].name@,
    {
        let n = self.tools.len();
        let mut names: Vec<String> = Vec::new();
        let mut i: usize = 0;
        while i < n
            invariant
                0 <= i <= n,
                n == self.tools@.len(),
                names@.len() == i,
                forall|j: int| 0 <= j < i ==> names@[j]@ == self.tools@[j].name@,
            decreases n - i,
        {
            names.push(self.tools[i].name.clone());
            i = i + 1;
        }
        names
    }
}

/// Registry building is deterministic: equal document contents and any
/// headers yield registries with the same tool count and the same tool
/// names, build after build.
pub proof fn lemma_build_deterministic(
    doc1: SpecDocument,
    doc2: SpecDocument,
    reg1: ToolRegistry,
    reg2: ToolRegistry,
)
    requires
        doc_contents_equal(doc1, doc2),
        built_from(doc1, reg1),
        built_from(doc2, reg2),
    ensures
        reg1.tools@.len() == reg2.tools@.len(),
        names_of(reg1) == names_of(reg2),
{
    assert(names_of(reg1) =~~= names_of(reg2));
}

/// Documents defining equally many operations build registries with equal
/// tool counts; where only the upstream operation ids differ, the tools'
/// invocation mappings differ while the counts stay equal.
pub proof fn lemma_counts_match_mappings_differ(
    doc1: SpecDocument,
    doc2: SpecDocument,
    reg1: ToolRegistry,
    reg2: ToolRegistry,
)
    requires
        doc1.operations@.len() == doc2.operations@.len(),
        built_from(doc1, reg1),
        built_from(doc2, reg2),
    ensures
        reg1.tools@.len() == reg2.tools@.len(),
        forall|i: int|
            0 <= i < doc1.operations@.len() && doc1.operations@[i].operation_id@
                != doc2.operations@[i].operation_id@ ==> reg1.tools@[i].operation_id@
                != reg2.tools@[i].operation_id@,
{
}

} // verus!
