//! The messages that are sent to the app-server.

use crate::json::{Fields, Json, JsonTree};
use vstd::prelude::*;

verus! {

/// Standing instructions of the thread.
pub const APP_SERVER_INSTRUCTIONS: &'static str =
    "RepoTracer repository scout. Never call MCP tools, apps, hooks, plugins, browser or computer-use tools, or delegate. Never edit files or use the network.";

/// The opening request, under id 1.
pub open spec fn initialize_tree(version: Seq<char>) -> JsonTree {
    JsonTree::Object(
        map![
            "id"@ => JsonTree::Unsigned(1),
            "method"@ => JsonTree::Text("initialize"@),
            "params"@ => JsonTree::Object(map![
                "clientInfo"@ => JsonTree::Object(map![
                    "name"@ => JsonTree::Text("repotracer"@),
                    "version"@ => JsonTree::Text(version),
                ]),
            ]),
        ],
    )
}

/// The notice that the opening is over.
pub open spec fn initialized_tree() -> JsonTree {
    JsonTree::Object(
        map![
            "method"@ => JsonTree::Text("initialized"@),
            "params"@ => JsonTree::Object(Map::empty()),
        ],
    )
}

/// The request for a thread in the directory, under id 2; without a model the account's default
/// is asked for by null.
pub open spec fn thread_start_tree(cwd: Seq<char>, model: Option<Seq<char>>) -> JsonTree {
    JsonTree::Object(
        map![
            "id"@ => JsonTree::Unsigned(2),
            "method"@ => JsonTree::Text("thread/start"@),
            "params"@ => JsonTree::Object(map![
                "cwd"@ => JsonTree::Text(cwd),
                "ephemeral"@ => JsonTree::Bool(true),
                "approvalPolicy"@ => JsonTree::Text("on-request"@),
                "approvalsReviewer"@ => JsonTree::Text("auto_review"@),
                "developerInstructions"@ => JsonTree::Text(APP_SERVER_INSTRUCTIONS@),
                "model"@ => match model {
                    Some(name) => JsonTree::Text(name),
                    None => JsonTree::Null,
                },
                "serviceTier"@ => JsonTree::Text("default"@),
                "config"@ => JsonTree::Object(map![
                    "approval_policy"@ => JsonTree::Text("on-request"@),
                    "approvals_reviewer"@ => JsonTree::Text("auto_review"@),
                    "default_permissions"@ => JsonTree::Text(":workspace"@),
                    "project_doc_max_bytes"@ => JsonTree::Unsigned(0),
                ]),
            ]),
        ],
    )
}

/// The request for the turn that answers the prompt, under id 3.
pub open spec fn turn_start_tree(
    thread_id: Seq<char>,
    prompt: Seq<char>,
    effort: Seq<char>,
) -> JsonTree {
    JsonTree::Object(
        map![
            "id"@ => JsonTree::Unsigned(3),
            "method"@ => JsonTree::Text("turn/start"@),
            "params"@ => JsonTree::Object(map![
                "threadId"@ => JsonTree::Text(thread_id),
                "input"@ => JsonTree::Array(seq![
                    JsonTree::Object(map![
                        "type"@ => JsonTree::Text("text"@),
                        "text"@ => JsonTree::Text(prompt),
                    ]),
                ]),
                "effort"@ => JsonTree::Text(effort),
                "outputSchema"@ => output_schema_tree(),
            ]),
        ],
    )
}

/// The answer to a request of the server: no such method, under the request's own id.
pub open spec fn rejection_tree(id: JsonTree) -> JsonTree {
    JsonTree::Object(
        map![
            "id"@ => id,
            "error"@ => JsonTree::Object(map![
                "code"@ => JsonTree::Negative(-32601i64),
                "message"@ => JsonTree::Text("RepoTracer does not accept server requests"@),
            ]),
        ],
    )
}

/// A string of at most `limit` characters that is described by `description`.
pub open spec fn string_schema_tree(
    limit: Option<u64>,
    description: Option<Seq<char>>,
) -> JsonTree {
    let base = map!["type"@ => JsonTree::Text("string"@)];
    let limited = match limit {
        Some(n) => base.insert("maxLength"@, JsonTree::Unsigned(n)),
        None => base,
    };
    JsonTree::Object(
        match description {
            Some(text) => limited.insert("description"@, JsonTree::Text(text)),
            None => limited,
        },
    )
}

/// A line number, counted from 1.
pub open spec fn line_schema_tree(description: Seq<char>) -> JsonTree {
    JsonTree::Object(
        map![
            "type"@ => JsonTree::Text("integer"@),
            "minimum"@ => JsonTree::Unsigned(1),
            "description"@ => JsonTree::Text(description),
        ],
    )
}

/// An object with these properties and no others; `required` names those that must be there.
pub open spec fn record_schema_tree(
    properties: Map<Seq<char>, JsonTree>,
    required: Seq<JsonTree>,
) -> JsonTree {
    JsonTree::Object(
        map![
            "type"@ => JsonTree::Text("object"@),
            "properties"@ => JsonTree::Object(properties),
            "required"@ => JsonTree::Array(required),
            "additionalProperties"@ => JsonTree::Bool(false),
        ],
    )
}

/// One citation of an answer: a range of lines of a file, and why it is cited.
pub open spec fn citation_schema_tree() -> JsonTree {
    record_schema_tree(
        map![
            "path"@ => string_schema_tree(None, Some("Repository-relative evidence file."@)),
            "start_line"@ => line_schema_tree("First direct-evidence line."@),
            "end_line"@ => line_schema_tree(
                "Last direct-evidence line; ideally no more than 40 lines after start_line."@,
            ),
            "reason"@ => string_schema_tree(Some(200), Some("Why this range is needed."@)),
        ],
        seq![
            JsonTree::Text("path"@),
            JsonTree::Text("start_line"@),
            JsonTree::Text("end_line"@),
            JsonTree::Text("reason"@),
        ],
    )
}

/// The shape of an answer: a text of at most 3000 characters and at most 5 citations.
pub open spec fn output_schema_tree() -> JsonTree {
    record_schema_tree(
        map![
            "answer"@ => string_schema_tree(Some(3000), None),
            "citations"@ => JsonTree::Object(map![
                "type"@ => JsonTree::Text("array"@),
                "description"@ => JsonTree::Text(
                    "Smallest sufficient direct evidence map; normally 3-4 citations."@,
                ),
                "maxItems"@ => JsonTree::Unsigned(5),
                "items"@ => citation_schema_tree(),
            ]),
        ],
        seq![JsonTree::Text("answer"@), JsonTree::Text("citations"@)],
    )
}

/// The opening request.
pub fn initialize_request(version: &str) -> (message: Json)
    ensures
        message@ == initialize_tree(version@),
{
    let client = Fields::new().with("name", Json::string("repotracer")).with(
        "version",
        Json::string(version),
    ).object();
    let params = Fields::new().with("clientInfo", client).object();
    Fields::new().with("id", Json::Unsigned(1)).with("method", Json::string("initialize")).with(
        "params",
        params,
    ).object()
}

/// The notice that the opening is over.
pub fn initialized_notice() -> (message: Json)
    ensures
        message@ == initialized_tree(),
{
    Fields::new().with("method", Json::string("initialized")).with(
        "params",
        Fields::new().object(),
    ).object()
}

/// The request for a thread.
pub fn thread_start_request(cwd: &str, model: Option<&str>) -> (message: Json)
    ensures
        message@ == thread_start_tree(
            cwd@,
            match model {
                Some(name) => Some(name@),
                None => None,
            },
        ),
{
    let config = Fields::new().with("approval_policy", Json::string("on-request")).with(
        "approvals_reviewer",
        Json::string("auto_review"),
    ).with("default_permissions", Json::string(":workspace")).with(
        "project_doc_max_bytes",
        Json::Unsigned(0),
    ).object();
    let model_name = match model {
        Some(name) => Json::string(name),
        None => Json::Null,
    };
    let params = Fields::new().with("cwd", Json::string(cwd)).with(
        "ephemeral",
        Json::Bool(true),
    ).with("approvalPolicy", Json::string("on-request")).with(
        "approvalsReviewer",
        Json::string("auto_review"),
    ).with("developerInstructions", Json::string(APP_SERVER_INSTRUCTIONS)).with(
        "model",
        model_name,
    ).with("serviceTier", Json::string("default")).with("config", config).object();
    Fields::new().with("id", Json::Unsigned(2)).with("method", Json::string("thread/start")).with(
        "params",
        params,
    ).object()
}

/// The request for a turn.
pub fn turn_start_request(thread_id: &str, prompt: &str, effort: &str) -> (message: Json)
    ensures
        message@ == turn_start_tree(thread_id@, prompt@, effort@),
{
    let text = Fields::new().with("type", Json::string("text")).with(
        "text",
        Json::string(prompt),
    ).object();
    let mut input: Vec<Json> = Vec::new();
    input.push(text);
    proof {
        crate::json::array_view_index(input@);
        assert(crate::json::array_view(input@) == seq![text@]);
    }
    let params = Fields::new().with("threadId", Json::string(thread_id)).with(
        "input",
        Json::Array(input),
    ).with("effort", Json::string(effort)).with("outputSchema", output_schema()).object();
    Fields::new().with("id", Json::Unsigned(3)).with("method", Json::string("turn/start")).with(
        "params",
        params,
    ).object()
}

/// The answer to a request of the server.
pub fn rejection(id: Json) -> (message: Json)
    ensures
        message@ == rejection_tree(id@),
{
    let error = Fields::new().with("code", Json::Signed(-32601)).with(
        "message",
        Json::string("RepoTracer does not accept server requests"),
    ).object();
    Fields::new().with("id", id).with("error", error).object()
}

fn string_schema(limit: Option<u64>, description: Option<&str>) -> (schema: Json)
    ensures
        schema@ == string_schema_tree(
            limit,
            match description {
                Some(text) => Some(text@),
                None => None,
            },
        ),
{
    let base = Fields::new().with("type", Json::string("string"));
    let limited = match limit {
        Some(n) => base.with("maxLength", Json::Unsigned(n)),
        None => base,
    };
    match description {
        Some(text) => limited.with("description", Json::string(text)).object(),
        None => limited.object(),
    }
}

fn line_schema(description: &str) -> (schema: Json)
    ensures
        schema@ == line_schema_tree(description@),
{
    Fields::new().with("type", Json::string("integer")).with("minimum", Json::Unsigned(1)).with(
        "description",
        Json::string(description),
    ).object()
}

fn record_schema(properties: Fields, required: Vec<Json>) -> (schema: Json)
    ensures
        schema@ == record_schema_tree(properties@, crate::json::array_view(required@)),
{
    Fields::new().with("type", Json::string("object")).with(
        "properties",
        properties.object(),
    ).with("required", Json::Array(required)).with(
        "additionalProperties",
        Json::Bool(false),
    ).object()
}

fn citation_schema() -> (schema: Json)
    ensures
        schema@ == citation_schema_tree(),
{
    let properties = Fields::new().with(
        "path",
        string_schema(None, Some("Repository-relative evidence file.")),
    ).with("start_line", line_schema("First direct-evidence line.")).with(
        "end_line",
        line_schema("Last direct-evidence line; ideally no more than 40 lines after start_line."),
    ).with("reason", string_schema(Some(200), Some("Why this range is needed.")));
    let mut required: Vec<Json> = Vec::new();
    required.push(Json::string("path"));
    required.push(Json::string("start_line"));
    required.push(Json::string("end_line"));
    required.push(Json::string("reason"));
    proof {
        crate::json::array_view_index(required@);
        assert(crate::json::array_view(required@) == seq![
            JsonTree::Text("path"@),
            JsonTree::Text("start_line"@),
            JsonTree::Text("end_line"@),
            JsonTree::Text("reason"@),
        ]);
    }
    record_schema(properties, required)
}

/// The shape of an answer, as a JSON schema.
pub fn output_schema() -> (schema: Json)
    ensures
        schema@ == output_schema_tree(),
{
    let citations = Fields::new().with("type", Json::string("array")).with(
        "description",
        Json::string("Smallest sufficient direct evidence map; normally 3-4 citations."),
    ).with("maxItems", Json::Unsigned(5)).with("items", citation_schema()).object();
    let properties = Fields::new().with("answer", string_schema(Some(3000), None)).with(
        "citations",
        citations,
    );
    let mut required: Vec<Json> = Vec::new();
    required.push(Json::string("answer"));
    required.push(Json::string("citations"));
    proof {
        crate::json::array_view_index(required@);
        assert(crate::json::array_view(required@) == seq![
            JsonTree::Text("answer"@),
            JsonTree::Text("citations"@),
        ]);
    }
    record_schema(properties, required)
}

/// The keys of the messages are told apart by their lengths, or else by a character.
proof fn lemma_keys()
    ensures
        "id"@.len() == 2,
        "method"@.len() == 6,
        "params"@.len() == 6,
        "clientInfo"@.len() == 10,
        "name"@.len() == 4,
        "version"@.len() == 7,
        "threadId"@.len() == 8,
        "input"@.len() == 5,
        "effort"@.len() == 6,
        "outputSchema"@.len() == 12,
        "type"@.len() == 4,
        "text"@.len() == 4,
        "cwd"@.len() == 3,
        "ephemeral"@.len() == 9,
        "approvalPolicy"@.len() == 14,
        "approvalsReviewer"@.len() == 17,
        "developerInstructions"@.len() == 21,
        "model"@.len() == 5,
        "serviceTier"@.len() == 11,
        "config"@.len() == 6,
        "approval_policy"@.len() == 15,
        "approvals_reviewer"@.len() == 18,
        "default_permissions"@.len() == 19,
        "project_doc_max_bytes"@.len() == 21,
        "error"@.len() == 5,
        "code"@.len() == 4,
        "message"@.len() == 7,
        "maxLength"@.len() == 9,
        "description"@.len() == 11,
        "minimum"@.len() == 7,
        "properties"@.len() == 10,
        "required"@.len() == 8,
        "additionalProperties"@.len() == 20,
        "path"@.len() == 4,
        "start_line"@.len() == 10,
        "end_line"@.len() == 8,
        "reason"@.len() == 6,
        "answer"@.len() == 6,
        "citations"@.len() == 9,
        "maxItems"@.len() == 8,
        "items"@.len() == 5,
        "maxItems"@ != "required"@,
        "method"@ != "params"@,
        "text"@ != "type"@,
{
    reveal_strlit("id");
    reveal_strlit("method");
    reveal_strlit("params");
    reveal_strlit("clientInfo");
    reveal_strlit("name");
    reveal_strlit("version");
    reveal_strlit("threadId");
    reveal_strlit("input");
    reveal_strlit("effort");
    reveal_strlit("outputSchema");
    reveal_strlit("type");
    reveal_strlit("text");
    reveal_strlit("cwd");
    reveal_strlit("ephemeral");
    reveal_strlit("approvalPolicy");
    reveal_strlit("approvalsReviewer");
    reveal_strlit("developerInstructions");
    reveal_strlit("model");
    reveal_strlit("serviceTier");
    reveal_strlit("config");
    reveal_strlit("approval_policy");
    reveal_strlit("approvals_reviewer");
    reveal_strlit("default_permissions");
    reveal_strlit("project_doc_max_bytes");
    reveal_strlit("error");
    reveal_strlit("code");
    reveal_strlit("message");
    reveal_strlit("maxLength");
    reveal_strlit("description");
    reveal_strlit("minimum");
    reveal_strlit("properties");
    reveal_strlit("required");
    reveal_strlit("additionalProperties");
    reveal_strlit("path");
    reveal_strlit("start_line");
    reveal_strlit("end_line");
    reveal_strlit("reason");
    reveal_strlit("answer");
    reveal_strlit("citations");
    reveal_strlit("maxItems");
    reveal_strlit("items");
    assert("id"@.len() == 2);
    assert("method"@.len() == 6);
    assert("params"@.len() == 6);
    assert("clientInfo"@.len() == 10);
    assert("name"@.len() == 4);
    assert("version"@.len() == 7);
    assert("threadId"@.len() == 8);
    assert("input"@.len() == 5);
    assert("effort"@.len() == 6);
    assert("outputSchema"@.len() == 12);
    assert("type"@.len() == 4);
    assert("text"@.len() == 4);
    assert("cwd"@.len() == 3);
    assert("ephemeral"@.len() == 9);
    assert("approvalPolicy"@.len() == 14);
    assert("approvalsReviewer"@.len() == 17);
    assert("developerInstructions"@.len() == 21);
    assert("model"@.len() == 5);
    assert("serviceTier"@.len() == 11);
    assert("config"@.len() == 6);
    assert("approval_policy"@.len() == 15);
    assert("approvals_reviewer"@.len() == 18);
    assert("default_permissions"@.len() == 19);
    assert("project_doc_max_bytes"@.len() == 21);
    assert("error"@.len() == 5);
    assert("code"@.len() == 4);
    assert("message"@.len() == 7);
    assert("maxLength"@.len() == 9);
    assert("description"@.len() == 11);
    assert("minimum"@.len() == 7);
    assert("properties"@.len() == 10);
    assert("required"@.len() == 8);
    assert("additionalProperties"@.len() == 20);
    assert("path"@.len() == 4);
    assert("start_line"@.len() == 10);
    assert("end_line"@.len() == 8);
    assert("reason"@.len() == 6);
    assert("answer"@.len() == 6);
    assert("citations"@.len() == 9);
    assert("maxItems"@.len() == 8);
    assert("items"@.len() == 5);
    assert("maxItems"@[0] != "required"@[0]);
    assert("method"@[0] != "params"@[0]);
    assert("text"@[1] != "type"@[1]);
}

/// The opening request has the id 1 and says who opens, in the version that is given.
pub proof fn the_opening_says_who_opens(version: Seq<char>, key: Seq<char>)
    ensures
        ({
            let message = initialize_tree(version);
            let client = message.at("params"@).at("clientInfo"@);
            &&& message.has(key) <==> key == "id"@ || key == "method"@ || key == "params"@
            &&& message.at("id"@) == JsonTree::Unsigned(1)
            &&& message.at("method"@) == JsonTree::Text("initialize"@)
            &&& message.at("params"@).has(key) <==> key == "clientInfo"@
            &&& client.has(key) <==> key == "name"@ || key == "version"@
            &&& client.at("name"@) == JsonTree::Text("repotracer"@)
            &&& client.at("version"@) == JsonTree::Text(version)
        }),
{
    lemma_keys();
}

/// The notice after the opening is no request: it has no id, and says nothing more.
pub proof fn the_opening_is_over_by_a_notice(key: Seq<char>)
    ensures
        initialized_tree().has(key) <==> key == "method"@ || key == "params"@,
        initialized_tree().at("method"@) == JsonTree::Text("initialized"@),
        initialized_tree().at("params"@) is Object,
        !initialized_tree().at("params"@).has(key),
{
    lemma_keys();
}

/// The request for a thread has the id 2. It names the directory and the model as they are, and
/// null for no model. The thread is not kept, asks before it acts, has its requests reviewed, may
/// write in the work space at most, and reads no project documents.
pub proof fn the_thread_is_asked_for_as_it_is_to_be(
    cwd: Seq<char>,
    model: Option<Seq<char>>,
    key: Seq<char>,
)
    ensures
        ({
            let message = thread_start_tree(cwd, model);
            let params = message.at("params"@);
            let config = params.at("config"@);
            &&& message.has(key) <==> key == "id"@ || key == "method"@ || key == "params"@
            &&& message.at("id"@) == JsonTree::Unsigned(2)
            &&& message.at("method"@) == JsonTree::Text("thread/start"@)
            &&& params.has(key) <==> key == "cwd"@ || key == "ephemeral"@ || key
                == "approvalPolicy"@ || key == "approvalsReviewer"@ || key
                == "developerInstructions"@ || key == "model"@ || key == "serviceTier"@ || key
                == "config"@
            &&& params.at("cwd"@) == JsonTree::Text(cwd)
            &&& model matches Some(name) ==> params.at("model"@) == JsonTree::Text(name)
            &&& model is None ==> params.at("model"@) == JsonTree::Null
            &&& params.at("ephemeral"@) == JsonTree::Bool(true)
            &&& params.at("approvalPolicy"@) == JsonTree::Text("on-request"@)
            &&& params.at("approvalsReviewer"@) == JsonTree::Text("auto_review"@)
            &&& params.at("developerInstructions"@) == JsonTree::Text(
                "RepoTracer repository scout. Never call MCP tools, apps, hooks, plugins, browser or computer-use tools, or delegate. Never edit files or use the network."@,
            )
            &&& params.at("serviceTier"@) == JsonTree::Text("default"@)
            &&& config.has(key) <==> key == "approval_policy"@ || key == "approvals_reviewer"@
                || key == "default_permissions"@ || key == "project_doc_max_bytes"@
            &&& config.at("approval_policy"@) == JsonTree::Text("on-request"@)
            &&& config.at("approvals_reviewer"@) == JsonTree::Text("auto_review"@)
            &&& config.at("default_permissions"@) == JsonTree::Text(":workspace"@)
            &&& config.at("project_doc_max_bytes"@) == JsonTree::Unsigned(0)
        }),
{
    lemma_keys();
}

/// The request for a turn has the id 3. It names the thread and the effort as they are, and its
/// input is one text, which is the whole prompt.
pub proof fn the_turn_is_asked_for_with_the_whole_prompt(
    thread_id: Seq<char>,
    prompt: Seq<char>,
    effort: Seq<char>,
    key: Seq<char>,
)
    ensures
        ({
            let message = turn_start_tree(thread_id, prompt, effort);
            let params = message.at("params"@);
            &&& message.has(key) <==> key == "id"@ || key == "method"@ || key == "params"@
            &&& message.at("id"@) == JsonTree::Unsigned(3)
            &&& message.at("method"@) == JsonTree::Text("turn/start"@)
            &&& params.has(key) <==> key == "threadId"@ || key == "input"@ || key == "effort"@
                || key == "outputSchema"@
            &&& params.at("threadId"@) == JsonTree::Text(thread_id)
            &&& params.at("effort"@) == JsonTree::Text(effort)
            &&& params.at("input"@) matches JsonTree::Array(input) && input.len() == 1 && (
            input[0].has(key) <==> key == "type"@ || key == "text"@) && input[0].at("type"@)
                == JsonTree::Text("text"@) && input[0].at("text"@) == JsonTree::Text(prompt)
        }),
{
    lemma_keys();
}

/// A request of the server is refused under its own id, whatever the id is, as a method that is
/// not known.
pub proof fn a_request_is_refused_under_its_own_id(id: JsonTree, key: Seq<char>)
    ensures
        ({
            let message = rejection_tree(id);
            let error = message.at("error"@);
            &&& message.has(key) <==> key == "id"@ || key == "error"@
            &&& message.at("id"@) == id
            &&& error.has(key) <==> key == "code"@ || key == "message"@
            &&& error.at("code"@) == JsonTree::Negative(-32601i64)
            &&& error.at("message"@) == JsonTree::Text(
                "RepoTracer does not accept server requests"@,
            )
        }),
{
    lemma_keys();
}

/// The text is at most as long as the schema allows.
pub open spec fn is_short(schema: JsonTree, text: Seq<char>) -> bool {
    schema.at("maxLength"@) matches JsonTree::Unsigned(limit) ==> text.len() <= limit
}

/// A name is among those that the schema requires.
pub open spec fn requires_key(schema: JsonTree, key: Seq<char>) -> bool {
    schema.at("required"@) matches JsonTree::Array(names) && names.contains(JsonTree::Text(key))
}

/// The value meets the JSON schema, of which `depth` levels are looked at: its type is the one
/// that is asked for, and what the schema says of its length, its size, its items and its
/// properties holds. Integers are those that 64 bits hold.
pub open spec fn meets(schema: JsonTree, value: JsonTree, depth: nat) -> bool
    decreases depth,
{
    let kind = schema.at("type"@);
    depth > 0 && match value {
        JsonTree::Text(text) => kind == JsonTree::Text("string"@) && is_short(schema, text),
        JsonTree::Unsigned(n) => kind == JsonTree::Text("integer"@) && (schema.at(
            "minimum"@,
        ) matches JsonTree::Unsigned(least) ==> least <= n),
        JsonTree::Negative(n) => kind == JsonTree::Text("integer"@) && !(schema.at(
            "minimum"@,
        ) is Unsigned),
        JsonTree::Array(items) => {
            &&& kind == JsonTree::Text("array"@)
            &&& schema.at("maxItems"@) matches JsonTree::Unsigned(limit) ==> items.len() <= limit
            &&& schema.has("items"@) ==> forall|i: int|
                0 <= i < items.len() ==> meets(
                    schema.at("items"@),
                    #[trigger] items[i],
                    (depth - 1) as nat,
                )
        },
        JsonTree::Object(entries) => {
            let properties = schema.at("properties"@);
            &&& kind == JsonTree::Text("object"@)
            &&& forall|key: Seq<char>| #[trigger]
                requires_key(schema, key) ==> entries.contains_key(key)
            &&& forall|key: Seq<char>| #[trigger]
                entries.contains_key(key) ==> if properties.has(key) {
                    meets(properties.at(key), entries[key], (depth - 1) as nat)
                } else {
                    schema.at("additionalProperties"@) != JsonTree::Bool(false)
                }
        },
        _ => false,
    }
}

/// A citation, as it is decoded: a file, the first and the last line, and a reason.
pub struct CitationParts {
    pub path: Seq<char>,
    pub start_line: u64,
    pub end_line: u64,
    pub reason: Seq<char>,
}

/// An answer, as it is decoded.
pub struct AnswerParts {
    pub answer: Seq<char>,
    pub citations: Seq<CitationParts>,
}

/// The document that decodes as the citation.
pub open spec fn is_citation(tree: JsonTree, parts: CitationParts) -> bool {
    &&& tree is Object
    &&& forall|key: Seq<char>| #[trigger]
        tree.has(key) <==> key == "path"@ || key == "start_line"@ || key == "end_line"@ || key
            == "reason"@
    &&& tree.at("path"@) == JsonTree::Text(parts.path)
    &&& tree.at("start_line"@) == JsonTree::Unsigned(parts.start_line)
    &&& tree.at("end_line"@) == JsonTree::Unsigned(parts.end_line)
    &&& tree.at("reason"@) == JsonTree::Text(parts.reason)
}

/// The document that decodes as the answer.
pub open spec fn is_answer(tree: JsonTree, parts: AnswerParts) -> bool {
    &&& tree is Object
    &&& forall|key: Seq<char>| #[trigger]
        tree.has(key) <==> key == "answer"@ || key == "citations"@
    &&& tree.at("answer"@) == JsonTree::Text(parts.answer)
    &&& tree.at("citations"@) matches JsonTree::Array(items) && items.len()
        == parts.citations.len() && forall|i: int|
        0 <= i < items.len() ==> is_citation(#[trigger] items[i], parts.citations[i])
}

/// The answer keeps to the limits: 3000 characters, five citations, lines that are counted from 1
/// and reasons of 200 characters.
pub open spec fn is_within_limits(parts: AnswerParts) -> bool {
    &&& parts.answer.len() <= 3000
    &&& parts.citations.len() <= 5
    &&& forall|i: int|
        0 <= i < parts.citations.len() ==> 1 <= (#[trigger] parts.citations[i]).start_line && 1
            <= parts.citations[i].end_line && parts.citations[i].reason.len() <= 200
}

/// What the request for a turn asks of the answer, as the app-server reads it: an object of an
/// answer and citations, both required and nothing else; the answer a text of at most 3000
/// characters; at most five citations, each an object of a path, a first and a last line and a
/// reason, all four required and nothing else; the path and the reason texts, the reason of at most
/// 200 characters; the lines integers from 1.
pub proof fn the_turn_asks_for_an_answer_that_decodes(
    thread_id: Seq<char>,
    prompt: Seq<char>,
    effort: Seq<char>,
    key: Seq<char>,
)
    ensures
        ({
            let schema = turn_start_tree(thread_id, prompt, effort).at("params"@).at(
                "outputSchema"@,
            );
            let answer = schema.at("properties"@).at("answer"@);
            let citations = schema.at("properties"@).at("citations"@);
            let citation = citations.at("items"@);
            let path = citation.at("properties"@).at("path"@);
            let start_line = citation.at("properties"@).at("start_line"@);
            let end_line = citation.at("properties"@).at("end_line"@);
            let reason = citation.at("properties"@).at("reason"@);
            &&& schema.has(key) <==> key == "type"@ || key == "properties"@ || key == "required"@
                || key == "additionalProperties"@
            &&& schema.at("type"@) == JsonTree::Text("object"@)
            &&& schema.at("properties"@).has(key) <==> key == "answer"@ || key == "citations"@
            &&& requires_key(schema, key) <==> key == "answer"@ || key == "citations"@
            &&& schema.at("additionalProperties"@) == JsonTree::Bool(false)
            &&& answer.has(key) <==> key == "type"@ || key == "maxLength"@
            &&& answer.at("type"@) == JsonTree::Text("string"@)
            &&& answer.at("maxLength"@) == JsonTree::Unsigned(3000)
            &&& citations.has(key) <==> key == "type"@ || key == "description"@ || key
                == "maxItems"@ || key == "items"@
            &&& citations.at("type"@) == JsonTree::Text("array"@)
            &&& citations.at("description"@) == JsonTree::Text(
                "Smallest sufficient direct evidence map; normally 3-4 citations."@,
            )
            &&& citations.at("maxItems"@) == JsonTree::Unsigned(5)
            &&& citation.has(key) <==> key == "type"@ || key == "properties"@ || key
                == "required"@ || key == "additionalProperties"@
            &&& citation.at("type"@) == JsonTree::Text("object"@)
            &&& citation.at("properties"@).has(key) <==> key == "path"@ || key == "start_line"@
                || key == "end_line"@ || key == "reason"@
            &&& requires_key(citation, key) <==> key == "path"@ || key == "start_line"@ || key
                == "end_line"@ || key == "reason"@
            &&& citation.at("additionalProperties"@) == JsonTree::Bool(false)
            &&& path.has(key) <==> key == "type"@ || key == "description"@
            &&& path.at("type"@) == JsonTree::Text("string"@)
            &&& path.at("description"@) == JsonTree::Text("Repository-relative evidence file."@)
            &&& start_line.has(key) <==> key == "type"@ || key == "minimum"@ || key
                == "description"@
            &&& start_line.at("type"@) == JsonTree::Text("integer"@)
            &&& start_line.at("minimum"@) == JsonTree::Unsigned(1)
            &&& start_line.at("description"@) == JsonTree::Text("First direct-evidence line."@)
            &&& end_line.has(key) <==> key == "type"@ || key == "minimum"@ || key
                == "description"@
            &&& end_line.at("type"@) == JsonTree::Text("integer"@)
            &&& end_line.at("minimum"@) == JsonTree::Unsigned(1)
            &&& end_line.at("description"@) == JsonTree::Text(
                "Last direct-evidence line; ideally no more than 40 lines after start_line."@,
            )
            &&& reason.has(key) <==> key == "type"@ || key == "maxLength"@ || key
                == "description"@
            &&& reason.at("type"@) == JsonTree::Text("string"@)
            &&& reason.at("maxLength"@) == JsonTree::Unsigned(200)
            &&& reason.at("description"@) == JsonTree::Text("Why this range is needed."@)
        }),
{
    lemma_keys();
    lemma_required(key);
}

/// Which names are required.
proof fn lemma_required(key: Seq<char>)
    ensures
        requires_key(output_schema_tree(), key) <==> key == "answer"@ || key == "citations"@,
        requires_key(citation_schema_tree(), key) <==> key == "path"@ || key == "start_line"@
            || key == "end_line"@ || key == "reason"@,
{
    lemma_keys();
    let outer = seq![JsonTree::Text("answer"@), JsonTree::Text("citations"@)];
    let inner = seq![
        JsonTree::Text("path"@),
        JsonTree::Text("start_line"@),
        JsonTree::Text("end_line"@),
        JsonTree::Text("reason"@),
    ];
    assert(output_schema_tree().at("required"@) == JsonTree::Array(outer));
    assert(citation_schema_tree().at("required"@) == JsonTree::Array(inner));
    assert(outer[0] == JsonTree::Text("answer"@));
    assert(outer[1] == JsonTree::Text("citations"@));
    assert(inner[0] == JsonTree::Text("path"@));
    assert(inner[1] == JsonTree::Text("start_line"@));
    assert(inner[2] == JsonTree::Text("end_line"@));
    assert(inner[3] == JsonTree::Text("reason"@));
}

/// The parts of a document that meets the schema of a citation.
spec fn citation_parts(tree: JsonTree) -> CitationParts {
    CitationParts {
        path: tree.at("path"@)->Text_0,
        start_line: tree.at("start_line"@)->Unsigned_0,
        end_line: tree.at("end_line"@)->Unsigned_0,
        reason: tree.at("reason"@)->Text_0,
    }
}

/// The schemas of the parts of a citation.
proof fn lemma_citation_properties()
    ensures
        ({
            let schema = citation_schema_tree();
            let properties = schema.at("properties"@);
            &&& schema.at("type"@) == JsonTree::Text("object"@)
            &&& schema.at("additionalProperties"@) == JsonTree::Bool(false)
            &&& forall|key: Seq<char>| #[trigger]
                properties.has(key) <==> key == "path"@ || key == "start_line"@ || key
                    == "end_line"@ || key == "reason"@
            &&& properties.at("path"@).at("type"@) == JsonTree::Text("string"@)
            &&& !properties.at("path"@).has("maxLength"@)
            &&& properties.at("start_line"@).at("type"@) == JsonTree::Text("integer"@)
            &&& properties.at("start_line"@).at("minimum"@) == JsonTree::Unsigned(1)
            &&& properties.at("end_line"@).at("type"@) == JsonTree::Text("integer"@)
            &&& properties.at("end_line"@).at("minimum"@) == JsonTree::Unsigned(1)
            &&& properties.at("reason"@).at("type"@) == JsonTree::Text("string"@)
            &&& properties.at("reason"@).at("maxLength"@) == JsonTree::Unsigned(200)
        }),
{
    lemma_keys();
}

/// The kinds of the schema are told apart.
proof fn lemma_kinds()
    ensures
        "string"@ != "integer"@,
        "string"@ != "array"@,
        "string"@ != "object"@,
        "integer"@ != "array"@,
        "integer"@ != "object"@,
        "array"@ != "object"@,
{
    reveal_strlit("string");
    reveal_strlit("integer");
    reveal_strlit("array");
    reveal_strlit("object");
    assert("string"@.len() == 6);
    assert("integer"@.len() == 7);
    assert("array"@.len() == 5);
    assert("object"@.len() == 6);
    assert("string"@[0] != "object"@[0]);
}

/// What meets the schema of a citation is one, within the limits.
proof fn lemma_meets_citation(tree: JsonTree, depth: nat)
    requires
        depth >= 2,
        meets(citation_schema_tree(), tree, depth),
    ensures
        is_citation(tree, citation_parts(tree)),
        citation_parts(tree).start_line >= 1,
        citation_parts(tree).end_line >= 1,
        citation_parts(tree).reason.len() <= 200,
{
    let schema = citation_schema_tree();
    let properties = schema.at("properties"@);
    let below = (depth - 1) as nat;
    lemma_citation_properties();
    lemma_kinds();
    assert(tree is Object);
    let entries = tree->Object_0;
    assert forall|key: Seq<char>| #[trigger] tree.has(key) <==> key == "path"@ || key
        == "start_line"@ || key == "end_line"@ || key == "reason"@ by {
        lemma_required(key);
        if tree.has(key) {
            assert(entries.contains_key(key));
            assert(properties.has(key));
        }
        if key == "path"@ || key == "start_line"@ || key == "end_line"@ || key == "reason"@ {
            assert(requires_key(schema, key));
        }
    }
    assert(tree.has("path"@) && tree.has("start_line"@) && tree.has("end_line"@) && tree.has(
        "reason"@,
    ));
    assert(properties.has("path"@) && properties.has("start_line"@) && properties.has("end_line"@)
        && properties.has("reason"@));
    assert(meets(properties.at("path"@), entries["path"@], below));
    assert(meets(properties.at("start_line"@), entries["start_line"@], below));
    assert(meets(properties.at("end_line"@), entries["end_line"@], below));
    assert(meets(properties.at("reason"@), entries["reason"@], below));
}

/// A citation within the limits meets the schema.
proof fn lemma_citation_meets(tree: JsonTree, parts: CitationParts, depth: nat)
    requires
        depth >= 2,
        is_citation(tree, parts),
        parts.start_line >= 1,
        parts.end_line >= 1,
        parts.reason.len() <= 200,
    ensures
        meets(citation_schema_tree(), tree, depth),
{
    let schema = citation_schema_tree();
    let properties = schema.at("properties"@);
    let below = (depth - 1) as nat;
    let entries = tree->Object_0;
    lemma_citation_properties();
    lemma_kinds();
    assert(tree.has("path"@) && tree.has("start_line"@) && tree.has("end_line"@) && tree.has(
        "reason"@,
    ));
    assert(meets(properties.at("path"@), tree.at("path"@), below));
    assert(meets(properties.at("start_line"@), tree.at("start_line"@), below));
    assert(meets(properties.at("end_line"@), tree.at("end_line"@), below));
    assert(meets(properties.at("reason"@), tree.at("reason"@), below));
    assert forall|key: Seq<char>| #[trigger] requires_key(schema, key) implies entries.contains_key(
        key,
    ) by {
        lemma_required(key);
        assert(tree.has(key));
    }
    assert forall|key: Seq<char>| #[trigger] entries.contains_key(key) implies properties.has(key)
        && meets(properties.at(key), entries[key], below) by {
        assert(tree.has(key));
    }
}

/// The schemas of the parts of an answer.
proof fn lemma_answer_properties()
    ensures
        ({
            let schema = output_schema_tree();
            let properties = schema.at("properties"@);
            &&& schema.at("type"@) == JsonTree::Text("object"@)
            &&& schema.at("additionalProperties"@) == JsonTree::Bool(false)
            &&& forall|key: Seq<char>| #[trigger]
                properties.has(key) <==> key == "answer"@ || key == "citations"@
            &&& properties.at("answer"@).at("type"@) == JsonTree::Text("string"@)
            &&& properties.at("answer"@).at("maxLength"@) == JsonTree::Unsigned(3000)
            &&& properties.at("citations"@).at("type"@) == JsonTree::Text("array"@)
            &&& properties.at("citations"@).at("maxItems"@) == JsonTree::Unsigned(5)
            &&& properties.at("citations"@).has("items"@)
            &&& properties.at("citations"@).at("items"@) == citation_schema_tree()
        }),
{
    lemma_keys();
}

/// The schema is the one that the request for a turn carries.
proof fn lemma_schema_is_sent(thread_id: Seq<char>, prompt: Seq<char>, effort: Seq<char>)
    ensures
        turn_start_tree(thread_id, prompt, effort).at("params"@).at("outputSchema"@)
            == output_schema_tree(),
{
    lemma_keys();
}

/// Whatever meets the schema that is sent with the request for a turn decodes as an answer, and
/// the answer keeps to the limits.
pub proof fn what_meets_the_schema_decodes(
    thread_id: Seq<char>,
    prompt: Seq<char>,
    effort: Seq<char>,
    tree: JsonTree,
    depth: nat,
)
    requires
        depth >= 4,
        meets(
            turn_start_tree(thread_id, prompt, effort).at("params"@).at("outputSchema"@),
            tree,
            depth,
        ),
    ensures
        exists|parts: AnswerParts| #[trigger] is_answer(tree, parts) && is_within_limits(parts),
{
    let schema = output_schema_tree();
    let properties = schema.at("properties"@);
    let below = (depth - 1) as nat;
    lemma_schema_is_sent(thread_id, prompt, effort);
    lemma_answer_properties();
    lemma_kinds();
    assert(tree is Object);
    let entries = tree->Object_0;
    assert forall|key: Seq<char>| #[trigger] tree.has(key) <==> key == "answer"@ || key
        == "citations"@ by {
        lemma_required(key);
        if tree.has(key) {
            assert(entries.contains_key(key));
            assert(properties.has(key));
        }
        if key == "answer"@ || key == "citations"@ {
            assert(requires_key(schema, key));
        }
    }
    assert(tree.has("answer"@) && tree.has("citations"@));
    assert(properties.has("answer"@) && properties.has("citations"@));
    assert(meets(properties.at("answer"@), entries["answer"@], below));
    assert(meets(properties.at("citations"@), entries["citations"@], below));
    let items = entries["citations"@]->Array_0;
    let parts = AnswerParts {
        answer: entries["answer"@]->Text_0,
        citations: Seq::new(items.len(), |i: int| citation_parts(items[i])),
    };
    assert forall|i: int| 0 <= i < items.len() implies is_citation(
        #[trigger] items[i],
        parts.citations[i],
    ) && parts.citations[i].start_line >= 1 && parts.citations[i].end_line >= 1
        && parts.citations[i].reason.len() <= 200 by {
        assert(meets(citation_schema_tree(), items[i], (below - 1) as nat));
        lemma_meets_citation(items[i], (below - 1) as nat);
    }
    assert forall|i: int| 0 <= i < parts.citations.len() implies 1 <= (
    #[trigger] parts.citations[i]).start_line && 1 <= parts.citations[i].end_line
        && parts.citations[i].reason.len() <= 200 by {
        assert(is_citation(items[i], parts.citations[i]));
    }
    assert(is_answer(tree, parts) && is_within_limits(parts));
}

/// Every answer that keeps to the limits meets the schema that is sent with the request for a
/// turn.
pub proof fn answers_within_limits_meet_the_schema(
    thread_id: Seq<char>,
    prompt: Seq<char>,
    effort: Seq<char>,
    tree: JsonTree,
    parts: AnswerParts,
    depth: nat,
)
    requires
        depth >= 4,
        is_answer(tree, parts),
        is_within_limits(parts),
    ensures
        meets(
            turn_start_tree(thread_id, prompt, effort).at("params"@).at("outputSchema"@),
            tree,
            depth,
        ),
{
    let schema = output_schema_tree();
    let properties = schema.at("properties"@);
    let below = (depth - 1) as nat;
    let entries = tree->Object_0;
    lemma_schema_is_sent(thread_id, prompt, effort);
    lemma_answer_properties();
    lemma_kinds();
    assert(tree.has("answer"@) && tree.has("citations"@));
    let items = tree.at("citations"@)->Array_0;
    assert forall|i: int| 0 <= i < items.len() implies meets(
        citation_schema_tree(),
        #[trigger] items[i],
        (below - 1) as nat,
    ) by {
        assert(1 <= parts.citations[i].start_line);
        lemma_citation_meets(items[i], parts.citations[i], (below - 1) as nat);
    }
    assert(meets(properties.at("answer"@), tree.at("answer"@), below));
    assert(meets(properties.at("citations"@), tree.at("citations"@), below));
    assert forall|key: Seq<char>| #[trigger] requires_key(schema, key) implies entries.contains_key(
        key,
    ) by {
        lemma_required(key);
        assert(tree.has(key));
    }
    assert forall|key: Seq<char>| #[trigger] entries.contains_key(key) implies properties.has(key)
        && meets(properties.at(key), entries[key], below) by {
        assert(tree.has(key));
    }
}

} // verus!
