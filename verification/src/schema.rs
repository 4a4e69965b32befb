//! How the tool presents itself to a host: its name, its description, and
//! the JSON Schema of the arguments it accepts.

use crate::json::{json_of, new_members, object_value, put_member, put_text, text_list, Json};
use crate::payload::{lemma_field_names_differ, DEFAULT_GAP_TYPE};
use serde_json::Value;
use vstd::prelude::*;

verus! {

/// The name under which the tool is registered.
pub const TOOL_NAME: &'static str = "feedback";

/// What tells an agent when to call the tool.
pub const TOOL_DESCRIPTION: &'static str =
    "Report when you cannot find what you need or when available tools don't fully address the task. This feedback directly improves this server. Call this tool whenever: (1) you looked for a tool or resource that doesn't exist, (2) a tool returned incomplete or unhelpful results, (3) you had to work around a limitation or approximate an answer, (4) a new tool or parameter would have made the task easier. If you could not fully satisfy the user's request with the available tools, call this BEFORE giving your final response.";

/// The categories of gap, as the schema lists them.
pub open spec fn gap_type_names() -> Seq<Seq<char>> {
    seq![
        "missing_tool"@,
        "incomplete_results"@,
        "missing_parameter"@,
        "wrong_format"@,
        "other"@,
    ]
}

/// The ways a gap can have been resolved, as the schema lists them.
pub open spec fn resolution_names() -> Seq<Seq<char>> {
    seq!["blocked"@, "worked_around"@, "partial"@]
}

/// The arguments that the schema requires.
pub open spec fn required_names() -> Seq<Seq<char>> {
    seq!["what_i_needed"@, "what_i_tried"@, "gap_type"@]
}

/// The schema of an argument that is a string.
pub open spec fn text_property(description: Seq<char>) -> Json {
    Json::Object(
        map![
            "type"@ => Json::Text("string"@),
            "description"@ => Json::Text(description),
        ],
    )
}

/// The schema of an argument that is one of the strings `choices`.
pub open spec fn choice_property(choices: Seq<Seq<char>>, description: Seq<char>) -> Json {
    Json::Object(
        map![
            "type"@ => Json::Text("string"@),
            "enum"@ => Json::texts(choices),
            "description"@ => Json::Text(description),
        ],
    )
}

/// The schema of an argument that is an array of strings.
pub open spec fn text_list_property(description: Seq<char>) -> Json {
    Json::Object(
        map![
            "type"@ => Json::Text("array"@),
            "items"@ => Json::Object(map!["type"@ => Json::Text("string"@)]),
            "description"@ => Json::Text(description),
        ],
    )
}

/// The schema of each argument, by the argument's name.
pub open spec fn schema_properties() -> Map<Seq<char>, Json> {
    map![
        "what_i_needed"@ => text_property(
            "What capability, data, or tool were you looking for?"@,
        ),
        "what_i_tried"@ => text_property(
            "What tools or approaches did you try? Include tool names and brief results."@,
        ),
        "gap_type"@ => choice_property(gap_type_names(), "The category of gap encountered."@),
        "suggestion"@ => text_property("Your idea for what would have helped."@),
        "user_goal"@ => text_property("The user's original request or goal."@),
        "resolution"@ => choice_property(
            resolution_names(),
            "What happened after hitting the gap."@,
        ),
        "tools_available"@ => text_list_property("Tool names you considered or tried."@),
        "agent_model"@ => text_property("Your model identifier, if known."@),
        "session_id"@ => text_property("Conversation or session identifier."@),
    ]
}

/// The JSON Schema of the tool's arguments: an object with the properties of
/// [`schema_properties`], of which those of [`required_names`] are required.
pub open spec fn schema_of() -> Json {
    Json::Object(
        map![
            "type"@ => Json::Text("object"@),
            "properties"@ => Json::Object(schema_properties()),
            "required"@ => Json::texts(required_names()),
        ],
    )
}

/// The categories of gap that a report can name.
pub fn gap_types() -> (names: Vec<String>)
    ensures
        names.deep_view() == gap_type_names(),
{
    let mut names: Vec<String> = Vec::new();
    names.push("missing_tool".to_owned());
    names.push("incomplete_results".to_owned());
    names.push("missing_parameter".to_owned());
    names.push("wrong_format".to_owned());
    names.push("other".to_owned());
    names
}

/// The ways in which a gap can have been resolved.
pub fn resolutions() -> (names: Vec<String>)
    ensures
        names.deep_view() == resolution_names(),
{
    let mut names: Vec<String> = Vec::new();
    names.push("blocked".to_owned());
    names.push("worked_around".to_owned());
    names.push("partial".to_owned());
    names
}

/// The arguments without which a call does not meet the schema.
pub fn required_fields() -> (names: Vec<String>)
    ensures
        names.deep_view() == required_names(),
{
    let mut names: Vec<String> = Vec::new();
    names.push("what_i_needed".to_owned());
    names.push("what_i_tried".to_owned());
    names.push("gap_type".to_owned());
    names
}

/// The schema of an argument that is a string.
fn text_property_value(description: &str) -> (property: Value)
    ensures
        json_of(property) == text_property(description@),
{
    let mut members = new_members();
    put_text(&mut members, "type", "string");
    put_text(&mut members, "description", description);
    object_value(members)
}

/// The schema of an argument that is one of the strings `choices`.
fn choice_property_value(choices: &Vec<String>, description: &str) -> (property: Value)
    ensures
        json_of(property) == choice_property(choices.deep_view(), description@),
{
    let mut members = new_members();
    put_text(&mut members, "type", "string");
    put_member(&mut members, "enum".to_owned(), text_list(choices));
    put_text(&mut members, "description", description);
    object_value(members)
}

/// The schema of an argument that is an array of strings.
fn text_list_property_value(description: &str) -> (property: Value)
    ensures
        json_of(property) == text_list_property(description@),
{
    let mut items = new_members();
    put_text(&mut items, "type", "string");
    let mut members = new_members();
    put_text(&mut members, "type", "array");
    put_member(&mut members, "items".to_owned(), object_value(items));
    put_text(&mut members, "description", description);
    object_value(members)
}

/// The JSON Schema of the arguments that the tool accepts, for a host that
/// registers the tool by hand.
pub fn tool_input_schema() -> (schema: Value)
    ensures
        json_of(schema) == schema_of(),
{
    let mut properties = new_members();
    put_member(
        &mut properties,
        "what_i_needed".to_owned(),
        text_property_value("What capability, data, or tool were you looking for?"),
    );
    put_member(
        &mut properties,
        "what_i_tried".to_owned(),
        text_property_value(
            "What tools or approaches did you try? Include tool names and brief results.",
        ),
    );
    put_member(
        &mut properties,
        "gap_type".to_owned(),
        choice_property_value(&gap_types(), "The category of gap encountered."),
    );
    put_member(
        &mut properties,
        "suggestion".to_owned(),
        text_property_value("Your idea for what would have helped."),
    );
    put_member(
        &mut properties,
        "user_goal".to_owned(),
        text_property_value("The user's original request or goal."),
    );
    put_member(
        &mut properties,
        "resolution".to_owned(),
        choice_property_value(&resolutions(), "What happened after hitting the gap."),
    );
    put_member(
        &mut properties,
        "tools_available".to_owned(),
        text_list_property_value("Tool names you considered or tried."),
    );
    put_member(
        &mut properties,
        "agent_model".to_owned(),
        text_property_value("Your model identifier, if known."),
    );
    put_member(
        &mut properties,
        "session_id".to_owned(),
        text_property_value("Conversation or session identifier."),
    );
    let mut members = new_members();
    put_text(&mut members, "type", "object");
    put_member(&mut members, "properties".to_owned(), object_value(properties));
    put_member(&mut members, "required".to_owned(), text_list(&required_fields()));
    object_value(members)
}

/// Every argument that the schema requires is one that it describes, and
/// describes as a string.
pub proof fn law_required_arguments_are_strings(i: int)
    requires
        0 <= i < required_names().len(),
    ensures
        schema_properties().contains_key(required_names()[i]),
        schema_properties()[required_names()[i]].member("type"@) == Some(Json::Text("string"@)),
{
    lemma_field_names_differ();
    reveal_strlit("type");
    reveal_strlit("enum");
    reveal_strlit("description");
    assert("type"@.len() == 4 && "description"@.len() == 11 && "enum"@[0] == 'e' && "type"@[0]
        == 't');
}

/// The category that a report falls back to is one that the schema lists.
pub proof fn law_default_gap_type_is_listed()
    ensures
        gap_type_names().contains(DEFAULT_GAP_TYPE@),
{
}

} // verus!
