//! The wire form of a report: the JSON object that is posted to the
//! collector.

use crate::json::{json_of, new_members, object_value, put_member, put_text, text_list, Json};
use crate::payload::{
    input_of, item_text, kept_texts, lemma_field_names_differ, report_of, FeedbackPayload, Report,
};
use serde_json::Value;
use vstd::prelude::*;

verus! {

/// The JSON object that stands for `report` on the wire: one member for each
/// field, named as the field is, the text fields as strings and the tools as
/// an array of strings.
pub open spec fn wire_of(report: Report) -> Json {
    Json::Object(
        map![
            "server_name"@ => Json::Text(report.server_name),
            "what_i_needed"@ => Json::Text(report.what_i_needed),
            "what_i_tried"@ => Json::Text(report.what_i_tried),
            "gap_type"@ => Json::Text(report.gap_type),
            "suggestion"@ => Json::Text(report.suggestion),
            "user_goal"@ => Json::Text(report.user_goal),
            "resolution"@ => Json::Text(report.resolution),
            "agent_model"@ => Json::Text(report.agent_model),
            "session_id"@ => Json::Text(report.session_id),
            "tools_available"@ => Json::texts(report.tools_available),
        ],
    )
}

/// The body of the request that delivers `payload`.
pub fn wire_body(payload: &FeedbackPayload) -> (body: Value)
    ensures
        json_of(body) == wire_of(payload@),
{
    let mut members = new_members();
    put_text(&mut members, "server_name", payload.server_name.as_str());
    put_text(&mut members, "what_i_needed", payload.what_i_needed.as_str());
    put_text(&mut members, "what_i_tried", payload.what_i_tried.as_str());
    put_text(&mut members, "gap_type", payload.gap_type.as_str());
    put_text(&mut members, "suggestion", payload.suggestion.as_str());
    put_text(&mut members, "user_goal", payload.user_goal.as_str());
    put_text(&mut members, "resolution", payload.resolution.as_str());
    put_text(&mut members, "agent_model", payload.agent_model.as_str());
    put_text(&mut members, "session_id", payload.session_id.as_str());
    put_member(&mut members, "tools_available".to_owned(), text_list(&payload.tools_available));
    object_value(members)
}

/// Of strings alone, every one is kept.
proof fn lemma_all_texts_kept(texts: Seq<Seq<char>>)
    ensures
        kept_texts(Json::texts(texts)->List_0.map_values(item_text())) == texts,
    decreases texts.len(),
{
    if texts.len() > 0 {
        let read = Json::texts(texts)->List_0.map_values(item_text());
        let shorter = Json::texts(texts.drop_last())->List_0.map_values(item_text());
        lemma_all_texts_kept(texts.drop_last());
        assert(read.drop_last() =~= shorter);
    }
}

/// The wire form loses nothing: a well-formed report, read back from its
/// wire form for the same server, is the report again.
pub proof fn law_wire_reads_back(report: Report)
    requires
        report.well_formed(),
    ensures
        report_of(input_of(wire_of(report)), report.server_name) == report,
{
    lemma_field_names_differ();
    lemma_all_texts_kept(report.tools_available);
}

} // verus!
