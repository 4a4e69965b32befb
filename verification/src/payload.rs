//! The report record and how it is built from a tool call's arguments.
//!
//! Building never fails: a key that is missing, or that holds something other
//! than what the report expects, gives the field its default.

use crate::json::{get_member, json_of, Json};
use serde_json::Value;
use vstd::prelude::*;

verus! {

/// The category a report falls back to when the caller names none.
pub const DEFAULT_GAP_TYPE: &'static str = "other";

/// One feedback report, fully populated.
#[derive(Debug, Clone, PartialEq, Eq)]
pub struct FeedbackPayload {
    /// The reporting server; set by the host, never read from the arguments.
    pub server_name: String,
    pub what_i_needed: String,
    pub what_i_tried: String,
    /// The category of the gap; never empty in a built report.
    pub gap_type: String,
    pub suggestion: String,
    pub user_goal: String,
    pub resolution: String,
    pub agent_model: String,
    pub session_id: String,
    /// The tools the agent considered, in the order given.
    pub tools_available: Vec<String>,
}

/// A report as a mathematical record: what a [`FeedbackPayload`] stands for.
pub struct Report {
    pub server_name: Seq<char>,
    pub what_i_needed: Seq<char>,
    pub what_i_tried: Seq<char>,
    pub gap_type: Seq<char>,
    pub suggestion: Seq<char>,
    pub user_goal: Seq<char>,
    pub resolution: Seq<char>,
    pub agent_model: Seq<char>,
    pub session_id: Seq<char>,
    pub tools_available: Seq<Seq<char>>,
}

impl Report {
    /// What holds of every report that this crate builds: it names a
    /// category.
    pub open spec fn well_formed(self) -> bool {
        self.gap_type.len() > 0
    }
}

impl View for FeedbackPayload {
    type V = Report;

    open spec fn view(&self) -> Report {
        Report {
            server_name: self.server_name@,
            what_i_needed: self.what_i_needed@,
            what_i_tried: self.what_i_tried@,
            gap_type: self.gap_type@,
            suggestion: self.suggestion@,
            user_goal: self.user_goal@,
            resolution: self.resolution@,
            agent_model: self.agent_model@,
            session_id: self.session_id@,
            tools_available: self.tools_available.deep_view(),
        }
    }
}

/// What a tool call's arguments hold under the keys a report reads.
///
/// A text field is `Some` where the key is present and holds a string.
/// `tools_available` is `Some` where the key is present and holds an array;
/// each element is then `Some` where it is a string.
#[derive(Debug, Clone, PartialEq, Eq)]
pub struct RawInput {
    pub what_i_needed: Option<String>,
    pub what_i_tried: Option<String>,
    pub gap_type: Option<String>,
    pub suggestion: Option<String>,
    pub user_goal: Option<String>,
    pub resolution: Option<String>,
    pub agent_model: Option<String>,
    pub session_id: Option<String>,
    pub tools_available: Option<Vec<Option<String>>>,
}

/// A [`RawInput`] as a mathematical record.
pub struct RawInputView {
    pub what_i_needed: Option<Seq<char>>,
    pub what_i_tried: Option<Seq<char>>,
    pub gap_type: Option<Seq<char>>,
    pub suggestion: Option<Seq<char>>,
    pub user_goal: Option<Seq<char>>,
    pub resolution: Option<Seq<char>>,
    pub agent_model: Option<Seq<char>>,
    pub session_id: Option<Seq<char>>,
    pub tools_available: Option<Seq<Option<Seq<char>>>>,
}

impl View for RawInput {
    type V = RawInputView;

    open spec fn view(&self) -> RawInputView {
        RawInputView {
            what_i_needed: self.what_i_needed.deep_view(),
            what_i_tried: self.what_i_tried.deep_view(),
            gap_type: self.gap_type.deep_view(),
            suggestion: self.suggestion.deep_view(),
            user_goal: self.user_goal.deep_view(),
            resolution: self.resolution.deep_view(),
            agent_model: self.agent_model.deep_view(),
            session_id: self.session_id.deep_view(),
            tools_available: self.tools_available.deep_view(),
        }
    }
}

/// The string that an object holds under `key`, if it holds one.
pub open spec fn text_member(args: Json, key: Seq<char>) -> Option<Seq<char>> {
    match args.member(key) {
        Some(found) => found.text(),
        None => None,
    }
}

/// How an element of an array is read: by its string, or as `None` where it is
/// no string.
pub open spec fn item_text() -> spec_fn(Json) -> Option<Seq<char>> {
    |item: Json| item.text()
}

/// The array that an object holds under `key`, if it holds one, each element
/// read by [`item_text`].
pub open spec fn list_member(args: Json, key: Seq<char>) -> Option<Seq<Option<Seq<char>>>> {
    match args.member(key) {
        Some(Json::List(items)) => Some(items.map_values(item_text())),
        _ => None,
    }
}

/// What the arguments `args` hold under the keys a report reads.
pub open spec fn input_of(args: Json) -> RawInputView {
    RawInputView {
        what_i_needed: text_member(args, "what_i_needed"@),
        what_i_tried: text_member(args, "what_i_tried"@),
        gap_type: text_member(args, "gap_type"@),
        suggestion: text_member(args, "suggestion"@),
        user_goal: text_member(args, "user_goal"@),
        resolution: text_member(args, "resolution"@),
        agent_model: text_member(args, "agent_model"@),
        session_id: text_member(args, "session_id"@),
        tools_available: list_member(args, "tools_available"@),
    }
}

/// Reads the string under `key`.
fn read_text(args: &Value, key: &str) -> (text: Option<String>)
    ensures
        text.deep_view() == text_member(json_of(*args), key@),
{
    match get_member(args, key) {
        Some(found) => match found.as_str() {
            Some(text) => Some(text.to_owned()),
            None => None,
        },
        None => None,
    }
}

/// Reads the array under `key`, element by element.
fn read_list(args: &Value, key: &str) -> (list: Option<Vec<Option<String>>>)
    ensures
        list.deep_view() == list_member(json_of(*args), key@),
{
    match get_member(args, key) {
        Some(found) => match found.as_array() {
            Some(values) => {
                let mut items: Vec<Option<String>> = Vec::new();
                let mut i: usize = 0;
                while i < values.len()
                    invariant
                        i <= values.len(),
                        items.len() == i,
                        forall|k: int|
                            0 <= k < i ==> (#[trigger] items[k]).deep_view() == json_of(
                                values[k],
                            ).text(),
                    decreases values.len() - i,
                {
                    let item = match values[i].as_str() {
                        Some(text) => Some(text.to_owned()),
                        None => None,
                    };
                    items.push(item);
                    i += 1;
                }
                Some(items)
            },
            None => None,
        },
        None => None,
    }
}

/// Reads from a tool call's arguments what a report is built from.
pub fn read_input(args: &Value) -> (input: RawInput)
    ensures
        input@ == input_of(json_of(*args)),
{
    RawInput {
        what_i_needed: read_text(args, "what_i_needed"),
        what_i_tried: read_text(args, "what_i_tried"),
        gap_type: read_text(args, "gap_type"),
        suggestion: read_text(args, "suggestion"),
        user_goal: read_text(args, "user_goal"),
        resolution: read_text(args, "resolution"),
        agent_model: read_text(args, "agent_model"),
        session_id: read_text(args, "session_id"),
        tools_available: read_list(args, "tools_available"),
    }
}

/// The text found, or the empty text where none was found.
pub open spec fn text_or_empty(found: Option<Seq<char>>) -> Seq<char> {
    match found {
        Some(text) => text,
        None => Seq::empty(),
    }
}

/// The category found, or [`DEFAULT_GAP_TYPE`] where none was found or the
/// one found is empty.
pub open spec fn gap_type_or_default(found: Option<Seq<char>>) -> Seq<char> {
    if text_or_empty(found).len() == 0 {
        DEFAULT_GAP_TYPE@
    } else {
        text_or_empty(found)
    }
}

/// The rule by which an element of `tools_available` is kept: a string stays,
/// anything else goes.
pub open spec fn keep_text() -> spec_fn(Option<Seq<char>>) -> Option<Seq<char>> {
    |item: Option<Seq<char>>| item
}

/// The strings among `items`, in the order in which they stand there.
pub open spec fn kept_texts(items: Seq<Option<Seq<char>>>) -> Seq<Seq<char>> {
    items.filter_map(keep_text())
}

/// The tool names found, or none where no array was found.
pub open spec fn tools_or_none(found: Option<Seq<Option<Seq<char>>>>) -> Seq<Seq<char>> {
    match found {
        Some(items) => kept_texts(items),
        None => Seq::empty(),
    }
}

/// The report that `input` gives for the server `server_name`.
pub open spec fn report_of(input: RawInputView, server_name: Seq<char>) -> Report {
    Report {
        server_name,
        what_i_needed: text_or_empty(input.what_i_needed),
        what_i_tried: text_or_empty(input.what_i_tried),
        gap_type: gap_type_or_default(input.gap_type),
        suggestion: text_or_empty(input.suggestion),
        user_goal: text_or_empty(input.user_goal),
        resolution: text_or_empty(input.resolution),
        agent_model: text_or_empty(input.agent_model),
        session_id: text_or_empty(input.session_id),
        tools_available: tools_or_none(input.tools_available),
    }
}

/// The text found, or an empty string.
fn or_empty(found: Option<String>) -> (text: String)
    ensures
        text@ == text_or_empty(found.deep_view()),
{
    match found {
        Some(text) => text,
        None => String::new(),
    }
}

/// The category found, or the default one.
fn or_default_gap_type(found: Option<String>) -> (gap_type: String)
    ensures
        gap_type@ == gap_type_or_default(found.deep_view()),
{
    let text = or_empty(found);
    if text.as_str().is_empty() {
        DEFAULT_GAP_TYPE.to_owned()
    } else {
        text
    }
}

/// The strings among the elements found, in order.
fn keep_texts(found: Option<Vec<Option<String>>>) -> (tools: Vec<String>)
    ensures
        tools.deep_view() == tools_or_none(found.deep_view()),
{
    let mut tools: Vec<String> = Vec::new();
    if let Some(items) = found {
        let ghost all = items.deep_view();
        let mut i: usize = 0;
        while i < items.len()
            invariant
                i <= items.len(),
                all == items.deep_view(),
                tools.deep_view() == kept_texts(all.take(i as int)),
            decreases items.len() - i,
        {
            proof {
                all.lemma_filter_map_take_succ(keep_text(), i as int);
            }
            if let Some(text) = &items[i] {
                tools.push(text.clone());
            }
            i += 1;
        }
        assert(all.take(i as int) =~= all);
    }
    tools
}

/// Builds the report for the server `server_name` from what was read of the
/// arguments.
///
/// Every field gets a value. A text field that was not found is empty; a
/// category that was not found, or is empty, is [`DEFAULT_GAP_TYPE`]; the
/// tools are the strings among the elements found, in their order.
pub fn build_payload(input: RawInput, server_name: &str) -> (payload: FeedbackPayload)
    ensures
        payload@ == report_of(input@, server_name@),
        payload@.well_formed(),
{
    proof {
        reveal_strlit("other");
    }
    FeedbackPayload {
        server_name: server_name.to_owned(),
        what_i_needed: or_empty(input.what_i_needed),
        what_i_tried: or_empty(input.what_i_tried),
        gap_type: or_default_gap_type(input.gap_type),
        suggestion: or_empty(input.suggestion),
        user_goal: or_empty(input.user_goal),
        resolution: or_empty(input.resolution),
        agent_model: or_empty(input.agent_model),
        session_id: or_empty(input.session_id),
        tools_available: keep_texts(input.tools_available),
    }
}

/// Builds the report for the server `server_name` from the arguments of a
/// tool call. Missing or ill-typed arguments give defaults, never an error.
///
/// The server's name is the one given, whatever the arguments hold. A text
/// key that is missing leaves its field empty, and a missing
/// `tools_available` leaves the report without tools. A category that is
/// missing or empty is reported as `"other"`, so that no report has an empty
/// category. The tools are exactly the strings of the `tools_available`
/// array, in the order in which they stand there.
pub fn payload_from_args(args: &Value, server_name: &str) -> (payload: FeedbackPayload)
    ensures
        payload@ == report_of(input_of(json_of(*args)), server_name@),
        payload.server_name@ == server_name@,
        json_of(*args).member("what_i_needed"@) is None ==> payload.what_i_needed@.len() == 0,
        json_of(*args).member("what_i_tried"@) is None ==> payload.what_i_tried@.len() == 0,
        json_of(*args).member("suggestion"@) is None ==> payload.suggestion@.len() == 0,
        json_of(*args).member("user_goal"@) is None ==> payload.user_goal@.len() == 0,
        json_of(*args).member("resolution"@) is None ==> payload.resolution@.len() == 0,
        json_of(*args).member("agent_model"@) is None ==> payload.agent_model@.len() == 0,
        json_of(*args).member("session_id"@) is None ==> payload.session_id@.len() == 0,
        json_of(*args).member("tools_available"@) is None ==> payload.tools_available@.len() == 0,
        gap_type_unset(json_of(*args)) ==> payload.gap_type@ == "other"@,
        payload@.well_formed(),
        match json_of(*args).member("tools_available"@) {
            Some(Json::List(items)) => payload.tools_available.deep_view() == items.filter_map(
                item_text(),
            ),
            _ => payload.tools_available@.len() == 0,
        },
{
    let payload = build_payload(read_input(args), server_name);
    proof {
        law_missing_keys_give_defaults(json_of(*args), server_name@);
        law_unset_gap_type_is_other(json_of(*args), server_name@);
        if let Some(Json::List(items)) = json_of(*args).member("tools_available"@) {
            law_tools_are_the_strings_in_order(json_of(*args), server_name@, items);
        }
    }
    payload
}

/// Whether a category was left unset: the key is missing, or holds the empty
/// string.
pub open spec fn gap_type_unset(args: Json) -> bool {
    args.member("gap_type"@) is None || args.member("gap_type"@) == Some(
        Json::Text(Seq::empty()),
    )
}

/// A text key that the arguments lack leaves its field empty, and a missing
/// `tools_available` leaves the report without tools.
pub proof fn law_missing_keys_give_defaults(args: Json, server_name: Seq<char>)
    ensures
        args.member("what_i_needed"@) is None ==> report_of(
            input_of(args),
            server_name,
        ).what_i_needed.len() == 0,
        args.member("what_i_tried"@) is None ==> report_of(
            input_of(args),
            server_name,
        ).what_i_tried.len() == 0,
        args.member("suggestion"@) is None ==> report_of(
            input_of(args),
            server_name,
        ).suggestion.len() == 0,
        args.member("user_goal"@) is None ==> report_of(
            input_of(args),
            server_name,
        ).user_goal.len() == 0,
        args.member("resolution"@) is None ==> report_of(
            input_of(args),
            server_name,
        ).resolution.len() == 0,
        args.member("agent_model"@) is None ==> report_of(
            input_of(args),
            server_name,
        ).agent_model.len() == 0,
        args.member("session_id"@) is None ==> report_of(
            input_of(args),
            server_name,
        ).session_id.len() == 0,
        args.member("tools_available"@) is None ==> report_of(
            input_of(args),
            server_name,
        ).tools_available.len() == 0,
{
}

/// A category that was left unset is reported as `"other"`, and no report
/// has an empty category.
pub proof fn law_unset_gap_type_is_other(args: Json, server_name: Seq<char>)
    ensures
        gap_type_unset(args) ==> report_of(input_of(args), server_name).gap_type == "other"@,
        report_of(input_of(args), server_name).well_formed(),
{
    reveal_strlit("other");
}

/// The tools of a report are exactly the strings of the `tools_available`
/// array, in the order in which they stand there; every other element is
/// dropped.
pub proof fn law_tools_are_the_strings_in_order(
    args: Json,
    server_name: Seq<char>,
    items: Seq<Json>,
)
    requires
        args.member("tools_available"@) == Some(Json::List(items)),
    ensures
        report_of(input_of(args), server_name).tools_available == items.filter_map(item_text()),
{
    lemma_kept_of_read(items);
}

/// Reading each element and keeping the strings found is keeping the
/// elements that are strings.
proof fn lemma_kept_of_read(items: Seq<Json>)
    ensures
        kept_texts(items.map_values(item_text())) == items.filter_map(item_text()),
    decreases items.len(),
{
    if items.len() > 0 {
        lemma_kept_of_read(items.drop_last());
        assert(items.map_values(item_text()).drop_last() =~= items.drop_last().map_values(
            item_text(),
        ));
    }
}

/// What it is to keep the strings in order: nothing is kept of nothing, a
/// string alone is kept, anything else alone is dropped, and what is kept of
/// two sequences joined is what is kept of the first, followed by what is
/// kept of the second.
pub proof fn law_kept_texts_in_order(
    first: Seq<Option<Seq<char>>>,
    second: Seq<Option<Seq<char>>>,
    text: Seq<char>,
)
    ensures
        kept_texts(Seq::empty()) == Seq::<Seq<char>>::empty(),
        kept_texts(seq![Some(text)]) == seq![text],
        kept_texts(seq![None]) == Seq::<Seq<char>>::empty(),
        kept_texts(first + second) == kept_texts(first) + kept_texts(second),
    decreases second.len(),
{
    Seq::lemma_filter_map_singleton(Some(text), keep_text());
    Seq::lemma_filter_map_singleton(None, keep_text());
    if second.len() > 0 {
        law_kept_texts_in_order(first, second.drop_last(), text);
        assert((first + second).drop_last() =~= first + second.drop_last());
    }
}

/// The names of the ten fields, by what tells each from the others: its
/// length, and one character where two lengths agree.
pub(crate) proof fn lemma_field_names_differ()
    ensures
        "server_name"@.len() == 11 && "server_name"@[0] == 's',
        "what_i_needed"@.len() == 13,
        "what_i_tried"@.len() == 12,
        "gap_type"@.len() == 8,
        "suggestion"@.len() == 10 && "suggestion"@[1] == 'u',
        "user_goal"@.len() == 9,
        "resolution"@.len() == 10 && "resolution"@[1] == 'e' && "resolution"@[0] == 'r',
        "agent_model"@.len() == 11 && "agent_model"@[0] == 'a',
        "session_id"@.len() == 10 && "session_id"@[1] == 'e' && "session_id"@[0] == 's',
        "tools_available"@.len() == 15,
{
    reveal_strlit("server_name");
    reveal_strlit("what_i_needed");
    reveal_strlit("what_i_tried");
    reveal_strlit("gap_type");
    reveal_strlit("suggestion");
    reveal_strlit("user_goal");
    reveal_strlit("resolution");
    reveal_strlit("agent_model");
    reveal_strlit("session_id");
    reveal_strlit("tools_available");
}

} // verus!
