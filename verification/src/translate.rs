//! Translation of API requests into Codex prompts.
use crate::codec::{json_text, to_text};
use crate::json::{
    Json, JsonView, fields_view, items_view, lemma_entry_content_is_smaller,
    lemma_item_content_is_smaller, owned_view, text_view,
};
use crate::text::{
    joined, joined_pair, lemma_joined_lists, none_empty, push_joined, same_text,
};
use vstd::prelude::*;
use vstd::string::*;

verus! {

/// A Chat Completions request.
#[derive(Debug)]
pub struct ChatRequest {
    pub model: String,
    pub messages: Vec<ChatMessage>,
    pub stream: bool,
    pub tools: Vec<Json>,
    pub tool_choice: Option<Json>,
}

/// A message of a Chat Completions request.
#[derive(Debug)]
pub struct ChatMessage {
    pub role: String,
    pub content: Option<Json>,
    pub tool_calls: Vec<Json>,
    pub tool_call_id: Option<String>,
}

/// A Responses request.
#[derive(Debug)]
pub struct ResponsesRequest {
    pub model: String,
    pub input: Json,
    pub instructions: Option<String>,
    pub stream: bool,
    pub text: Option<Json>,
}

/// The function that a request wants called.
#[derive(Debug, Clone)]
pub struct ForcedTool {
    pub name: String,
    pub schema: Json,
}

/// The content of a [`ChatMessage`].
pub struct ChatMessageView {
    pub role: Seq<char>,
    pub content: Option<JsonView>,
    pub tool_calls: Seq<JsonView>,
    pub tool_call_id: Option<Seq<char>>,
}

/// The content of a [`ForcedTool`].
pub struct ForcedToolView {
    pub name: Seq<char>,
    pub schema: JsonView,
}

pub open spec fn string_view(s: Option<String>) -> Option<Seq<char>> {
    match s {
        Some(s) => Some(s@),
        None => None,
    }
}

impl View for ChatMessage {
    type V = ChatMessageView;

    open spec fn view(&self) -> ChatMessageView {
        ChatMessageView {
            role: self.role@,
            content: owned_view(self.content),
            tool_calls: items_view(self.tool_calls@),
            tool_call_id: string_view(self.tool_call_id),
        }
    }
}

impl View for ForcedTool {
    type V = ForcedToolView;

    open spec fn view(&self) -> ForcedToolView {
        ForcedToolView { name: self.name@, schema: self.schema@ }
    }
}

/// The text in a message content: of a list, the texts of the parts that have any, a line
/// each; of an object, its `text`, or else that of its `content` under its `role`.
pub open spec fn content_text_of(v: JsonView) -> Seq<char>
    decreases v,
{
    match v {
        JsonView::Null => Seq::empty(),
        JsonView::String(text) => text,
        JsonView::Array(parts) => joined(part_texts(parts), "\n"@),
        JsonView::Object(entries) => {
            if v.text_at("text"@) is Some {
                v.text_at("text"@)->0
            } else if entries.contains_key("content"@) {
                let text = content_text_of(entries["content"@]);
                match v.text_at("role"@) {
                    Some(role) => if text.len() > 0 {
                        headed_text(role, text)
                    } else {
                        text
                    },
                    None => text,
                }
            } else {
                Seq::empty()
            }
        },
        _ => json_text(v),
    }
}

/// The texts of the parts of a content that have any.
pub open spec fn part_texts(parts: Seq<JsonView>) -> Seq<Seq<char>>
    decreases parts,
{
    if parts.len() == 0 {
        Seq::empty()
    } else {
        let front = part_texts(parts.subrange(0, parts.len() - 1));
        let text = content_text_of(parts[parts.len() - 1]);
        if text.len() > 0 {
            front.push(text)
        } else {
            front
        }
    }
}

fn content_text(v: &Json) -> (r: String)
    ensures
        r@ == content_text_of(v@),
    decreases v@,
{
    match v {
        Json::Null => String::new(),
        Json::String(text) => text.clone(),
        Json::Array(parts) => {
            let ghost all = items_view(parts@);
            let mut text = String::new();
            let mut empty = true;
            let mut i: usize = 0;
            while i < parts.len()
                invariant
                    i <= parts@.len(),
                    v@ == JsonView::Array(all),
                    all == items_view(parts@),
                    empty == (part_texts(all.subrange(0, i as int)).len() == 0),
                    text@ == joined(part_texts(all.subrange(0, i as int)), "\n"@),
                decreases parts@.len() - i,
            {
                proof {
                    lemma_item_content_is_smaller(v@, i as int);
                    assert(all.subrange(0, i + 1).subrange(0, i as int) =~= all.subrange(
                        0,
                        i as int,
                    ));
                }
                let part = content_text(&parts[i]);
                if !part.as_str().is_empty() {
                    push_joined(
                        &mut text,
                        empty,
                        "\n",
                        part.as_str(),
                        Ghost(part_texts(all.subrange(0, i as int))),
                    );
                    empty = false;
                }
                i = i + 1;
            }
            assert(all.subrange(0, i as int) =~= all);
            text
        },
        Json::Object(_) => {
            if let Some(text) = v.text_at("text") {
                return text.to_owned();
            }
            match v.get("content") {
                Some(content) => {
                    proof {
                        lemma_entry_content_is_smaller(v@, "content"@);
                    }
                    let text = content_text(content);
                    match v.text_at("role") {
                        Some(role) if !text.as_str().is_empty() => headed(role, text.as_str()),
                        _ => text,
                    }
                },
                None => String::new(),
            }
        },
        _ => to_text(v),
    }
}

/// A text under a heading in brackets.
pub open spec fn headed_text(heading: Seq<char>, text: Seq<char>) -> Seq<char> {
    "["@ + heading + "]\n"@ + text
}

fn headed(heading: &str, text: &str) -> (r: String)
    ensures
        r@ == headed_text(heading@, text@),
{
    "[".to_owned().concat(heading).concat("]\n").concat(text)
}

/// What a message contributes to the prompt: nothing without content, and nothing without
/// text and tool calls.
pub open spec fn message_block(message: ChatMessageView) -> Option<Seq<char>> {
    match message.content {
        Some(content) => {
            let text = content_text_of(content);
            if text.len() == 0 && message.tool_calls.len() == 0 {
                None
            } else {
                let calls = if message.tool_calls.len() > 0 {
                    "\nTool calls: "@ + json_text(JsonView::Array(message.tool_calls))
                } else {
                    Seq::empty()
                };
                let call_id = match message.tool_call_id {
                    Some(id) => "\nTool call id: "@ + id,
                    None => Seq::empty(),
                };
                Some(headed_text(message.role, text) + calls + call_id)
            }
        },
        None => None,
    }
}

/// The contributions of the messages that have any.
pub open spec fn message_blocks(messages: Seq<ChatMessage>) -> Seq<Seq<char>>
    decreases messages.len(),
{
    if messages.len() == 0 {
        Seq::empty()
    } else {
        let front = message_blocks(messages.drop_last());
        match message_block(messages.last()@) {
            Some(block) => front.push(block),
            None => front,
        }
    }
}

/// The prompt for a list of messages.
pub open spec fn chat_prompt_of(messages: Seq<ChatMessage>) -> Seq<char> {
    joined(message_blocks(messages), "\n\n"@)
}

fn message_text(message: &ChatMessage) -> (r: Option<String>)
    ensures
        string_view(r) == message_block(message@),
{
    let content = match &message.content {
        Some(content) => content_text(content),
        None => return None,
    };
    if content.as_str().is_empty() && message.tool_calls.len() == 0 {
        return None;
    }
    let mut block = headed(message.role.as_str(), content.as_str());
    let ghost head = block@;
    let ghost mut calls: Seq<char> = Seq::empty();
    if message.tool_calls.len() > 0 {
        let tool_calls = Json::Array(clone_items(&message.tool_calls));
        let text = to_text(&tool_calls);
        block.append("\nTool calls: ");
        block.append(text.as_str());
        proof {
            calls = "\nTool calls: "@ + text@;
        }
    }
    assert(block@ =~= head + calls);
    if let Some(id) = &message.tool_call_id {
        block.append("\nTool call id: ");
        block.append(id.as_str());
        assert(block@ =~= head + calls + ("\nTool call id: "@ + id@));
    } else {
        assert(block@ =~= head + calls + Seq::<char>::empty());
    }
    Some(block)
}

fn clone_items(items: &Vec<Json>) -> (r: Vec<Json>)
    ensures
        items_view(r@) == items_view(items@),
{
    let mut copy: Vec<Json> = Vec::new();
    let mut i: usize = 0;
    while i < items.len()
        invariant
            i <= items@.len(),
            copy@.len() == i,
            forall|j: int| 0 <= j < i ==> (#[trigger] copy@[j])@ == items@[j]@,
        decreases items@.len() - i,
    {
        copy.push(items[i].clone());
        i = i + 1;
    }
    assert(items_view(copy@) =~= items_view(items@));
    copy
}

/// The prompt for a Chat Completions request.
#[must_use]
pub fn chat_prompt(request: &ChatRequest) -> (r: String)
    ensures
        r@ == chat_prompt_of(request.messages@),
{
    let ghost all = request.messages@;
    let mut prompt = String::new();
    let mut empty = true;
    let mut i: usize = 0;
    while i < request.messages.len()
        invariant
            i <= all.len(),
            all == request.messages@,
            empty == (message_blocks(all.take(i as int)).len() == 0),
            prompt@ == joined(message_blocks(all.take(i as int)), "\n\n"@),
        decreases all.len() - i,
    {
        assert(all.take(i + 1).drop_last() =~= all.take(i as int));
        if let Some(block) = message_text(&request.messages[i]) {
            push_joined(
                &mut prompt,
                empty,
                "\n\n",
                block.as_str(),
                Ghost(message_blocks(all.take(i as int))),
            );
            empty = false;
        }
        i = i + 1;
    }
    assert(all.take(i as int) =~= all);
    prompt
}

/// The prompt for an input under optional instructions.
pub open spec fn responses_prompt_of(input: JsonView, instructions: Option<Seq<char>>) -> Seq<char> {
    let text = content_text_of(input);
    match instructions {
        Some(instructions) => if instructions.len() > 0 {
            "[instructions]\n"@ + instructions + "\n\n[input]\n"@ + text
        } else {
            text
        },
        None => text,
    }
}

/// The prompt for a Responses request.
#[must_use]
pub fn responses_prompt(request: &ResponsesRequest) -> (r: String)
    ensures
        r@ == responses_prompt_of(request.input@, string_view(request.instructions)),
{
    let input = content_text(&request.input);
    match &request.instructions {
        Some(instructions) if !instructions.as_str().is_empty() => {
            "[instructions]\n".to_owned().concat(instructions.as_str()).concat(
                "\n\n[input]\n",
            ).concat(input.as_str())
        },
        _ => input,
    }
}

/// The name of the function that a tool or a tool choice is about.
pub open spec fn function_name(v: JsonView) -> Option<Seq<char>> {
    v.text_in("function"@, "name"@)
}

/// The name of the function that a tool choice wants called.
pub open spec fn chosen_name(choice: JsonView) -> Option<Seq<char>> {
    match function_name(choice) {
        Some(name) => Some(name),
        None => match choice.as_str() {
            Some(name) => if name != "auto"@ && name != "none"@ && name != "required"@ {
                Some(name)
            } else {
                None
            },
            None => None,
        },
    }
}

/// The schema of any object.
pub open spec fn object_schema() -> JsonView {
    JsonView::object(seq![("type"@, JsonView::String("object"@))])
}

/// The parameters of the first tool of this name; any object where it states none, and
/// where there is no such tool.
pub open spec fn tool_schema(tools: Seq<JsonView>, name: Seq<char>) -> JsonView
    decreases tools.len(),
{
    if tools.len() == 0 {
        object_schema()
    } else if function_name(tools.first()) == Some(name) {
        match tools.first().at("function"@, "parameters"@) {
            Some(parameters) => parameters,
            None => object_schema(),
        }
    } else {
        tool_schema(tools.drop_first(), name)
    }
}

/// The function that a tool choice wants called, with the schema of its arguments.
pub open spec fn forced_tool_of(choice: Option<JsonView>, tools: Seq<JsonView>) -> Option<
    ForcedToolView,
> {
    match choice {
        Some(choice) => match chosen_name(choice) {
            Some(name) => Some(ForcedToolView { name, schema: tool_schema(tools, name) }),
            None => None,
        },
        None => None,
    }
}

pub open spec fn tool_view(tool: Option<ForcedTool>) -> Option<ForcedToolView> {
    match tool {
        Some(tool) => Some(tool@),
        None => None,
    }
}

fn chosen_function(choice: &Json) -> (r: Option<&str>)
    ensures
        text_view(r) == chosen_name(choice@),
{
    if let Some(name) = choice.text_in("function", "name") {
        return Some(name);
    }
    match choice.as_str() {
        Some(name) if !same_text(name, "auto") && !same_text(name, "none") && !same_text(
            name,
            "required",
        ) => Some(name),
        _ => None,
    }
}

fn any_object() -> (r: Json)
    ensures
        r@ == object_schema(),
{
    let fields: Vec<(&str, Json)> = vec![("type", Json::text("object"))];
    assert(fields_view(fields@) =~= seq![("type"@, JsonView::String("object"@))]);
    Json::object(fields)
}

/// The function that a request wants called, if it wants one.
#[must_use]
pub fn forced_tool(request: &ChatRequest) -> (r: Option<ForcedTool>)
    ensures
        tool_view(r) == forced_tool_of(
            owned_view(request.tool_choice),
            items_view(request.tools@),
        ),
{
    let name: &str = match &request.tool_choice {
        Some(choice) => match chosen_function(choice) {
            Some(name) => name,
            None => return None,
        },
        None => return None,
    };
    let ghost all = items_view(request.tools@);
    let mut i: usize = 0;
    assert(all.skip(0) =~= all);
    while i < request.tools.len()
        invariant
            i <= all.len(),
            all == items_view(request.tools@),
            tool_schema(all, name@) == tool_schema(all.skip(i as int), name@),
            owned_view(request.tool_choice) matches Some(choice) && chosen_name(choice) == Some(name@),
        decreases all.len() - i,
    {
        let tool = &request.tools[i];
        assert(all.skip(i as int).first() == tool@);
        assert(all.skip(i as int).drop_first() =~= all.skip(i + 1));
        if let Some(tool_name) = tool.text_in("function", "name") {
            if same_text(tool_name, name) {
                let schema = match tool.at("function", "parameters") {
                    Some(parameters) => parameters.clone(),
                    None => any_object(),
                };
                return Some(ForcedTool { name: name.to_owned(), schema });
            }
        }
        i = i + 1;
    }
    Some(ForcedTool { name: name.to_owned(), schema: any_object() })
}

/// The schema under `text.format`, in either of its two places.
pub open spec fn output_schema_of(text: Option<JsonView>) -> Option<JsonView> {
    match text {
        Some(text) => match text.at("format"@, "schema"@) {
            Some(schema) => Some(schema),
            None => match text.at("format"@, "json_schema"@) {
                Some(format) => format.get("schema"@),
                None => None,
            },
        },
        None => None,
    }
}

/// The schema that a Responses request wants the output to follow, if it names one.
#[must_use]
pub fn response_output_schema(request: &ResponsesRequest) -> (r: Option<Json>)
    ensures
        owned_view(r) == output_schema_of(owned_view(request.text)),
{
    let text = match &request.text {
        Some(text) => text,
        None => return None,
    };
    if let Some(schema) = text.at("format", "schema") {
        return Some(schema.clone());
    }
    match text.at("format", "json_schema") {
        Some(format) => match format.get("schema") {
            Some(schema) => Some(schema.clone()),
            None => None,
        },
        None => None,
    }
}

/// The text of two contents put together is that of both, on lines of their own, or that of
/// one where the other has none.
pub proof fn law_contents_put_together(a: Seq<JsonView>, b: Seq<JsonView>)
    ensures
        content_text_of(JsonView::Array(a + b)) == joined_pair(
            content_text_of(JsonView::Array(a)),
            content_text_of(JsonView::Array(b)),
            "\n"@,
        ),
{
    lemma_part_texts_of_both(a, b);
    lemma_part_texts_are_not_empty(a);
    lemma_part_texts_are_not_empty(b);
    lemma_joined_lists(part_texts(a), part_texts(b), "\n"@);
}

/// A list of nothing has no text, and a list of one content has the text of that content: how
/// deep a content is nested in lists changes nothing.
pub proof fn law_nesting_changes_nothing(v: JsonView)
    ensures
        content_text_of(JsonView::Array(Seq::empty())) == Seq::<char>::empty(),
        content_text_of(JsonView::Array(seq![v])) == content_text_of(v),
{
    assert(part_texts(Seq::empty()) == Seq::<Seq<char>>::empty());
    lemma_one_part(v);
    assert(content_text_of(JsonView::Array(seq![v])) =~= content_text_of(v));
}

proof fn lemma_one_part(v: JsonView)
    ensures
        part_texts(seq![v]) == if content_text_of(v).len() > 0 {
            seq![content_text_of(v)]
        } else {
            Seq::empty()
        },
{
    let parts = seq![v];
    assert(parts.subrange(0, 0) =~= Seq::empty());
    assert(part_texts(Seq::empty()) == Seq::<Seq<char>>::empty());
    assert(part_texts(parts) =~= if content_text_of(v).len() > 0 {
        seq![content_text_of(v)]
    } else {
        Seq::empty()
    });
}

proof fn lemma_part_texts_of_both(a: Seq<JsonView>, b: Seq<JsonView>)
    ensures
        part_texts(a + b) == part_texts(a) + part_texts(b),
    decreases b.len(),
{
    if b.len() == 0 {
        assert(a + b =~= a);
    } else {
        let last = b.len() - 1;
        assert((a + b).subrange(0, (a + b).len() - 1) =~= a + b.subrange(0, last));
        lemma_part_texts_of_both(a, b.subrange(0, last));
    }
    assert(part_texts(a + b) =~= part_texts(a) + part_texts(b));
}

proof fn lemma_part_texts_are_not_empty(parts: Seq<JsonView>)
    ensures
        none_empty(part_texts(parts)),
    decreases parts.len(),
{
    if parts.len() > 0 {
        lemma_part_texts_are_not_empty(parts.subrange(0, parts.len() - 1));
    }
}

/// The prompt for two lists of messages put together is that for both, with an empty line
/// between, or that for one where the other contributes nothing.
pub proof fn law_prompts_put_together(a: Seq<ChatMessage>, b: Seq<ChatMessage>)
    ensures
        chat_prompt_of(a + b) == joined_pair(chat_prompt_of(a), chat_prompt_of(b), "\n\n"@),
{
    lemma_message_blocks_of_both(a, b);
    lemma_message_blocks_are_not_empty(a);
    lemma_message_blocks_are_not_empty(b);
    lemma_joined_lists(message_blocks(a), message_blocks(b), "\n\n"@);
}

proof fn lemma_message_blocks_of_both(a: Seq<ChatMessage>, b: Seq<ChatMessage>)
    ensures
        message_blocks(a + b) == message_blocks(a) + message_blocks(b),
    decreases b.len(),
{
    if b.len() == 0 {
        assert(a + b =~= a);
    } else {
        assert((a + b).drop_last() =~= a + b.drop_last());
        lemma_message_blocks_of_both(a, b.drop_last());
    }
    assert(message_blocks(a + b) =~= message_blocks(a) + message_blocks(b));
}

proof fn lemma_message_blocks_are_not_empty(messages: Seq<ChatMessage>)
    ensures
        none_empty(message_blocks(messages)),
    decreases messages.len(),
{
    if messages.len() > 0 {
        lemma_message_blocks_are_not_empty(messages.drop_last());
        reveal_strlit("[");
        assert("["@.len() == 1);
    }
}

/// A content of text parts is their texts, a line each.
pub proof fn law_text_parts_are_lines(parts: Seq<JsonView>, texts: Seq<Seq<char>>)
    requires
        parts.len() == texts.len(),
        forall|i: int|
            0 <= i < parts.len() ==> (#[trigger] parts[i]).text_at("text"@) == Some(texts[i])
                && texts[i].len() > 0,
    ensures
        content_text_of(JsonView::Array(parts)) == joined(texts, "\n"@),
{
    lemma_part_texts(parts, texts);
}

proof fn lemma_part_texts(parts: Seq<JsonView>, texts: Seq<Seq<char>>)
    requires
        parts.len() == texts.len(),
        forall|i: int|
            0 <= i < parts.len() ==> (#[trigger] parts[i]).text_at("text"@) == Some(texts[i])
                && texts[i].len() > 0,
    ensures
        part_texts(parts) == texts,
    decreases parts.len(),
{
    if parts.len() > 0 {
        let last = parts.len() - 1;
        let front = parts.subrange(0, last);
        assert forall|i: int| 0 <= i < front.len() implies (#[trigger] front[i]).text_at("text"@) == Some(
            texts.drop_last()[i],
        ) && texts.drop_last()[i].len() > 0 by {
            assert(front[i] == parts[i]);
        }
        lemma_part_texts(front, texts.drop_last());
        assert(parts[last].text_at("text"@) == Some(texts[last]));
        assert(content_text_of(parts[last]) == texts[last]);
        assert(texts.drop_last().push(texts[last]) =~= texts);
    }
    assert(part_texts(parts) =~= texts);
}

/// Of the tools of one name, the first gives the forced function its schema.
pub proof fn law_first_tool_counts(choice: JsonView, tools: Seq<JsonView>, name: Seq<char>, i: int)
    requires
        chosen_name(choice) == Some(name),
        0 <= i < tools.len(),
        function_name(tools[i]) == Some(name),
        forall|j: int| 0 <= j < i ==> function_name(#[trigger] tools[j]) != Some(name),
    ensures
        forced_tool_of(Some(choice), tools) == Some(
            ForcedToolView {
                name,
                schema: match tools[i].at("function"@, "parameters"@) {
                    Some(parameters) => parameters,
                    None => object_schema(),
                },
            },
        ),
    decreases i,
{
    if i > 0 {
        assert(function_name(tools[0]) != Some(name));
        let rest = tools.drop_first();
        assert forall|j: int| 0 <= j < i - 1 implies function_name(#[trigger] rest[j]) != Some(name) by {
            assert(rest[j] == tools[j + 1]);
        }
        law_first_tool_counts(choice, rest, name, i - 1);
    }
}

/// A function that no tool describes may be called with any object.
pub proof fn law_unknown_functions_take_any_object(
    choice: JsonView,
    tools: Seq<JsonView>,
    name: Seq<char>,
)
    requires
        chosen_name(choice) == Some(name),
        forall|j: int| 0 <= j < tools.len() ==> function_name(#[trigger] tools[j]) != Some(name),
    ensures
        forced_tool_of(Some(choice), tools) == Some(
            ForcedToolView { name, schema: object_schema() },
        ),
    decreases tools.len(),
{
    if tools.len() > 0 {
        assert(function_name(tools[0]) != Some(name));
        let rest = tools.drop_first();
        assert forall|j: int| 0 <= j < rest.len() implies function_name(#[trigger] rest[j]) != Some(name) by {
            assert(rest[j] == tools[j + 1]);
        }
        law_unknown_functions_take_any_object(choice, rest, name);
    }
}

} // verus!
