use codex_gateway::codec::{parse, to_text};
use codex_gateway::json::Json;
use codex_gateway::translate::{
    ChatMessage, ChatRequest, ResponsesRequest, chat_prompt, forced_tool, response_output_schema,
    responses_prompt,
};

fn json(text: &str) -> Json {
    parse(text).unwrap()
}

fn message(role: &str, content: &str) -> ChatMessage {
    ChatMessage {
        role: role.to_owned(),
        content: Some(json(content)),
        tool_calls: Vec::new(),
        tool_call_id: None,
    }
}

fn chat(messages: Vec<ChatMessage>) -> ChatRequest {
    ChatRequest {
        model: "codex".to_owned(),
        messages,
        stream: false,
        tools: Vec::new(),
        tool_choice: None,
    }
}

fn forced(choice: &str, tools: Vec<&str>) -> Option<(String, String)> {
    let mut request = chat(vec![message("user", "\"name this\"")]);
    request.tools = tools.into_iter().map(json).collect();
    request.tool_choice = Some(json(choice));
    forced_tool(&request).map(|tool| (tool.name, to_text(&tool.schema)))
}

fn responses(input: &str, instructions: Option<&str>, text: Option<&str>) -> ResponsesRequest {
    ResponsesRequest {
        model: "codex".to_owned(),
        input: json(input),
        instructions: instructions.map(str::to_owned),
        stream: false,
        text: text.map(json),
    }
}

#[test]
fn extracts_forced_function_schema() {
    let request = ChatRequest {
        model: "codex".to_owned(),
        messages: vec![message("user", "\"name this\"")],
        stream: false,
        tools: vec![json(
            r#"{
                "type": "function",
                "function": {
                    "name": "session_title",
                    "parameters": {"type": "object", "required": ["title"]}
                }
            }"#,
        )],
        tool_choice: Some(json(
            r#"{"type": "function", "function": {"name": "session_title"}}"#,
        )),
    };
    let tool = forced_tool(&request).unwrap();
    assert_eq!(tool.name, "session_title");
    match tool.schema.get("required") {
        Some(Json::Array(required)) => assert_eq!(required[0].as_str(), Some("title")),
        other => panic!("{other:?}"),
    }
}

#[test]
fn flattens_content_blocks() {
    let request = responses(
        r#"[{"role": "user", "content": [{"type": "input_text", "text": "hello"}]}]"#,
        Some("Be terse"),
        None,
    );
    assert!(responses_prompt(&request).contains("hello"));
    assert_eq!(
        responses_prompt(&request),
        "[instructions]\nBe terse\n\n[input]\n[user]\nhello"
    );
}

#[test]
fn prompt_of_one_message() {
    assert_eq!(chat_prompt(&chat(vec![message("user", "\"hi\"")])), "[user]\nhi");
    assert_eq!(chat_prompt(&chat(Vec::new())), "");
}

#[test]
fn prompt_separates_messages_by_an_empty_line() {
    let request = chat(vec![
        message("system", "\"be terse\""),
        message("user", "[\"a\", {\"text\": \"b\"}, null, \"\"]"),
    ]);
    assert_eq!(chat_prompt(&request), "[system]\nbe terse\n\n[user]\na\nb");
}

#[test]
fn prompt_skips_messages_without_text() {
    let mut silent = message("assistant", "\"\"");
    silent.content = None;
    silent.tool_calls = vec![json("{\"id\": \"c1\"}")];
    let request = chat(vec![silent, message("user", "\"\""), message("user", "\"x\"")]);
    assert_eq!(chat_prompt(&request), "[user]\nx");
}

#[test]
fn prompt_keeps_tool_calls_and_their_identifiers() {
    let mut call = message("assistant", "\"\"");
    call.tool_calls = vec![json("{\"id\": \"c1\", \"b\": true}"), json("1.5")];
    let mut result = message("tool", "\"done\"");
    result.tool_call_id = Some("c1".to_owned());
    assert_eq!(
        chat_prompt(&chat(vec![call, result])),
        "[assistant]\n\nTool calls: [{\"b\":true,\"id\":\"c1\"},1.5]\n\n[tool]\ndone\nTool call id: c1"
    );
}

#[test]
fn content_of_other_kinds_is_written_out() {
    let prompt = |content: &str| chat_prompt(&chat(vec![message("user", content)]));
    assert_eq!(prompt("7"), "[user]\n7");
    assert_eq!(prompt("false"), "[user]\nfalse");
    assert_eq!(prompt("null"), "");
    assert_eq!(prompt("{\"image\": \"x\"}"), "");
    assert_eq!(prompt("{\"text\": 1, \"content\": \"inner\"}"), "[user]\ninner");
    assert_eq!(
        prompt("{\"role\": \"user\", \"content\": [\"a\", 2]}"),
        "[user]\n[user]\na\n2"
    );
    assert_eq!(prompt("{\"role\": \"user\", \"content\": \"\"}"), "");
}

#[test]
fn text_parts_are_lines() {
    assert_eq!(
        responses_prompt(&responses("[{\"text\": \"one\"}, {\"text\": \"two\"}]", None, None)),
        "one\ntwo"
    );
}

#[test]
fn contents_are_put_together_line_by_line() {
    let text = |input: &str| responses_prompt(&responses(input, None, None));
    assert_eq!(text("[\"a\", {\"content\": [\"b\", 3]}]"), "a\nb\n3");
    assert_eq!(text("[[\"a\", null], [], [[\"b\"], 3]]"), "a\nb\n3");
    assert_eq!(text("[[[\"a\"]]]"), "a");
    assert_eq!(text("[]"), "");
}

#[test]
fn empty_instructions_are_left_out() {
    assert_eq!(responses_prompt(&responses("\"x\"", Some(""), None)), "x");
    assert_eq!(responses_prompt(&responses("\"x\"", None, None)), "x");
}

#[test]
fn tool_choice_words_force_nothing() {
    assert_eq!(forced("\"auto\"", vec![]), None);
    assert_eq!(forced("\"none\"", vec![]), None);
    assert_eq!(forced("\"required\"", vec![]), None);
    assert_eq!(forced("{\"type\": \"function\"}", vec![]), None);
    assert_eq!(forced("3", vec![]), None);
    assert!(forced_tool(&chat(Vec::new())).is_none());
}

#[test]
fn tool_choice_may_be_a_name() {
    assert_eq!(
        forced("\"f\"", vec!["{\"function\": {\"name\": \"f\", \"parameters\": {\"a\": 1}}}"]),
        Some(("f".to_owned(), "{\"a\":1}".to_owned()))
    );
}

#[test]
fn first_tool_of_the_name_counts() {
    let tools = vec![
        "{\"function\": {\"name\": \"g\", \"parameters\": 0}}",
        "{\"function\": {\"name\": \"f\", \"parameters\": 1}}",
        "{\"function\": {\"name\": \"f\", \"parameters\": 2}}",
    ];
    assert_eq!(
        forced("{\"function\": {\"name\": \"f\"}}", tools),
        Some(("f".to_owned(), "1".to_owned()))
    );
    let first_without_parameters = vec![
        "{\"function\": {\"name\": \"f\"}}",
        "{\"function\": {\"name\": \"f\", \"parameters\": 2}}",
    ];
    assert_eq!(
        forced("\"f\"", first_without_parameters),
        Some(("f".to_owned(), "{\"type\":\"object\"}".to_owned()))
    );
}

#[test]
fn unknown_functions_take_any_object() {
    assert_eq!(
        forced("\"f\"", vec!["{\"function\": {\"name\": \"g\", \"parameters\": 0}}"]),
        Some(("f".to_owned(), "{\"type\":\"object\"}".to_owned()))
    );
}

#[test]
fn output_schema_has_two_places() {
    let schema = |text: Option<&str>| {
        response_output_schema(&responses("\"x\"", None, text)).map(|schema| to_text(&schema))
    };
    assert_eq!(schema(None), None);
    assert_eq!(schema(Some("{\"format\": {\"type\": \"text\"}}")), None);
    assert_eq!(
        schema(Some("{\"format\": {\"schema\": {\"a\": 1}, \"json_schema\": {\"schema\": 2}}}")),
        Some("{\"a\":1}".to_owned())
    );
    assert_eq!(
        schema(Some("{\"format\": {\"json_schema\": {\"schema\": 2}}}")),
        Some("2".to_owned())
    );
}
