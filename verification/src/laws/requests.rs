//! What becomes of requests.
use crate::api::{chat_plan, model_list, responses_plan};
use crate::auth::{is_authenticated, is_visible_ascii, is_visible_text};
use crate::codec::json_text;
use crate::config::{Config, ConfigError, Directory, ListenAddress};
use crate::fields::{
    fields_are, group_fields, has_integer, has_text, last_under, lemma_names, only_item,
};
use crate::ident::{is_fresh_id, is_hex_digit, time_since_epoch, unix_seconds, whole_seconds};
use crate::json::{JsonView, NumberView, items_view, owned_view};
use crate::text::{is_blank_text, is_white_space};
use crate::translate::{
    ChatMessage, ChatRequest, ResponsesRequest, chat_prompt_of, content_text_of, forced_tool_of,
    message_blocks, output_schema_of, responses_prompt_of, string_view,
};
use vstd::prelude::*;
use vstd::utf8::{encode_utf8, is_ascii_chars_encode_utf8};

verus! {

broadcast use group_fields;

/// A text content is itself, nothing is nothing, and a number or a truth value is written
/// out.
pub proof fn law_plain_contents(text: Seq<char>, n: NumberView, b: bool)
    ensures
        content_text_of(JsonView::String(text)) == text,
        content_text_of(JsonView::Null) == Seq::<char>::empty(),
        content_text_of(JsonView::Number(n)) == json_text(JsonView::Number(n)),
        content_text_of(JsonView::Bool(b)) == json_text(JsonView::Bool(b)),
{
}

/// Of an object the `text` counts, where it is one; else the text of its `content`, under its
/// `role` where both are there; else nothing.
pub proof fn law_object_contents(v: JsonView, content: JsonView, role: Seq<char>)
    requires
        v is Object,
    ensures
        v.get("text"@) matches Some(JsonView::String(text)) ==> content_text_of(v) == text,
        !(v.get("text"@) matches Some(JsonView::String(_))) ==> {
            &&& v.get("content"@) is None ==> content_text_of(v) == Seq::<char>::empty()
            &&& v.get("content"@) == Some(content) ==> {
                let text = content_text_of(content);
                &&& v.get("role"@) == Some(JsonView::String(role)) && text.len() > 0
                    ==> content_text_of(v) == "["@ + role + "]\n"@ + text
                &&& !(v.get("role"@) matches Some(JsonView::String(_))) || text.len() == 0
                    ==> content_text_of(v) == text
            }
        },
{
}

/// The prompt for no message is empty. The prompt for a message with content is its role in
/// brackets and its text below; then, exactly where it has tool calls and whatever its text
/// is, all of them in JSON; then, exactly where it answers a tool call, the identifier of
/// that. A message without content, or with neither text nor tool calls, gives none.
pub proof fn law_prompt_of_a_message(m: ChatMessage, content: JsonView)
    ensures
        chat_prompt_of(Seq::empty()) == Seq::<char>::empty(),
        m.content is None ==> chat_prompt_of(seq![m]) == Seq::<char>::empty(),
        owned_view(m.content) == Some(content) ==> {
            let text = content_text_of(content);
            let calls = items_view(m.tool_calls@);
            &&& text.len() == 0 && calls.len() == 0 ==> chat_prompt_of(seq![m])
                == Seq::<char>::empty()
            &&& text.len() > 0 || calls.len() > 0 ==> chat_prompt_of(seq![m]) == "["@ + m.role@
                + "]\n"@ + text + (if calls.len() > 0 {
                "\nTool calls: "@ + json_text(JsonView::Array(calls))
            } else {
                Seq::empty()
            }) + (match m.tool_call_id {
                Some(id) => "\nTool call id: "@ + id@,
                None => Seq::empty(),
            })
        },
{
    let one = seq![m];
    assert(one.drop_last() =~= Seq::empty());
    assert(message_blocks(Seq::empty()) == Seq::<Seq<char>>::empty());
    assert(message_blocks(one.drop_last()) == Seq::<Seq<char>>::empty());
}

/// Instructions stand before the input, whatever the input is; empty ones change nothing, and
/// without any the prompt is the text of the input.
pub proof fn law_instructions(input: JsonView, instructions: Seq<char>)
    ensures
        instructions.len() > 0 ==> responses_prompt_of(input, Some(instructions))
            == "[instructions]\n"@ + instructions + "\n\n[input]\n"@ + responses_prompt_of(input, None),
        instructions.len() == 0 ==> responses_prompt_of(input, Some(instructions))
            == responses_prompt_of(input, None),
        responses_prompt_of(input, None) == content_text_of(input),
{
}

/// The name that a tool or a tool choice gives a function.
pub open spec fn names(v: JsonView, name: Seq<char>) -> bool {
    v.get("function"@) matches Some(function) && has_text(function, "name"@, name)
}

/// A function is forced by a choice that names it, in an object or as a bare text, but for
/// the three words that name none; without a choice, and by any other, none is forced.
pub proof fn law_forced_functions(choice: JsonView, tools: Seq<JsonView>, name: Seq<char>)
    ensures
        forced_tool_of(None, tools) is None,
        names(choice, name) ==> (forced_tool_of(Some(choice), tools) matches Some(tool)
            && tool.name == name),
        choice == JsonView::String(name) && name != "auto"@ && name != "none"@ && name
            != "required"@ ==> (forced_tool_of(Some(choice), tools) matches Some(tool) && tool.name
            == name),
        choice == JsonView::String("auto"@) || choice == JsonView::String("none"@) || choice
            == JsonView::String("required"@) ==> forced_tool_of(Some(choice), tools) is None,
        !(choice is String) && (forall|other: Seq<char>| !names(choice, other)) ==> forced_tool_of(
            Some(choice),
            tools,
        ) is None,
{
    if !(choice is String) && (forall|other: Seq<char>| !names(choice, other)) {
        if choice.text_in("function"@, "name"@) is Some {
            assert(names(choice, choice.text_in("function"@, "name"@)->0));
        }
    }
}

/// The schema of a forced function is the parameters of the first tool of its name; any
/// object where that states none, or where there is no such tool.
pub proof fn law_forced_schemas(choice: JsonView, tools: Seq<JsonView>, i: int)
    requires
        forced_tool_of(Some(choice), tools) is Some,
        0 <= i <= tools.len(),
        forall|j: int|
            0 <= j < i ==> !names(#[trigger] tools[j], forced_tool_of(Some(choice), tools)->0.name),
        i < tools.len() ==> names(tools[i], forced_tool_of(Some(choice), tools)->0.name),
    ensures
        ({
            let schema = forced_tool_of(Some(choice), tools)->0.schema;
            let stated = if i < tools.len() {
                tools[i].get("function"@)->0.get("parameters"@)
            } else {
                None
            };
            match stated {
                Some(parameters) => schema == parameters,
                None => fields_are(schema, set!["type"@]) && has_text(schema, "type"@, "object"@),
            }
        }),
    decreases i,
{
    reveal_with_fuel(last_under, 3);
    lemma_names();
    let name = forced_tool_of(Some(choice), tools)->0.name;
    if i > 0 {
        assert(!names(tools[0], name));
        let rest = tools.drop_first();
        assert(tools.first() == tools[0]);
        assert forall|j: int| 0 <= j < i - 1 implies !names(#[trigger] rest[j], name) by {
            assert(rest[j] == tools[j + 1]);
        }
        if i < tools.len() {
            assert(rest[i - 1] == tools[i]);
        }
        law_forced_schemas(choice, rest, i - 1);
    } else if tools.len() > 0 {
        assert(tools.first() == tools[0]);
    }
}

/// The schema of a Responses request stands under `text.format`, or under `json_schema`
/// there; the first of the two counts.
pub proof fn law_output_schemas(text: JsonView, format: JsonView)
    ensures
        output_schema_of(None) is None,
        text.get("format"@) is None ==> output_schema_of(Some(text)) is None,
        text.get("format"@) == Some(format) ==> {
            &&& format.get("schema"@) is Some ==> output_schema_of(Some(text)) == format.get(
                "schema"@,
            )
            &&& format.get("schema"@) is None && format.get("json_schema"@) is None
                ==> output_schema_of(Some(text)) is None
            &&& format.get("schema"@) is None ==> (format.get("json_schema"@) matches Some(inner)
                ==> output_schema_of(Some(text)) == inner.get("schema"@))
        },
{
}

/// Whether a text has something besides white space.
pub open spec fn has_visible_char(text: Seq<char>) -> bool {
    exists|i: int| 0 <= i < text.len() && !is_white_space(#[trigger] text[i])
}

/// A client that is let in gets a turn exactly where its messages give a prompt that is not
/// blank. The turn has that prompt, and the schema of the forced function, where one is
/// forced, and none else. Otherwise the request is at fault.
pub proof fn law_chat_turns(config: Config, authorization: Option<Seq<u8>>, request: ChatRequest)
    requires
        is_authenticated(config, authorization),
    ensures
        ({
            let prompt = chat_prompt_of(request.messages@);
            let forced = forced_tool_of(owned_view(request.tool_choice), items_view(request.tools@));
            let plan = chat_plan(config, authorization, request);
            &&& plan is Ok <==> has_visible_char(prompt)
            &&& plan matches Ok(plan) ==> plan.prompt == prompt && plan.forced == forced && match forced {
                Some(tool) => plan.output_schema == Some(tool.schema),
                None => plan.output_schema is None,
            }
            &&& plan matches Err(error) ==> error.status == 400 && error.message
                == "messages did not contain text"@ && error.code == "invalid_request_error"@
        }),
{
    lemma_blank(chat_prompt_of(request.messages@));
}

/// The same for the Responses API: a turn exactly where the input gives a prompt that is not
/// blank, with that prompt and the schema that the request states.
pub proof fn law_responses_turns(
    config: Config,
    authorization: Option<Seq<u8>>,
    request: ResponsesRequest,
)
    requires
        is_authenticated(config, authorization),
    ensures
        ({
            let prompt = responses_prompt_of(request.input@, string_view(request.instructions));
            let plan = responses_plan(config, authorization, request);
            &&& plan is Ok <==> has_visible_char(prompt)
            &&& plan matches Ok(plan) ==> plan.prompt == prompt && plan.forced is None
                && plan.output_schema == output_schema_of(owned_view(request.text))
            &&& plan matches Err(error) ==> error.status == 400 && error.message
                == "input did not contain text"@ && error.code == "invalid_request_error"@
        }),
{
    lemma_blank(responses_prompt_of(request.input@, string_view(request.instructions)));
}

proof fn lemma_blank(text: Seq<char>)
    ensures
        is_blank_text(text) <==> !has_visible_char(text),
{
}

/// A client that is not let in is told so, whatever it sends.
pub proof fn law_refused_clients(
    config: Config,
    authorization: Option<Seq<u8>>,
    chat: ChatRequest,
    responses: ResponsesRequest,
)
    requires
        !is_authenticated(config, authorization),
    ensures
        chat_plan(config, authorization, chat) matches Err(error) && error.status == 401
            && error.code == "invalid_api_key"@,
        responses_plan(config, authorization, responses) matches Err(error) && error.status == 401
            && error.code == "invalid_api_key"@,
{
}

/// The list of models holds the one that is advertised.
pub proof fn law_models(model: Seq<char>)
    ensures
        ({
            let list = model_list(model);
            &&& fields_are(list, set!["object"@, "data"@])
            &&& has_text(list, "object"@, "list"@)
            &&& only_item(list, "data"@) matches Some(item) && fields_are(
                item,
                set!["id"@, "object"@, "created"@, "owned_by"@],
            ) && has_text(item, "id"@, model) && has_text(item, "object"@, "model"@) && has_integer(
                item,
                "created"@,
                0,
            ) && has_text(item, "owned_by"@, "openai"@)
        }),
{
    reveal_with_fuel(last_under, 6);
    lemma_names();
}

/// Whether a header is readable: visible ASCII characters, spaces and tabs alone.
pub open spec fn is_readable(header: Seq<u8>) -> bool {
    forall|i: int| 0 <= i < header.len() ==> 32 <= #[trigger] header[i] <= 126 || header[i] == 9
}

/// The word `Bearer` and a space.
pub open spec fn bearer() -> Seq<u8> {
    seq![66u8, 101u8, 97u8, 114u8, 101u8, 114u8, 32u8]
}

/// With authentication, a configured key lets in exactly the requests with a readable header
/// that is the word `Bearer`, a space and the key; without a key to show, those that show
/// none. Without authentication every request is let in.
pub proof fn law_bearer_tokens(config: Config, header: Option<Seq<u8>>)
    ensures
        config.no_auth ==> is_authenticated(config, header),
        !config.no_auth ==> (config.api_key matches Some(key) ==> (encode_utf8(key@).len() > 0 ==> (
        is_authenticated(config, header) <==> (header matches Some(bytes) && is_readable(bytes)
            && bytes == bearer() + encode_utf8(key@))))),
        !config.no_auth && (config.api_key matches Some(key) ==> encode_utf8(key@).len() == 0) ==> (
        is_authenticated(config, header) <==> !(header matches Some(bytes) && is_readable(bytes)
            && bearer().is_prefix_of(bytes) && bytes.len() > bearer().len())),
{
    reveal_strlit("Bearer ");
    is_ascii_chars_encode_utf8("Bearer "@);
    let scheme = encode_utf8("Bearer "@);
    assert(scheme =~= bearer());
    if let Some(key) = config.api_key {
        if encode_utf8(key@).len() == 0 {
            assert(encode_utf8(key@) =~= Seq::empty());
        }
    }
    if let Some(bytes) = header {
        if scheme.is_prefix_of(bytes) {
            if bytes.len() == scheme.len() {
                assert(bytes.skip(scheme.len() as int) =~= Seq::empty());
            }
            assert(bytes =~= scheme + bytes.skip(scheme.len() as int));
        }
        if let Some(key) = config.api_key {
            let whole = scheme + encode_utf8(key@);
            assert(whole.skip(scheme.len() as int) =~= encode_utf8(key@));
            assert(scheme.is_prefix_of(whole));
        }
        assert(is_visible_text(bytes) <==> is_readable(bytes)) by {
            if is_visible_text(bytes) {
                assert forall|i: int| 0 <= i < bytes.len() implies 32 <= #[trigger] bytes[i] <= 126
                    || bytes[i] == 9 by {
                    assert(is_visible_ascii(bytes[i]));
                }
            }
        }
    }
}

/// Validation, setting by setting: what each error says, in the order in which they count,
/// and that nothing but the working directory changes.
pub proof fn law_validation(config: Config, current_dir: Result<Directory, String>)
    ensures
        ({
            let keyless = match config.api_key {
                Some(key) => key@.len() == 0,
                None => true,
            };
            let local = match config.listen {
                ListenAddress::V4 { octets, .. } => octets@[0] == 127,
                ListenAddress::V6 { segments, .. } => segments@[7] == 1 && forall|i: int|
                    0 <= i < 7 ==> #[trigger] segments@[i] == 0,
            };
            let guarded = if config.no_auth {
                local
            } else {
                !keyless
            };
            let outcome = config.validation(current_dir);
            &&& outcome == Err::<Config, ConfigError>(ConfigError::MissingApiKey) <==> !config.no_auth
                && keyless
            &&& outcome == Err::<Config, ConfigError>(ConfigError::NoAuthOnNonLoopback)
                <==> config.no_auth && !local
            &&& guarded ==> match (config.cwd, current_dir) {
                (None, Err(reason)) => outcome == Err::<Config, ConfigError>(
                    ConfigError::CurrentDir(reason),
                ),
                (None, Ok(dir)) => settles_on(config, outcome, dir),
                (Some(dir), _) => settles_on(config, outcome, dir),
            }
        }),
{
    if let ListenAddress::V6 { segments, .. } = config.listen {
        let one = seq![0u16, 0u16, 0u16, 0u16, 0u16, 0u16, 0u16, 1u16];
        if segments@[7] == 1 && forall|i: int| 0 <= i < 7 ==> #[trigger] segments@[i] == 0 {
            assert(segments@ =~= one);
        } else if segments@ == one {
            assert(one[7] == 1u16);
            assert forall|i: int| 0 <= i < 7 implies #[trigger] segments@[i] == 0 by {
                assert(one[i] == 0u16);
            }
        }
    }
}

/// Whether a validation comes out with this working directory, if it is one: everything else
/// is as it was.
pub open spec fn settles_on(
    config: Config,
    outcome: Result<Config, ConfigError>,
    dir: Directory,
) -> bool {
    if dir.is_absolute && dir.is_dir {
        outcome matches Ok(valid) && valid.cwd == Some(dir) && valid.listen == config.listen
            && valid.api_key == config.api_key && valid.no_auth == config.no_auth && valid.codex_bin
            == config.codex_bin && valid.codex_model == config.codex_model && valid.exposed_model
            == config.exposed_model && valid.sandbox == config.sandbox && valid.timeout_secs
            == config.timeout_secs
    } else {
        outcome == Err::<Config, ConfigError>(ConfigError::InvalidCwd(dir.path))
    }
}

/// What is wrong with the settings is said, and an invalid working directory named.
pub proof fn law_configuration_failures(path: String, reason: String)
    ensures
        ConfigError::InvalidCwd(path).message_text()
            == "CODEX_BRIDGE_CWD must be an existing absolute directory: "@ + path@,
        ConfigError::CurrentDir(reason).message_text() == "cannot determine current directory"@,
        ConfigError::MissingApiKey.message_text()
            == "CODEX_BRIDGE_API_KEY is required; use --no-auth only for a loopback-only server"@,
        ConfigError::NoAuthOnNonLoopback.message_text()
            == "--no-auth may only be used with a loopback listen address"@,
        ConfigError::MissingCwd.message_text() == "working directory was not initialized"@,
{
}

/// A fresh identifier is its prefix and a random UUID: 32 hexadecimal digits, of which the
/// thirteenth is a four and the seventeenth one of four.
pub proof fn law_fresh_identifiers(prefix: Seq<char>, id: Seq<char>)
    requires
        is_fresh_id(prefix, id),
    ensures
        id.len() == prefix.len() + 32,
        forall|i: int| 0 <= i < prefix.len() ==> id[i] == prefix[i],
        forall|i: int|
            prefix.len() <= i < id.len() ==> '0' <= #[trigger] id[i] <= '9' || 'a' <= id[i] <= 'f',
        id[prefix.len() as int + 12] == '4',
        id[prefix.len() as int + 16] == '8' || id[prefix.len() as int + 16] == '9'
            || id[prefix.len() as int + 16] == 'a' || id[prefix.len() as int + 16] == 'b',
{
    let uuid = id.skip(prefix.len() as int);
    let head = id.take(prefix.len() as int);
    assert forall|i: int| 0 <= i < prefix.len() implies id[i] == prefix[i] by {
        assert(head[i] == id[i]);
    }
    assert forall|i: int| prefix.len() <= i < id.len() implies '0' <= #[trigger] id[i] <= '9' || 'a'
        <= id[i] <= 'f' by {
        assert(uuid[i - prefix.len()] == id[i]);
        assert(is_hex_digit(uuid[i - prefix.len()]));
    }
    assert(uuid[12] == id[prefix.len() as int + 12]);
    assert(uuid[16] == id[prefix.len() as int + 16]);
}

/// A reading of the clock counts in whole seconds from the Unix epoch, and as zero before it.
pub proof fn law_clock_readings(t: std::time::SystemTime, d: std::time::Duration)
    ensures
        time_since_epoch(t) == Some(d) ==> unix_seconds(t) == whole_seconds(d),
        time_since_epoch(t) is None ==> unix_seconds(t) == 0,
{
}

} // verus!
