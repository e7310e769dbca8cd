//! Reading the fields of messages and frames, one by one.
use crate::frame::FrameView;
use crate::json::JsonView;
use vstd::prelude::*;

verus! {

/// The last of the first `n` entries under `key`.
pub open spec fn last_under(entries: Seq<(Seq<char>, JsonView)>, key: Seq<char>, n: nat) -> Option<
    JsonView,
>
    decreases n,
{
    if n == 0 {
        None
    } else if entries[n - 1].0 == key {
        Some(entries[n - 1].1)
    } else {
        last_under(entries, key, (n - 1) as nat)
    }
}

/// What an object holds under a key is what the last entry under that key says.
pub broadcast proof fn lemma_object_get(entries: Seq<(Seq<char>, JsonView)>, key: Seq<char>)
    ensures
        #[trigger] JsonView::object(entries).get(key) == last_under(entries, key, entries.len()),
    decreases entries.len(),
{
    if entries.len() > 0 {
        let front = entries.drop_last();
        lemma_object_get(front, key);
        lemma_last_under_prefix(entries, front, key, front.len());
    }
}

proof fn lemma_last_under_prefix(
    entries: Seq<(Seq<char>, JsonView)>,
    front: Seq<(Seq<char>, JsonView)>,
    key: Seq<char>,
    n: nat,
)
    requires
        entries.len() > 0,
        front == entries.drop_last(),
        n <= front.len(),
    ensures
        last_under(front, key, n) == last_under(entries, key, n),
    decreases n,
{
    if n > 0 {
        assert(front[n - 1] == entries[n - 1]);
        lemma_last_under_prefix(entries, front, key, (n - 1) as nat);
    }
}

/// A field that was set reads as it was set, and the others as before.
pub broadcast proof fn lemma_with_get(v: JsonView, key: Seq<char>, value: JsonView, other: Seq<char>)
    requires
        v is Object,
    ensures
        #[trigger] v.with(key, value).get(other) == if other == key {
            Some(value)
        } else {
            v.get(other)
        },
{
}

pub broadcast group group_fields {
    lemma_object_get,
    lemma_with_get,
}

/// The only item of the list under a key.
pub open spec fn only_item(v: JsonView, key: Seq<char>) -> Option<JsonView> {
    match v.get(key) {
        Some(JsonView::Array(items)) => if items.len() == 1 {
            Some(items[0])
        } else {
            None
        },
        _ => None,
    }
}

/// Whether there is an empty list under a key.
pub open spec fn is_empty_list(v: JsonView, key: Seq<char>) -> bool {
    v.get(key) matches Some(JsonView::Array(items)) && items.len() == 0
}

/// Whether there is this text under a key.
pub open spec fn has_text(v: JsonView, key: Seq<char>, text: Seq<char>) -> bool {
    v.get(key) == Some(JsonView::String(text))
}

/// Whether there is this integer under a key.
pub open spec fn has_integer(v: JsonView, key: Seq<char>, n: int) -> bool {
    v.get(key) == Some(JsonView::integer(n))
}

/// Whether there is null under a key.
pub open spec fn has_null(v: JsonView, key: Seq<char>) -> bool {
    v.get(key) == Some(JsonView::Null)
}

/// Whether a value is an object that has exactly the fields of these names.
pub open spec fn fields_are(v: JsonView, names: Set<Seq<char>>) -> bool {
    v is Object && forall|key: Seq<char>| names.contains(key) <==> #[trigger] v.get(key) is Some
}

/// The value that a frame carries; null for the mark that nothing follows.
pub open spec fn data_of(frame: FrameView) -> JsonView {
    match frame {
        FrameView::Data(data) => data,
        FrameView::Event { data, .. } => data,
        FrameView::Done => JsonView::Null,
    }
}

/// Whether a frame is an event of this name.
pub open spec fn is_named(frame: FrameView, event: Seq<char>) -> bool {
    frame matches FrameView::Event { name, .. } && name == event
}

/// How long the names are that occur in messages, and by which letters those of one length
/// differ. So no two of them are equal.
pub proof fn lemma_names()
    ensures
        "id"@.len() == 2,
        "id"@[0] == 'i',
        "ok"@.len() == 2,
        "ok"@[0] == 'o',
        "cwd"@.len() == 3,
        "auto"@.len() == 4,
        "auto"@[0] == 'a',
        "auto"@[1] == 'u',
        "code"@.len() == 4,
        "code"@[0] == 'c',
        "code"@[1] == 'o',
        "data"@.len() == 4,
        "data"@[0] == 'd',
        "data"@[1] == 'a',
        "item"@.len() == 4,
        "item"@[0] == 'i',
        "item"@[1] == 't',
        "list"@.len() == 4,
        "list"@[0] == 'l',
        "list"@[1] == 'i',
        "msg_"@.len() == 4,
        "msg_"@[0] == 'm',
        "msg_"@[1] == 's',
        "name"@.len() == 4,
        "name"@[0] == 'n',
        "name"@[1] == 'a',
        "none"@.len() == 4,
        "none"@[0] == 'n',
        "none"@[1] == 'o',
        "null"@.len() == 4,
        "null"@[0] == 'n',
        "null"@[1] == 'u',
        "part"@.len() == 4,
        "part"@[0] == 'p',
        "part"@[1] == 'a',
        "role"@.len() == 4,
        "role"@[0] == 'r',
        "role"@[1] == 'o',
        "stop"@.len() == 4,
        "stop"@[0] == 's',
        "stop"@[1] == 't',
        "text"@.len() == 4,
        "text"@[0] == 't',
        "text"@[1] == 'e',
        "true"@.len() == 4,
        "true"@[0] == 't',
        "true"@[1] == 'r',
        "turn"@.len() == 4,
        "turn"@[0] == 't',
        "turn"@[1] == 'u',
        "type"@.len() == 4,
        "type"@[0] == 't',
        "type"@[1] == 'y',
        "call_"@.len() == 5,
        "call_"@[0] == 'c',
        "call_"@[2] == 'l',
        "delta"@.len() == 5,
        "delta"@[0] == 'd',
        "delta"@[2] == 'l',
        "error"@.len() == 5,
        "error"@[0] == 'e',
        "error"@[2] == 'r',
        "false"@.len() == 5,
        "false"@[0] == 'f',
        "false"@[2] == 'l',
        "index"@.len() == 5,
        "index"@[0] == 'i',
        "index"@[2] == 'd',
        "input"@.len() == 5,
        "input"@[0] == 'i',
        "input"@[2] == 'p',
        "model"@.len() == 5,
        "model"@[0] == 'm',
        "model"@[2] == 'd',
        "never"@.len() == 5,
        "never"@[0] == 'n',
        "never"@[2] == 'v',
        "resp_"@.len() == 5,
        "resp_"@[0] == 'r',
        "resp_"@[2] == 's',
        "store"@.len() == 5,
        "store"@[0] == 's',
        "store"@[2] == 'o',
        "tools"@.len() == 5,
        "tools"@[0] == 't',
        "tools"@[2] == 'o',
        "top_p"@.len() == 5,
        "top_p"@[0] == 't',
        "top_p"@[2] == 'p',
        "usage"@.len() == 5,
        "usage"@[0] == 'u',
        "usage"@[2] == 'a',
        "denied"@.len() == 6,
        "denied"@[0] == 'd',
        "denied"@[1] == 'e',
        "failed"@.len() == 6,
        "failed"@[0] == 'f',
        "failed"@[1] == 'a',
        "format"@.len() == 6,
        "format"@[0] == 'f',
        "format"@[1] == 'o',
        "method"@.len() == 6,
        "method"@[0] == 'm',
        "method"@[1] == 'e',
        "object"@.len() == 6,
        "object"@[0] == 'o',
        "object"@[1] == 'b',
        "openai"@.len() == 6,
        "openai"@[0] == 'o',
        "openai"@[1] == 'p',
        "output"@.len() == 6,
        "output"@[0] == 'o',
        "output"@[1] == 'u',
        "params"@.len() == 6,
        "params"@[0] == 'p',
        "params"@[1] == 'a',
        "result"@.len() == 6,
        "result"@[0] == 'r',
        "result"@[1] == 'e',
        "schema"@.len() == 6,
        "schema"@[0] == 's',
        "schema"@[1] == 'c',
        "status"@.len() == 6,
        "status"@[0] == 's',
        "status"@[1] == 't',
        "thread"@.len() == 6,
        "thread"@[0] == 't',
        "thread"@[1] == 'h',
        "turnId"@.len() == 6,
        "turnId"@[0] == 't',
        "turnId"@[1] == 'u',
        "answers"@.len() == 7,
        "answers"@[0] == 'a',
        "answers"@[1] == 'n',
        "choices"@.len() == 7,
        "choices"@[0] == 'c',
        "choices"@[1] == 'h',
        "content"@.len() == 7,
        "content"@[0] == 'c',
        "content"@[1] == 'o',
        "created"@.len() == 7,
        "created"@[0] == 'c',
        "created"@[1] == 'r',
        "decline"@.len() == 7,
        "decline"@[0] == 'd',
        "decline"@[1] == 'e',
        "item_id"@.len() == 7,
        "item_id"@[0] == 'i',
        "item_id"@[1] == 't',
        "message"@.len() == 7,
        "message"@[0] == 'm',
        "message"@[1] == 'e',
        "sandbox"@.len() == 7,
        "sandbox"@[0] == 's',
        "sandbox"@[1] == 'a',
        "version"@.len() == 7,
        "version"@[0] == 'v',
        "version"@[1] == 'e',
        "decision"@.len() == 8,
        "decision"@[0] == 'd',
        "decision"@[2] == 'c',
        "disabled"@.len() == 8,
        "disabled"@[0] == 'd',
        "disabled"@[2] == 's',
        "function"@.len() == 8,
        "function"@[0] == 'f',
        "function"@[2] == 'n',
        "metadata"@.len() == 8,
        "metadata"@[0] == 'm',
        "metadata"@[2] == 't',
        "owned_by"@.len() == 8,
        "owned_by"@[0] == 'o',
        "owned_by"@[2] == 'n',
        "required"@.len() == 8,
        "required"@[0] == 'r',
        "required"@[2] == 'q',
        "response"@.len() == 8,
        "response"@[0] == 'r',
        "response"@[2] == 's',
        "threadId"@.len() == 8,
        "threadId"@[0] == 't',
        "threadId"@[2] == 'r',
        "arguments"@.len() == 9,
        "arguments"@[0] == 'a',
        "arguments"@[2] == 'g',
        "assistant"@.len() == 9,
        "assistant"@[0] == 'a',
        "assistant"@[2] == 's',
        "chatcmpl-"@.len() == 9,
        "chatcmpl-"@[0] == 'c',
        "chatcmpl-"@[2] == 'a',
        "completed"@.len() == 9,
        "completed"@[0] == 'c',
        "completed"@[2] == 'm',
        "ephemeral"@.len() == 9,
        "ephemeral"@[0] == 'e',
        "ephemeral"@[2] == 'h',
        "questions"@.len() == 9,
        "questions"@[0] == 'q',
        "questions"@[2] == 'e',
        "read-only"@.len() == 9,
        "read-only"@[0] == 'r',
        "read-only"@[2] == 'a',
        "rejection"@.len() == 9,
        "rejection"@[0] == 'r',
        "rejection"@[2] == 'j',
        "willRetry"@.len() == 9,
        "willRetry"@[0] == 'w',
        "willRetry"@[2] == 'l',
        "clientInfo"@.len() == 10,
        "clientInfo"@[4] == 'n',
        "created_at"@.len() == 10,
        "created_at"@[4] == 't',
        "parameters"@.len() == 10,
        "parameters"@[4] == 'm',
        "tool_calls"@.len() == 10,
        "tool_calls"@[4] == '_',
        "truncation"@.len() == 10,
        "truncation"@[4] == 'c',
        "turn/start"@.len() == 10,
        "turn/start"@[4] == '/',
        "annotations"@.len() == 11,
        "annotations"@[6] == 't',
        "in_progress"@.len() == 11,
        "in_progress"@[6] == 'g',
        "initialized"@.len() == 11,
        "initialized"@[6] == 'l',
        "json_schema"@.len() == 11,
        "json_schema"@[6] == 'c',
        "output_text"@.len() == 11,
        "output_text"@[6] == '_',
        "temperature"@.len() == 11,
        "temperature"@[6] == 'a',
        "tool_choice"@.len() == 11,
        "tool_choice"@[6] == 'h',
        "capabilities"@.len() == 12,
        "capabilities"@[0] == 'c',
        "capabilities"@[6] == 'l',
        "input_tokens"@.len() == 12,
        "input_tokens"@[0] == 'i',
        "input_tokens"@[6] == 't',
        "instructions"@.len() == 12,
        "instructions"@[0] == 'i',
        "instructions"@[6] == 'c',
        "outputSchema"@.len() == 12,
        "outputSchema"@[0] == 'o',
        "outputSchema"@[6] == 'S',
        "output_index"@.len() == 12,
        "output_index"@[0] == 'o',
        "output_index"@[6] == '_',
        "server_error"@.len() == 12,
        "server_error"@[0] == 's',
        "server_error"@[6] == '_',
        "thread/start"@.len() == 12,
        "thread/start"@[0] == 't',
        "thread/start"@[6] == '/',
        "total_tokens"@.len() == 12,
        "total_tokens"@[0] == 't',
        "total_tokens"@[6] == 't',
        "cached_tokens"@.len() == 13,
        "cached_tokens"@[3] == 'h',
        "content_index"@.len() == 13,
        "content_index"@[3] == 't',
        "currentTimeAt"@.len() == 13,
        "currentTimeAt"@[3] == 'r',
        "finish_reason"@.len() == 13,
        "finish_reason"@[3] == 'i',
        "output_tokens"@.len() == 13,
        "output_tokens"@[3] == 'p',
        "prompt_tokens"@.len() == 13,
        "prompt_tokens"@[3] == 'm',
        "approvalPolicy"@.len() == 14,
        "approvalPolicy"@[5] == 'v',
        "turn/completed"@.len() == 14,
        "turn/completed"@[5] == 'c',
        "turn/interrupt"@.len() == 14,
        "turn/interrupt"@[5] == 'i',
        "chat.completion"@.len() == 15,
        "chat.completion"@[0] == 'c',
        "experimentalApi"@.len() == 15,
        "experimentalApi"@[0] == 'e',
        "invalid_api_key"@.len() == 15,
        "invalid_api_key"@[0] == 'i',
        "response.failed"@.len() == 15,
        "response.failed"@[0] == 'r',
        "sequence_number"@.len() == 15,
        "sequence_number"@[0] == 's',
        "workspace-write"@.len() == 15,
        "workspace-write"@[0] == 'w',
        "currentTime/read"@.len() == 16,
        "currentTime/read"@[2] == 'r',
        "reasoning_tokens"@.len() == 16,
        "reasoning_tokens"@[2] == 'a',
        "response.created"@.len() == 16,
        "response.created"@[2] == 's',
        "codex_turn_failed"@.len() == 17,
        "codex_turn_failed"@[2] == 'd',
        "completion_tokens"@.len() == 17,
        "completion_tokens"@[2] == 'm',
        "applyPatchApproval"@.len() == 18,
        "applyPatchApproval"@[0] == 'a',
        "danger-full-access"@.len() == 18,
        "danger-full-access"@[0] == 'd',
        "incomplete_details"@.len() == 18,
        "incomplete_details"@[0] == 'i',
        "response.completed"@.len() == 18,
        "response.completed"@[0] == 'r',
        "execCommandApproval"@.len() == 19,
        "execCommandApproval"@[0] == 'e',
        "parallel_tool_calls"@.len() == 19,
        "parallel_tool_calls"@[0] == 'p',
        "input_tokens_details"@.len() == 20,
        "input_tokens_details"@[0] == 'i',
        "previous_response_id"@.len() == 20,
        "previous_response_id"@[0] == 'p',
        "response.in_progress"@.len() == 20,
        "response.in_progress"@[0] == 'r',
        "chat.completion.chunk"@.len() == 21,
        "chat.completion.chunk"@[0] == 'c',
        "invalid_request_error"@.len() == 21,
        "invalid_request_error"@[0] == 'i',
        "output_tokens_details"@.len() == 21,
        "output_tokens_details"@[0] == 'o',
        "codex-responses-bridge"@.len() == 22,
        "codex-responses-bridge"@[5] == '-',
        "codex_app_server_error"@.len() == 22,
        "codex_app_server_error"@[5] == '_',
        "item/agentMessage/delta"@.len() == 23,
        "response.output_item.done"@.len() == 25,
        "response.output_item.done"@[16] == 'i',
        "response.output_text.done"@.len() == 25,
        "response.output_text.done"@[16] == 't',
        "item/tool/requestUserInput"@.len() == 26,
        "item/tool/requestUserInput"@[17] == 'U',
        "response.content_part.done"@.len() == 26,
        "response.content_part.done"@[17] == 'p',
        "response.output_item.added"@.len() == 26,
        "response.output_item.added"@[17] == 't',
        "response.output_text.delta"@.len() == 26,
        "response.output_text.delta"@[17] == 'e',
        "response.content_part.added"@.len() == 27,
        "item/fileChange/requestApproval"@.len() == 31,
        "item/commandExecution/requestApproval"@.len() == 37,
{
    reveal_strlit("id");
    reveal_strlit("ok");
    reveal_strlit("cwd");
    reveal_strlit("auto");
    reveal_strlit("code");
    reveal_strlit("data");
    reveal_strlit("item");
    reveal_strlit("list");
    reveal_strlit("msg_");
    reveal_strlit("name");
    reveal_strlit("none");
    reveal_strlit("null");
    reveal_strlit("part");
    reveal_strlit("role");
    reveal_strlit("stop");
    reveal_strlit("text");
    reveal_strlit("true");
    reveal_strlit("turn");
    reveal_strlit("type");
    reveal_strlit("call_");
    reveal_strlit("delta");
    reveal_strlit("error");
    reveal_strlit("false");
    reveal_strlit("index");
    reveal_strlit("input");
    reveal_strlit("model");
    reveal_strlit("never");
    reveal_strlit("resp_");
    reveal_strlit("store");
    reveal_strlit("tools");
    reveal_strlit("top_p");
    reveal_strlit("usage");
    reveal_strlit("denied");
    reveal_strlit("failed");
    reveal_strlit("format");
    reveal_strlit("method");
    reveal_strlit("object");
    reveal_strlit("openai");
    reveal_strlit("output");
    reveal_strlit("params");
    reveal_strlit("result");
    reveal_strlit("schema");
    reveal_strlit("status");
    reveal_strlit("thread");
    reveal_strlit("turnId");
    reveal_strlit("answers");
    reveal_strlit("choices");
    reveal_strlit("content");
    reveal_strlit("created");
    reveal_strlit("decline");
    reveal_strlit("item_id");
    reveal_strlit("message");
    reveal_strlit("sandbox");
    reveal_strlit("version");
    reveal_strlit("decision");
    reveal_strlit("disabled");
    reveal_strlit("function");
    reveal_strlit("metadata");
    reveal_strlit("owned_by");
    reveal_strlit("required");
    reveal_strlit("response");
    reveal_strlit("threadId");
    reveal_strlit("arguments");
    reveal_strlit("assistant");
    reveal_strlit("chatcmpl-");
    reveal_strlit("completed");
    reveal_strlit("ephemeral");
    reveal_strlit("questions");
    reveal_strlit("read-only");
    reveal_strlit("rejection");
    reveal_strlit("willRetry");
    reveal_strlit("clientInfo");
    reveal_strlit("created_at");
    reveal_strlit("parameters");
    reveal_strlit("tool_calls");
    reveal_strlit("truncation");
    reveal_strlit("turn/start");
    reveal_strlit("annotations");
    reveal_strlit("in_progress");
    reveal_strlit("initialized");
    reveal_strlit("json_schema");
    reveal_strlit("output_text");
    reveal_strlit("temperature");
    reveal_strlit("tool_choice");
    reveal_strlit("capabilities");
    reveal_strlit("input_tokens");
    reveal_strlit("instructions");
    reveal_strlit("outputSchema");
    reveal_strlit("output_index");
    reveal_strlit("server_error");
    reveal_strlit("thread/start");
    reveal_strlit("total_tokens");
    reveal_strlit("cached_tokens");
    reveal_strlit("content_index");
    reveal_strlit("currentTimeAt");
    reveal_strlit("finish_reason");
    reveal_strlit("output_tokens");
    reveal_strlit("prompt_tokens");
    reveal_strlit("approvalPolicy");
    reveal_strlit("turn/completed");
    reveal_strlit("turn/interrupt");
    reveal_strlit("chat.completion");
    reveal_strlit("experimentalApi");
    reveal_strlit("invalid_api_key");
    reveal_strlit("response.failed");
    reveal_strlit("sequence_number");
    reveal_strlit("workspace-write");
    reveal_strlit("currentTime/read");
    reveal_strlit("reasoning_tokens");
    reveal_strlit("response.created");
    reveal_strlit("codex_turn_failed");
    reveal_strlit("completion_tokens");
    reveal_strlit("applyPatchApproval");
    reveal_strlit("danger-full-access");
    reveal_strlit("incomplete_details");
    reveal_strlit("response.completed");
    reveal_strlit("execCommandApproval");
    reveal_strlit("parallel_tool_calls");
    reveal_strlit("input_tokens_details");
    reveal_strlit("previous_response_id");
    reveal_strlit("response.in_progress");
    reveal_strlit("chat.completion.chunk");
    reveal_strlit("invalid_request_error");
    reveal_strlit("output_tokens_details");
    reveal_strlit("codex-responses-bridge");
    reveal_strlit("codex_app_server_error");
    reveal_strlit("item/agentMessage/delta");
    reveal_strlit("response.output_item.done");
    reveal_strlit("response.output_text.done");
    reveal_strlit("item/tool/requestUserInput");
    reveal_strlit("response.content_part.done");
    reveal_strlit("response.output_item.added");
    reveal_strlit("response.output_text.delta");
    reveal_strlit("response.content_part.added");
    reveal_strlit("item/fileChange/requestApproval");
    reveal_strlit("item/commandExecution/requestApproval");
}

} // verus!
