//! The HTTP API: what each route does with a request before and after its Codex turn.
use crate::auth::{authenticate, bytes_view, is_authenticated};
use crate::config::Config;
use crate::error::{ApiError, ApiErrorView};
use crate::json::{
    Json, JsonView, field, field_view, fields_view, items_view, one, owned_view, single,
};
use crate::text::{is_blank, is_blank_text};
use crate::translate::{
    ChatRequest, ForcedTool, ForcedToolView, ResponsesRequest, chat_prompt, chat_prompt_of,
    forced_tool, forced_tool_of, output_schema_of, response_output_schema, responses_prompt,
    responses_prompt_of, string_view, tool_view,
};
use vstd::prelude::*;

verus! {

/// The turn that a request asks of Codex.
#[derive(Debug)]
pub struct TurnPlan {
    pub prompt: String,
    /// The schema that the output has to follow.
    pub output_schema: Option<Json>,
    /// The function whose arguments the output is.
    pub forced: Option<ForcedTool>,
}

/// The content of a [`TurnPlan`].
#[verifier::ext_equal]
pub struct TurnPlanView {
    pub prompt: Seq<char>,
    pub output_schema: Option<JsonView>,
    pub forced: Option<ForcedToolView>,
}

impl View for TurnPlan {
    type V = TurnPlanView;

    open spec fn view(&self) -> TurnPlanView {
        TurnPlanView {
            prompt: self.prompt@,
            output_schema: owned_view(self.output_schema),
            forced: tool_view(self.forced),
        }
    }
}

/// The content of an answer of the API.
pub open spec fn plan_view(plan: Result<TurnPlan, ApiError>) -> Result<TurnPlanView, ApiErrorView> {
    match plan {
        Ok(plan) => Ok(plan@),
        Err(error) => Err(error@),
    }
}

/// The content of an answer of the API.
pub open spec fn body_view(body: Result<Json, ApiError>) -> Result<JsonView, ApiErrorView> {
    match body {
        Ok(body) => Ok(body@),
        Err(error) => Err(error@),
    }
}

/// The body of `GET /healthz`.
pub fn health() -> (r: Json)
    ensures
        r@ == field_view("status"@, JsonView::String("ok"@)),
{
    field("status", Json::text("ok"))
}

/// The list of the one model that is advertised.
pub open spec fn model_list(model: Seq<char>) -> JsonView {
    JsonView::object(
        seq![
            ("object"@, JsonView::String("list"@)),
            (
                "data"@,
                single(
                    JsonView::object(
                        seq![
                            ("id"@, JsonView::String(model)),
                            ("object"@, JsonView::String("model"@)),
                            ("created"@, JsonView::integer(0)),
                            ("owned_by"@, JsonView::String("openai"@)),
                        ],
                    ),
                ),
            ),
        ],
    )
}

/// The answer to `GET /v1/models`.
pub fn models(config: &Config, authorization: Option<&[u8]>) -> (r: Result<Json, ApiError>)
    ensures
        body_view(r) == if is_authenticated(*config, bytes_view(authorization)) {
            Ok::<JsonView, ApiErrorView>(model_list(config.exposed_model@))
        } else {
            Err(ApiErrorView::unauthorized())
        },
{
    if let Err(error) = authenticate(config, authorization) {
        return Err(error);
    }
    let model: Vec<(&str, Json)> = vec![
        ("id", Json::text(config.exposed_model.as_str())),
        ("object", Json::text("model")),
        ("created", Json::unsigned(0)),
        ("owned_by", Json::text("openai")),
    ];
    assert(fields_view(model@) =~= seq![
        ("id"@, JsonView::String(config.exposed_model@)),
        ("object"@, JsonView::String("model"@)),
        ("created"@, JsonView::integer(0)),
        ("owned_by"@, JsonView::String("openai"@)),
    ]);
    let data = one(Json::object(model));
    let fields: Vec<(&str, Json)> = vec![("object", Json::text("list")), ("data", data)];
    assert(fields_view(fields@) =~= seq![
        ("object"@, JsonView::String("list"@)),
        ("data"@, data@),
    ]);
    Ok(Json::object(fields))
}

/// The turn for a Chat Completions request, if the client may have one and its messages
/// contain text.
pub open spec fn chat_plan(
    config: Config,
    authorization: Option<Seq<u8>>,
    request: ChatRequest,
) -> Result<TurnPlanView, ApiErrorView> {
    let prompt = chat_prompt_of(request.messages@);
    if !is_authenticated(config, authorization) {
        Err(ApiErrorView::unauthorized())
    } else if is_blank_text(prompt) {
        Err(ApiErrorView::bad_request("messages did not contain text"@))
    } else {
        let forced = forced_tool_of(owned_view(request.tool_choice), items_view(request.tools@));
        Ok(
            TurnPlanView {
                prompt,
                output_schema: match forced {
                    Some(tool) => Some(tool.schema),
                    None => None,
                },
                forced,
            },
        )
    }
}

/// The turn for `POST /v1/chat/completions`, or the answer that refuses it.
pub fn plan_chat_turn(config: &Config, authorization: Option<&[u8]>, request: &ChatRequest) -> (r:
    Result<TurnPlan, ApiError>)
    ensures
        plan_view(r) == chat_plan(*config, bytes_view(authorization), *request),
{
    if let Err(error) = authenticate(config, authorization) {
        return Err(error);
    }
    let prompt = chat_prompt(request);
    if is_blank(prompt.as_str()) {
        return Err(ApiError::bad_request("messages did not contain text"));
    }
    let forced = forced_tool(request);
    let output_schema = match &forced {
        Some(tool) => Some(tool.schema.clone()),
        None => None,
    };
    Ok(TurnPlan { prompt, output_schema, forced })
}

/// The turn for a Responses request, if the client may have one and its input contains text.
pub open spec fn responses_plan(
    config: Config,
    authorization: Option<Seq<u8>>,
    request: ResponsesRequest,
) -> Result<TurnPlanView, ApiErrorView> {
    let prompt = responses_prompt_of(request.input@, string_view(request.instructions));
    if !is_authenticated(config, authorization) {
        Err(ApiErrorView::unauthorized())
    } else if is_blank_text(prompt) {
        Err(ApiErrorView::bad_request("input did not contain text"@))
    } else {
        Ok(
            TurnPlanView {
                prompt,
                output_schema: output_schema_of(owned_view(request.text)),
                forced: None,
            },
        )
    }
}

/// The turn for `POST /v1/responses`, or the answer that refuses it.
pub fn plan_responses_turn(
    config: &Config,
    authorization: Option<&[u8]>,
    request: &ResponsesRequest,
) -> (r: Result<TurnPlan, ApiError>)
    ensures
        plan_view(r) == responses_plan(*config, bytes_view(authorization), *request),
{
    if let Err(error) = authenticate(config, authorization) {
        return Err(error);
    }
    let prompt = responses_prompt(request);
    if is_blank(prompt.as_str()) {
        return Err(ApiError::bad_request("input did not contain text"));
    }
    Ok(TurnPlan { prompt, output_schema: response_output_schema(request), forced: None })
}

/// Nothing is asked of Codex for a client that is not let in, whatever it sends.
pub proof fn law_only_authenticated_requests_get_turns(
    config: Config,
    authorization: Option<Seq<u8>>,
    chat: ChatRequest,
    responses: ResponsesRequest,
)
    requires
        !is_authenticated(config, authorization),
    ensures
        chat_plan(config, authorization, chat) == Err::<TurnPlanView, ApiErrorView>(
            ApiErrorView::unauthorized(),
        ),
        responses_plan(config, authorization, responses) == Err::<TurnPlanView, ApiErrorView>(
            ApiErrorView::unauthorized(),
        ),
{
}

/// The tool definitions of a Chat Completions request are not exposed to Codex: its turn
/// depends on its messages and on the forced function alone, and without a forced function
/// no schema goes along with the prompt.
pub proof fn law_tools_are_not_exposed(
    config: Config,
    authorization: Option<Seq<u8>>,
    a: ChatRequest,
    b: ChatRequest,
)
    requires
        a.messages@ == b.messages@,
        forced_tool_of(owned_view(a.tool_choice), items_view(a.tools@)) == forced_tool_of(
            owned_view(b.tool_choice),
            items_view(b.tools@),
        ),
    ensures
        chat_plan(config, authorization, a) == chat_plan(config, authorization, b),
        chat_plan(config, authorization, a) matches Ok(plan) ==> (plan.forced is None
            ==> plan.output_schema is None),
{
}

} // verus!
