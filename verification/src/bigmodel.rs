//! The Bigmodel chat-completions wire format and its message conversions.
//!
//! The vendor speaks an OpenAI-compatible JSON dialect: a request carries a
//! model name, a list of role-tagged messages and optional tool definitions;
//! a reply carries choices whose first assistant message holds either text
//! or tool calls.  This module holds the wire shapes as plain values and the
//! verified conversions into and out of them; the HTTP transport and the
//! JSON encoding sit outside the library.

use vstd::prelude::*;

use crate::error::PromptError;

verus! {

/// Default endpoint of the vendor.
pub const BIGMODEL_API_BASE_URL: &'static str = "https://open.bigmodel.cn/api/paas/v4/";

/// A small, broadly available model of the vendor.
pub const BIGMODEL_GLM_4_FLASH: &'static str = "glm-4-flash";

// ------------------------------------------------------------------
// Wire shapes.
// ------------------------------------------------------------------

/// The role tag of a wire message.
#[derive(Clone, Copy, Debug, PartialEq, Eq, Structural)]
pub enum Role {
    System,
    User,
    Assistant,
}

/// The only tool kind the wire knows.
#[derive(Clone, Copy, Debug, PartialEq, Eq, Structural)]
pub enum ToolType {
    Function,
}

/// One textual tool result as the wire carries it.
#[derive(Debug)]
pub struct ToolResultContent {
    pub text: String,
}

/// Token accounting attached to a reply.
#[derive(Clone, Copy, Debug, PartialEq, Eq, Structural)]
pub struct Usage {
    pub completion_tokens: i64,
    pub prompt_tokens: i64,
    pub total_tokens: i64,
}

/// The function a tool call asks for; `arguments` is the JSON text the
/// assistant produced.
#[derive(Debug)]
pub struct CallFunction {
    pub name: String,
    pub arguments: String,
}

/// One tool call of an assistant wire message.
#[derive(Debug)]
pub struct ToolCall {
    pub function: CallFunction,
    pub id: String,
    pub index: usize,
    pub tool_type: ToolType,
}

/// One wire message, tagged by role.
#[derive(Debug)]
pub enum Message {
    User { content: String },
    Assistant { content: Option<String>, tool_calls: Vec<ToolCall> },
    System { content: String },
    ToolResult { tool_call_id: String, content: String },
}

impl Message {
    /// A system message over the given text.
    pub fn system(content: &str) -> (r: Message)
        ensures
            r matches Message::System { content: c } && c@ == content@,
    {
        Message::System { content: content.to_owned() }
    }
}

/// One answer option of a reply.
#[derive(Debug)]
pub struct Choice {
    pub finish_reason: String,
    pub index: i64,
    pub message: Message,
}

/// A whole chat-completions reply.
#[derive(Debug)]
pub struct CompletionResponse {
    pub choices: Vec<Choice>,
    pub created: i64,
    pub id: String,
    pub model: String,
    pub request_id: String,
    pub usage: Usage,
}

/// One tool definition as the request carries it; `parameters` is the JSON
/// schema text of the tool's arguments.
#[derive(Debug)]
pub struct Function {
    pub name: String,
    pub description: String,
    pub parameters: String,
}

/// A tool definition wrapped in its wire envelope.
#[derive(Debug)]
pub struct CustomFunctionDefinition {
    pub type_field: String,
    pub function: Function,
}

// ------------------------------------------------------------------
// The caller-side message model the conversions start from.
// ------------------------------------------------------------------

/// One part of a tool result a caller hands in.
#[derive(Debug)]
pub enum ToolResultPart {
    Text(String),
    /// An image payload; the wire cannot carry it.
    Image(String),
}

/// A whole tool result a caller hands in.  A well-formed one carries at
/// least one part.
#[derive(Debug)]
pub struct ToolResultInput {
    pub id: String,
    pub content: Vec<ToolResultPart>,
}

/// One part of a user message.
#[derive(Debug)]
pub enum UserContent {
    Text(String),
    /// An image payload; the adapter drops it.
    Image(String),
    ToolResult(ToolResultInput),
    /// Any further content kind; the adapter drops it.
    Other,
}

/// One tool call a caller's assistant message carries.
#[derive(Debug)]
pub struct ToolCallInput {
    pub id: String,
    pub name: String,
    /// The call's arguments as JSON text.
    pub arguments: String,
}

/// One part of an assistant message.
#[derive(Debug)]
pub enum AssistantContent {
    Text(String),
    ToolCall(ToolCallInput),
}

/// One chat message as a caller hands it in.
#[derive(Debug)]
pub enum ChatMessage {
    User { content: Vec<UserContent> },
    Assistant { content: Vec<AssistantContent> },
}

// ------------------------------------------------------------------
// Conversion into the wire shape.
// ------------------------------------------------------------------

/// Texts joined with one space between neighbours.
pub open spec fn spec_join_space(ts: Seq<Seq<char>>) -> Seq<char>
    decreases ts.len(),
{
    if ts.len() == 0 {
        Seq::<char>::empty()
    } else if ts.len() == 1 {
        ts[0]
    } else {
        spec_join_space(ts.drop_last()) + " "@ + ts.last()
    }
}

/// The text parts of a user message, in order.
pub open spec fn spec_user_texts(cs: Seq<UserContent>) -> Seq<Seq<char>>
    decreases cs.len(),
{
    if cs.len() == 0 {
        Seq::<Seq<char>>::empty()
    } else {
        spec_user_texts(cs.drop_last()) + (match cs.last() {
            UserContent::Text(t) => seq![t@],
            _ => Seq::<Seq<char>>::empty(),
        })
    }
}

/// The text parts of an assistant message, in order.
pub open spec fn spec_assistant_texts(cs: Seq<AssistantContent>) -> Seq<Seq<char>>
    decreases cs.len(),
{
    if cs.len() == 0 {
        Seq::<Seq<char>>::empty()
    } else {
        spec_assistant_texts(cs.drop_last()) + (match cs.last() {
            AssistantContent::Text(t) => seq![t@],
            _ => Seq::<Seq<char>>::empty(),
        })
    }
}

/// The tool calls of an assistant message, in order.
pub open spec fn spec_assistant_calls(cs: Seq<AssistantContent>) -> Seq<ToolCallInput>
    decreases cs.len(),
{
    if cs.len() == 0 {
        Seq::<ToolCallInput>::empty()
    } else {
        spec_assistant_calls(cs.drop_last()) + (match cs.last() {
            AssistantContent::ToolCall(tc) => seq![tc],
            _ => Seq::<ToolCallInput>::empty(),
        })
    }
}

/// Some part of the user message is a tool result.
pub open spec fn spec_has_tool_result(cs: Seq<UserContent>) -> bool {
    exists|i: int| 0 <= i < cs.len() && (#[trigger] cs[i]) is ToolResult
}

/// No part before `i` is a tool result.
pub open spec fn spec_no_tool_result_before(cs: Seq<UserContent>, i: int) -> bool {
    forall|j: int| 0 <= j < i ==> !((#[trigger] cs[j]) is ToolResult)
}

/// Some part of the tool result is not plain text.
pub open spec fn spec_tool_result_has_non_text(ps: Seq<ToolResultPart>) -> bool {
    exists|j: int| 0 <= j < ps.len() && !((#[trigger] ps[j]) is Text)
}

/// What converting one tool result yields: its first text under the same
/// call id, or the conversion error a non-text part or an empty result
/// forces.
pub open spec fn spec_tool_result_conversion(
    tr: ToolResultInput,
    r: Result<Message, PromptError>,
) -> bool {
    if spec_tool_result_has_non_text(tr.content@) {
        &&& r matches Err(PromptError::Conversion { reason })
        &&& reason@ == "Non-text tool results not supported"@
    } else if tr.content@.len() == 0 {
        &&& r matches Err(PromptError::Conversion { reason })
        &&& reason@ == "Couldn't make a OneOrMany from a list of tool results"@
    } else {
        &&& r matches Ok(Message::ToolResult { tool_call_id, content })
        &&& tool_call_id@ == tr.id@
        &&& tr.content@[0] matches ToolResultPart::Text(t) && content@ == t@
    }
}

/// The wire tool call that stands for one requested call: same id-less
/// identity, slot zero, function kind.
pub open spec fn spec_wire_tool_call(input: ToolCallInput, out: ToolCall) -> bool {
    &&& out.id@ == input.id@
    &&& out.index == 0
    &&& out.tool_type is Function
    &&& out.function.name@ == input.name@
    &&& out.function.arguments@ == input.arguments@
}

/// What converting one caller message to the wire shape yields.
///
/// A user message that carries a tool result becomes the wire form of its
/// first tool result alone; otherwise its texts collapse into one
/// space-joined user message, dropping images and unsupported parts.  An
/// assistant message collapses its texts the same way and carries all its
/// tool calls; it never fails.
pub open spec fn spec_conversion(src: ChatMessage, r: Result<Message, PromptError>) -> bool {
    match src {
        ChatMessage::User { content } => {
            if spec_has_tool_result(content@) {
                exists|i: int|
                    {
                        &&& 0 <= i < content@.len()
                        &&& spec_no_tool_result_before(content@, i)
                        &&& (#[trigger] content@[i]) matches UserContent::ToolResult(tr)
                        &&& spec_tool_result_conversion(tr, r)
                    }
            } else {
                &&& r matches Ok(Message::User { content: joined })
                &&& joined@ == spec_join_space(spec_user_texts(content@))
            }
        },
        ChatMessage::Assistant { content } => {
            &&& r matches Ok(Message::Assistant { content: c, tool_calls })
            &&& c matches Some(joined)
            &&& joined@ == spec_join_space(spec_assistant_texts(content@))
            &&& tool_calls@.len() == spec_assistant_calls(content@).len()
            &&& forall|k: int| 0 <= k < tool_calls@.len() ==> spec_wire_tool_call(
                spec_assistant_calls(content@)[k],
                #[trigger] tool_calls@[k],
            )
        },
    }
}

impl ToolResultContent {
    /// The textual wire form of one tool result part; anything but text is
    /// refused.
    pub fn try_from_part(part: &ToolResultPart) -> (r: Result<ToolResultContent, PromptError>)
        ensures
            part matches ToolResultPart::Text(t) ==> (r matches Ok(c) && c.text@ == t@),
            !(part is Text) ==> (r matches Err(PromptError::Conversion { reason }) && reason@
                == "Non-text tool results not supported"@),
    {
        match part {
            ToolResultPart::Text(t) => Ok(ToolResultContent { text: t.clone() }),
            _ => Err(
                PromptError::Conversion {
                    reason: "Non-text tool results not supported".to_owned(),
                },
            ),
        }
    }
}

impl ToolCall {
    /// The wire form of one requested tool call: slot zero, function kind.
    pub fn from_input(input: &ToolCallInput) -> (r: ToolCall)
        ensures
            spec_wire_tool_call(*input, r),
    {
        ToolCall {
            id: input.id.clone(),
            index: 0,
            tool_type: ToolType::Function,
            function: CallFunction {
                name: input.name.clone(),
                arguments: input.arguments.clone(),
            },
        }
    }
}

impl Message {
    /// The wire form of a whole tool result: its first part's text, or a
    /// fixed marker for an image, under the same call id.
    pub fn from_tool_result(id: &str, content: &Vec<ToolResultPart>) -> (r: Message)
        requires
            content@.len() >= 1,
        ensures
            r matches Message::ToolResult { tool_call_id, content: text } && tool_call_id@ == id@
                && text@ == match content@[0] {
                ToolResultPart::Text(t) => t@,
                ToolResultPart::Image(_) => "[Image]"@,
            },
    {
        let text = match &content[0] {
            ToolResultPart::Text(t) => t.clone(),
            ToolResultPart::Image(_) => "[Image]".to_owned(),
        };
        Message::ToolResult { tool_call_id: id.to_owned(), content: text }
    }

    /// Convert one caller message to its wire shape.
    pub fn try_from_chat(message: &ChatMessage) -> (r: Result<Message, PromptError>)
        ensures
            spec_conversion(*message, r),
    {
        match message {
            ChatMessage::User { content } => Self::convert_user(content),
            ChatMessage::Assistant { content } => Self::convert_assistant(content),
        }
    }

    /// Convert the parts of a user message.
    fn convert_user(content: &Vec<UserContent>) -> (r: Result<Message, PromptError>)
        ensures
            spec_conversion(ChatMessage::User { content: *content }, r),
    {
        let n = content.len();
        let mut joined = String::new();
        let mut any_text = false;
        for k in 0..n
            invariant
                n == content@.len(),
                spec_no_tool_result_before(content@, k as int),
                joined@ == spec_join_space(spec_user_texts(content@.take(k as int))),
                any_text == (spec_user_texts(content@.take(k as int)).len() > 0),
        {
            let ghost prefix = content@.take(k as int);
            let ghost texts = spec_user_texts(prefix);
            match &content[k] {
                UserContent::Text(t) => {
                    if any_text {
                        joined.append(" ");
                    }
                    joined.append(t.as_str());
                    any_text = true;
                    proof {
                        assert(content@.take(k + 1).drop_last() =~= prefix);
                        let texts2 = spec_user_texts(content@.take(k + 1));
                        assert(texts2 == texts + seq![t@]);
                        assert(texts2.drop_last() =~= texts);
                        if texts.len() == 0 {
                            assert(joined@ =~= texts2[0]);
                        }
                    }
                },
                UserContent::ToolResult(tool_result) => {
                    let r = Self::convert_tool_result(tool_result);
                    proof {
                        assert(content@[k as int] matches UserContent::ToolResult(tr)
                            && spec_tool_result_conversion(tr, r));
                    }
                    return r;
                },
                _ => {
                    proof {
                        assert(content@.take(k + 1).drop_last() =~= prefix);
                        assert(spec_user_texts(content@.take(k + 1)) =~= texts);
                    }
                },
            }
        }
        proof {
            assert(content@.take(n as int) =~= content@);
        }
        Ok(Message::User { content: joined })
    }

    /// Convert one whole tool result, refusing non-text parts and empty
    /// results as the wire demands.
    fn convert_tool_result(tool_result: &ToolResultInput) -> (r: Result<Message, PromptError>)
        ensures
            spec_tool_result_conversion(*tool_result, r),
    {
        let n = tool_result.content.len();
        for j in 0..n
            invariant
                n == tool_result.content@.len(),
                forall|p: int| 0 <= p < j ==> (#[trigger] tool_result.content@[p]) is Text,
        {
            match &tool_result.content[j] {
                ToolResultPart::Text(_) => {},
                _ => {
                    return Err(
                        PromptError::Conversion {
                            reason: "Non-text tool results not supported".to_owned(),
                        },
                    );
                },
            }
        }
        if n == 0 {
            return Err(
                PromptError::Conversion {
                    reason: "Couldn't make a OneOrMany from a list of tool results".to_owned(),
                },
            );
        }
        let text = match &tool_result.content[0] {
            ToolResultPart::Text(t) => t.clone(),
            _ => {
                // The scan above showed every part is text.
                proof {
                    assert(false);
                }
                String::new()
            },
        };
        Ok(Message::ToolResult { tool_call_id: tool_result.id.clone(), content: text })
    }

    /// Convert the parts of an assistant message.
    fn convert_assistant(content: &Vec<AssistantContent>) -> (r: Result<Message, PromptError>)
        ensures
            spec_conversion(ChatMessage::Assistant { content: *content }, r),
    {
        let n = content.len();
        let mut joined = String::new();
        let mut any_text = false;
        let mut tool_calls: Vec<ToolCall> = Vec::new();
        for k in 0..n
            invariant
                n == content@.len(),
                joined@ == spec_join_space(spec_assistant_texts(content@.take(k as int))),
                any_text == (spec_assistant_texts(content@.take(k as int)).len() > 0),
                tool_calls@.len() == spec_assistant_calls(content@.take(k as int)).len(),
                forall|p: int| 0 <= p < tool_calls@.len() ==> spec_wire_tool_call(
                    spec_assistant_calls(content@.take(k as int))[p],
                    #[trigger] tool_calls@[p],
                ),
        {
            let ghost prefix = content@.take(k as int);
            let ghost texts = spec_assistant_texts(prefix);
            let ghost calls = spec_assistant_calls(prefix);
            match &content[k] {
                AssistantContent::Text(t) => {
                    if any_text {
                        joined.append(" ");
                    }
                    joined.append(t.as_str());
                    any_text = true;
                    proof {
                        assert(content@.take(k + 1).drop_last() =~= prefix);
                        let texts2 = spec_assistant_texts(content@.take(k + 1));
                        assert(texts2 == texts + seq![t@]);
                        assert(texts2.drop_last() =~= texts);
                        if texts.len() == 0 {
                            assert(joined@ =~= texts2[0]);
                        }
                        assert(spec_assistant_calls(content@.take(k + 1)) =~= calls);
                    }
                },
                AssistantContent::ToolCall(tc) => {
                    tool_calls.push(ToolCall::from_input(tc));
                    proof {
                        assert(content@.take(k + 1).drop_last() =~= prefix);
                        assert(spec_assistant_texts(content@.take(k + 1)) =~= texts);
                        let calls2 = spec_assistant_calls(content@.take(k + 1));
                        assert(calls2 == calls + seq![*tc]);
                    }
                },
            }
        }
        proof {
            assert(content@.take(n as int) =~= content@);
        }
        Ok(Message::Assistant { content: Some(joined), tool_calls })
    }
}

// ------------------------------------------------------------------
// Reading a reply.
// ------------------------------------------------------------------

/// What extracting the usable content of a reply yields.
///
/// Only the first choice counts.  An assistant message with tool calls
/// yields those calls, each keyed by its function name; one without yields
/// its text, or empty text when the content is absent.  A reply without
/// choices, or whose first message is not from the assistant, is refused.
pub open spec fn spec_extraction(
    resp: CompletionResponse,
    r: Result<Vec<AssistantContent>, PromptError>,
) -> bool {
    if resp.choices@.len() == 0 {
        &&& r matches Err(PromptError::Response { reason })
        &&& reason@ == "Response contained no choices"@
    } else {
        match resp.choices@[0].message {
            Message::Assistant { content, tool_calls } => {
                &&& r matches Ok(replies)
                &&& if tool_calls@.len() > 0 {
                    &&& replies@.len() == tool_calls@.len()
                    &&& forall|k: int|
                        0 <= k < tool_calls@.len() ==> {
                            &&& (#[trigger] replies@[k]) matches AssistantContent::ToolCall(tc)
                            &&& tc.id@ == tool_calls@[k].function.name@
                            &&& tc.name@ == tool_calls@[k].function.name@
                            &&& tc.arguments@ == tool_calls@[k].function.arguments@
                        }
                } else {
                    &&& replies@.len() == 1
                    &&& replies@[0] matches AssistantContent::Text(t)
                    &&& t@ == match content {
                        Option::Some(c) => c@,
                        Option::None => Seq::<char>::empty(),
                    }
                }
            },
            _ => {
                &&& r matches Err(PromptError::Response { reason })
                &&& reason@ == "Chat response does not include an assistant message"@
            },
        }
    }
}

impl CompletionResponse {
    /// Extract the usable content of this reply: the first choice's tool
    /// calls, or its text.
    pub fn extract_reply(&self) -> (r: Result<Vec<AssistantContent>, PromptError>)
        ensures
            spec_extraction(*self, r),
    {
        if self.choices.len() == 0 {
            return Err(
                PromptError::Response { reason: "Response contained no choices".to_owned() },
            );
        }
        match &self.choices[0].message {
            Message::Assistant { content, tool_calls } => {
                let n = tool_calls.len();
                if n > 0 {
                    let mut replies: Vec<AssistantContent> = Vec::new();
                    for k in 0..n
                        invariant
                            n == tool_calls@.len(),
                            replies@.len() == k,
                            forall|p: int|
                                0 <= p < k ==> {
                                    &&& (#[trigger] replies@[p]) matches AssistantContent::ToolCall(
                                        tc,
                                    )
                                    &&& tc.id@ == tool_calls@[p].function.name@
                                    &&& tc.name@ == tool_calls@[p].function.name@
                                    &&& tc.arguments@ == tool_calls@[p].function.arguments@
                                },
                    {
                        let call = &tool_calls[k];
                        replies.push(
                            AssistantContent::ToolCall(
                                ToolCallInput {
                                    id: call.function.name.clone(),
                                    name: call.function.name.clone(),
                                    arguments: call.function.arguments.clone(),
                                },
                            ),
                        );
                    }
                    Ok(replies)
                } else {
                    let text = match content {
                        Option::Some(c) => c.clone(),
                        Option::None => String::new(),
                    };
                    let mut replies: Vec<AssistantContent> = Vec::new();
                    replies.push(AssistantContent::Text(text));
                    Ok(replies)
                }
            },
            _ => Err(
                PromptError::Response {
                    reason: "Chat response does not include an assistant message".to_owned(),
                },
            ),
        }
    }
}

/// A parsed vendor reply body: the completion itself, or the error envelope
/// `{message}` the vendor uses.
#[derive(Debug)]
pub enum ApiResponse {
    Completion(CompletionResponse),
    Failure { message: String },
}

/// Turn a parsed vendor reply into the caller's result: an error envelope
/// becomes a provider error, a completion is read by
/// [`CompletionResponse::extract_reply`].
pub fn interpret_api_response(resp: &ApiResponse) -> (r: Result<Vec<AssistantContent>, PromptError>)
    ensures
        resp matches ApiResponse::Completion(c) ==> spec_extraction(*c, r),
        resp matches ApiResponse::Failure { message } ==> (r matches Err(PromptError::Provider {
            message: m,
        }) && m@ == message@),
{
    match resp {
        ApiResponse::Completion(c) => c.extract_reply(),
        ApiResponse::Failure { message } => Err(
            PromptError::Provider { message: message.clone() },
        ),
    }
}

// ------------------------------------------------------------------
// Building a request.
// ------------------------------------------------------------------

/// One tool a caller offers to the model; `parameters` is the JSON schema
/// text of the tool's arguments.
#[derive(Debug)]
pub struct ToolDefinition {
    pub name: String,
    pub description: String,
    pub parameters: String,
}

/// Everything a caller hands the adapter for one completion call.
#[derive(Debug)]
pub struct CompletionRequest {
    /// The system prompt, sent first when present.
    pub preamble: Option<String>,
    /// The caller's documents, normalized into one message, sent before the
    /// chat history when present.
    pub documents: Option<ChatMessage>,
    pub chat_history: Vec<ChatMessage>,
    pub tools: Vec<ToolDefinition>,
}

/// The wire request body, short of the JSON encoding: the model name, the
/// converted message history, the wrapped tool definitions, and the tool
/// choice mode.
#[derive(Debug)]
pub struct ChatRequest {
    pub model: String,
    pub messages: Vec<Message>,
    pub tools: Vec<CustomFunctionDefinition>,
    /// `"auto"` exactly when tools are offered.
    pub tool_choice: Option<String>,
}

/// The messages to convert, in order: the documents message when present,
/// then the chat history.
pub open spec fn spec_partials(request: CompletionRequest) -> Seq<ChatMessage> {
    (match request.documents {
        Option::Some(d) => seq![d],
        Option::None => Seq::<ChatMessage>::empty(),
    }) + request.chat_history@
}

/// Whether converting this message to the wire shape fails: only a user
/// message whose first tool result carries a non-text part, or none at all,
/// is refused.
pub open spec fn spec_conversion_fails(src: ChatMessage) -> bool {
    match src {
        ChatMessage::User { content } => exists|i: int|
            {
                &&& 0 <= i < content@.len()
                &&& spec_no_tool_result_before(content@, i)
                &&& (#[trigger] content@[i]) matches UserContent::ToolResult(tr)
                &&& (spec_tool_result_has_non_text(tr.content@) || tr.content@.len() == 0)
            },
        ChatMessage::Assistant { .. } => false,
    }
}

/// A conversion that produced a wire message did not fail.
pub proof fn lemma_ok_conversion_no_failure(src: ChatMessage, m: Message)
    requires
        spec_conversion(src, Result::<Message, PromptError>::Ok(m)),
    ensures
        !spec_conversion_fails(src),
{
    match src {
        ChatMessage::User { content } => {
            if spec_conversion_fails(src) {
                let i = choose|i: int|
                    {
                        &&& 0 <= i < content@.len()
                        &&& spec_no_tool_result_before(content@, i)
                        &&& (#[trigger] content@[i]) matches UserContent::ToolResult(tr)
                        &&& (spec_tool_result_has_non_text(tr.content@) || tr.content@.len()
                            == 0)
                    };
                assert(spec_has_tool_result(content@));
                let r = Result::<Message, PromptError>::Ok(m);
                let j = choose|j: int|
                    {
                        &&& 0 <= j < content@.len()
                        &&& spec_no_tool_result_before(content@, j)
                        &&& (#[trigger] content@[j]) matches UserContent::ToolResult(tr)
                        &&& spec_tool_result_conversion(tr, r)
                    };
                assert(i == j);
            }
        },
        ChatMessage::Assistant { .. } => {},
    }
}

/// The wire envelope of one offered tool.
pub open spec fn spec_wire_tool(def: ToolDefinition, out: CustomFunctionDefinition) -> bool {
    &&& out.type_field@ == "function"@
    &&& out.function.name@ == def.name@
    &&& out.function.description@ == def.description@
    &&& out.function.parameters@ == def.parameters@
}

/// Assemble the wire request for one completion call: the optional system
/// preamble first, then the documents and the chat history converted in
/// order, then the wrapped tools with `"auto"` tool choice when any are
/// offered.  The first message that cannot be converted fails the whole
/// request with its own error.
pub fn create_completion_request(model: &str, request: &CompletionRequest) -> (r: Result<
    ChatRequest,
    PromptError,
>)
    ensures
        ({
            let partials = spec_partials(*request);
            let off: int = if request.preamble is Some {
                1
            } else {
                0
            };
            match r {
                Result::Ok(out) => {
                    &&& out.model@ == model@
                    &&& out.messages@.len() == off + partials.len()
                    &&& (request.preamble matches Some(p) ==> (out.messages@[0]
                        matches Message::System { content } && content@ == p@))
                    &&& forall|k: int| 0 <= k < partials.len() ==> spec_conversion(
                        partials[k],
                        Result::<Message, PromptError>::Ok(#[trigger] out.messages@[off + k]),
                    )
                    &&& out.tools@.len() == request.tools@.len()
                    &&& forall|k: int| 0 <= k < request.tools@.len() ==> spec_wire_tool(
                        request.tools@[k],
                        #[trigger] out.tools@[k],
                    )
                    &&& if request.tools@.len() > 0 {
                        out.tool_choice matches Some(c) && c@ == "auto"@
                    } else {
                        out.tool_choice is None
                    }
                },
                Result::Err(e) => exists|k: int|
                    {
                        &&& 0 <= k < partials.len()
                        &&& spec_conversion(
                            #[trigger] partials[k],
                            Result::<Message, PromptError>::Err(e),
                        )
                        &&& forall|j: int| 0 <= j < k ==> !spec_conversion_fails(partials[j])
                    },
            }
        }),
{
    let ghost partials = spec_partials(*request);
    let ghost off: int = if request.preamble is Some {
        1
    } else {
        0
    };
    let ghost dc: int = if request.documents is Some {
        1
    } else {
        0
    };

    let mut messages: Vec<Message> = Vec::new();
    match &request.preamble {
        Option::Some(p) => {
            messages.push(Message::system(p.as_str()));
        },
        Option::None => {},
    }

    match &request.documents {
        Option::Some(d) => {
            match Message::try_from_chat(d) {
                Result::Ok(m) => {
                    messages.push(m);
                    proof {
                        assert(partials[0] == *d);
                    }
                },
                Result::Err(e) => {
                    proof {
                        assert(partials[0] == *d);
                    }
                    return Result::Err(e);
                },
            }
        },
        Option::None => {},
    }

    let n = request.chat_history.len();
    for k in 0..n
        invariant
            n == request.chat_history@.len(),
            partials == spec_partials(*request),
            off == (if request.preamble is Some {
                1int
            } else {
                0int
            }),
            dc == (if request.documents is Some {
                1int
            } else {
                0int
            }),
            partials.len() == dc + n,
            messages@.len() == off + dc + k,
            request.preamble matches Some(p) ==> (messages@[0] matches Message::System {
                content,
            } && content@ == p@),
            forall|j: int| 0 <= j < dc + k ==> spec_conversion(
                partials[j],
                Result::<Message, PromptError>::Ok(#[trigger] messages@[off + j]),
            ),
    {
        proof {
            assert(partials[dc + k] == request.chat_history@[k as int]);
        }
        match Message::try_from_chat(&request.chat_history[k]) {
            Result::Ok(m) => {
                messages.push(m);
            },
            Result::Err(e) => {
                proof {
                    assert forall|j: int| 0 <= j < dc + k implies !spec_conversion_fails(
                        partials[j],
                    ) by {
                        lemma_ok_conversion_no_failure(partials[j], messages@[off + j]);
                    }
                }
                return Result::Err(e);
            },
        }
    }

    let tn = request.tools.len();
    let mut tools: Vec<CustomFunctionDefinition> = Vec::new();
    for k in 0..tn
        invariant
            tn == request.tools@.len(),
            tools@.len() == k,
            forall|j: int| 0 <= j < k ==> spec_wire_tool(
                request.tools@[j],
                #[trigger] tools@[j],
            ),
    {
        let def = &request.tools[k];
        tools.push(
            CustomFunctionDefinition {
                type_field: "function".to_owned(),
                function: Function {
                    name: def.name.clone(),
                    description: def.description.clone(),
                    parameters: def.parameters.clone(),
                },
            },
        );
    }

    let tool_choice = if request.tools.len() > 0 {
        Some("auto".to_owned())
    } else {
        None
    };

    Result::Ok(ChatRequest { model: model.to_owned(), messages, tools, tool_choice })
}

// ------------------------------------------------------------------
// The request URL.
// ------------------------------------------------------------------

/// The text with every `//` pair collapsed to one `/`, scanning left to
/// right without overlap, as `str::replace("//", "/")` does.
pub open spec fn spec_squash_slashes(s: Seq<char>) -> Seq<char>
    decreases s.len(),
{
    if s.len() == 0 {
        s
    } else if s.len() >= 2 && s[0] == '/' && s[1] == '/' {
        seq!['/'] + spec_squash_slashes(s.skip(2))
    } else {
        seq![s[0]] + spec_squash_slashes(s.skip(1))
    }
}

/// The URL a request posts to: the base joined to the path with one `/`,
/// with doubled slashes collapsed.
pub fn request_url(base_url: &str, path: &str) -> (r: String)
    ensures
        r@ == spec_squash_slashes(base_url@ + "/"@ + path@),
{
    let mut full = base_url.to_owned();
    full.append("/");
    full.append(path);
    let ghost whole = full@;
    let n = full.as_str().unicode_len();
    let mut out = String::new();
    let mut i: usize = 0;
    proof {
        assert(whole.skip(0) =~= whole);
        assert(out@ + spec_squash_slashes(whole) =~= spec_squash_slashes(whole));
    }
    while i < n
        invariant
            whole == full@,
            n == whole.len(),
            i <= n,
            spec_squash_slashes(whole) == out@ + spec_squash_slashes(whole.skip(i as int)),
        decreases n - i,
    {
        let ghost rest = whole.skip(i as int);
        let c = full.as_str().get_char(i);
        if c == '/' && i + 1 < n && full.as_str().get_char(i + 1) == '/' {
            crate::text::push_char(&mut out, '/');
            proof {
                assert(rest.len() >= 2 && rest[0] == '/' && rest[1] == '/');
                assert(rest.skip(2) =~= whole.skip(i + 2));
                assert(spec_squash_slashes(rest) == seq!['/'] + spec_squash_slashes(
                    whole.skip(i + 2),
                ));
                assert(out@ + spec_squash_slashes(whole.skip(i + 2)) =~= (out@.drop_last()
                    + (seq!['/'] + spec_squash_slashes(whole.skip(i + 2)))));
            }
            i = i + 2;
        } else {
            crate::text::push_char(&mut out, c);
            proof {
                assert(rest[0] == c);
                assert(!(rest.len() >= 2 && rest[0] == '/' && rest[1] == '/'));
                assert(rest.skip(1) =~= whole.skip(i + 1));
                assert(spec_squash_slashes(rest) == seq![c] + spec_squash_slashes(
                    whole.skip(i + 1),
                ));
                assert(out@ + spec_squash_slashes(whole.skip(i + 1)) =~= (out@.drop_last()
                    + (seq![c] + spec_squash_slashes(whole.skip(i + 1)))));
            }
            i = i + 1;
        }
    }
    proof {
        assert(whole.skip(n as int) =~= Seq::<char>::empty());
    }
    out
}

} // verus!
