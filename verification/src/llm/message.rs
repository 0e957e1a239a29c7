//! Conversations, replies and stream events as plain data, each with its view.
use crate::json;
use crate::json::{Json, JsonView};
use crate::text;
use vstd::prelude::*;

verus! {

/// Text content.
#[derive(Debug, PartialEq, Eq)]
pub struct Text {
    pub text: String,
}

/// The kinds of image a message can carry.
#[derive(Debug, Clone, Copy, PartialEq, Eq)]
pub enum ImageMediaType {
    Jpeg,
    Png,
    Gif,
    Webp,
    Heic,
    Heif,
    Svg,
}

/// Where the data of an image is.
#[derive(Debug, PartialEq, Eq)]
pub enum DocumentSourceKind {
    Url(String),
    Base64(String),
    Other,
}

/// An image in a message.
#[derive(Debug, PartialEq, Eq)]
pub struct Image {
    pub data: DocumentSourceKind,
    pub media_type: Option<ImageMediaType>,
}

/// One part of a tool's result.
#[derive(Debug, PartialEq, Eq)]
pub enum ToolResultContent {
    Text(Text),
    Image(Image),
}

/// The result of a tool call, as the user side of the conversation carries it.
#[derive(Debug, PartialEq, Eq)]
pub struct ToolResult {
    pub id: String,
    pub call_id: Option<String>,
    pub content: Vec<ToolResultContent>,
}

/// One part of a user message.
#[derive(Debug, PartialEq, Eq)]
pub enum UserContent {
    Text(Text),
    ToolResult(ToolResult),
    Image(Image),
    Other,
}

/// The function of a tool call.
#[derive(Debug, PartialEq, Eq)]
pub struct ToolFunction {
    pub name: String,
    pub arguments: Json,
}

/// A tool call by the model.
#[derive(Debug, PartialEq, Eq)]
pub struct ToolCall {
    pub id: String,
    pub call_id: Option<String>,
    pub function: ToolFunction,
    pub signature: Option<String>,
    pub additional_params: Option<Json>,
}

/// One block of a model's reasoning.
#[derive(Debug, PartialEq, Eq)]
pub enum ReasoningContent {
    Text { text: String, signature: Option<String> },
    Encrypted(String),
    Redacted { data: String },
    Summary(String),
}

/// A model's reasoning.
#[derive(Debug, PartialEq, Eq)]
pub struct Reasoning {
    pub id: Option<String>,
    pub content: Vec<ReasoningContent>,
}

/// One part of an assistant message.
#[derive(Debug, PartialEq, Eq)]
pub enum AssistantContent {
    Text(Text),
    ToolCall(ToolCall),
    Reasoning(Reasoning),
    Image(Image),
}

/// A message of a conversation.
#[derive(Debug, PartialEq, Eq)]
#[allow(inconsistent_fields)]
pub enum Message {
    User { content: Vec<UserContent> },
    Assistant { id: Option<String>, content: Vec<AssistantContent> },
}

/// A tool that the model may call.
#[derive(Debug, PartialEq, Eq)]
pub struct ToolDefinition {
    pub name: String,
    pub description: String,
    pub parameters: Json,
}

/// A request to a model. The temperature is the JSON number that is sent.
#[derive(Debug, PartialEq, Eq)]
pub struct CompletionRequest {
    pub preamble: Option<String>,
    pub chat_history: Vec<Message>,
    pub tools: Vec<ToolDefinition>,
    pub temperature: Option<Json>,
    pub max_tokens: Option<u64>,
}

/// Token counts of one request.
#[derive(Debug, Clone, Copy, PartialEq, Eq)]
pub struct Usage {
    pub input_tokens: u64,
    pub output_tokens: u64,
    pub total_tokens: u64,
    pub cached_input_tokens: u64,
}

/// A provider's reply as it came.
#[derive(Debug, PartialEq, Eq)]
pub struct RawResponse {
    pub body: Json,
}

/// A streamed reply as it came, with its token counts.
#[derive(Debug, PartialEq, Eq)]
pub struct RawStreamingResponse {
    pub body: Json,
    pub usage: Option<Usage>,
}

/// A model's reply.
#[derive(Debug, PartialEq, Eq)]
pub struct CompletionResponse {
    pub choice: Vec<AssistantContent>,
    pub usage: Usage,
    pub raw_response: RawResponse,
    pub message_id: Option<String>,
}

/// A part of a tool call that arrived on a stream.
#[derive(Debug, PartialEq, Eq)]
pub enum ToolCallDeltaContent {
    Name(String),
    Delta(String),
}

/// A whole tool call on a stream.
#[derive(Debug, PartialEq, Eq)]
pub struct RawStreamingToolCall {
    pub id: String,
    pub internal_call_id: String,
    pub call_id: Option<String>,
    pub name: String,
    pub arguments: Json,
    pub signature: Option<String>,
    pub additional_params: Option<Json>,
}

/// An event of a streamed reply.
#[derive(Debug, PartialEq, Eq)]
#[allow(inconsistent_fields)]
pub enum RawStreamingChoice {
    Message(String),
    ToolCall(RawStreamingToolCall),
    ToolCallDelta { id: String, internal_call_id: String, content: ToolCallDeltaContent },
    Reasoning { id: Option<String>, content: ReasoningContent },
    ReasoningDelta { id: Option<String>, reasoning: String },
    FinalResponse(RawStreamingResponse),
    MessageId(String),
}

/// Why a completion failed.
#[derive(Debug, PartialEq, Eq)]
pub enum CompletionError {
    /// The provider's reply could not be used.
    ResponseError(String),
    /// The provider refused, or could not be asked.
    ProviderError(String),
}

// ---------------------------------------------------------------------------
// Views
// ---------------------------------------------------------------------------

/// The view of a [`DocumentSourceKind`].
pub enum SourceView {
    Url(Seq<char>),
    Base64(Seq<char>),
    Other,
}

/// The view of an [`Image`].
pub struct ImageView {
    pub data: SourceView,
    pub media_type: Option<ImageMediaType>,
}

/// The view of a [`ToolResultContent`].
pub enum ToolResultPart {
    Text(Seq<char>),
    Image(ImageView),
}

/// The view of a [`UserContent`].
pub enum UserPart {
    Text(Seq<char>),
    ToolResult { id: Seq<char>, call_id: Option<Seq<char>>, content: Seq<ToolResultPart> },
    Image(ImageView),
    Other,
}

/// The view of a [`ToolCall`].
pub struct ToolCallView {
    pub id: Seq<char>,
    pub call_id: Option<Seq<char>>,
    pub name: Seq<char>,
    pub arguments: JsonView,
    pub signature: Option<Seq<char>>,
    pub additional_params: Option<JsonView>,
}

/// The view of a [`ReasoningContent`].
pub enum ReasoningPart {
    Text { text: Seq<char>, signature: Option<Seq<char>> },
    Encrypted(Seq<char>),
    Redacted(Seq<char>),
    Summary(Seq<char>),
}

/// The view of an [`AssistantContent`].
pub enum AssistantPart {
    Text(Seq<char>),
    ToolCall(ToolCallView),
    Reasoning { id: Option<Seq<char>>, content: Seq<ReasoningPart> },
    Image(ImageView),
}

/// The view of a [`Message`].
pub enum MessageView {
    User(Seq<UserPart>),
    Assistant { id: Option<Seq<char>>, content: Seq<AssistantPart> },
}

/// The view of a [`ToolDefinition`].
pub struct ToolDefinitionView {
    pub name: Seq<char>,
    pub description: Seq<char>,
    pub parameters: JsonView,
}

/// The view of a [`CompletionRequest`].
pub struct RequestView {
    pub preamble: Option<Seq<char>>,
    pub chat_history: Seq<MessageView>,
    pub tools: Seq<ToolDefinitionView>,
    pub temperature: Option<JsonView>,
    pub max_tokens: Option<u64>,
}

/// The view of a [`CompletionResponse`].
pub struct ResponseView {
    pub choice: Seq<AssistantPart>,
    pub usage: Usage,
    pub body: JsonView,
    pub message_id: Option<Seq<char>>,
}

/// The view of a [`ToolCallDeltaContent`].
pub enum DeltaPart {
    Name(Seq<char>),
    Delta(Seq<char>),
}

/// The view of a [`RawStreamingChoice`].
#[allow(inconsistent_fields)]
pub enum StreamEvent {
    Message(Seq<char>),
    ToolCall { internal_call_id: Seq<char>, call: ToolCallView },
    ToolCallDelta { id: Seq<char>, internal_call_id: Seq<char>, content: DeltaPart },
    Reasoning { id: Option<Seq<char>>, content: ReasoningPart },
    ReasoningDelta { id: Option<Seq<char>>, reasoning: Seq<char> },
    FinalResponse { body: JsonView, usage: Option<Usage> },
    MessageId(Seq<char>),
}

/// The view of a [`CompletionError`].
pub enum ErrorView {
    Response(Seq<char>),
    Provider(Seq<char>),
}

impl View for DocumentSourceKind {
    type V = SourceView;

    open spec fn view(&self) -> SourceView {
        match self {
            DocumentSourceKind::Url(url) => SourceView::Url(url@),
            DocumentSourceKind::Base64(data) => SourceView::Base64(data@),
            DocumentSourceKind::Other => SourceView::Other,
        }
    }
}

impl View for Image {
    type V = ImageView;

    open spec fn view(&self) -> ImageView {
        ImageView { data: self.data@, media_type: self.media_type }
    }
}

impl View for ToolResultContent {
    type V = ToolResultPart;

    open spec fn view(&self) -> ToolResultPart {
        match self {
            ToolResultContent::Text(t) => ToolResultPart::Text(t.text@),
            ToolResultContent::Image(image) => ToolResultPart::Image(image@),
        }
    }
}

impl View for UserContent {
    type V = UserPart;

    open spec fn view(&self) -> UserPart {
        match self {
            UserContent::Text(t) => UserPart::Text(t.text@),
            UserContent::ToolResult(r) => UserPart::ToolResult {
                id: r.id@,
                call_id: text::view_of(r.call_id),
                content: r.content@.map_values(|c: ToolResultContent| c@),
            },
            UserContent::Image(image) => UserPart::Image(image@),
            UserContent::Other => UserPart::Other,
        }
    }
}

impl View for ToolCall {
    type V = ToolCallView;

    open spec fn view(&self) -> ToolCallView {
        ToolCallView {
            id: self.id@,
            call_id: text::view_of(self.call_id),
            name: self.function.name@,
            arguments: self.function.arguments@,
            signature: text::view_of(self.signature),
            additional_params: json::json_view_of(self.additional_params),
        }
    }
}

impl View for ReasoningContent {
    type V = ReasoningPart;

    open spec fn view(&self) -> ReasoningPart {
        match self {
            ReasoningContent::Text { text, signature } => ReasoningPart::Text {
                text: text@,
                signature: text::view_of(*signature),
            },
            ReasoningContent::Encrypted(data) => ReasoningPart::Encrypted(data@),
            ReasoningContent::Redacted { data } => ReasoningPart::Redacted(data@),
            ReasoningContent::Summary(summary) => ReasoningPart::Summary(summary@),
        }
    }
}

/// The views of a reasoning's blocks.
pub open spec fn reasoning_parts(content: Seq<ReasoningContent>) -> Seq<ReasoningPart> {
    content.map_values(|c: ReasoningContent| c@)
}

impl View for AssistantContent {
    type V = AssistantPart;

    open spec fn view(&self) -> AssistantPart {
        match self {
            AssistantContent::Text(t) => AssistantPart::Text(t.text@),
            AssistantContent::ToolCall(call) => AssistantPart::ToolCall(call@),
            AssistantContent::Reasoning(r) => AssistantPart::Reasoning {
                id: text::view_of(r.id),
                content: reasoning_parts(r.content@),
            },
            AssistantContent::Image(image) => AssistantPart::Image(image@),
        }
    }
}

/// The views of a user message's parts.
pub open spec fn user_parts(content: Seq<UserContent>) -> Seq<UserPart> {
    content.map_values(|c: UserContent| c@)
}

/// The views of an assistant message's parts.
pub open spec fn assistant_parts(content: Seq<AssistantContent>) -> Seq<AssistantPart> {
    content.map_values(|c: AssistantContent| c@)
}

impl View for Message {
    type V = MessageView;

    open spec fn view(&self) -> MessageView {
        match self {
            Message::User { content } => MessageView::User(user_parts(content@)),
            Message::Assistant { id, content } => MessageView::Assistant {
                id: text::view_of(*id),
                content: assistant_parts(content@),
            },
        }
    }
}

/// The views of a conversation's messages.
pub open spec fn message_views(messages: Seq<Message>) -> Seq<MessageView> {
    messages.map_values(|m: Message| m@)
}

impl View for ToolDefinition {
    type V = ToolDefinitionView;

    open spec fn view(&self) -> ToolDefinitionView {
        ToolDefinitionView {
            name: self.name@,
            description: self.description@,
            parameters: self.parameters@,
        }
    }
}

impl View for CompletionRequest {
    type V = RequestView;

    open spec fn view(&self) -> RequestView {
        RequestView {
            preamble: text::view_of(self.preamble),
            chat_history: message_views(self.chat_history@),
            tools: self.tools@.map_values(|t: ToolDefinition| t@),
            temperature: json::json_view_of(self.temperature),
            max_tokens: self.max_tokens,
        }
    }
}

impl View for CompletionResponse {
    type V = ResponseView;

    open spec fn view(&self) -> ResponseView {
        ResponseView {
            choice: assistant_parts(self.choice@),
            usage: self.usage,
            body: self.raw_response.body@,
            message_id: text::view_of(self.message_id),
        }
    }
}

impl View for ToolCallDeltaContent {
    type V = DeltaPart;

    open spec fn view(&self) -> DeltaPart {
        match self {
            ToolCallDeltaContent::Name(name) => DeltaPart::Name(name@),
            ToolCallDeltaContent::Delta(chunk) => DeltaPart::Delta(chunk@),
        }
    }
}

impl View for RawStreamingChoice {
    type V = StreamEvent;

    open spec fn view(&self) -> StreamEvent {
        match self {
            RawStreamingChoice::Message(text) => StreamEvent::Message(text@),
            RawStreamingChoice::ToolCall(call) => StreamEvent::ToolCall {
                internal_call_id: call.internal_call_id@,
                call: ToolCallView {
                    id: call.id@,
                    call_id: text::view_of(call.call_id),
                    name: call.name@,
                    arguments: call.arguments@,
                    signature: text::view_of(call.signature),
                    additional_params: json::json_view_of(call.additional_params),
                },
            },
            RawStreamingChoice::ToolCallDelta { id, internal_call_id, content } => {
                StreamEvent::ToolCallDelta {
                    id: id@,
                    internal_call_id: internal_call_id@,
                    content: content@,
                }
            },
            RawStreamingChoice::Reasoning { id, content } => StreamEvent::Reasoning {
                id: text::view_of(*id),
                content: content@,
            },
            RawStreamingChoice::ReasoningDelta { id, reasoning } => StreamEvent::ReasoningDelta {
                id: text::view_of(*id),
                reasoning: reasoning@,
            },
            RawStreamingChoice::FinalResponse(response) => StreamEvent::FinalResponse {
                body: response.body@,
                usage: response.usage,
            },
            RawStreamingChoice::MessageId(id) => StreamEvent::MessageId(id@),
        }
    }
}

/// The views of a list of stream events.
pub open spec fn event_views(events: Seq<RawStreamingChoice>) -> Seq<StreamEvent> {
    events.map_values(|e: RawStreamingChoice| e@)
}

impl View for CompletionError {
    type V = ErrorView;

    open spec fn view(&self) -> ErrorView {
        match self {
            CompletionError::ResponseError(message) => ErrorView::Response(message@),
            CompletionError::ProviderError(message) => ErrorView::Provider(message@),
        }
    }
}

impl ErrorView {
    /// The text that an error is shown as.
    pub open spec fn shown(self) -> Seq<char> {
        match self {
            ErrorView::Response(message) => "ResponseError: "@ + message,
            ErrorView::Provider(message) => "ProviderError: "@ + message,
        }
    }
}

/// The view of a result that is a list of stream events.
pub open spec fn events_result(
    result: Result<Vec<RawStreamingChoice>, CompletionError>,
) -> Result<Seq<StreamEvent>, ErrorView> {
    match result {
        Ok(events) => Ok(event_views(events@)),
        Err(error) => Err(error@),
    }
}

/// The view of a result that is a JSON value.
pub open spec fn json_result(result: Result<Json, CompletionError>) -> Result<JsonView, ErrorView> {
    match result {
        Ok(value) => Ok(value@),
        Err(error) => Err(error@),
    }
}

/// The view of a result that is a reply.
pub open spec fn response_result(
    result: Result<CompletionResponse, CompletionError>,
) -> Result<ResponseView, ErrorView> {
    match result {
        Ok(response) => Ok(response@),
        Err(error) => Err(error@),
    }
}

// ---------------------------------------------------------------------------
// Executable functions
// ---------------------------------------------------------------------------

/// The MIME type of an image kind.
pub open spec fn mime_type(kind: ImageMediaType) -> Seq<char> {
    match kind {
        ImageMediaType::Jpeg => "image/jpeg"@,
        ImageMediaType::Png => "image/png"@,
        ImageMediaType::Gif => "image/gif"@,
        ImageMediaType::Webp => "image/webp"@,
        ImageMediaType::Heic => "image/heic"@,
        ImageMediaType::Heif => "image/heif"@,
        ImageMediaType::Svg => "image/svg+xml"@,
    }
}

impl ImageMediaType {
    /// The MIME type of this image kind.
    pub fn to_mime_type(&self) -> (name: &'static str)
        ensures
            name@ == mime_type(*self),
    {
        match self {
            ImageMediaType::Jpeg => "image/jpeg",
            ImageMediaType::Png => "image/png",
            ImageMediaType::Gif => "image/gif",
            ImageMediaType::Webp => "image/webp",
            ImageMediaType::Heic => "image/heic",
            ImageMediaType::Heif => "image/heif",
            ImageMediaType::Svg => "image/svg+xml",
        }
    }
}

impl CompletionError {
    /// The same error again.
    pub fn duplicate(&self) -> (copy: CompletionError)
        ensures
            copy@ == self@,
    {
        match self {
            CompletionError::ResponseError(message) => CompletionError::ResponseError(
                message.clone(),
            ),
            CompletionError::ProviderError(message) => CompletionError::ProviderError(
                message.clone(),
            ),
        }
    }

    /// The text that the error is shown as.
    pub fn message(&self) -> (text: String)
        ensures
            text@ == self@.shown(),
    {
        match self {
            CompletionError::ResponseError(message) => text::concat(
                "ResponseError: ",
                message.as_str(),
            ),
            CompletionError::ProviderError(message) => text::concat(
                "ProviderError: ",
                message.as_str(),
            ),
        }
    }
}

impl Usage {
    /// No tokens.
    pub fn zero() -> (usage: Usage)
        ensures
            usage == zero_usage(),
    {
        Usage { input_tokens: 0, output_tokens: 0, total_tokens: 0, cached_input_tokens: 0 }
    }
}

/// No tokens.
pub open spec fn zero_usage() -> Usage {
    Usage { input_tokens: 0, output_tokens: 0, total_tokens: 0, cached_input_tokens: 0 }
}

impl RawStreamingResponse {
    /// The token counts of the reply, where the stream reported them.
    pub fn token_usage(&self) -> (usage: Option<Usage>)
        ensures
            usage == self.usage,
    {
        self.usage
    }
}

/// The same optional text again.
pub fn duplicate_text(value: &Option<String>) -> (copy: Option<String>)
    ensures
        copy == *value,
{
    match value {
        Some(t) => Some(t.clone()),
        None => None,
    }
}

impl ReasoningContent {
    /// The same block again.
    pub fn duplicate(&self) -> (copy: ReasoningContent)
        ensures
            copy@ == self@,
    {
        match self {
            ReasoningContent::Text { text, signature } => ReasoningContent::Text {
                text: text.clone(),
                signature: duplicate_text(signature),
            },
            ReasoningContent::Encrypted(data) => ReasoningContent::Encrypted(data.clone()),
            ReasoningContent::Redacted { data } => ReasoningContent::Redacted {
                data: data.clone(),
            },
            ReasoningContent::Summary(summary) => ReasoningContent::Summary(summary.clone()),
        }
    }
}

} // verus!
