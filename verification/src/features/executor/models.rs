use vstd::prelude::*;

verus! {

/// One chat message.
#[derive(Debug, Clone)]
pub struct Message {
    pub role: String,
    pub content: String,
}

impl View for Message {
    type V = (Seq<char>, Seq<char>);

    open spec fn view(&self) -> (Seq<char>, Seq<char>) {
        (self.role@, self.content@)
    }
}

/// The views of a sequence of messages.
pub open spec fn messages_view(ms: Seq<Message>) -> Seq<(Seq<char>, Seq<char>)> {
    ms.map_values(|m: Message| m@)
}

/// The fields of a chat request payload as the executor reads them: for each
/// field, the value it holds when present with the expected type, and `None`
/// when it is absent or of another type. `F` is the representation of
/// fractional numbers, which the library carries without reading.
#[derive(Debug)]
pub struct RequestPayload<F> {
    /// The `messages` array, decoded.
    pub messages: Option<Vec<Message>>,
    /// The `temperature` number.
    pub temperature: Option<F>,
    /// The `max_tokens` integer.
    pub max_tokens: Option<i64>,
    /// The `top_p` number.
    pub top_p: Option<F>,
    /// The `stream` flag.
    pub stream: Option<bool>,
}

/// Parameters of one LLM execution.
#[derive(Debug, Clone)]
pub struct ExecutionParams<F> {
    pub messages: Vec<Message>,
    pub temperature: Option<F>,
    pub max_tokens: Option<i64>,
    pub top_p: Option<F>,
    pub stream: bool,
}

/// What a vendor answered. `C` is the representation of the cost, which the
/// library carries without reading.
#[derive(Debug)]
pub struct ExecutionResult<C> {
    pub content: String,
    pub model_used: String,
    pub prompt_tokens: i64,
    pub completion_tokens: i64,
    pub total_cost: C,
    pub finish_reason: String,
}

} // verus!
