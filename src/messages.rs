//! The bodies exchanged with the chat-completion service: the request that
//! reports a round's outcome, and the parts of the replies that the game
//! reads.

use vstd::prelude::*;

verus! {

/// The instruction sent as the system message of every request.
pub const LLM_INPUT: &'static str = "You will answer only to \"Correct\" or \"Incorrect.\" These correspond to either a\
notification that a user got a number right in a number guessing game or not, respectively. Your\
task is to, depending on whether you were notified they got it right, or not, to return a\
cowboy-like answer to the user. Make it a short text. Include just your answer and nothing more.\
Don't include emoji or otherwise non-verbal content.";

/// Whether the guess matched the drawn number.
#[derive(Clone, Copy, Debug, PartialEq, Eq, Structural)]
pub enum RandomResult {
    /// The guess equals the drawn number.
    Correct,
    /// The guess differs from the drawn number.
    Incorrect,
}

/// The word that reports an outcome to the service.
pub open spec fn outcome_word(result: RandomResult) -> Seq<char> {
    match result {
        RandomResult::Correct => "Correct"@,
        RandomResult::Incorrect => "Incorrect"@,
    }
}

/// Whose voice a message is in.
#[derive(Clone, Copy, Debug, PartialEq, Eq, Structural)]
pub enum Role {
    /// The instruction that frames the conversation.
    System,
    /// The language model.
    Assistant,
    /// The player.
    User,
}

/// One message of a conversation.
pub struct Message {
    /// Whose voice the message is in.
    pub role: Role,
    /// What the message says.
    pub content: String,
}

impl Message {
    /// A message in the voice of `role` that says `content`.
    pub fn new(role: Role, content: String) -> (r: Message)
        ensures
            r.role == role,
            r.content@ == content@,
    {
        Message { role, content }
    }

    /// What the message says.
    pub fn content(&self) -> (r: &String)
        ensures
            r@ == self.content@,
    {
        &self.content
    }
}

/// The body of a chat-completion request.
pub struct Request {
    /// The model that is to answer.
    pub model: String,
    /// The conversation handed to it.
    pub messages: Vec<Message>,
}

impl Request {
    /// The request that reports `result` to `model`: the fixed instruction as
    /// the system message, then `Correct` or `Incorrect` as the user's.
    pub fn new(model: String, result: RandomResult) -> (r: Request)
        ensures
            r.model@ == model@,
            r.messages.len() == 2,
            r.messages[0].role == Role::System,
            r.messages[0].content@ == LLM_INPUT@,
            r.messages[1].role == Role::User,
            r.messages[1].content@ == outcome_word(result),
    {
        let word = match result {
            RandomResult::Correct => "Correct",
            RandomResult::Incorrect => "Incorrect",
        };
        let system = Message::new(Role::System, String::from_str(LLM_INPUT));
        let user = Message::new(Role::User, String::from_str(word));
        let mut messages: Vec<Message> = Vec::new();
        messages.push(system);
        messages.push(user);
        Request { model, messages }
    }
}

/// One answer of the language model.
pub struct Choices {
    /// The message it answered with.
    pub message: Message,
}

impl Choices {
    /// The message of this answer.
    pub fn message(&self) -> (r: &Message)
        ensures
            r.role == self.message.role,
            r.content@ == self.message.content@,
    {
        &self.message
    }
}

/// The reply to a chat-completion request.
pub struct ChatCompletionResponse {
    /// The answers, of which the last one counts.
    pub choices: Vec<Choices>,
}

impl ChatCompletionResponse {
    /// The answers of the reply.
    pub fn choices(&self) -> (r: &Vec<Choices>)
        ensures
            r@ == self.choices@,
    {
        &self.choices
    }
}

/// The text of a reply: the content of its last answer, or nothing where it
/// has none.
pub open spec fn reply_text(response: ChatCompletionResponse) -> Seq<char> {
    if response.choices.len() == 0 {
        Seq::empty()
    } else {
        response.choices@.last().message.content@
    }
}

/// What to do once a reply to a chat-completion request has come.
pub enum CompletionStep {
    /// The reply holds text: show it.
    Finish(String),
    /// The reply holds no text: send the same request again.
    Retry,
    /// The reply holds no text and no attempt is left.
    GiveUp,
}

/// Decides what follows the reply that came back to attempt number
/// `attempts` (counting from one). A reply with text ends the exchange. One
/// without text asks for the same request again, without end where
/// `max_attempts` is `None`, and otherwise until `max_attempts` requests
/// have been sent.
pub fn completion_step(response: &ChatCompletionResponse, attempts: u64, max_attempts: Option<
    u64,
>) -> (r: CompletionStep)
    ensures
        reply_text(*response).len() > 0 ==> (r matches CompletionStep::Finish(t) && t@ == reply_text(
            *response,
        )),
        reply_text(*response).len() == 0 ==> (r is GiveUp <==> (max_attempts matches Some(m)
            && attempts >= m)),
        reply_text(*response).len() == 0 ==> !(r is Finish),
{
    let n = response.choices.len();
    if n > 0 {
        let text = &response.choices[n - 1].message.content;
        if text.as_str().unicode_len() > 0 {
            return CompletionStep::Finish(text.clone());
        }
    }
    match max_attempts {
        Some(m) => if attempts >= m {
            CompletionStep::GiveUp
        } else {
            CompletionStep::Retry
        },
        None => CompletionStep::Retry,
    }
}

/// One model offered by the service.
pub struct Data {
    /// The name by which requests pick the model.
    pub id: String,
}

impl Data {
    /// The name by which requests pick the model.
    pub fn id(&self) -> (r: &String)
        ensures
            r@ == self.id@,
    {
        &self.id
    }
}

/// The reply to a request for the list of models.
pub struct ModelListResponse {
    /// The models, in the order the service lists them.
    pub data: Vec<Data>,
}

impl ModelListResponse {
    /// The models of the list.
    pub fn data(&self) -> (r: &Vec<Data>)
        ensures
            r@ == self.data@,
    {
        &self.data
    }

    /// The names of the models, in the order of the list.
    pub fn model_ids(&self) -> (r: Vec<String>)
        ensures
            r.len() == self.data.len(),
            forall|i: int| 0 <= i < r.len() ==> #[trigger] r[i]@ == self.data[i].id@,
    {
        let mut ids: Vec<String> = Vec::new();
        let mut i: usize = 0;
        while i < self.data.len()
            invariant
                i <= self.data.len(),
                ids.len() == i,
                forall|j: int| 0 <= j < i ==> #[trigger] ids[j]@ == self.data[j].id@,
            decreases self.data.len() - i,
        {
            ids.push(self.data[i].id.clone());
            i += 1;
        }
        ids
    }
}

} // verus!
