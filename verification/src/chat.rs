//! The chat records that pass between the user interface and the providers,
//! and the fixed facts about each provider's service.

use vstd::prelude::*;
use vstd::string::StringExecFns;
use crate::error::KeyStoreError;
use crate::files::{provider_from_name, provider_named, Provider};

verus! {

/// Who wrote a message.
#[derive(Clone, Copy, Debug, PartialEq, Eq, Structural)]
pub enum Role {
    User,
    Assistant,
    System,
}

/// One message of a conversation.
#[derive(Clone, Debug, PartialEq, Eq)]
pub struct Message {
    pub role: Role,
    pub content: String,
    /// When the message was written, in seconds since the epoch, if known.
    pub ts: Option<i64>,
}

/// One message as a provider's wire format has it: the role by name.
#[derive(Clone, Debug, PartialEq, Eq)]
pub struct ChatMessage {
    pub role: String,
    pub content: String,
}

/// A request for a completion.
#[derive(Clone, Debug, PartialEq, Eq)]
pub struct ChatInput {
    /// `"openai"`, `"anthropic"` or `"mistral"`.
    pub provider: String,
    pub model: String,
    pub api_key: Option<String>,
    pub messages: Vec<Message>,
}

/// The name of a role on the wire.
pub open spec fn role_text(role: Role) -> Seq<char> {
    match role {
        Role::User => "user"@,
        Role::Assistant => "assistant"@,
        Role::System => "system"@,
    }
}

/// The name of a role on the wire.
pub fn role_name(role: Role) -> (r: &'static str)
    ensures
        r@ == role_text(role),
{
    match role {
        Role::User => "user",
        Role::Assistant => "assistant",
        Role::System => "system",
    }
}

/// The address at which a provider lists its models; a request there with a
/// secret as bearer token succeeds only where the provider accepts the secret.
pub open spec fn models_url(p: Provider) -> Seq<char> {
    match p {
        Provider::OpenAi => "https://api.openai.com/v1/models"@,
        Provider::Mistral => "https://api.mistral.ai/v1/models"@,
    }
}

/// The address against which a provider's secret is validated;
/// `UnknownProvider` for a name outside the allow-list.
pub fn validation_url(provider: &str) -> (r: Result<&'static str, KeyStoreError>)
    ensures
        match r {
            Ok(u) => provider_named(provider@) is Some && u@ == models_url(provider_named(provider@)->0),
            Err(e) => e == KeyStoreError::UnknownProvider && provider_named(provider@) is None,
        },
{
    match provider_from_name(provider) {
        Ok(Provider::OpenAi) => Ok("https://api.openai.com/v1/models"),
        Ok(Provider::Mistral) => Ok("https://api.mistral.ai/v1/models"),
        Err(e) => Err(e),
    }
}

/// The messages of a conversation in wire form: one for one, in order, each
/// with its role by name.
pub open spec fn is_wire_form(messages: Seq<Message>, wire: Seq<ChatMessage>) -> bool {
    &&& wire.len() == messages.len()
    &&& forall|i: int|
        0 <= i < messages.len() ==> (#[trigger] wire[i]).role@ == role_text(messages[i].role) && wire[i].content@
            == messages[i].content@
}

/// Puts the messages of a conversation into wire form.
pub fn to_wire(messages: &Vec<Message>) -> (r: Vec<ChatMessage>)
    ensures
        is_wire_form(messages@, r@),
{
    let mut out: Vec<ChatMessage> = Vec::new();
    let mut i: usize = 0;
    while i < messages.len()
        invariant
            i <= messages@.len(),
            is_wire_form(messages@.subrange(0, i as int), out@),
        decreases messages@.len() - i,
    {
        let m = &messages[i];
        let role = role_name(m.role).to_owned();
        let content = m.content.clone();
        out.push(ChatMessage { role, content });
        i = i + 1;
    }
    assert(messages@.subrange(0, messages@.len() as int) =~= messages@);
    out
}

/// The messages of a conversation without those of the system, in order.
pub open spec fn without_system(messages: Seq<Message>) -> Seq<Message>
    decreases messages.len(),
{
    if messages.len() == 0 {
        Seq::empty()
    } else if messages.last().role == Role::System {
        without_system(messages.drop_last())
    } else {
        without_system(messages.drop_last()).push(messages.last())
    }
}

/// The texts of the system's messages, in order.
pub open spec fn system_texts(messages: Seq<Message>) -> Seq<Seq<char>>
    decreases messages.len(),
{
    if messages.len() == 0 {
        Seq::empty()
    } else if messages.last().role == Role::System {
        system_texts(messages.drop_last()).push(messages.last().content@)
    } else {
        system_texts(messages.drop_last())
    }
}

/// Texts joined into one, with an empty line between each two.
pub open spec fn joined_text(parts: Seq<Seq<char>>) -> Seq<char>
    decreases parts.len(),
{
    if parts.len() == 0 {
        Seq::empty()
    } else if parts.len() == 1 {
        parts[0]
    } else {
        joined_text(parts.drop_last()) + "\n\n"@ + parts.last()
    }
}

/// The conversation for a provider that takes the system's words apart from
/// the messages: the messages of user and assistant, in wire form.
pub fn conversation(messages: &Vec<Message>) -> (r: Vec<ChatMessage>)
    ensures
        is_wire_form(without_system(messages@), r@),
{
    let mut out: Vec<ChatMessage> = Vec::new();
    let mut i: usize = 0;
    while i < messages.len()
        invariant
            i <= messages@.len(),
            is_wire_form(without_system(messages@.subrange(0, i as int)), out@),
        decreases messages@.len() - i,
    {
        let m = &messages[i];
        proof {
            assert(messages@.subrange(0, i + 1).drop_last() =~= messages@.subrange(0, i as int));
        }
        match m.role {
            Role::System => {},
            _ => {
                let role = role_name(m.role).to_owned();
                let content = m.content.clone();
                out.push(ChatMessage { role, content });
            },
        }
        i = i + 1;
    }
    assert(messages@.subrange(0, messages@.len() as int) =~= messages@);
    out
}

/// The system's words for a provider that takes them apart from the messages:
/// the texts of the system's messages joined with an empty line between them,
/// and nothing where the system said nothing.
pub fn system_prompt(messages: &Vec<Message>) -> (r: Option<String>)
    ensures
        match r {
            Some(s) => system_texts(messages@).len() > 0 && s@ == joined_text(system_texts(messages@)),
            None => system_texts(messages@).len() == 0,
        },
{
    let mut out: Option<String> = None;
    let mut i: usize = 0;
    while i < messages.len()
        invariant
            i <= messages@.len(),
            match out {
                Some(s) => system_texts(messages@.subrange(0, i as int)).len() > 0 && s@ == joined_text(
                    system_texts(messages@.subrange(0, i as int)),
                ),
                None => system_texts(messages@.subrange(0, i as int)).len() == 0,
            },
        decreases messages@.len() - i,
    {
        let m = &messages[i];
        proof {
            assert(messages@.subrange(0, i + 1).drop_last() =~= messages@.subrange(0, i as int));
        }
        let ghost before = system_texts(messages@.subrange(0, i as int));
        match m.role {
            Role::System => {
                proof {
                    assert(before.push(m.content@).drop_last() =~= before);
                }
                out = match out {
                    Some(s) => Some(s.concat("\n\n").concat(m.content.as_str())),
                    None => Some(m.content.clone()),
                };
            },
            _ => {},
        }
        i = i + 1;
    }
    assert(messages@.subrange(0, messages@.len() as int) =~= messages@);
    out
}

/// The reply of a completion: the first of the choices a provider returned,
/// and nothing where it returned none.
pub fn first_choice(choices: Vec<String>) -> (r: Option<String>)
    ensures
        match r {
            Some(s) => choices@.len() > 0 && s@ == choices@[0]@,
            None => choices@.len() == 0,
        },
{
    let mut choices = choices;
    if choices.len() > 0 {
        Some(choices.swap_remove(0))
    } else {
        None
    }
}

/// The name of a provider as messages to the user write it.
pub open spec fn title_of(provider: Seq<char>) -> Seq<char> {
    if provider == "openai"@ {
        "OpenAI"@
    } else if provider == "anthropic"@ {
        "Anthropic"@
    } else if provider == "mistral"@ {
        "Mistral"@
    } else {
        provider
    }
}

/// The name of a provider as messages to the user write it; a name that is
/// not known stands for itself.
pub fn provider_title(provider: &str) -> (r: String)
    ensures
        r@ == title_of(provider@),
{
    let given = String::from_str(provider);
    if given == String::from_str("openai") {
        String::from_str("OpenAI")
    } else if given == String::from_str("anthropic") {
        String::from_str("Anthropic")
    } else if given == String::from_str("mistral") {
        String::from_str("Mistral")
    } else {
        given
    }
}

/// What a completion comes to: the first choice where there is one. Without a
/// choice, Mistral's reply is the empty text, and any other provider's is an
/// error that names the provider.
pub fn completion_reply(provider: &str, choices: Vec<String>) -> (r: Result<String, String>)
    ensures
        match r {
            Ok(s) => if choices@.len() > 0 {
                s@ == choices@[0]@
            } else {
                provider@ == "mistral"@ && s@ == Seq::<char>::empty()
            },
            Err(m) => choices@.len() == 0 && provider@ != "mistral"@ && m@ == title_of(provider@)
                + ": réponse vide"@,
        },
{
    match first_choice(choices) {
        Some(reply) => Ok(reply),
        None => {
            if String::from_str(provider) == String::from_str("mistral") {
                Ok(String::new())
            } else {
                Err(provider_title(provider).concat(": réponse vide"))
            }
        },
    }
}

} // verus!
