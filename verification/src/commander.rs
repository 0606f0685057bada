//! A commander: its callsign, the conversation with its model and its
//! artillery, and the decisions taken on each reply of the model.
use vstd::prelude::*;
use crate::artillery::{Artillery, ArtilleryModel, ArtilleryRegistry, Round};
use crate::text::{replace_all, replaced, same_text, starts_with, to_lowercase, lowercase};

verus! {

/// Who wrote a message of the conversation.
#[derive(PartialEq, Eq, Structural, Clone, Copy, Debug)]
pub enum Role {
    System,
    User,
    Assistant,
    Function,
}

/// The content of a message.
pub struct MessageModel {
    pub role: Role,
    pub content: Seq<char>,
    pub name: Option<Seq<char>>,
}

/// A message of the conversation with the model.
pub struct ChatMessage {
    pub role: Role,
    pub content: String,
    pub name: Option<String>,
}

impl View for ChatMessage {
    type V = MessageModel;

    open spec fn view(&self) -> MessageModel {
        MessageModel {
            role: self.role,
            content: self.content@,
            name: match self.name {
                Some(n) => Some(n@),
                None => None,
            },
        }
    }
}

/// The messages of a conversation, by their content.
pub open spec fn messages_model(v: Seq<ChatMessage>) -> Seq<MessageModel> {
    v.map_values(|m: ChatMessage| m@)
}

/// A copy of a message.
pub fn copy_message(m: &ChatMessage) -> (r: ChatMessage)
    ensures
        r@ == m@,
{
    ChatMessage {
        role: m.role,
        content: m.content.clone(),
        name: match &m.name {
            Some(n) => Some(n.clone()),
            None => None,
        },
    }
}

/// The text before the callsign in the commander's instructions.
pub open spec fn prompt_head() -> Seq<char> {
    "You are "@
}

/// The text after the callsign in the commander's instructions.
pub open spec fn prompt_tail() -> Seq<char> {
    ", a mobile artillery commander supporting field units in a military operation.\nYour job is to respond to requests from field units, providing support and information.\nWhen responding be as consise as possible, use military lingo, short responses save lifes, don't waste time with generic advice.\nThe field team does not know what support is avilable, offer them the available options or pick the most logical.\nThe shorter the response the better. Do not over explain or ask unnecessary questions.\nGive available rounds in this format, keeping it short and to the point: Shoelf has 1x HE, 2x Laser Guided\nIf the other party ends the conversation (having ended with out, for example), respond with 'no message', and no other text.\nUpon every request, before asking for confirmation, check the available artillery and ETA using the tools to ensure you have the latest information and the order is possible.\nDo not track the state of the rounds yourself, as other parties may change the state of the rounds.\nDo at most 1 destructive action at a time, always confirm details with the user."@
}

/// The instructions that open every request of a commander: who it is and
/// how it answers.
pub fn system_prompt(callsign: &str) -> (r: String)
    ensures
        r@ == prompt_head() + callsign@ + prompt_tail(),
{
    let mut r = String::from_str("You are ");
    r.append(callsign);
    r.append(
        ", a mobile artillery commander supporting field units in a military operation.\nYour job is to respond to requests from field units, providing support and information.\nWhen responding be as consise as possible, use military lingo, short responses save lifes, don't waste time with generic advice.\nThe field team does not know what support is avilable, offer them the available options or pick the most logical.\nThe shorter the response the better. Do not over explain or ask unnecessary questions.\nGive available rounds in this format, keeping it short and to the point: Shoelf has 1x HE, 2x Laser Guided\nIf the other party ends the conversation (having ended with out, for example), respond with 'no message', and no other text.\nUpon every request, before asking for confirmation, check the available artillery and ETA using the tools to ensure you have the latest information and the order is possible.\nDo not track the state of the rounds yourself, as other parties may change the state of the rounds.\nDo at most 1 destructive action at a time, always confirm details with the user.",
    );
    r
}

/// Why the model stopped.
#[derive(PartialEq, Eq, Structural, Clone, Copy, Debug)]
pub enum FinishReason {
    Stop,
    Length,
    ContentFilter,
    ToolCalls,
    Null,
}

/// A call of a tool that the model asks for.
pub struct ToolCall {
    pub name: String,
    pub arguments: String,
}

/// The first choice of a model's reply.
pub struct Completion {
    pub finish_reason: Option<FinishReason>,
    pub content: Option<String>,
    pub tool_calls: Option<Vec<ToolCall>>,
}

/// The tools a commander knows.
#[derive(PartialEq, Eq, Structural, Clone, Copy, Debug)]
pub enum ToolKind {
    Fire,
    Available,
    Eta,
    Unknown,
}

/// The tool that a name calls.
pub open spec fn tool_kind_of(name: Seq<char>) -> ToolKind {
    if name == "artillery_fire"@ {
        ToolKind::Fire
    } else if name == "artillery_available"@ {
        ToolKind::Available
    } else if name == "artillery_eta"@ {
        ToolKind::Eta
    } else {
        ToolKind::Unknown
    }
}

/// The tool that a name calls.
pub fn tool_kind(name: &str) -> (k: ToolKind)
    ensures
        k == tool_kind_of(name@),
{
    if same_text(name, "artillery_fire") {
        ToolKind::Fire
    } else if same_text(name, "artillery_available") {
        ToolKind::Available
    } else if same_text(name, "artillery_eta") {
        ToolKind::Eta
    } else {
        ToolKind::Unknown
    }
}

/// Every tool that a commander offers its model is one it can carry out.
pub proof fn lemma_offered_tools_are_known(tools: Seq<crate::tools::ToolSchema>)
    requires
        tools.len() == 3,
        crate::tools::is_fire_schema(tools[0]),
        crate::tools::is_available_schema(tools[1]),
        crate::tools::is_eta_schema(tools[2]),
    ensures
        tool_kind_of(tools[0].name@) == ToolKind::Fire,
        tool_kind_of(tools[1].name@) == ToolKind::Available,
        tool_kind_of(tools[2].name@) == ToolKind::Eta,
{
    reveal_strlit("artillery_fire");
    reveal_strlit("artillery_available");
    reveal_strlit("artillery_eta");
    assert("artillery_available"@.len() != "artillery_fire"@.len());
    assert("artillery_eta"@.len() != "artillery_fire"@.len());
    assert("artillery_eta"@.len() != "artillery_available"@.len());
}

/// Over a whole turn the conversation only grows: once a field unit's
/// message is appended, every later step (a reply, a tool call, a tool's
/// result) keeps what came before, so the history as it stood with the
/// message stays a prefix of the history at the end of the turn.
pub proof fn lemma_turn_keeps_history(
    before: Seq<MessageModel>,
    message: MessageModel,
    steps: Seq<Seq<MessageModel>>,
)
    requires
        steps.len() > 0,
        steps[0] == before.push(message),
        forall|i: int| 0 <= i < steps.len() - 1 ==> #[trigger] steps[i].is_prefix_of(steps[i + 1]),
    ensures
        before.push(message).is_prefix_of(steps.last()),
    decreases steps.len(),
{
    if steps.len() > 1 {
        let init = steps.drop_last();
        assert forall|i: int| 0 <= i < init.len() - 1 implies #[trigger] init[i].is_prefix_of(init[i + 1]) by {
            assert(steps[i].is_prefix_of(steps[i + 1]));
        }
        lemma_turn_keeps_history(before, message, init);
        let a = before.push(message);
        let b = init.last();
        let c = steps.last();
        let j = steps.len() - 2;
        assert(steps[j].is_prefix_of(steps[j + 1]));
        assert(steps[j] == b && steps[j + 1] == c);
        assert(a.is_prefix_of(c)) by {
            assert forall|k: int| 0 <= k < a.len() implies a[k] == c[k] by {
                assert(a[k] == b.subrange(0, a.len() as int)[k]);
                assert(b[k] == c.subrange(0, b.len() as int)[k]);
            }
            assert(a =~= c.subrange(0, a.len() as int));
        }
    }
}

/// What the model is told when it calls a tool that does not exist.
pub fn unknown_tool_reply() -> (r: String)
    ensures
        r@ == "unknown tool call"@,
{
    String::from_str("unknown tool call")
}

/// A tool call to carry out.
pub struct ToolInvocation {
    pub kind: ToolKind,
    pub name: String,
    pub arguments: String,
}

/// What a commander does after a reply of the model.
pub enum Step {
    /// The turn is over; the answer for the field unit, if there is one.
    Reply(Option<String>),
    /// Carry out these tool calls, record their results, and ask again.
    CallTools(Vec<ToolInvocation>),
}

/// Whether a reply ends the turn (every finish reason but a tool call).
pub open spec fn ends_turn(c: Completion) -> bool {
    !(c.finish_reason == Some(FinishReason::ToolCalls))
}

/// The text that the commander keeps of the model's answer.
pub open spec fn tidied_answer(content: Seq<char>) -> Seq<char> {
    replaced(content, "Over and out"@, "out"@)
}

/// Whether the answer means that nothing is to be said.
pub open spec fn is_silent_answer(answer: Seq<char>) -> bool {
    "no message"@.is_prefix_of(lowercase(answer))
}

/// Why a turn of the conversation could not be completed.
#[derive(PartialEq, Eq, Structural, Clone, Copy, Debug)]
pub enum ChatFailure {
    /// No client for the model could be made.
    Client,
    /// The model's service did not answer.
    Chat,
}

/// The error a field unit's message gets when its turn fails.
pub fn chat_failure_message(f: ChatFailure) -> (r: String)
    ensures
        f == ChatFailure::Client ==> r@ == "Error creating client"@,
        f == ChatFailure::Chat ==> r@ == "Error processing chat"@,
{
    match f {
        ChatFailure::Client => String::from_str("Error creating client"),
        ChatFailure::Chat => String::from_str("Error processing chat"),
    }
}

/// What follows a finished turn.
pub enum FollowUp {
    /// Have the answer spoken aloud.
    Speak(String),
    /// Speech was wanted but there is no answer to speak.
    NothingToSpeak,
    /// Speech was not wanted; the answer, if any, is only shown.
    Show(Option<String>),
}

/// What follows a finished turn, by whether the answer is to be spoken.
pub fn follow_up(speak: bool, answer: Option<String>) -> (f: FollowUp)
    ensures
        speak && answer is None ==> f is NothingToSpeak,
        speak && answer is Some ==> (f matches FollowUp::Speak(t) && t == answer->0),
        !speak ==> (f matches FollowUp::Show(a) && a == answer),
{
    if speak {
        match answer {
            Some(t) => FollowUp::Speak(t),
            None => FollowUp::NothingToSpeak,
        }
    } else {
        FollowUp::Show(answer)
    }
}

/// Only the words "no message", in any case, at the very start of an answer
/// silence it: an answer is silent exactly when its lower-cased text begins
/// with the ten characters `n`, `o`, space, `m`, `e`, `s`, `s`, `a`, `g`,
/// `e`; any other answer is handed back to the field unit.
pub proof fn lemma_silent_only_on_no_message(answer: Seq<char>)
    ensures
        is_silent_answer(answer) <==> {
            let l = lowercase(answer);
            &&& l.len() >= 10
            &&& l.subrange(0, 10) == seq!['n', 'o', ' ', 'm', 'e', 's', 's', 'a', 'g', 'e']
        },
{
    reveal_strlit("no message");
    assert("no message"@ =~= seq!['n', 'o', ' ', 'm', 'e', 's', 's', 'a', 'g', 'e']);
}

/// The conversation and the artillery of a commander.
pub struct CommanderInner {
    pub history: Vec<ChatMessage>,
    pub artillery: ArtilleryRegistry,
}

impl CommanderInner {
    /// An empty conversation and no artillery.
    pub fn new() -> (r: CommanderInner)
        ensures
            r.history@.len() == 0,
            r.artillery@ == Map::<Seq<char>, ArtilleryModel>::empty(),
    {
        CommanderInner { history: Vec::new(), artillery: ArtilleryRegistry::new() }
    }
}

/// A commander: an AI artillery officer that field units talk to.
pub struct Commander {
    callsign: String,
    inner: CommanderInner,
}

impl Commander {
    /// The commander's callsign.
    pub closed spec fn spec_callsign(&self) -> Seq<char> {
        self.callsign@
    }

    /// The conversation so far.
    pub closed spec fn history(&self) -> Seq<MessageModel> {
        messages_model(self.inner.history@)
    }

    /// The registered artillery, by id.
    pub closed spec fn artillery(&self) -> Map<Seq<char>, ArtilleryModel> {
        self.inner.artillery@
    }

    /// A commander with the given callsign, no conversation and no artillery.
    pub fn new(callsign: String) -> (c: Commander)
        ensures
            c.spec_callsign() == callsign@,
            c.history().len() == 0,
            c.artillery() == Map::<Seq<char>, ArtilleryModel>::empty(),
    {
        let c = Commander { callsign, inner: CommanderInner::new() };
        assert(c.history() =~= Seq::<MessageModel>::empty());
        c
    }

    /// The commander's callsign.
    pub fn callsign(&self) -> (r: &str)
        ensures
            r@ == self.spec_callsign(),
    {
        self.callsign.as_str()
    }

    /// The conversation and artillery, to read.
    pub fn inner(&self) -> (r: &CommanderInner)
        ensures
            messages_model(r.history@) == self.history(),
            r.artillery@ == self.artillery(),
    {
        &self.inner
    }

    /// Registers an artillery unit with its rounds, replacing a unit with the same id.
    pub fn set_artillery(&mut self, id: String, name: String, rounds: Vec<Round>)
        ensures
            final(self).artillery() == old(self).artillery().insert(
                id@,
                ArtilleryModel { id: id@, name: name@, rounds: rounds@.map_values(|r: Round| r@) },
            ),
            final(self).history() == old(self).history(),
            final(self).spec_callsign() == old(self).spec_callsign(),
    {
        let unit = Artillery { id: id.clone(), name, rounds };
        self.inner.artillery.insert(unit);
    }

    /// Removes an artillery unit, if it was registered.
    pub fn remove_artillery(&mut self, id: &str)
        ensures
            final(self).artillery() == old(self).artillery().remove(id@),
            final(self).history() == old(self).history(),
            final(self).spec_callsign() == old(self).spec_callsign(),
    {
        let _ = self.inner.artillery.remove(id);
    }

    /// A field unit's message joins the conversation.
    pub fn push_user(&mut self, message: String)
        ensures
            final(self).history() == old(self).history().push(
                MessageModel { role: Role::User, content: message@, name: None },
            ),
            final(self).artillery() == old(self).artillery(),
            final(self).spec_callsign() == old(self).spec_callsign(),
    {
        let ghost before = self.inner.history@;
        self.inner.history.push(ChatMessage { role: Role::User, content: message, name: None });
        assert(self.history() =~= messages_model(before).push(
            MessageModel { role: Role::User, content: message@, name: None },
        ));
    }

    /// The messages of the next request: the instructions, then the whole conversation.
    pub fn request_messages(&self) -> (v: Vec<ChatMessage>)
        ensures
            messages_model(v@) == seq![
                MessageModel {
                    role: Role::System,
                    content: prompt_head() + self.spec_callsign() + prompt_tail(),
                    name: None,
                },
            ] + self.history(),
    {
        let mut v: Vec<ChatMessage> = Vec::new();
        v.push(ChatMessage { role: Role::System, content: system_prompt(self.callsign.as_str()), name: None });
        let mut i: usize = 0;
        while i < self.inner.history.len()
            invariant
                i <= self.inner.history@.len(),
                v@.len() == i + 1,
                v@[0]@ == (MessageModel {
                    role: Role::System,
                    content: prompt_head() + self.spec_callsign() + prompt_tail(),
                    name: None,
                }),
                forall|k: int| 0 <= k < i ==> #[trigger] v@[k + 1]@ == self.inner.history@[k]@,
            decreases self.inner.history@.len() - i,
        {
            let m = copy_message(&self.inner.history[i]);
            v.push(m);
            i = i + 1;
        }
        let ghost expected = seq![
            MessageModel {
                role: Role::System,
                content: prompt_head() + self.spec_callsign() + prompt_tail(),
                name: None,
            },
        ] + self.history();
        assert forall|k: int| 0 <= k < v@.len() implies messages_model(v@)[k] == expected[k] by {
            if k > 0 {
                assert(v@[(k - 1) + 1]@ == self.inner.history@[k - 1]@);
            }
        }
        assert(messages_model(v@) =~= seq![
            MessageModel {
                role: Role::System,
                content: prompt_head() + self.spec_callsign() + prompt_tail(),
                name: None,
            },
        ] + self.history());
        v
    }

    /// Takes the model's reply. A finished answer joins the conversation
    /// (with "Over and out" shortened to "out") and ends the turn: it is
    /// handed back unless it says "no message". A call for tools names the
    /// tools to carry out.
    pub fn receive(&mut self, reply: Completion) -> (step: Step)
        requires
            !ends_turn(reply) ==> reply.tool_calls is Some,
        ensures
            final(self).artillery() == old(self).artillery(),
            final(self).spec_callsign() == old(self).spec_callsign(),
            ends_turn(reply) ==> match reply.content {
                Some(c) => {
                    &&& final(self).history() == old(self).history().push(
                        MessageModel { role: Role::Assistant, content: tidied_answer(c@), name: None },
                    )
                    &&& if is_silent_answer(tidied_answer(c@)) {
                        step matches Step::Reply(None)
                    } else {
                        step matches Step::Reply(Some(a)) && a@ == tidied_answer(c@)
                    }
                },
                None => final(self).history() == old(self).history() && step matches Step::Reply(None),
            },
            !ends_turn(reply) ==> {
                &&& final(self).history() == old(self).history()
                &&& step matches Step::CallTools(calls)
                &&& calls@.len() == reply.tool_calls->0@.len()
                &&& forall|i: int| 0 <= i < calls@.len() ==> {
                    let c = #[trigger] calls@[i];
                    let t = reply.tool_calls->0@[i];
                    &&& c.name@ == t.name@
                    &&& c.arguments@ == t.arguments@
                    &&& c.kind == tool_kind_of(t.name@)
                }
            },
    {
        let is_tools = match reply.finish_reason {
            Some(FinishReason::ToolCalls) => true,
            _ => false,
        };
        if !is_tools {
            match reply.content {
                Some(c) => {
                    let answer = replace_all(c.as_str(), "Over and out", "out");
                    let lower = to_lowercase(answer.as_str());
                    let silent = starts_with(lower.as_str(), "no message");
                    let ghost before = self.inner.history@;
                    self.inner.history.push(
                        ChatMessage { role: Role::Assistant, content: answer.clone(), name: None },
                    );
                    assert(self.history() =~= messages_model(before).push(
                        MessageModel { role: Role::Assistant, content: answer@, name: None },
                    ));
                    if silent {
                        Step::Reply(None)
                    } else {
                        Step::Reply(Some(answer))
                    }
                },
                None => Step::Reply(None),
            }
        } else {
            let calls = match reply.tool_calls {
                Some(v) => v,
                None => Vec::new(),
            };
            let mut out: Vec<ToolInvocation> = Vec::new();
            let mut i: usize = 0;
            while i < calls.len()
                invariant
                    i <= calls@.len(),
                    out@.len() == i,
                    forall|k: int| 0 <= k < i ==> {
                        let c = #[trigger] out@[k];
                        let t = calls@[k];
                        &&& c.name@ == t.name@
                        &&& c.arguments@ == t.arguments@
                        &&& c.kind == tool_kind_of(t.name@)
                    },
                decreases calls@.len() - i,
            {
                let call = &calls[i];
                let kind = tool_kind(call.name.as_str());
                out.push(ToolInvocation { kind, name: call.name.clone(), arguments: call.arguments.clone() });
                i = i + 1;
            }
            Step::CallTools(out)
        }
    }

    /// A tool's result joins the conversation as a message of the function
    /// role, under the tool's name.
    pub fn record_tool_result(&mut self, name: String, response: String)
        ensures
            final(self).history() == old(self).history().push(
                MessageModel { role: Role::Function, content: response@, name: Some(name@) },
            ),
            final(self).artillery() == old(self).artillery(),
            final(self).spec_callsign() == old(self).spec_callsign(),
    {
        let ghost before = self.inner.history@;
        self.inner.history.push(ChatMessage { role: Role::Function, content: response, name: Some(name) });
        assert(self.history() =~= messages_model(before).push(
            MessageModel { role: Role::Function, content: response@, name: Some(name@) },
        ));
    }
}

} // verus!
