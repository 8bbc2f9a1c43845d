//! The agent: a credential, a model, a system prompt and a tool catalog, and
//! the run that drives them.

use vstd::prelude::*;
use crate::catalog::Catalog;
use crate::message::{
    AgentError, BlockModel, ContentBlock, ErrorModel, Message, Tool, blocks_view, messages_view,
    tools_view,
};
use crate::session::{
    PhaseModel, SessionModel, Step, batch_block, blocks_of, invocation_name, is_terminal,
    lemma_tool_positions, outcome_spec, poll_spec, reply_spec, session_wf, start_spec,
    tool_output_spec, tool_positions,
};
use crate::wire::{ApiRequest, Reply, build_request, request_spec};

verus! {

/// Where a run stands.
#[derive(Debug, Clone, PartialEq)]
pub enum Phase {
    AwaitingModel,
    ExecutingTools,
    Done,
    Cancelled,
    Failed(AgentError),
}

impl View for Phase {
    type V = PhaseModel;

    open spec fn view(&self) -> PhaseModel {
        match self {
            Phase::AwaitingModel => PhaseModel::AwaitingModel,
            Phase::ExecutingTools => PhaseModel::ExecutingTools,
            Phase::Done => PhaseModel::Done,
            Phase::Cancelled => PhaseModel::Cancelled,
            Phase::Failed(e) => PhaseModel::Failed(e@),
        }
    }
}

/// What the driver of a run must do next.
#[derive(Debug, Clone, PartialEq)]
pub enum Action {
    /// Send the conversation to the backend and hand the outcome to
    /// [`Session::on_reply`].
    Exchange,
    /// Run the capability at `entry` of the catalog on `input` and hand the
    /// outcome to [`Session::on_tool_output`].
    Execute { entry: usize, input: serde_json::Value },
    /// The run is over; [`Session::outcome`] tells how.
    Finish,
}

/// The input of an invocation block.
pub open spec fn invocation_input(b: BlockModel) -> serde_json::Value
    recommends
        b is ToolUse,
{
    match b {
        BlockModel::ToolUse { input, .. } => input,
        _ => arbitrary(),
    }
}

/// The abstract reply, or failure, of one exchange.
pub open spec fn reply_view(reply: Result<Reply, AgentError>) -> Result<(Seq<BlockModel>, Seq<char>), ErrorModel> {
    match reply {
        Ok(r) => Ok((r@.content, r@.stop_reason)),
        Err(e) => Err(e@),
    }
}

/// One run: the conversation, which only grows, and the decisions of the
/// turn-taking state machine.
pub struct Session {
    history: Vec<Message>,
    source: usize,
    batch: Vec<usize>,
    next: usize,
    phase: Phase,
}

impl View for Session {
    type V = SessionModel;

    closed spec fn view(&self) -> SessionModel {
        SessionModel {
            history: messages_view(self.history@),
            source: self.source as int,
            batch: self.batch@.map_values(|p: usize| p as int),
            next: self.next as int,
            phase: self.phase@,
        }
    }
}

/// The positions of the invocation blocks among `blocks`, in order.
fn tool_positions_of(blocks: &Vec<ContentBlock>) -> (r: Vec<usize>)
    ensures
        r@.map_values(|p: usize| p as int) == tool_positions(blocks_view(blocks@)),
{
    let ghost all = blocks_view(blocks@);
    let mut out: Vec<usize> = Vec::new();
    let mut i: usize = 0;
    while i < blocks.len()
        invariant
            i <= blocks@.len(),
            all == blocks_view(blocks@),
            out@.map_values(|p: usize| p as int) == tool_positions(all.take(i as int)),
        decreases blocks@.len() - i,
    {
        let ghost before = out@;
        assert(all.take(i + 1).drop_last() =~= all.take(i as int));
        assert(all.take(i + 1).last() == blocks@[i as int]@);
        match &blocks[i] {
            ContentBlock::ToolUse { .. } => {
                out.push(i);
                assert(out@.map_values(|p: usize| p as int) =~= before.map_values(
                    |p: usize| p as int,
                ).push(i as int));
            },
            _ => {},
        }
        i += 1;
    }
    assert(all.take(blocks@.len() as int) =~= all);
    out
}

impl Session {
    /// Whether the run's invariant holds.
    pub open spec fn wf(&self) -> bool {
        session_wf(self@)
    }

    /// A run that starts from the caller's prompt, waiting for the model.
    pub fn start(prompt: String) -> (r: Session)
        ensures
            r.wf(),
            r@ == start_spec(prompt@),
    {
        let mut history: Vec<Message> = Vec::new();
        history.push(Message::User { content: prompt });
        let s = Session {
            history,
            source: 0,
            batch: Vec::new(),
            next: 0,
            phase: Phase::AwaitingModel,
        };
        assert(s@.history =~= start_spec(prompt@).history);
        assert(s@.batch =~= Seq::<int>::empty());
        s
    }

    /// The conversation so far.
    pub fn history(&self) -> (r: &Vec<Message>)
        ensures
            messages_view(r@) == self@.history,
    {
        &self.history
    }

    /// Where the run stands.
    pub fn phase(&self) -> (r: &Phase)
        ensures
            r@ == self@.phase,
    {
        &self.phase
    }

    /// Decides the next step. Waiting for the model, it checks `cancelled`
    /// first and ends the run without an exchange when it is set; serving
    /// tools, it looks up the current invocation's tool in `catalog` and ends
    /// the run with `ToolNotFound` when it is missing.
    pub fn next_action<C>(&mut self, cancelled: bool, catalog: &Catalog<C>) -> (r: Action)
        requires
            old(self).wf(),
        ensures
            final(self).wf(),
            final(self)@ == poll_spec(old(self)@, cancelled, catalog.names()).0,
            poll_spec(old(self)@, cancelled, catalog.names()).1 is Exchange <==> r is Exchange,
            poll_spec(old(self)@, cancelled, catalog.names()).1 is Finish <==> r is Finish,
            r is Finish <==> is_terminal(final(self)@.phase),
            r matches Action::Execute { entry, input } ==> {
                let b = batch_block(old(self)@, old(self)@.next);
                &&& poll_spec(old(self)@, cancelled, catalog.names()).1 == Step::Execute(
                    old(self)@.batch[old(self)@.next],
                )
                &&& entry < catalog.names().len()
                &&& catalog.names()[entry as int] == invocation_name(b)
                &&& forall|j: int| 0 <= j < entry ==> catalog.names()[j] != invocation_name(b)
                &&& input == invocation_input(b)
            },
    {
        if matches!(self.phase, Phase::AwaitingModel) {
            if cancelled {
                self.phase = Phase::Cancelled;
                Action::Finish
            } else {
                Action::Exchange
            }
        } else if matches!(self.phase, Phase::ExecutingTools) {
            let ghost s = self@;
            proof {
                lemma_tool_positions(blocks_of(s.history[s.source]));
                assert(s.batch[s.next] == self.batch@[self.next as int] as int);
            }
            let pos = self.batch[self.next];
            let found: Result<(usize, serde_json::Value), String> = match &self.history[self.source] {
                Message::Assistant { content } => {
                    assert(blocks_view(content@)[pos as int] == content@[pos as int]@);
                    match &content[pos] {
                        ContentBlock::ToolUse { name, input, .. } => match catalog.position(name) {
                            Some(entry) => Ok((entry, input.clone())),
                            None => Err(name.clone()),
                        },
                        ContentBlock::Text { .. } => {
                            assert(false);
                            Err(String::new())
                        },
                    }
                },
                _ => {
                    assert(false);
                    Err(String::new())
                },
            };
            match found {
                Ok((entry, input)) => Action::Execute { entry, input },
                Err(name) => {
                    self.phase = Phase::Failed(AgentError::ToolNotFound(name));
                    Action::Finish
                },
            }
        } else {
            Action::Finish
        }
    }

    /// Takes in the outcome of an exchange while waiting for the model: the
    /// reply's blocks become an assistant turn, and its stop signal decides
    /// what follows; a failure ends the run with that error.
    pub fn on_reply(&mut self, reply: Result<Reply, AgentError>)
        requires
            old(self).wf(),
        ensures
            final(self).wf(),
            final(self)@ == reply_spec(old(self)@, reply_view(reply)),
    {
        if !matches!(self.phase, Phase::AwaitingModel) {
            return ;
        }
        match reply {
            Err(e) => {
                self.phase = Phase::Failed(e);
            },
            Ok(Reply { content, stop_reason }) => {
                let ghost s = self@;
                let ghost blocks = blocks_view(content@);
                let positions = tool_positions_of(&content);
                let tool_use = stop_reason.eq(&"tool_use".to_string());
                let source = self.history.len();
                self.history.push(Message::Assistant { content });
                assert(self@.history =~= s.history.push(
                    crate::message::MessageModel::Assistant { content: blocks },
                ));
                if tool_use {
                    let empty = positions.len() == 0;
                    self.source = source;
                    self.batch = positions;
                    self.next = 0;
                    if empty {
                        self.phase = Phase::AwaitingModel;
                    } else {
                        self.phase = Phase::ExecutingTools;
                    }
                } else {
                    self.phase = Phase::Done;
                }
            },
        }
    }

    /// Takes in the outcome of the current invocation: its output, or its
    /// error message behind `"Error: "`, is appended as a tool result with the
    /// invocation's id. After the last of the batch the model is asked again.
    pub fn on_tool_output(&mut self, output: Result<String, String>)
        requires
            old(self).wf(),
        ensures
            final(self).wf(),
            final(self)@ == tool_output_spec(
                old(self)@,
                match output {
                    Ok(t) => Ok(t@),
                    Err(m) => Err(m@),
                },
            ),
    {
        if !matches!(self.phase, Phase::ExecutingTools) {
            return ;
        }
        let ghost s = self@;
        proof {
            lemma_tool_positions(blocks_of(s.history[s.source]));
            assert(s.batch[s.next] == self.batch@[self.next as int] as int);
        }
        let total = self.batch.len();
        assert(self.next < total);
        let pos = self.batch[self.next];
        let id = match &self.history[self.source] {
            Message::Assistant { content } => {
                assert(blocks_view(content@)[pos as int] == content@[pos as int]@);
                match &content[pos] {
                    ContentBlock::ToolUse { id, .. } => id.clone(),
                    ContentBlock::Text { .. } => {
                        assert(false);
                        String::new()
                    },
                }
            },
            _ => {
                assert(false);
                String::new()
            },
        };
        let text = match output {
            Ok(t) => t,
            Err(m) => "Error: ".to_string().concat(m.as_str()),
        };
        self.history.push(Message::ToolResult { tool_use_id: id, content: text });
        self.next = self.next + 1;
        if self.next >= total {
            self.phase = Phase::AwaitingModel;
        }
        assert(self@.history[s.source] == s.history[s.source]);
        assert(self@.history =~= tool_output_spec(
            s,
            match output {
                Ok(t) => Ok(t@),
                Err(m) => Err(m@),
            },
        ).history);
    }

    /// What the finished run hands back: the whole conversation when it
    /// completed, or the error that ended it.
    pub fn outcome(self) -> (r: Result<Vec<Message>, AgentError>)
        requires
            is_terminal(self@.phase),
        ensures
            match outcome_spec(self@) {
                Ok(h) => r matches Ok(v) && messages_view(v@) == h,
                Err(e) => r matches Err(x) && x@ == e,
            },
    {
        match self.phase {
            Phase::Failed(e) => Err(e),
            Phase::Cancelled => Err(AgentError::Cancelled),
            _ => Ok(self.history),
        }
    }
}

/// The text of the error raised when no credential is supplied.
pub open spec fn missing_credential_text() -> Seq<char> {
    "no API credential was supplied"@
}

/// A system prompt, the tools advertised to the model, and the catalog of
/// capabilities that its requests are served from, with the credential that
/// every exchange carries.
pub struct Agent<C> {
    credential: String,
    model: String,
    system_prompt: String,
    tools: Vec<Tool>,
    catalog: Catalog<C>,
}

impl<C> Agent<C> {
    /// The credential's text.
    pub closed spec fn credential_view(&self) -> Seq<char> {
        self.credential@
    }

    /// The model's identifier.
    pub closed spec fn model_view(&self) -> Seq<char> {
        self.model@
    }

    /// The system prompt.
    pub closed spec fn system_view(&self) -> Seq<char> {
        self.system_prompt@
    }

    /// The tools advertised to the model.
    pub closed spec fn tools_model(&self) -> Seq<crate::message::ToolModel> {
        tools_view(self.tools@)
    }

    /// The catalog of capabilities.
    pub closed spec fn catalog_view(&self) -> Catalog<C> {
        self.catalog
    }

    /// An agent that talks to `model`. Fails with a configuration error when
    /// no credential is supplied.
    pub fn new(
        credential: Option<String>,
        model: String,
        system_prompt: String,
        tools: Vec<Tool>,
        implementations: Vec<(String, C)>,
    ) -> (r: Result<Self, AgentError>)
        ensures
            credential is None <==> r is Err,
            r matches Err(e) ==> e@ == ErrorModel::ConfigError(missing_credential_text()),
            r matches Ok(a) ==> {
                &&& a.credential_view() == credential->Some_0@
                &&& a.model_view() == model@
                &&& a.system_view() == system_prompt@
                &&& a.tools_model() == tools_view(tools@)
                &&& a.catalog_view().names() == implementations@.map_values(
                    |e: (String, C)| e.0@,
                )
                &&& forall|i: int|
                    0 <= i < implementations@.len() ==> a.catalog_view().capability_at(i)
                        == implementations@[i].1
            },
    {
        match credential {
            None => Err(AgentError::ConfigError("no API credential was supplied".to_string())),
            Some(credential) => Ok(
                Agent {
                    credential,
                    model,
                    system_prompt,
                    tools,
                    catalog: Catalog::new(implementations),
                },
            ),
        }
    }

    /// The credential that every exchange carries.
    pub fn credential(&self) -> (r: &str)
        ensures
            r@ == self.credential_view(),
    {
        self.credential.as_str()
    }

    /// The catalog that invocations are served from.
    pub fn catalog(&self) -> (r: &Catalog<C>)
        ensures
            *r == self.catalog_view(),
    {
        &self.catalog
    }

    /// The request that asks the model to continue the run's conversation.
    pub fn request(&self, session: &Session) -> (r: ApiRequest)
        ensures
            r@ == request_spec(
                self.model_view(),
                self.system_view(),
                self.tools_model(),
                session@.history,
            ),
    {
        let history = session.history();
        build_request(
            self.model.as_str(),
            self.system_prompt.as_str(),
            self.tools.as_slice(),
            history.as_slice(),
        )
    }
}

} // verus!
