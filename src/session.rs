//! The turn-taking state machine of a run: ask the model, run the tools it
//! asks for, ask again, until it stops or the caller cancels.
//!
//! The machine decides; whoever drives it performs the exchanges and runs the
//! capabilities, and hands each outcome back.

use vstd::prelude::*;
use crate::message::{BlockModel, ErrorModel, MessageModel};

verus! {

/// Where a run stands.
pub enum PhaseModel {
    AwaitingModel,
    ExecutingTools,
    Done,
    Cancelled,
    Failed(ErrorModel),
}

/// The abstract state of a run: the conversation so far and, while tools run,
/// the batch of invocations being served.
pub struct SessionModel {
    pub history: Seq<MessageModel>,
    /// Index in `history` of the assistant turn whose invocations are served.
    pub source: int,
    /// Positions of that turn's invocation blocks, in order.
    pub batch: Seq<int>,
    /// How many of them have been served.
    pub next: int,
    pub phase: PhaseModel,
}

/// What the driver must do next.
pub enum Step {
    /// Send the conversation to the backend and hand back its reply.
    Exchange,
    /// Run the invocation at this position of the assistant turn being served.
    Execute(int),
    /// The run is over.
    Finish,
}

/// The blocks of an assistant turn; none for other turns.
pub open spec fn blocks_of(m: MessageModel) -> Seq<BlockModel> {
    match m {
        MessageModel::Assistant { content } => content,
        _ => Seq::empty(),
    }
}

/// The tool name of an invocation block.
pub open spec fn invocation_name(b: BlockModel) -> Seq<char> {
    match b {
        BlockModel::ToolUse { name, .. } => name,
        _ => Seq::empty(),
    }
}

/// The id of an invocation block.
pub open spec fn invocation_id(b: BlockModel) -> Seq<char> {
    match b {
        BlockModel::ToolUse { id, .. } => id,
        _ => Seq::empty(),
    }
}

/// The positions of the invocation blocks among `blocks`, in order.
pub open spec fn tool_positions(blocks: Seq<BlockModel>) -> Seq<int>
    decreases blocks.len(),
{
    if blocks.len() == 0 {
        Seq::empty()
    } else {
        let rest = tool_positions(blocks.drop_last());
        if blocks.last() is ToolUse {
            rest.push(blocks.len() - 1)
        } else {
            rest
        }
    }
}

/// The `k`-th invocation of the batch being served.
pub open spec fn batch_block(s: SessionModel, k: int) -> BlockModel {
    blocks_of(s.history[s.source])[s.batch[k]]
}

/// The text recorded for a tool's outcome: its output as it is, or its error
/// message behind `"Error: "`.
pub open spec fn result_text(out: Result<Seq<char>, Seq<char>>) -> Seq<char> {
    match out {
        Ok(t) => t,
        Err(m) => "Error: "@ + m,
    }
}

/// Whether the run is over.
pub open spec fn is_terminal(p: PhaseModel) -> bool {
    p is Done || p is Cancelled || p is Failed
}

/// The invariant of a run.
pub open spec fn session_wf(s: SessionModel) -> bool {
    &&& s.history.len() > 0
    &&& s.history[0] is User
    &&& s.phase is ExecutingTools ==> {
        &&& 0 <= s.source < s.history.len()
        &&& s.history[s.source] is Assistant
        &&& s.batch == tool_positions(blocks_of(s.history[s.source]))
        &&& 0 <= s.next < s.batch.len()
    }
}

/// A run that starts from `prompt`.
pub open spec fn start_spec(prompt: Seq<char>) -> SessionModel {
    SessionModel {
        history: seq![MessageModel::User { content: prompt }],
        source: 0,
        batch: Seq::empty(),
        next: 0,
        phase: PhaseModel::AwaitingModel,
    }
}

/// The decision at the top of each step. Waiting for the model, a set
/// cancellation signal ends the run before any exchange; serving tools, an
/// invocation whose name the catalog lacks ends it with `ToolNotFound`.
pub open spec fn poll_spec(s: SessionModel, cancelled: bool, names: Seq<Seq<char>>) -> (
    SessionModel,
    Step,
) {
    match s.phase {
        PhaseModel::AwaitingModel => if cancelled {
            (SessionModel { phase: PhaseModel::Cancelled, ..s }, Step::Finish)
        } else {
            (s, Step::Exchange)
        },
        PhaseModel::ExecutingTools => {
            let name = invocation_name(batch_block(s, s.next));
            if names.contains(name) {
                (s, Step::Execute(s.batch[s.next]))
            } else {
                (
                    SessionModel { phase: PhaseModel::Failed(ErrorModel::ToolNotFound(name)), ..s },
                    Step::Finish,
                )
            }
        },
        _ => (s, Step::Finish),
    }
}

/// The state after the backend's reply, or its failure, while waiting for the
/// model. The reply's blocks become an assistant turn. `"end_turn"` ends the
/// run; `"tool_use"` starts serving its invocations (none: ask again); any
/// other signal ends the run too.
pub open spec fn reply_spec(s: SessionModel, reply: Result<(Seq<BlockModel>, Seq<char>), ErrorModel>) -> SessionModel {
    if !(s.phase is AwaitingModel) {
        s
    } else {
        match reply {
            Err(e) => SessionModel { phase: PhaseModel::Failed(e), ..s },
            Ok((content, stop)) => {
                let history = s.history.push(MessageModel::Assistant { content });
                if stop == "tool_use"@ {
                    let batch = tool_positions(content);
                    SessionModel {
                        history,
                        source: s.history.len() as int,
                        batch,
                        next: 0,
                        phase: if batch.len() == 0 {
                            PhaseModel::AwaitingModel
                        } else {
                            PhaseModel::ExecutingTools
                        },
                    }
                } else {
                    SessionModel { history, phase: PhaseModel::Done, ..s }
                }
            },
        }
    }
}

/// The state after the current invocation's outcome: a tool result with its
/// id is appended; after the last of the batch, the model is asked again.
pub open spec fn tool_output_spec(s: SessionModel, out: Result<Seq<char>, Seq<char>>) -> SessionModel {
    if !(s.phase is ExecutingTools) {
        s
    } else {
        let b = batch_block(s, s.next);
        let history = s.history.push(
            MessageModel::ToolResult { tool_use_id: invocation_id(b), content: result_text(out) },
        );
        SessionModel {
            history,
            next: s.next + 1,
            phase: if s.next + 1 < s.batch.len() {
                PhaseModel::ExecutingTools
            } else {
                PhaseModel::AwaitingModel
            },
            ..s
        }
    }
}

/// What a finished run hands back: the whole conversation, or its error.
pub open spec fn outcome_spec(s: SessionModel) -> Result<Seq<MessageModel>, ErrorModel> {
    match s.phase {
        PhaseModel::Failed(e) => Err(e),
        PhaseModel::Cancelled => Err(ErrorModel::Cancelled),
        _ => Ok(s.history),
    }
}

/// Every position of `tool_positions(blocks)` holds an invocation, and the
/// positions increase.
pub proof fn lemma_tool_positions(blocks: Seq<BlockModel>)
    ensures
        forall|k: int|
            0 <= k < tool_positions(blocks).len() ==> {
                &&& 0 <= #[trigger] tool_positions(blocks)[k] < blocks.len()
                &&& blocks[tool_positions(blocks)[k]] is ToolUse
            },
        forall|k: int, l: int|
            0 <= k < l < tool_positions(blocks).len() ==> tool_positions(blocks)[k]
                < tool_positions(blocks)[l],
    decreases blocks.len(),
{
    if blocks.len() > 0 {
        lemma_tool_positions(blocks.drop_last());
        let rest = tool_positions(blocks.drop_last());
        assert forall|k: int| 0 <= k < rest.len() implies blocks[rest[k]] == blocks.drop_last()[rest[k]] by {}
    }
}

/// A reply that stops with `"end_turn"` ends the run successfully: the
/// conversation handed back ends with the assistant turn just produced, with
/// no tool result after it, and no further step is asked for.
pub proof fn lemma_end_turn_completes(
    s: SessionModel,
    content: Seq<BlockModel>,
    cancelled: bool,
    names: Seq<Seq<char>>,
)
    requires
        session_wf(s),
        s.phase is AwaitingModel,
    ensures
        ({
            let t = reply_spec(s, Ok((content, "end_turn"@)));
            &&& session_wf(t)
            &&& t.phase is Done
            &&& t.history == s.history.push(MessageModel::Assistant { content })
            &&& t.history.last() == MessageModel::Assistant { content }
            &&& outcome_spec(t) == Ok::<Seq<MessageModel>, ErrorModel>(t.history)
            &&& poll_spec(t, cancelled, names).1 is Finish
        }),
{
    reveal_strlit("end_turn");
    reveal_strlit("tool_use");
    assert("end_turn"@ != "tool_use"@) by {
        assert("end_turn"@[0] != "tool_use"@[0]);
    }
}

/// A run whose cancellation signal is set before the first step ends with
/// `Cancelled`, and asks for no exchange.
pub proof fn lemma_cancel_before_first_turn(prompt: Seq<char>, names: Seq<Seq<char>>)
    ensures
        ({
            let (t, step) = poll_spec(start_spec(prompt), true, names);
            &&& step is Finish
            &&& outcome_spec(t) == Err::<Seq<MessageModel>, ErrorModel>(ErrorModel::Cancelled)
        }),
{
}

/// An invocation of a tool that the catalog lacks ends the run with
/// `ToolNotFound` of its name; the results already appended for the same batch
/// stay in the conversation.
pub proof fn lemma_missing_tool_fails(s: SessionModel, cancelled: bool, names: Seq<Seq<char>>)
    requires
        session_wf(s),
        s.phase is ExecutingTools,
        !names.contains(invocation_name(batch_block(s, s.next))),
    ensures
        ({
            let (t, step) = poll_spec(s, cancelled, names);
            &&& step is Finish
            &&& t.history == s.history
            &&& outcome_spec(t) == Err::<Seq<MessageModel>, ErrorModel>(
                ErrorModel::ToolNotFound(invocation_name(batch_block(s, s.next))),
            )
        }),
{
}

/// The conversation only grows: no step removes, reorders or changes a
/// message already in it, and every step keeps the run's invariant, so the
/// first message stays the caller's prompt.
pub proof fn lemma_history_only_grows(
    s: SessionModel,
    cancelled: bool,
    names: Seq<Seq<char>>,
    reply: Result<(Seq<BlockModel>, Seq<char>), ErrorModel>,
    out: Result<Seq<char>, Seq<char>>,
)
    requires
        session_wf(s),
    ensures
        s.history.is_prefix_of(poll_spec(s, cancelled, names).0.history),
        s.history.is_prefix_of(reply_spec(s, reply).history),
        s.history.is_prefix_of(tool_output_spec(s, out).history),
        session_wf(poll_spec(s, cancelled, names).0),
        session_wf(reply_spec(s, reply)),
        session_wf(tool_output_spec(s, out)),
{
    let r = reply_spec(s, reply);
    let t = tool_output_spec(s, out);
    assert(s.history.is_prefix_of(r.history)) by {
        if r.history.len() > s.history.len() {
            assert(r.history.subrange(0, s.history.len() as int) =~= s.history);
        }
    }
    assert(s.history.is_prefix_of(t.history)) by {
        if t.history.len() > s.history.len() {
            assert(t.history.subrange(0, s.history.len() as int) =~= s.history);
        }
    }
    if s.phase is ExecutingTools {
        assert(t.history[s.source] == s.history[s.source]);
    }
}

/// The state after the outcomes `outs` of the first invocations of a batch.
pub open spec fn serve_spec(s: SessionModel, outs: Seq<Result<Seq<char>, Seq<char>>>) -> SessionModel
    decreases outs.len(),
{
    if outs.len() == 0 {
        s
    } else {
        tool_output_spec(serve_spec(s, outs.drop_last()), outs.last())
    }
}

/// The tool results of a batch: one per invocation of `content`, carrying its
/// id and the text of its outcome, in invocation order.
pub open spec fn batch_results(content: Seq<BlockModel>, outs: Seq<Result<Seq<char>, Seq<char>>>) -> Seq<MessageModel> {
    Seq::new(
        outs.len(),
        |k: int|
            MessageModel::ToolResult {
                tool_use_id: invocation_id(content[tool_positions(content)[k]]),
                content: result_text(outs[k]),
            },
    )
}

/// A reply that stops with `"tool_use"` and holds N invocations, all of tools
/// in the catalog, gets exactly N tool results appended, one per invocation,
/// with its id, in invocation order; each step before the last result runs the
/// next invocation, and only then is the model asked again.
pub proof fn lemma_tool_batch_answered(
    s: SessionModel,
    content: Seq<BlockModel>,
    outs: Seq<Result<Seq<char>, Seq<char>>>,
    cancelled: bool,
    names: Seq<Seq<char>>,
)
    requires
        session_wf(s),
        s.phase is AwaitingModel,
        outs.len() == tool_positions(content).len(),
        forall|k: int|
            0 <= k < tool_positions(content).len() ==> names.contains(
                invocation_name(content[#[trigger] tool_positions(content)[k]]),
            ),
    ensures
        ({
            let t0 = reply_spec(s, Ok((content, "tool_use"@)));
            &&& forall|k: int|
                0 <= k < outs.len() ==> poll_spec(#[trigger] serve_spec(t0, outs.take(k)), cancelled, names)
                    == (serve_spec(t0, outs.take(k)), Step::Execute(tool_positions(content)[k]))
            &&& serve_spec(t0, outs).phase is AwaitingModel
            &&& serve_spec(t0, outs).history == s.history.push(MessageModel::Assistant { content })
                + batch_results(content, outs)
            &&& session_wf(serve_spec(t0, outs))
            &&& poll_spec(serve_spec(t0, outs), false, names).1 is Exchange
        }),
{
    let t0 = reply_spec(s, Ok((content, "tool_use"@)));
    let tp = tool_positions(content);
    let n = outs.len();
    let h0 = s.history.push(MessageModel::Assistant { content });
    lemma_tool_positions(content);
    assert(t0.history == h0);
    assert(t0.history[t0.source] == MessageModel::Assistant { content });
    // After k outcomes: k results appended, the batch unchanged.
    assert forall|k: int| 0 <= k <= n implies {
        let t = #[trigger] serve_spec(t0, outs.take(k));
        &&& t.history == h0 + batch_results(content, outs.take(k))
        &&& t.source == t0.source
        &&& t.batch == tp
        &&& t.next == k
        &&& (k < n ==> t.phase is ExecutingTools)
        &&& (k == n ==> t.phase is AwaitingModel)
    } by {
        lemma_serve_prefix(s, content, outs, k);
    }
    assert(outs.take(n as int) == outs);
    assert forall|k: int| 0 <= k < outs.len() implies poll_spec(
        #[trigger] serve_spec(t0, outs.take(k)),
        cancelled,
        names,
    ) == (serve_spec(t0, outs.take(k)), Step::Execute(tp[k])) by {
        let t = serve_spec(t0, outs.take(k));
        assert(t.history[t.source] == MessageModel::Assistant { content });
        assert(batch_block(t, t.next) == content[tp[k]]);
    }
    let t = serve_spec(t0, outs);
    assert(t.history[0] == s.history[0]);
}

/// The state after the first `k` outcomes of a batch.
proof fn lemma_serve_prefix(
    s: SessionModel,
    content: Seq<BlockModel>,
    outs: Seq<Result<Seq<char>, Seq<char>>>,
    k: int,
)
    requires
        session_wf(s),
        s.phase is AwaitingModel,
        outs.len() == tool_positions(content).len(),
        0 <= k <= outs.len(),
    ensures
        ({
            let t0 = reply_spec(s, Ok((content, "tool_use"@)));
            let t = serve_spec(t0, outs.take(k));
            &&& t.history == s.history.push(MessageModel::Assistant { content })
                + batch_results(content, outs.take(k))
            &&& t.source == s.history.len()
            &&& t.batch == tool_positions(content)
            &&& t.next == k
            &&& (k < outs.len() ==> t.phase is ExecutingTools)
            &&& (k == outs.len() ==> t.phase is AwaitingModel)
        }),
    decreases k,
{
    let t0 = reply_spec(s, Ok((content, "tool_use"@)));
    let h0 = s.history.push(MessageModel::Assistant { content });
    let tp = tool_positions(content);
    if k == 0 {
        assert(outs.take(0) =~= Seq::<Result<Seq<char>, Seq<char>>>::empty());
        assert(batch_results(content, outs.take(0)) =~= Seq::<MessageModel>::empty());
        assert(h0 + Seq::<MessageModel>::empty() =~= h0);
    } else {
        lemma_serve_prefix(s, content, outs, k - 1);
        assert(outs.take(k).drop_last() =~= outs.take(k - 1));
        assert(outs.take(k).last() == outs[k - 1]);
        let p = serve_spec(t0, outs.take(k - 1));
        assert(p.history[p.source] == MessageModel::Assistant { content }) by {
            assert(p.history[s.history.len() as int] == h0[s.history.len() as int]);
        }
        let r = MessageModel::ToolResult {
            tool_use_id: invocation_id(content[tp[k - 1]]),
            content: result_text(outs[k - 1]),
        };
        assert(batch_results(content, outs.take(k)) =~= batch_results(content, outs.take(k - 1)).push(r));
        assert(h0 + batch_results(content, outs.take(k)) =~= (h0 + batch_results(
            content,
            outs.take(k - 1),
        )).push(r));
    }
}

} // verus!
