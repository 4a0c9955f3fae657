//! Agent mode: the approval gate and the bookkeeping of command execution.
//!
//! The library neither reads the user's answer nor runs a command. It says
//! what is to be done next and is told what came of it: `AgentRun::step`
//! takes an event and hands back an action. The blocks are offered one at a
//! time, in their order. Under the auto-approve policy a block is run
//! without a question; otherwise the user is asked, and only the answer `y`
//! (in either case, white space aside) approves. A command that fails, or
//! cannot be started, is recorded as failed and the next block is offered. An
//! answer that cannot be read ends the run.

use vstd::prelude::*;
use crate::extract::CodeBlock;
use crate::text::{to_chars, trim, trim_end, trim_range, trim_start};

verus! {

/// Whether a block may run.
#[derive(Clone, Copy, Debug, PartialEq, Eq, Structural)]
pub enum ExecutionDecision {
    Approved,
    Skipped,
}

/// What came of running an approved block.
#[derive(Clone, Copy, Debug, PartialEq, Eq, Structural)]
pub struct ExecutionResult {
    /// The order of the block.
    pub order: usize,
    /// The exit code of the command; none where it was ended by a signal or
    /// could not be started.
    pub exit_status: Option<i32>,
    /// Whether the command ran and exited with code zero.
    pub succeeded: bool,
}

/// Whether a trimmed answer approves: it is `y` or `Y`.
pub open spec fn is_yes(answer: Seq<char>) -> bool {
    answer == seq!['y'] || answer == seq!['Y']
}

/// The decision that an answer stands for.
pub open spec fn decision_for(answer: Seq<char>) -> ExecutionDecision {
    if is_yes(trim(answer)) {
        ExecutionDecision::Approved
    } else {
        ExecutionDecision::Skipped
    }
}

/// The result for the block `order` whose command ended as `exit_status`
/// says.
pub open spec fn result_for(order: usize, exit_status: Option<i32>) -> ExecutionResult {
    ExecutionResult { order, exit_status, succeeded: exit_status == Some(0i32) }
}

/// Decides on a block from the line that the user typed.
pub fn decide(answer: &str) -> (d: ExecutionDecision)
    ensures
        d == decision_for(answer@),
{
    let chars = to_chars(answer);
    let (a, b) = trim_range(&chars, 0, chars.len());
    assert(chars@.subrange(0, chars.len() as int) =~= chars@);
    let ghost trimmed = chars@.subrange(a as int, b as int);
    let yes = b - a == 1 && (chars[a] == 'y' || chars[a] == 'Y');
    proof {
        assert(seq!['y'].len() == 1 && seq!['y'][0] == 'y');
        assert(seq!['Y'].len() == 1 && seq!['Y'][0] == 'Y');
        if b - a == 1 {
            assert(trimmed[0] == chars@[a as int]);
            if chars[a as int] == 'y' {
                assert(trimmed =~= seq!['y']);
            }
            if chars[a as int] == 'Y' {
                assert(trimmed =~= seq!['Y']);
            }
        }
    }
    if yes {
        ExecutionDecision::Approved
    } else {
        ExecutionDecision::Skipped
    }
}

impl ExecutionResult {
    /// The result for the block `order` whose command ended as `exit_status`
    /// says: it succeeded where it exited with code zero, and failed where
    /// it exited with another code, was ended by a signal or never started.
    pub fn new(order: usize, exit_status: Option<i32>) -> (r: ExecutionResult)
        ensures
            r == result_for(order, exit_status),
    {
        let succeeded = match exit_status {
            Some(code) => code == 0,
            None => false,
        };
        ExecutionResult { order, exit_status, succeeded }
    }
}

/// Whether the warning about unconfirmed execution is due: commands are
/// approved without a question, and the caller has not said that this is
/// intended.
pub fn warns_unconfirmed(auto_approve: bool, allow_unsafe_exec: bool) -> (b: bool)
    ensures
        b == (auto_approve && !allow_unsafe_exec),
{
    auto_approve && !allow_unsafe_exec
}

/// Where a run stands.
#[derive(Clone, Copy, Debug, PartialEq, Eq, Structural)]
pub enum Stage {
    /// The next block is to be offered.
    Offering,
    /// The user has been asked about the current block.
    AwaitingAnswer,
    /// The command of the current block is running.
    AwaitingExit,
    /// All blocks have been dealt with.
    Finished,
    /// An answer could not be read.
    Aborted,
}

/// What happened outside the library.
pub enum AgentEvent {
    /// Nothing to report: go on.
    Advance,
    /// The user typed this line.
    Answer(String),
    /// The user's answer could not be read.
    AnswerFailed,
    /// The command exited with this code.
    Exited(i32),
    /// The command ended without an exit code.
    Killed,
    /// The command could not be started.
    LaunchFailed,
}

/// The mathematical value of an [`AgentEvent`].
pub enum AgentEventView {
    Advance,
    Answer(Seq<char>),
    AnswerFailed,
    Exited(i32),
    Killed,
    LaunchFailed,
}

impl View for AgentEvent {
    type V = AgentEventView;

    open spec fn view(&self) -> AgentEventView {
        match self {
            AgentEvent::Advance => AgentEventView::Advance,
            AgentEvent::Answer(s) => AgentEventView::Answer(s@),
            AgentEvent::AnswerFailed => AgentEventView::AnswerFailed,
            AgentEvent::Exited(code) => AgentEventView::Exited(*code),
            AgentEvent::Killed => AgentEventView::Killed,
            AgentEvent::LaunchFailed => AgentEventView::LaunchFailed,
        }
    }
}

/// What the caller is to do next.
#[derive(Clone, Copy, Debug, PartialEq, Eq, Structural)]
pub enum AgentAction {
    /// Show the block at position `order`, ask whether to run it, read one
    /// line, and come back with `Answer` or `AnswerFailed`.
    Ask { order: usize },
    /// Run the block's content as one shell command, wait for it, and come
    /// back with `Exited`, `Killed` or `LaunchFailed`. Under the auto-approve
    /// policy the block has not been shown yet.
    Run { order: usize },
    /// The block was not approved: say so and come back with `Advance`.
    Skip { order: usize },
    /// The command has ended: report the result and come back with `Advance`.
    Report { result: ExecutionResult },
    /// No block is left.
    Finish,
    /// The answer could not be read: give up the run.
    Abort,
    /// The event does not fit the stage; nothing has changed.
    Rejected,
}

/// The state of a run between two events.
pub struct RunState {
    /// The number of blocks.
    pub count: nat,
    /// The order of the current block.
    pub next: nat,
    /// Whether blocks are approved without a question.
    pub auto_approve: bool,
    pub stage: Stage,
    /// The results so far, oldest first.
    pub results: Seq<ExecutionResult>,
}

/// The state in which the current block has been dealt with and the next one
/// is to be offered.
pub open spec fn moved_on(state: RunState, results: Seq<ExecutionResult>) -> RunState {
    RunState { next: state.next + 1, stage: Stage::Offering, results, ..state }
}

/// The state after `event` in `state`, and the action that it calls for.
pub open spec fn step_spec(state: RunState, event: AgentEventView) -> (RunState, AgentAction) {
    match state.stage {
        Stage::Offering => match event {
            AgentEventView::Advance => if state.next >= state.count {
                (RunState { stage: Stage::Finished, ..state }, AgentAction::Finish)
            } else if state.auto_approve {
                (
                    RunState { stage: Stage::AwaitingExit, ..state },
                    AgentAction::Run { order: state.next as usize },
                )
            } else {
                (
                    RunState { stage: Stage::AwaitingAnswer, ..state },
                    AgentAction::Ask { order: state.next as usize },
                )
            },
            _ => (state, AgentAction::Rejected),
        },
        Stage::AwaitingAnswer => match event {
            AgentEventView::Answer(line) => if decision_for(line) == ExecutionDecision::Approved {
                (
                    RunState { stage: Stage::AwaitingExit, ..state },
                    AgentAction::Run { order: state.next as usize },
                )
            } else {
                (moved_on(state, state.results), AgentAction::Skip { order: state.next as usize })
            },
            AgentEventView::AnswerFailed => (
                RunState { stage: Stage::Aborted, ..state },
                AgentAction::Abort,
            ),
            _ => (state, AgentAction::Rejected),
        },
        Stage::AwaitingExit => {
            let ended = match event {
                AgentEventView::Exited(code) => Some(Some(code)),
                AgentEventView::Killed => Some(None),
                AgentEventView::LaunchFailed => Some(None),
                _ => None,
            };
            match ended {
                Some(exit_status) => {
                    let result = result_for(state.next as usize, exit_status);
                    (
                        moved_on(state, state.results.push(result)),
                        AgentAction::Report { result },
                    )
                },
                None => (state, AgentAction::Rejected),
            }
        },
        Stage::Finished => (state, AgentAction::Finish),
        Stage::Aborted => (state, AgentAction::Abort),
    }
}

/// Whether a state is one that a run can be in: the current block exists
/// unless all are dealt with.
pub open spec fn valid_run(state: RunState) -> bool {
    &&& state.next <= state.count
    &&& state.count <= usize::MAX
    &&& (state.stage == Stage::AwaitingAnswer || state.stage == Stage::AwaitingExit) ==> state.next
        < state.count
}

/// A run over the blocks of one response.
pub struct AgentRun {
    blocks: Vec<CodeBlock>,
    next: usize,
    auto_approve: bool,
    stage: Stage,
    results: Vec<ExecutionResult>,
}

impl View for AgentRun {
    type V = RunState;

    closed spec fn view(&self) -> RunState {
        RunState {
            count: self.blocks@.len(),
            next: self.next as nat,
            auto_approve: self.auto_approve,
            stage: self.stage,
            results: self.results@,
        }
    }
}

impl AgentRun {
    /// Whether the run is in a state that it can be in.
    pub closed spec fn wf(&self) -> bool {
        valid_run(self@)
    }

    /// The blocks of the run.
    pub closed spec fn blocks(&self) -> Seq<CodeBlock> {
        self.blocks@
    }

    /// A run that is about to offer the first of `blocks`.
    pub fn new(blocks: Vec<CodeBlock>, auto_approve: bool) -> (run: AgentRun)
        ensures
            run.wf(),
            run.blocks() == blocks@,
            run@ == (RunState {
                count: blocks@.len(),
                next: 0,
                auto_approve,
                stage: Stage::Offering,
                results: Seq::<ExecutionResult>::empty(),
            }),
    {
        assert(blocks@.len() == blocks.len());
        AgentRun { blocks, next: 0, auto_approve, stage: Stage::Offering, results: Vec::new() }
    }

    /// Where the run stands.
    pub fn stage(&self) -> (s: Stage)
        ensures
            s == self@.stage,
    {
        self.stage
    }

    /// The block with the given order, if there is one.
    pub fn block(&self, order: usize) -> (b: Option<&CodeBlock>)
        ensures
            match b {
                Some(block) => order < self.blocks().len() && *block == self.blocks()[order as int],
                None => order >= self.blocks().len(),
            },
    {
        if order < self.blocks.len() {
            Some(&self.blocks[order])
        } else {
            None
        }
    }

    /// The results so far, oldest first.
    pub fn results(&self) -> (r: &Vec<ExecutionResult>)
        ensures
            r@ == self@.results,
    {
        &self.results
    }

    /// Takes in what happened and says what to do next.
    pub fn step(&mut self, event: AgentEvent) -> (action: AgentAction)
        requires
            old(self).wf(),
        ensures
            final(self).wf(),
            final(self).blocks() == old(self).blocks(),
            (final(self)@, action) == step_spec(old(self)@, event@),
    {
        match self.stage {
            Stage::Offering => match event {
                AgentEvent::Advance => {
                    if self.next >= self.blocks.len() {
                        self.stage = Stage::Finished;
                        AgentAction::Finish
                    } else if self.auto_approve {
                        self.stage = Stage::AwaitingExit;
                        AgentAction::Run { order: self.next }
                    } else {
                        self.stage = Stage::AwaitingAnswer;
                        AgentAction::Ask { order: self.next }
                    }
                },
                _ => AgentAction::Rejected,
            },
            Stage::AwaitingAnswer => match event {
                AgentEvent::Answer(line) => {
                    match decide(line.as_str()) {
                        ExecutionDecision::Approved => {
                            self.stage = Stage::AwaitingExit;
                            AgentAction::Run { order: self.next }
                        },
                        ExecutionDecision::Skipped => {
                            let order = self.next;
                            self.next = order + 1;
                            self.stage = Stage::Offering;
                            AgentAction::Skip { order }
                        },
                    }
                },
                AgentEvent::AnswerFailed => {
                    self.stage = Stage::Aborted;
                    AgentAction::Abort
                },
                _ => AgentAction::Rejected,
            },
            Stage::AwaitingExit => {
                let exit_status = match event {
                    AgentEvent::Exited(code) => Some(code),
                    AgentEvent::Killed => None,
                    AgentEvent::LaunchFailed => None,
                    _ => {
                        return AgentAction::Rejected;
                    },
                };
                let order = self.next;
                let result = ExecutionResult::new(order, exit_status);
                self.results.push(result);
                self.next = order + 1;
                self.stage = Stage::Offering;
                AgentAction::Report { result }
            },
            Stage::Finished => AgentAction::Finish,
            Stage::Aborted => AgentAction::Abort,
        }
    }
}

/// The answer `n` with its line feed skips a block, and the answer `y` with
/// its line feed approves it.
pub proof fn answers_n_and_y()
    ensures
        decision_for(seq!['n', '\n']) == ExecutionDecision::Skipped,
        decision_for(seq!['y', '\n']) == ExecutionDecision::Approved,
{
    let n = seq!['n', '\n'];
    let y = seq!['y', '\n'];
    assert(trim_start(n) == n);
    assert(trim_start(y) == y);
    assert(n.drop_last() =~= seq!['n']);
    assert(y.drop_last() =~= seq!['y']);
    assert(trim_end(seq!['n']) == seq!['n']);
    assert(trim_end(seq!['y']) == seq!['y']);
    assert(trim_end(n) == seq!['n']);
    assert(trim_end(y) == seq!['y']);
    assert(seq!['n'][0] == 'n' && seq!['y'][0] == 'y' && seq!['Y'][0] == 'Y');
}

/// The approval gate. Under the interactive policy a block whose answer does
/// not approve is skipped and no command is started for it, and a block whose
/// answer approves is run; the answers `n` and `y` are such answers. A command
/// is started only for a block that the policy or the answer approved. Under
/// the auto-approve policy the user is never asked, whatever happens.
pub proof fn approval_semantics(state: RunState, event: AgentEventView)
    requires
        valid_run(state),
    ensures
        state.stage == Stage::AwaitingAnswer ==> step_spec(
            state,
            AgentEventView::Answer(seq!['n', '\n']),
        ).1 == (AgentAction::Skip { order: state.next as usize }),
        state.stage == Stage::AwaitingAnswer ==> step_spec(
            state,
            AgentEventView::Answer(seq!['y', '\n']),
        ).1 == (AgentAction::Run { order: state.next as usize }),
        step_spec(state, event).1 is Skip ==> step_spec(state, event).0.results == state.results
            && step_spec(state, event).0.stage == Stage::Offering,
        step_spec(state, event).1 is Run ==> state.auto_approve || (event matches AgentEventView::Answer(
            line,
        ) && decision_for(line) == ExecutionDecision::Approved),
        state.auto_approve ==> !(step_spec(state, event).1 is Ask),
{
    answers_n_and_y();
}

/// A command that fails does not end the run. Whether it exits with a code
/// other than zero, is ended by a signal or cannot be started, its result is
/// recorded as failed, the run goes on to the next block, and that block, if
/// there is one, is offered to the approval gate in its turn.
pub proof fn failed_command_does_not_end_run(state: RunState, event: AgentEventView)
    requires
        valid_run(state),
        state.stage == Stage::AwaitingExit,
        (event matches AgentEventView::Exited(code) && code != 0) || event is Killed
            || event is LaunchFailed,
    ensures
        ({
            let (after, action) = step_spec(state, event);
            &&& action matches AgentAction::Report { result }
            &&& !result.succeeded
            &&& result.order == state.next
            &&& after.results == state.results.push(result)
            &&& after.stage == Stage::Offering
            &&& after.next == state.next + 1
            &&& valid_run(after)
            &&& after.next < after.count ==> step_spec(after, AgentEventView::Advance).1 == (
                if after.auto_approve {
                    AgentAction::Run { order: after.next as usize }
                } else {
                    AgentAction::Ask { order: after.next as usize }
                })
        }),
{
}

} // verus!
