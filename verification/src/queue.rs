//! The instruction queue's bookkeeping: which instructions it records in its
//! history, and what it does when the game window cannot be found.
use vstd::prelude::*;
use vstd::string::*;
use crate::text::{chars_of, owned, starts_with_text};
use crate::instruction::{Instruction, InstructionPair, InstructionView, PairView, at, pair, pairs_view};

verus! {

broadcast use vstd::seq_lib::group_seq_properties;

/// A console command that warps the player.
pub open spec fn is_warp_command(i: InstructionView) -> bool {
    i matches InstructionView::ConsoleCommand { command } && "warp"@.is_prefix_of(command)
}

/// Whether the queue records the instruction in its history: console
/// commands always; restarts, game termination, waits and server joins never;
/// everything else when a chat client asked for it.
pub open spec fn is_recorded(i: InstructionView, client_origin: bool) -> bool {
    match i {
        InstructionView::ConsoleCommand { .. } => true,
        InstructionView::Restart => false,
        InstructionView::TerminateGame => false,
        InstructionView::Wait { .. } => false,
        InstructionView::WaitWithMessage { .. } => false,
        InstructionView::JoinServer { .. } => false,
        _ => client_origin,
    }
}

/// The history after the queue reaches instruction `i`: the entry takes the
/// history's length before the step as its order; a warp first clears the
/// history.
pub open spec fn after_record(h: Seq<PairView>, i: InstructionView, client_origin: bool) -> Seq<PairView> {
    let entry = at(h.len() as i64, i);
    if is_warp_command(i) {
        seq![entry]
    } else if is_recorded(i, client_origin) {
        h.push(entry)
    } else {
        h
    }
}

/// The queue's state between batches: the history of recorded instructions.
pub struct QueueProcessor {
    history: Vec<InstructionPair>,
}

impl View for QueueProcessor {
    type V = Seq<PairView>;

    closed spec fn view(&self) -> Seq<PairView> {
        pairs_view(self.history@)
    }
}

impl QueueProcessor {
    /// A queue with an empty history.
    pub fn new() -> (r: QueueProcessor)
        ensures
            r@ == Seq::<PairView>::empty(),
    {
        let r = QueueProcessor { history: Vec::new() };
        assert(r@ =~= Seq::<PairView>::empty());
        r
    }

    /// The recorded instructions, oldest first.
    pub fn history(&self) -> (r: &Vec<InstructionPair>)
        ensures
            pairs_view(r@) == self@,
    {
        &self.history
    }

    /// Notes that the queue is about to carry out `instruction`.
    pub fn record(&mut self, instruction: &Instruction, client_origin: bool)
        ensures
            final(self)@ == after_record(old(self)@, instruction@, client_origin),
    {
        let order = self.history.len() as i64;
        let ghost h = self@;
        let entry = pair(order, instruction.duplicate());
        let warp = match instruction {
            Instruction::ConsoleCommand { command } => {
                let c = chars_of(command.as_str());
                starts_with_text(&c, "warp")
            },
            _ => false,
        };
        let recorded = match instruction {
            Instruction::ConsoleCommand { .. } => true,
            Instruction::Restart {  } => false,
            Instruction::TerminateGame {  } => false,
            Instruction::Wait { .. } => false,
            Instruction::WaitWithMessage { .. } => false,
            Instruction::JoinServer { .. } => false,
            _ => client_origin,
        };
        if warp {
            self.history.clear();
            self.history.push(entry);
            assert(self@ =~= seq![at(h.len() as i64, instruction@)]);
        } else if recorded {
            self.history.push(entry);
            assert(self@ =~= h.push(at(h.len() as i64, instruction@)));
        }
    }
}

/// What the queue does after checking the game window.
#[derive(Debug)]
pub enum CheckVerdict {
    /// The window is there: go on with the batch.
    Continue,
    /// The window is missing: alert the developer, answer the chat client if
    /// there is one, and drop the rest of the batch.
    Abort { alert: String, reply: Option<String> },
}

/// The verdict on a window check, for a batch that a chat client did or did
/// not ask for.
pub fn check_verdict(success: bool, client_origin: bool) -> (r: CheckVerdict)
    ensures
        success ==> r is Continue,
        !success ==> (r matches CheckVerdict::Abort { alert, reply } && alert@ == "Failed to find Roblox!"@
            && (client_origin ==> (reply matches Some(t) && t@ == "[Failed to find Roblox! Notified dev.]"@))
            && (!client_origin ==> reply is None)),
{
    if success {
        CheckVerdict::Continue
    } else {
        let reply = if client_origin {
            Some(owned("[Failed to find Roblox! Notified dev.]"))
        } else {
            None
        };
        CheckVerdict::Abort { alert: owned("Failed to find Roblox!"), reply }
    }
}

} // verus!
