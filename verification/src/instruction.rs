//! The instructions that the bot carries out in the game, the ordered pairs
//! that batch them, and the stable ordering of a batch before it runs.
use vstd::prelude::*;

verus! {

broadcast use vstd::seq_lib::group_seq_properties;

/// A magnitude handed to the input layer: an integral constant chosen by the
/// bot itself, or a number exactly as a viewer typed it (validated when the
/// command was planned), possibly negated.
#[derive(Debug, PartialEq)]
pub enum Amount {
    Fixed(i64),
    Typed { text: String, negated: bool },
}

pub enum AmountView {
    Fixed(i64),
    Typed { text: Seq<char>, negated: bool },
}

impl View for Amount {
    type V = AmountView;

    open spec fn view(&self) -> AmountView {
        match self {
            Amount::Fixed(n) => AmountView::Fixed(*n),
            Amount::Typed { text, negated } => AmountView::Typed { text: text@, negated: *negated },
        }
    }
}

impl Amount {
    /// A copy of this amount.
    pub fn duplicate(&self) -> (r: Amount)
        ensures
            r@ == self@,
    {
        match self {
            Amount::Fixed(n) => Amount::Fixed(*n),
            Amount::Typed { text, negated } => Amount::Typed {
                text: text.clone(),
                negated: *negated,
            },
        }
    }
}

/// One action for the game client.
#[derive(Debug, PartialEq)]
pub enum Instruction {
    CheckActive { window_title: String },
    ConsoleCommand { command: String },
    HideMouse {},
    JoinServer { server_id: String },
    Grief {},
    Leap { forward_amount: Amount, spacebar_amount: Amount, direction: char },
    MoveCameraX { x_ratio: Amount },
    MoveCameraY { y_ratio: Amount },
    MoveDirection { direction: String, duration: Amount },
    Restart {},
    Sit {},
    SystemChatMessage { message: String },
    TerminateGame {},
    UserChatMessage { author: String, message: String },
    Wait { amount_ms: u64 },
    WaitWithMessage { amount_ms: u64, message: String },
    ZoomCamera { direction: String, duration: Amount },
}

pub enum InstructionView {
    CheckActive { window_title: Seq<char> },
    ConsoleCommand { command: Seq<char> },
    HideMouse,
    JoinServer { server_id: Seq<char> },
    Grief,
    Leap { forward_amount: AmountView, spacebar_amount: AmountView, direction: char },
    MoveCameraX { x_ratio: AmountView },
    MoveCameraY { y_ratio: AmountView },
    MoveDirection { direction: Seq<char>, duration: AmountView },
    Restart,
    Sit,
    SystemChatMessage { message: Seq<char> },
    TerminateGame,
    UserChatMessage { author: Seq<char>, message: Seq<char> },
    Wait { amount_ms: u64 },
    WaitWithMessage { amount_ms: u64, message: Seq<char> },
    ZoomCamera { direction: Seq<char>, duration: AmountView },
}

impl View for Instruction {
    type V = InstructionView;

    open spec fn view(&self) -> InstructionView {
        match self {
            Instruction::CheckActive { window_title } => InstructionView::CheckActive {
                window_title: window_title@,
            },
            Instruction::ConsoleCommand { command } => InstructionView::ConsoleCommand {
                command: command@,
            },
            Instruction::HideMouse {  } => InstructionView::HideMouse,
            Instruction::JoinServer { server_id } => InstructionView::JoinServer {
                server_id: server_id@,
            },
            Instruction::Grief {  } => InstructionView::Grief,
            Instruction::Leap { forward_amount, spacebar_amount, direction } => InstructionView::Leap {
                forward_amount: forward_amount@,
                spacebar_amount: spacebar_amount@,
                direction: *direction,
            },
            Instruction::MoveCameraX { x_ratio } => InstructionView::MoveCameraX { x_ratio: x_ratio@ },
            Instruction::MoveCameraY { y_ratio } => InstructionView::MoveCameraY { y_ratio: y_ratio@ },
            Instruction::MoveDirection { direction, duration } => InstructionView::MoveDirection {
                direction: direction@,
                duration: duration@,
            },
            Instruction::Restart {  } => InstructionView::Restart,
            Instruction::Sit {  } => InstructionView::Sit,
            Instruction::SystemChatMessage { message } => InstructionView::SystemChatMessage {
                message: message@,
            },
            Instruction::TerminateGame {  } => InstructionView::TerminateGame,
            Instruction::UserChatMessage { author, message } => InstructionView::UserChatMessage {
                author: author@,
                message: message@,
            },
            Instruction::Wait { amount_ms } => InstructionView::Wait { amount_ms: *amount_ms },
            Instruction::WaitWithMessage { amount_ms, message } => InstructionView::WaitWithMessage {
                amount_ms: *amount_ms,
                message: message@,
            },
            Instruction::ZoomCamera { direction, duration } => InstructionView::ZoomCamera {
                direction: direction@,
                duration: duration@,
            },
        }
    }
}

impl Instruction {
    /// A copy of this instruction.
    pub fn duplicate(&self) -> (r: Instruction)
        ensures
            r@ == self@,
    {
        match self {
            Instruction::CheckActive { window_title } => Instruction::CheckActive {
                window_title: window_title.clone(),
            },
            Instruction::ConsoleCommand { command } => Instruction::ConsoleCommand {
                command: command.clone(),
            },
            Instruction::HideMouse {  } => Instruction::HideMouse {  },
            Instruction::JoinServer { server_id } => Instruction::JoinServer {
                server_id: server_id.clone(),
            },
            Instruction::Grief {  } => Instruction::Grief {  },
            Instruction::Leap { forward_amount, spacebar_amount, direction } => Instruction::Leap {
                forward_amount: forward_amount.duplicate(),
                spacebar_amount: spacebar_amount.duplicate(),
                direction: *direction,
            },
            Instruction::MoveCameraX { x_ratio } => Instruction::MoveCameraX {
                x_ratio: x_ratio.duplicate(),
            },
            Instruction::MoveCameraY { y_ratio } => Instruction::MoveCameraY {
                y_ratio: y_ratio.duplicate(),
            },
            Instruction::MoveDirection { direction, duration } => Instruction::MoveDirection {
                direction: direction.clone(),
                duration: duration.duplicate(),
            },
            Instruction::Restart {  } => Instruction::Restart {  },
            Instruction::Sit {  } => Instruction::Sit {  },
            Instruction::SystemChatMessage { message } => Instruction::SystemChatMessage {
                message: message.clone(),
            },
            Instruction::TerminateGame {  } => Instruction::TerminateGame {  },
            Instruction::UserChatMessage { author, message } => Instruction::UserChatMessage {
                author: author.clone(),
                message: message.clone(),
            },
            Instruction::Wait { amount_ms } => Instruction::Wait { amount_ms: *amount_ms },
            Instruction::WaitWithMessage { amount_ms, message } => Instruction::WaitWithMessage {
                amount_ms: *amount_ms,
                message: message.clone(),
            },
            Instruction::ZoomCamera { direction, duration } => Instruction::ZoomCamera {
                direction: direction.clone(),
                duration: duration.duplicate(),
            },
        }
    }
}

/// An instruction with the position it takes in its batch.
#[derive(Debug)]
pub struct InstructionPair {
    pub execution_order: i64,
    pub instruction: Instruction,
}

pub struct PairView {
    pub order: i64,
    pub instruction: InstructionView,
}

impl View for InstructionPair {
    type V = PairView;

    open spec fn view(&self) -> PairView {
        PairView { order: self.execution_order, instruction: self.instruction@ }
    }
}

/// The abstract contents of a batch.
pub open spec fn pairs_view(s: Seq<InstructionPair>) -> Seq<PairView> {
    s.map_values(|p: InstructionPair| p@)
}

/// A pair at `order` holding the instruction `i`.
pub open spec fn at(order: i64, i: InstructionView) -> PairView {
    PairView { order, instruction: i }
}

/// Builds a pair.
pub fn pair(order: i64, instruction: Instruction) -> (r: InstructionPair)
    ensures
        r@ == at(order, instruction@),
{
    InstructionPair { execution_order: order, instruction }
}

/// A batch of instructions together with who asked for it: a chat client
/// and the chat message that it answers, or neither when the bot itself
/// scheduled the batch.
pub struct SystemInstruction<C, M> {
    pub client: Option<C>,
    pub chat_message: Option<M>,
    pub instructions: Vec<InstructionPair>,
}

/// A batch that the bot schedules for itself.
pub fn system_batch<C, M>(instructions: Vec<InstructionPair>) -> (r: SystemInstruction<C, M>)
    ensures
        r.client is None,
        r.chat_message is None,
        r.instructions@ == instructions@,
{
    SystemInstruction { client: None, chat_message: None, instructions }
}

/// A batch that a chat line asked for: it carries the chat client and the
/// chat message, so that the queue can answer that line.
pub fn chat_batch<C, M>(client: C, chat_message: M, instructions: Vec<InstructionPair>) -> (r:
    SystemInstruction<C, M>)
    ensures
        r.client == Some(client),
        r.chat_message == Some(chat_message),
        r.instructions@ == instructions@,
{
    SystemInstruction { client: Some(client), chat_message: Some(chat_message), instructions }
}

impl<C, M> SystemInstruction<C, M> {
    /// Whether a chat client asked for the batch (both the client and the
    /// message are present).
    pub fn client_origin(&self) -> (r: bool)
        ensures
            r == (self.client is Some && self.chat_message is Some),
    {
        self.client.is_some() && self.chat_message.is_some()
    }
}

// ---------------------------------------------------------------------------
// Stable ordering of a batch
// ---------------------------------------------------------------------------

/// The batch is in non-decreasing execution order.
pub open spec fn orders_sorted(s: Seq<InstructionPair>) -> bool {
    forall|i: int, j: int|
        0 <= i < j < s.len() ==> #[trigger] s[i].execution_order <= #[trigger] s[j].execution_order
}

/// The pairs of `s` whose execution order is `k`, in their order in `s`.
pub open spec fn with_order(s: Seq<InstructionPair>, k: i64) -> Seq<InstructionPair> {
    s.filter(|p: InstructionPair| p.execution_order == k)
}

proof fn lemma_filter_none(s: Seq<InstructionPair>, k: i64)
    requires
        forall|i: int| 0 <= i < s.len() ==> s[i].execution_order != k,
    ensures
        with_order(s, k) == Seq::<InstructionPair>::empty(),
{
    let pred = |p: InstructionPair| p.execution_order == k;
    broadcast use vstd::seq_lib::group_filter_ensures;

    if s.filter(pred).len() > 0 {
        let x = s.filter(pred)[0];
        assert(pred(x));
        assert(s.filter(pred).contains(x));
        s.lemma_filter_contains_rev(pred, x);
    }
    assert(s.filter(pred) =~= Seq::<InstructionPair>::empty());
}

proof fn lemma_insert_classes(r: Seq<InstructionPair>, pos: int, x: InstructionPair, k: i64)
    requires
        0 <= pos <= r.len(),
        forall|i: int| 0 <= i < pos ==> r[i].execution_order <= x.execution_order,
        forall|i: int| pos <= i < r.len() ==> r[i].execution_order > x.execution_order,
    ensures
        with_order(r.insert(pos, x), k) == if x.execution_order == k {
            with_order(r, k).push(x)
        } else {
            with_order(r, k)
        },
{
    let pred = |p: InstructionPair| p.execution_order == k;
    let a = r.take(pos);
    let b = r.skip(pos);
    assert(r.insert(pos, x) =~= a + seq![x] + b);
    assert(r =~= a + b);
    Seq::filter_distributes_over_add(a + seq![x], b, pred);
    Seq::filter_distributes_over_add(a, seq![x], pred);
    Seq::filter_distributes_over_add(a, b, pred);
    reveal_with_fuel(Seq::filter, 2);
    assert(seq![x].drop_last() =~= Seq::<InstructionPair>::empty());
    if x.execution_order == k {
        lemma_filter_none(b, k);
        assert(b.filter(pred) =~= Seq::<InstructionPair>::empty());
        assert(seq![x].filter(pred) =~= seq![x]);
        assert(a.filter(pred) + seq![x] + b.filter(pred) =~= (a.filter(pred) + b.filter(pred)).push(x));
    } else {
        assert(seq![x].filter(pred) =~= Seq::<InstructionPair>::empty());
        assert(a.filter(pred) + seq![x].filter(pred) =~= a.filter(pred));
    }
}

/// The batch in execution order. Pairs with equal execution order keep their
/// relative order: the sort is stable.
pub fn order_batch(batch: Vec<InstructionPair>) -> (r: Vec<InstructionPair>)
    ensures
        r@.len() == batch@.len(),
        orders_sorted(r@),
        forall|k: i64| #[trigger] with_order(r@, k) == with_order(batch@, k),
{
    let ghost input = batch@;
    let mut rest = batch;
    let mut out: Vec<InstructionPair> = Vec::new();
    let mut i: usize = 0;
    let n = rest.len();
    while rest.len() > 0
        invariant
            n == input.len(),
            rest@ == input.skip(i as int),
            i <= n,
            i + rest@.len() == n,
            out@.len() == i,
            orders_sorted(out@),
            forall|k: i64| #[trigger] with_order(out@, k) == with_order(input.take(i as int), k),
        decreases rest@.len(),
    {
        let x = rest.remove(0);
        proof {
            assert(x == input[i as int]);
        }
        let key = x.execution_order;
        // Position after every pair whose order is at most `key`.
        let mut pos: usize = out.len();
        while pos > 0 && out[pos - 1].execution_order > key
            invariant
                pos <= out@.len(),
                orders_sorted(out@),
                forall|j: int| pos <= j < out@.len() ==> out@[j].execution_order > key,
            decreases pos,
        {
            pos = pos - 1;
        }
        let ghost before = out@;
        proof {
            assert forall|j: int| 0 <= j < pos implies before[j].execution_order <= key by {
                if pos > 0 {
                    assert(before[pos - 1].execution_order <= key);
                    if j < pos - 1 {
                        assert(before[j].execution_order <= before[pos - 1].execution_order);
                    }
                }
            }
        }
        out.insert(pos, x);
        proof {
            assert(out@ == before.insert(pos as int, x));
            assert(input.take(i + 1) =~= input.take(i as int).push(x));
            assert forall|k: i64| #[trigger] with_order(out@, k) == with_order(input.take(i + 1), k) by {
                lemma_insert_classes(before, pos as int, x, k);
                input.take(i as int).lemma_filter_push(x, |p: InstructionPair| p.execution_order == k);
            }
            assert forall|a: int, b: int| 0 <= a < b < out@.len() implies #[trigger] out@[a].execution_order
                <= #[trigger] out@[b].execution_order by {
                if a < pos && b == pos {
                } else if a == pos && b > pos {
                } else if a < pos && b > pos {
                    assert(out@[b] == before[b - 1]);
                } else if b < pos {
                    assert(out@[a] == before[a]);
                    assert(out@[b] == before[b]);
                } else {
                    assert(out@[a] == before[a - 1]);
                    assert(out@[b] == before[b - 1]);
                }
            }
        }
        i = i + 1;
        proof {
            assert(rest@ =~= input.skip(i as int));
        }
    }
    assert(input.take(n as int) =~= input);
    out
}

} // verus!
