//! Timed behaviour: the nightly restart warnings, the once-a-second clock,
//! and the anti-idle camera sweeps with their advert.
use vstd::prelude::*;
use vstd::string::*;
use crate::text::owned;
use crate::instruction::{
    Amount, AmountView, Instruction, InstructionPair, InstructionView, PairView, SystemInstruction,
    at, pair, pairs_view, system_batch,
};
use crate::config::BotConfig;

verus! {

broadcast use vstd::seq_lib::group_seq_properties;

/// The restart warning due at `hour`:`minute` with the given uptime, when the
/// last warning given was `ticker`: 55, 58 or 59 (the minute of the warning)
/// during the hour before 04:00, once the machine has been up two minutes,
/// and not again for the minute already warned; -1 otherwise.
pub open spec fn restart_warning(ticker: i32, hour: u32, minute: u32, uptime_ms: u64) -> i32 {
    if hour != 3 {
        -1i32
    } else if ticker == minute as i32 || minute < 54 {
        -1i32
    } else if uptime_ms < 120_000 {
        -1i32
    } else if minute == 55 {
        55
    } else if minute == 58 {
        58
    } else if minute == 59 {
        59
    } else {
        -1i32
    }
}

/// The restart warning due now (see `restart_warning`).
pub fn restart_warn(restart_warn_ticker: i32, hour: u32, minute: u32, uptime_ms: u64) -> (r: i32)
    ensures
        r == restart_warning(restart_warn_ticker, hour, minute, uptime_ms),
        r == -1 || r == 55 || r == 58 || r == 59,
{
    if hour != 3 {
        return -1;
    }
    let m = minute as i32;
    if restart_warn_ticker == m || minute < 54 {
        return -1;
    }
    if uptime_ms < 120_000 {
        return -1;
    }
    if minute == 55 {
        55
    } else if minute == 58 {
        58
    } else if minute == 59 {
        59
    } else {
        -1
    }
}

/// The chat text of a restart warning.
pub open spec fn restart_text(warning: i32) -> Seq<char> {
    if warning == 55 {
        "[Restarting in 5 minutes!]"@
    } else if warning == 58 {
        "[Restarting in 1 minute!]"@
    } else if warning == 59 {
        "[Restarting!]"@
    } else {
        "[Restarting soon!]"@
    }
}

/// The instructions of a restart warning: check the window and announce it;
/// at the last warning also wait a second and restart the machine.
pub open spec fn restart_plan(game: Seq<char>, warning: i32) -> Seq<PairView> {
    let head = seq![
        at(0, InstructionView::CheckActive { window_title: game }),
        at(1, InstructionView::SystemChatMessage { message: restart_text(warning) }),
    ];
    if warning == 59 {
        head + seq![at(2, InstructionView::Wait { amount_ms: 1000 }), at(3, InstructionView::Restart)]
    } else {
        head
    }
}

/// The batch that a restart warning schedules.
pub fn restart_logic<C, M>(bot_config: &BotConfig, restart_return: i32) -> (r: SystemInstruction<C, M>)
    ensures
        r.client is None,
        r.chat_message is None,
        pairs_view(r.instructions@) == restart_plan(bot_config.game_name@, restart_return),
{
    let message = if restart_return == 55 {
        owned("[Restarting in 5 minutes!]")
    } else if restart_return == 58 {
        owned("[Restarting in 1 minute!]")
    } else if restart_return == 59 {
        owned("[Restarting!]")
    } else {
        owned("[Restarting soon!]")
    };
    let mut v: Vec<InstructionPair> = Vec::new();
    v.push(pair(0, Instruction::CheckActive { window_title: bot_config.game_name.clone() }));
    v.push(pair(1, Instruction::SystemChatMessage { message }));
    if restart_return == 59 {
        v.push(pair(2, Instruction::Wait { amount_ms: 1000 }));
        v.push(pair(3, Instruction::Restart {  }));
    }
    assert(pairs_view(v@) =~= restart_plan(bot_config.game_name@, restart_return));
    system_batch(v)
}

/// What one tick of the clock calls for.
#[derive(Debug, PartialEq, Eq)]
pub struct ClockAction {
    /// A restart warning to schedule (see `restart_logic`).
    pub restart: Option<i32>,
    /// Whether to poll the hardware monitor now.
    pub poll_hardware: bool,
}

/// The clock's state: the last restart warning given, and the ticks since
/// the hardware monitor was last polled.
pub struct ClockTicker {
    restart_warn_ticker: i32,
    hw_stat_loop: i32,
}

pub struct ClockView {
    pub ticker: i32,
    pub idle: i32,
}

impl View for ClockTicker {
    type V = ClockView;

    closed spec fn view(&self) -> ClockView {
        ClockView { ticker: self.restart_warn_ticker, idle: self.hw_stat_loop }
    }
}

/// The hardware monitor polls every third tick.
pub open spec fn clock_wf(c: ClockView) -> bool {
    0 <= c.idle <= 2
}

impl ClockTicker {
    /// A clock that has given no warning and has just started counting.
    pub fn new() -> (r: ClockTicker)
        ensures
            r@ == (ClockView { ticker: -1i32, idle: 0 }),
            clock_wf(r@),
    {
        ClockTicker { restart_warn_ticker: -1, hw_stat_loop: 0 }
    }

    /// One tick of the clock at `hour`:`minute`, with the machine up for
    /// `uptime_ms` milliseconds.
    pub fn tick(&mut self, hour: u32, minute: u32, uptime_ms: u64) -> (r: ClockAction)
        requires
            clock_wf(old(self)@),
        ensures
            clock_wf(final(self)@),
            ({
                let w = restart_warning(old(self)@.ticker, hour, minute, uptime_ms);
                let fire = old(self)@.ticker != w && w != -1;
                &&& r.restart == if fire {
                    Some(w)
                } else {
                    None
                }
                &&& final(self)@.ticker == if fire {
                    w
                } else {
                    old(self)@.ticker
                }
                &&& r.poll_hardware == (old(self)@.idle == 2)
                &&& final(self)@.idle == if old(self)@.idle == 2 {
                    0
                } else {
                    old(self)@.idle + 1
                }
            }),
    {
        let w = restart_warn(self.restart_warn_ticker, hour, minute, uptime_ms);
        let restart = if self.restart_warn_ticker != w && w != -1 {
            self.restart_warn_ticker = w;
            Some(w)
        } else {
            None
        };
        let poll = if self.hw_stat_loop < 2 {
            self.hw_stat_loop = self.hw_stat_loop + 1;
            false
        } else {
            self.hw_stat_loop = 0;
            true
        };
        ClockAction { restart, poll_hardware: poll }
    }
}

/// Within one minute a restart warning is scheduled at most once; a
/// second tick in the same minute schedules nothing more.
pub proof fn lemma_warning_once_per_minute(ticker: i32, hour: u32, minute: u32, up1: u64, up2: u64)
    requires
        minute < 60,
    ensures
        ({
            let w1 = restart_warning(ticker, hour, minute, up1);
            let t1 = if ticker != w1 && w1 != -1 {
                w1
            } else {
                ticker
            };
            let w2 = restart_warning(t1, hour, minute, up2);
            (ticker != w1 && w1 != -1) ==> !(t1 != w2 && w2 != -1)
        }),
{
}

/// The report sent to the overlay when the hardware monitor gives nothing.
pub fn hardware_error_report() -> (r: String)
    ensures
        r@ == "{'cpu_temp': 'ERR', 'cpu_load': 'ERR'}"@,
{
    owned("{'cpu_temp': 'ERR', 'cpu_load': 'ERR'}")
}

// ---------------------------------------------------------------------------
// Anti-idle sweeps
// ---------------------------------------------------------------------------

/// The anti-idle sweep: check the window, turn the camera 45 degrees one
/// way, 90 the other and 45 back, with half-second pauses.
pub open spec fn anti_afk_plan(game: Seq<char>) -> Seq<PairView> {
    seq![
        at(0, InstructionView::CheckActive { window_title: game }),
        at(1, InstructionView::MoveCameraX { x_ratio: AmountView::Fixed(45) }),
        at(2, InstructionView::Wait { amount_ms: 500 }),
        at(3, InstructionView::MoveCameraX { x_ratio: AmountView::Fixed(-90i64) }),
        at(4, InstructionView::Wait { amount_ms: 500 }),
        at(5, InstructionView::MoveCameraX { x_ratio: AmountView::Fixed(45) }),
    ]
}

/// The advert typed into the game chat.
pub open spec fn advert_plan(game: Seq<char>) -> Seq<PairView> {
    seq![
        at(0, InstructionView::CheckActive { window_title: game }),
        at(1, InstructionView::SystemChatMessage { message: "You can control this bot live!"@ }),
        at(
            2,
            InstructionView::SystemChatMessage {
                message: "Go to its Roblox profile and click the purple T witch icon!"@,
            },
        ),
    ]
}

/// The anti-idle sweep's instructions.
pub fn anti_afk_instructions(game: &String) -> (r: Vec<InstructionPair>)
    ensures
        pairs_view(r@) == anti_afk_plan(game@),
{
    let mut v: Vec<InstructionPair> = Vec::new();
    v.push(pair(0, Instruction::CheckActive { window_title: game.clone() }));
    v.push(pair(1, Instruction::MoveCameraX { x_ratio: Amount::Fixed(45) }));
    v.push(pair(2, Instruction::Wait { amount_ms: 500 }));
    v.push(pair(3, Instruction::MoveCameraX { x_ratio: Amount::Fixed(-90) }));
    v.push(pair(4, Instruction::Wait { amount_ms: 500 }));
    v.push(pair(5, Instruction::MoveCameraX { x_ratio: Amount::Fixed(45) }));
    assert(pairs_view(v@) =~= anti_afk_plan(game@));
    v
}

/// The advert's instructions.
pub fn advert_instructions(game: &String) -> (r: Vec<InstructionPair>)
    ensures
        pairs_view(r@) == advert_plan(game@),
{
    let mut v: Vec<InstructionPair> = Vec::new();
    v.push(pair(0, Instruction::CheckActive { window_title: game.clone() }));
    v.push(pair(1, Instruction::SystemChatMessage { message: owned("You can control this bot live!") }));
    v.push(
        pair(
            2,
            Instruction::SystemChatMessage {
                message: owned("Go to its Roblox profile and click the purple T witch icon!"),
            },
        ),
    );
    assert(pairs_view(v@) =~= advert_plan(game@));
    v
}

/// The fixed camera turn of an instruction, in degrees (0 for anything else).
pub open spec fn fixed_turn(i: InstructionView) -> int {
    match i {
        InstructionView::MoveCameraX { x_ratio: AmountView::Fixed(n) } => n as int,
        _ => 0,
    }
}

/// The total fixed camera turn of a batch.
pub open spec fn total_turn(s: Seq<PairView>) -> int
    decreases s.len(),
{
    if s.len() == 0 {
        0
    } else {
        total_turn(s.drop_last()) + fixed_turn(s.last().instruction)
    }
}

/// An anti-idle sweep leaves the camera facing where it started.
pub proof fn lemma_anti_afk_turns_back(game: Seq<char>)
    ensures
        total_turn(anti_afk_plan(game)) == 0,
{
    let s = anti_afk_plan(game);
    reveal_with_fuel(total_turn, 7);
    assert(s.drop_last().drop_last().drop_last().drop_last().drop_last().drop_last() =~= Seq::<
        PairView,
    >::empty());
}

/// The anti-idle cycle: a sweep on every tick, and the advert after every
/// third sweep.
pub struct AfkCycle {
    sweeps: u8,
}

impl View for AfkCycle {
    type V = nat;

    closed spec fn view(&self) -> nat {
        self.sweeps as nat
    }
}

impl AfkCycle {
    /// A cycle at its start.
    pub fn new() -> (r: AfkCycle)
        ensures
            r@ == 0,
    {
        AfkCycle { sweeps: 0 }
    }

    /// Counts one sweep; true when the advert follows it.
    pub fn sweep(&mut self) -> (advert: bool)
        requires
            old(self)@ < 3,
        ensures
            advert == (old(self)@ == 2),
            final(self)@ == if advert {
                0
            } else {
                old(self)@ + 1
            },
            final(self)@ < 3,
    {
        if self.sweeps >= 2 {
            self.sweeps = 0;
            true
        } else {
            self.sweeps = self.sweeps + 1;
            false
        }
    }
}

} // verus!

verus! {

/// The batch restarts the machine.
pub open spec fn restarts(s: Seq<PairView>) -> bool {
    exists|j: int| 0 <= j < s.len() && #[trigger] s[j].instruction == InstructionView::Restart
}

/// Only the last warning (minute 59) restarts the machine; the earlier
/// ones only announce.
pub proof fn lemma_only_last_warning_restarts(game: Seq<char>, warning: i32)
    ensures
        restarts(restart_plan(game, warning)) == (warning == 59),
{
    let p = restart_plan(game, warning);
    if warning == 59 {
        assert(p[3].instruction == InstructionView::Restart);
    } else {
        assert(p.len() == 2);
        if restarts(p) {
            let j = choose|j: int| 0 <= j < p.len() && #[trigger] p[j].instruction == InstructionView::Restart;
            assert(j == 0 || j == 1);
        }
    }
}

/// The idle count after one tick.
pub open spec fn next_idle(idle: int) -> int {
    if idle == 2 {
        0
    } else {
        idle + 1
    }
}

/// Of any three consecutive ticks, exactly one polls the hardware
/// monitor.
pub proof fn lemma_polls_once_in_three(idle: int)
    requires
        0 <= idle <= 2,
    ensures
        (if idle == 2 { 1int } else { 0 }) + (if next_idle(idle) == 2 { 1int } else { 0 }) + (if next_idle(
            next_idle(idle),
        ) == 2 { 1int } else { 0 }) == 1,
        next_idle(next_idle(next_idle(idle))) == idle,
{
}

} // verus!

verus! {

/// A restart warning is given only in the hour before 04:00, on minute 55,
/// 58 or 59 (the warning is that minute), once the machine has been up two
/// minutes and when that minute has not been warned yet; and then it is
/// always given.
pub proof fn lemma_warning_only_before_four(ticker: i32, hour: u32, minute: u32, uptime_ms: u64)
    ensures
        restart_warning(ticker, hour, minute, uptime_ms) != -1 ==> ({
            &&& hour == 3
            &&& minute == 55 || minute == 58 || minute == 59
            &&& restart_warning(ticker, hour, minute, uptime_ms) == minute as i32
            &&& uptime_ms >= 120_000
            &&& ticker != minute as i32
        }),
        hour == 3 && (minute == 55 || minute == 58 || minute == 59) && uptime_ms >= 120_000
            && ticker != minute as i32 ==> restart_warning(ticker, hour, minute, uptime_ms)
            == minute as i32,
{
}

/// The anti-idle sweep turns the camera: 45 degrees one way, then 90 the
/// other way (45 past where it started), then 45 back to where it started,
/// each turn after the window check and with a pause between turns.
pub proof fn lemma_sweep_turns_and_returns(game: Seq<char>)
    ensures
        anti_afk_plan(game).len() == 6,
        anti_afk_plan(game)[0].instruction == (InstructionView::CheckActive { window_title: game }),
        total_turn(anti_afk_plan(game).take(2)) == 45,
        total_turn(anti_afk_plan(game).take(4)) == -45,
        total_turn(anti_afk_plan(game)) == 0,
        anti_afk_plan(game)[2].instruction == (InstructionView::Wait { amount_ms: 500 }),
        anti_afk_plan(game)[4].instruction == (InstructionView::Wait { amount_ms: 500 }),
{
    let s = anti_afk_plan(game);
    reveal_with_fuel(total_turn, 7);
    assert(s.take(2).drop_last().drop_last() =~= Seq::<PairView>::empty());
    assert(s.take(2).drop_last() =~= s.take(1));
    assert(s.take(4).drop_last() =~= s.take(3));
    assert(s.take(3).drop_last() =~= s.take(2));
    assert(s.take(2).last() == s[1]);
    assert(s.take(4).last() == s[3]);
    assert(s.take(3).last() == s[2]);
    assert(s.drop_last() =~= s.take(5));
    assert(s.take(5).drop_last() =~= s.take(4));
    assert(s.take(5).last() == s[4]);
    assert(s.take(1).drop_last() =~= Seq::<PairView>::empty());
    lemma_anti_afk_turns_back(game);
}

} // verus!
