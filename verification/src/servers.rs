//! Game servers: which one the bot's player is in, which one has the most
//! players, and when and how the bot moves to a better one or recovers from
//! a crash.
use vstd::prelude::*;
use vstd::string::*;
use crate::text::{owned, concat3, same_text, chars_of};
use crate::instruction::{
    Instruction, InstructionPair, InstructionView, PairView, at, pair, pairs_view,
};

verus! {

broadcast use vstd::seq_lib::group_seq_properties;

/// A public server of the game and the player tokens in it.
#[derive(Clone, Debug)]
pub struct GameInstance {
    pub id: String,
    pub players: Vec<String>,
}

pub struct GameView {
    pub id: Seq<char>,
    pub players: Seq<Seq<char>>,
}

impl View for GameInstance {
    type V = GameView;

    open spec fn view(&self) -> GameView {
        GameView { id: self.id@, players: self.players.deep_view() }
    }
}

pub open spec fn games_view(s: Seq<GameInstance>) -> Seq<GameView> {
    s.map_values(|g: GameInstance| g@)
}

/// The placeholder for "no server".
pub open spec fn unknown_server() -> GameView {
    GameView { id: "UNKNOWN"@, players: Seq::empty() }
}

/// The index of the first server that holds `token`, or -1.
pub open spec fn current_index(s: Seq<GameView>, token: Seq<char>) -> int
    decreases s.len(),
{
    if s.len() == 0 {
        -1
    } else {
        let j = current_index(s.drop_last(), token);
        if j >= 0 {
            j
        } else if s.last().players.contains(token) {
            s.len() - 1
        } else {
            -1
        }
    }
}

/// The server that the player with `token` is in, or the placeholder.
pub open spec fn current_server(s: Seq<GameView>, token: Seq<char>) -> GameView {
    let j = current_index(s, token);
    if j >= 0 {
        s[j]
    } else {
        unknown_server()
    }
}

/// The index of the first server with strictly more players than every
/// server before it and at least as many as every server, or -1 when no
/// server has a player.
pub open spec fn best_index(s: Seq<GameView>) -> int
    decreases s.len(),
{
    if s.len() == 0 {
        -1
    } else {
        let j = best_index(s.drop_last());
        let so_far = if j >= 0 {
            s[j].players.len()
        } else {
            0
        };
        if so_far < s.last().players.len() {
            s.len() - 1
        } else {
            j
        }
    }
}

/// The server with the most players (the first of them), or the placeholder.
pub open spec fn best_server(s: Seq<GameView>) -> GameView {
    let j = best_index(s);
    if j >= 0 {
        s[j]
    } else {
        unknown_server()
    }
}

/// The player is in a known server.
pub open spec fn in_server(s: Seq<GameView>, token: Seq<char>) -> bool {
    current_server(s, token).id != "UNKNOWN"@
}

/// The player need not move: no server is known to be better, or the best
/// one has at most the required number of players more (two when the best
/// holds at most seven, five otherwise).
pub open spec fn in_best_server(s: Seq<GameView>, token: Seq<char>) -> bool {
    let b = best_server(s);
    if b.id == "UNKNOWN"@ {
        true
    } else {
        let c = current_server(s, token);
        let required = if b.players.len() <= 7 {
            2int
        } else {
            5int
        };
        b.players.len() - c.players.len() <= required
    }
}

pub proof fn lemma_current_index(s: Seq<GameView>, token: Seq<char>)
    ensures
        -1 <= current_index(s, token) < s.len(),
        current_index(s, token) >= 0 ==> s[current_index(s, token)].players.contains(token),
        current_index(s, token) >= 0 ==> forall|i: int|
            0 <= i < current_index(s, token) ==> !(#[trigger] s[i]).players.contains(token),
        current_index(s, token) < 0 ==> forall|i: int|
            0 <= i < s.len() ==> !(#[trigger] s[i]).players.contains(token),
    decreases s.len(),
{
    if s.len() > 0 {
        let d = s.drop_last();
        lemma_current_index(d, token);
        assert forall|i: int| 0 <= i < d.len() implies d[i] == s[i] by {}
    }
}

/// The best server has at least as many players as any server, and
/// strictly more than every server before it; when there is none, no server
/// has a player.
pub proof fn lemma_best_index(s: Seq<GameView>)
    ensures
        -1 <= best_index(s) < s.len(),
        best_index(s) >= 0 ==> s[best_index(s)].players.len() > 0,
        best_index(s) >= 0 ==> forall|i: int|
            0 <= i < s.len() ==> (#[trigger] s[i]).players.len() <= s[best_index(s)].players.len(),
        best_index(s) >= 0 ==> forall|i: int|
            0 <= i < best_index(s) ==> (#[trigger] s[i]).players.len() < s[best_index(s)].players.len(),
        best_index(s) < 0 ==> forall|i: int| 0 <= i < s.len() ==> (#[trigger] s[i]).players.len() == 0,
    decreases s.len(),
{
    if s.len() > 0 {
        let d = s.drop_last();
        lemma_best_index(d);
        assert forall|i: int| 0 <= i < d.len() implies d[i] == s[i] by {}
    }
}

/// The player's server never has more players than the best server.
pub proof fn lemma_current_within_best(s: Seq<GameView>, token: Seq<char>)
    ensures
        current_server(s, token).players.len() <= best_server(s).players.len(),
{
    lemma_current_index(s, token);
    lemma_best_index(s);
    let j = current_index(s, token);
    if j >= 0 {
        assert(s[j].players.len() <= best_server(s).players.len());
    }
}

impl GameInstance {
    /// A copy of this server record.
    pub fn duplicate(&self) -> (r: GameInstance)
        ensures
            r@ == self@,
    {
        let mut players: Vec<String> = Vec::new();
        let mut i: usize = 0;
        while i < self.players.len()
            invariant
                i <= self.players@.len(),
                players@.len() == i,
                forall|j: int| 0 <= j < i ==> #[trigger] players@[j]@ == self.players@[j]@,
            decreases self.players@.len() - i,
        {
            players.push(self.players[i].clone());
            i = i + 1;
        }
        let r = GameInstance { id: self.id.clone(), players };
        assert(r@.players =~= self@.players);
        r
    }
}

fn holds_player(g: &GameInstance, token: &String) -> (r: bool)
    ensures
        r == g@.players.contains(token@),
{
    let mut i: usize = 0;
    while i < g.players.len()
        invariant
            i <= g.players@.len(),
            forall|j: int| 0 <= j < i ==> g@.players[j] != token@,
        decreases g.players@.len() - i,
    {
        if g.players[i] == *token {
            assert(g@.players[i as int] == token@);
            return true;
        }
        i = i + 1;
    }
    proof {
        if g@.players.contains(token@) {
            let k = choose|k: int| 0 <= k < g@.players.len() && g@.players[k] == token@;
            assert(g@.players[k] != token@);
        }
    }
    false
}

fn unknown_instance() -> (r: GameInstance)
    ensures
        r@ == unknown_server(),
{
    let r = GameInstance { id: owned("UNKNOWN"), players: Vec::new() };
    assert(r@.players =~= Seq::<Seq<char>>::empty());
    r
}

fn current_position(token: &String, list: &Vec<GameInstance>) -> (r: Option<usize>)
    ensures
        match r {
            Some(j) => j < list@.len() && j as int == current_index(games_view(list@), token@),
            None => current_index(games_view(list@), token@) < 0,
        },
{
    let ghost s = games_view(list@);
    let mut i: usize = 0;
    while i < list.len()
        invariant
            i <= list@.len(),
            s == games_view(list@),
            forall|j: int| 0 <= j < i ==> !s[j].players.contains(token@),
        decreases list@.len() - i,
    {
        if holds_player(&list[i], token) {
            proof {
                lemma_current_index(s, token@);
                assert(s[i as int].players.contains(token@));
                let c = current_index(s, token@);
                if 0 <= c < i {
                    assert(!s[c].players.contains(token@));
                }
            }
            return Some(i);
        }
        i = i + 1;
    }
    proof {
        lemma_current_index(s, token@);
        let c = current_index(s, token@);
        if c >= 0 {
            assert(!s[c].players.contains(token@));
        }
    }
    None
}

/// The server that the player with `player_token` is in, or the placeholder.
pub fn get_current_server(player_token: &String, instance_list: Vec<GameInstance>) -> (r:
    GameInstance)
    ensures
        r@ == current_server(games_view(instance_list@), player_token@),
{
    current_of(player_token, &instance_list)
}

fn current_of(player_token: &String, instance_list: &Vec<GameInstance>) -> (r: GameInstance)
    ensures
        r@ == current_server(games_view(instance_list@), player_token@),
{
    match current_position(player_token, instance_list) {
        Some(j) => instance_list[j].duplicate(),
        None => unknown_instance(),
    }
}

/// Whether the player is in a known server.
pub fn check_in_server(player_token: &String, instance_list: Vec<GameInstance>) -> (r: bool)
    ensures
        r == in_server(games_view(instance_list@), player_token@),
{
    let c = current_of(player_token, &instance_list);
    !is_unknown_id(&c.id)
}

fn best_position(list: &Vec<GameInstance>) -> (r: Option<usize>)
    ensures
        match r {
            Some(j) => j < list@.len() && j as int == best_index(games_view(list@)),
            None => best_index(games_view(list@)) < 0,
        },
{
    let ghost s = games_view(list@);
    let mut best: Option<usize> = None;
    let mut best_len: usize = 0;
    let mut i: usize = 0;
    while i < list.len()
        invariant
            i <= list@.len(),
            s == games_view(list@),
            match best {
                Some(j) => j < i && j as int == best_index(s.take(i as int)) && best_len
                    == s[j as int].players.len(),
                None => best_index(s.take(i as int)) < 0 && best_len == 0,
            },
        decreases list@.len() - i,
    {
        assert(s.take(i + 1).drop_last() =~= s.take(i as int));
        let n = list[i].players.len();
        if best_len < n {
            best = Some(i);
            best_len = n;
        }
        i = i + 1;
    }
    assert(s.take(i as int) =~= s);
    best
}

/// The server with the most players (the first of them), or the placeholder
/// when no server has a player.
pub fn get_best_server(instance_list: Vec<GameInstance>) -> (r: GameInstance)
    ensures
        r@ == best_server(games_view(instance_list@)),
{
    best_of(&instance_list)
}

fn best_of(instance_list: &Vec<GameInstance>) -> (r: GameInstance)
    ensures
        r@ == best_server(games_view(instance_list@)),
{
    match best_position(instance_list) {
        Some(j) => instance_list[j].duplicate(),
        None => unknown_instance(),
    }
}

fn is_unknown_id(id: &String) -> (r: bool)
    ensures
        r == (id@ == "UNKNOWN"@),
{
    let c = chars_of(id.as_str());
    same_text(&c, "UNKNOWN")
}

/// Whether the player need not move to another server.
pub fn check_in_best_server(player_token: &String, instance_list: Vec<GameInstance>) -> (r: bool)
    ensures
        r == in_best_server(games_view(instance_list@), player_token@),
{
    in_best_of(player_token, &instance_list)
}

fn in_best_of(player_token: &String, instance_list: &Vec<GameInstance>) -> (r: bool)
    ensures
        r == in_best_server(games_view(instance_list@), player_token@),
{
    let ghost s = games_view(instance_list@);
    let best = best_of(instance_list);
    if is_unknown_id(&best.id) {
        return true;
    }
    let current = current_of(player_token, instance_list);
    let required: usize = if best.players.len() <= 7 {
        2
    } else {
        5
    };
    proof {
        lemma_current_within_best(s, player_token@);
    }
    let difference = best.players.len() - current.players.len();
    difference <= required
}

// ---------------------------------------------------------------------------
// Decimal numbers in messages
// ---------------------------------------------------------------------------

/// The decimal digits of `n`, most significant first, with no leading zero.
pub open spec fn decimal(n: nat) -> Seq<char>
    decreases n,
{
    if n < 10 {
        seq![digit_char((n % 10) as nat)]
    } else {
        decimal(n / 10).push(digit_char((n % 10) as nat))
    }
}

pub open spec fn digit_char(d: nat) -> char {
    (('0' as u32) + d) as char
}

fn digit_exec(d: u64) -> (c: char)
    requires
        d < 10,
    ensures
        c == digit_char(d as nat),
{
    let b = (d as u8) + 48;
    b as char
}

/// `n` written in decimal.
pub fn decimal_string(n: u64) -> (r: String)
    ensures
        r@ == decimal(n as nat),
{
    let mut digits: Vec<char> = Vec::new();
    let mut m = n;
    // digits holds the low-order digits, least significant first.
    while m >= 10
        invariant
            decimal(n as nat) == decimal(m as nat) + digits@.reverse(),
        decreases m,
    {
        let d = m % 10;
        let c = digit_exec(d);
        let ghost old_digits = digits@;
        digits.push(c);
        proof {
            assert(decimal(m as nat) == decimal((m / 10) as nat).push(c));
            assert(digits@.reverse() =~= seq![c] + old_digits.reverse());
            assert(decimal(m as nat) + old_digits.reverse() =~= decimal((m / 10) as nat) + digits@.reverse());
        }
        m = m / 10;
    }
    let mut out: Vec<char> = Vec::new();
    out.push(digit_exec(m));
    assert(out@ =~= decimal(m as nat));
    let mut i: usize = digits.len();
    while i > 0
        invariant
            i <= digits@.len(),
            out@ == decimal(m as nat) + digits@.subrange(i as int, digits@.len() as int).reverse(),
        decreases i,
    {
        i = i - 1;
        out.push(digits[i]);
        assert(out@ =~= decimal(m as nat) + digits@.subrange(i as int, digits@.len() as int).reverse());
    }
    assert(digits@.subrange(0, digits@.len() as int) =~= digits@);
    crate::text::string_of(&out)
}

// ---------------------------------------------------------------------------
// Moving and recovering
// ---------------------------------------------------------------------------

/// The check against the server list succeeded: some server has a player.
pub open spec fn servers_known(s: Seq<GameView>) -> bool {
    best_server(s).id != "UNKNOWN"@
}

/// Whether the server list tells of a best server (the bot acts on the list
/// only then).
pub fn api_check_passed(instance_list: &Vec<GameInstance>) -> (r: bool)
    ensures
        r == servers_known(games_view(instance_list@)),
{
    let best = best_of(instance_list);
    !is_unknown_id(&best.id)
}

pub open spec fn rate_limit_text() -> Seq<char> {
    "ABIDING ROBLOX RATE-LIMIT"@
}

pub open spec fn recovered_text() -> Seq<char> {
    "[Crash recovery complete! Ready to accept commands.]"@
}

/// The tail of every move: close the game, wait out the rate limit, join
/// `server`, check the window and say so; orders start at `first`.
pub open spec fn rejoin_tail(first: i64, server: Seq<char>, game: Seq<char>, done: Seq<char>) -> Seq<PairView> {
    seq![
        at(first, InstructionView::TerminateGame),
        at(
            (first + 1) as i64,
            InstructionView::WaitWithMessage { amount_ms: 10000, message: rate_limit_text() },
        ),
        at((first + 2) as i64, InstructionView::JoinServer { server_id: server }),
        at((first + 3) as i64, InstructionView::CheckActive { window_title: game }),
        at((first + 4) as i64, InstructionView::SystemChatMessage { message: done }),
    ]
}

/// The forced rejoin: when the player is in a known server and the game
/// window is active, first a farewell and a pause; then the move to the best
/// server.
pub open spec fn rejoin_plan(s: Seq<GameView>, token: Seq<char>, game: Seq<char>, game_active: bool) -> Seq<PairView> {
    let head = if current_server(s, token).id != "UNKNOWN"@ && game_active {
        seq![
            at(0, InstructionView::SystemChatMessage { message: "[Force-rejoin queued! Be right back!]"@ }),
            at(1, InstructionView::Wait { amount_ms: 7000 }),
        ]
    } else {
        Seq::empty()
    };
    head + rejoin_tail(2, best_server(s).id, game, recovered_text())
}

/// Whether planning a forced rejoin needs to know if the game window is
/// active (only when the player is in a known server).
pub fn rejoin_needs_focus_check(player_token: &String, instance_list: &Vec<GameInstance>) -> (r: bool)
    ensures
        r == (current_server(games_view(instance_list@), player_token@).id != "UNKNOWN"@),
{
    let c = current_of(player_token, instance_list);
    !is_unknown_id(&c.id)
}

fn push_tail(
    v: &mut Vec<InstructionPair>,
    first: i64,
    server: String,
    game: &String,
    done: &str,
)
    requires
        0 <= first <= 10,
    ensures
        pairs_view(final(v)@) == pairs_view(old(v)@) + rejoin_tail(first, server@, game@, done@),
{
    let ghost before = pairs_view(v@);
    let ghost sv = server@;
    v.push(pair(first, Instruction::TerminateGame {  }));
    v.push(
        pair(
            first + 1,
            Instruction::WaitWithMessage {
                amount_ms: 10000,
                message: owned("ABIDING ROBLOX RATE-LIMIT"),
            },
        ),
    );
    v.push(pair(first + 2, Instruction::JoinServer { server_id: server }));
    v.push(pair(first + 3, Instruction::CheckActive { window_title: game.clone() }));
    v.push(pair(first + 4, Instruction::SystemChatMessage { message: owned(done) }));
    assert(pairs_view(v@) =~= before + rejoin_tail(first, sv, game@, done@));
}

/// The instructions of a forced rejoin. `game_active` is consulted only when
/// the player is in a known server.
pub fn rejoin_instructions(
    player_token: &String,
    instance_list: Vec<GameInstance>,
    game: &String,
    game_active: bool,
) -> (r: Vec<InstructionPair>)
    ensures
        pairs_view(r@) == rejoin_plan(games_view(instance_list@), player_token@, game@, game_active),
{
    let best = best_of(&instance_list);
    let current = current_of(player_token, &instance_list);
    let mut v: Vec<InstructionPair> = Vec::new();
    if !is_unknown_id(&current.id) && game_active {
        v.push(
            pair(
                0,
                Instruction::SystemChatMessage { message: owned("[Force-rejoin queued! Be right back!]") },
            ),
        );
        v.push(pair(1, Instruction::Wait { amount_ms: 7000 }));
    }
    let ghost head = pairs_view(v@);
    push_tail(&mut v, 2, best.id, game, "[Crash recovery complete! Ready to accept commands.]");
    proof {
        if !(current@.id != "UNKNOWN"@ && game_active) {
            assert(head =~= Seq::<PairView>::empty());
        }
    }
    v
}

/// What the periodic server check decides.
#[derive(Debug)]
pub enum ServerPlan {
    /// The player is where it should be.
    Stay,
    /// The player is in a server, but a better one exists: move there.
    Relocate { instructions: Vec<InstructionPair> },
    /// The player is in no known server (a likely crash): alert the
    /// developer and rejoin.
    Recover { instructions: Vec<InstructionPair> },
}

pub enum ServerPlanView {
    Stay,
    Relocate { instructions: Seq<PairView> },
    Recover { instructions: Seq<PairView> },
}

impl View for ServerPlan {
    type V = ServerPlanView;

    open spec fn view(&self) -> ServerPlanView {
        match self {
            ServerPlan::Stay => ServerPlanView::Stay,
            ServerPlan::Relocate { instructions } => ServerPlanView::Relocate {
                instructions: pairs_view(instructions@),
            },
            ServerPlan::Recover { instructions } => ServerPlanView::Recover {
                instructions: pairs_view(instructions@),
            },
        }
    }
}

/// The periodic server check.
pub open spec fn server_check(s: Seq<GameView>, token: Seq<char>, game: Seq<char>) -> ServerPlanView {
    let inside = in_server(s, token);
    if inside && in_best_server(s, token) {
        ServerPlanView::Stay
    } else if !inside {
        ServerPlanView::Recover { instructions: rejoin_tail(0, best_server(s).id, game, recovered_text()) }
    } else {
        let diff = (best_server(s).players.len() - current_server(s, token).players.len()) as nat;
        ServerPlanView::Relocate {
            instructions: seq![
                at(0, InstructionView::CheckActive { window_title: game }),
                at(
                    1,
                    InstructionView::SystemChatMessage {
                        message: "[Moving servers! There is a server with "@ + decimal(diff)
                            + " more players. See you there!]"@,
                    },
                ),
                at(2, InstructionView::Wait { amount_ms: 7000 }),
            ] + rejoin_tail(
                3,
                best_server(s).id,
                game,
                "[Server relocation complete! Ready to accept commands.]"@,
            ),
        }
    }
}

/// The periodic server check for the player with `player_token`.
pub fn server_check_plan(player_token: &String, instance_list: Vec<GameInstance>, game: &String) -> (r:
    ServerPlan)
    ensures
        r@ == server_check(games_view(instance_list@), player_token@, game@),
{
    let ghost s = games_view(instance_list@);
    let best = best_of(&instance_list);
    let current = current_of(player_token, &instance_list);
    let inside = !is_unknown_id(&current.id);
    let in_best = if inside {
        in_best_of(player_token, &instance_list)
    } else {
        false
    };
    if inside && in_best {
        return ServerPlan::Stay;
    }
    proof {
        lemma_current_within_best(s, player_token@);
    }
    let difference = best.players.len() - current.players.len();
    let mut v: Vec<InstructionPair> = Vec::new();
    if !inside {
        push_tail(&mut v, 0, best.id, game, "[Crash recovery complete! Ready to accept commands.]");
        assert(pairs_view(v@) =~= rejoin_tail(0, best@.id, game@, recovered_text()));
        ServerPlan::Recover { instructions: v }
    } else {
        let number = decimal_string(difference as u64);
        let message = concat3(
            "[Moving servers! There is a server with ",
            number.as_str(),
            " more players. See you there!]",
        );
        let ghost mv = message@;
        v.push(pair(0, Instruction::CheckActive { window_title: game.clone() }));
        v.push(pair(1, Instruction::SystemChatMessage { message }));
        v.push(pair(2, Instruction::Wait { amount_ms: 7000 }));
        let ghost head = pairs_view(v@);
        push_tail(&mut v, 3, best.id, game, "[Server relocation complete! Ready to accept commands.]");
        assert(head =~= seq![
            at(0, InstructionView::CheckActive { window_title: game@ }),
            at(1, InstructionView::SystemChatMessage { message: mv }),
            at(2, InstructionView::Wait { amount_ms: 7000 }),
        ]);
        ServerPlan::Relocate { instructions: v }
    }
}

/// One poll of the server list: nothing to do when the list could not be
/// had, or when no server on it has a player; otherwise the plan of the
/// server check.
pub fn server_poll(player_token: &String, fetched: Option<Vec<GameInstance>>, game: &String) -> (r:
    Option<ServerPlan>)
    ensures
        match fetched {
            None => r is None,
            Some(l) => {
                &&& servers_known(games_view(l@)) ==> (r matches Some(p) && p@ == server_check(
                    games_view(l@),
                    player_token@,
                    game@,
                ))
                &&& !servers_known(games_view(l@)) ==> r is None
            },
        },
{
    match fetched {
        None => None,
        Some(list) => {
            if api_check_passed(&list) {
                Some(server_check_plan(player_token, list, game))
            } else {
                None
            }
        },
    }
}

/// The developer alert of a likely crash, by whether the game window was
/// still found.
pub fn crash_notice(game_active: bool) -> (r: String)
    ensures
        game_active ==> r@ == "Likely crash detected | Running"@,
        !game_active ==> r@ == "Likely crash detected | Not found"@,
{
    if game_active {
        owned("Likely crash detected | Running")
    } else {
        owned("Likely crash detected | Not found")
    }
}

} // verus!

verus! {

/// A player in the server with the most players stays where it is.
pub proof fn lemma_in_best_server_stays(s: Seq<GameView>, token: Seq<char>, game: Seq<char>)
    requires
        in_server(s, token),
        current_server(s, token) == best_server(s),
    ensures
        in_best_server(s, token),
        server_check(s, token, game) == ServerPlanView::Stay,
{
}

/// The batch joins the server `id`.
pub open spec fn joins(instructions: Seq<PairView>, id: Seq<char>) -> bool {
    exists|j: int|
        0 <= j < instructions.len() && #[trigger] instructions[j].instruction
            == InstructionView::JoinServer { server_id: id }
}

/// Every move that the server check or a forced rejoin schedules joins
/// the server with the most players.
pub proof fn lemma_moves_join_best(s: Seq<GameView>, token: Seq<char>, game: Seq<char>, game_active: bool)
    ensures
        server_check(s, token, game) matches ServerPlanView::Relocate { instructions } ==> joins(
            instructions,
            best_server(s).id,
        ),
        server_check(s, token, game) matches ServerPlanView::Recover { instructions } ==> joins(
            instructions,
            best_server(s).id,
        ),
        joins(rejoin_plan(s, token, game, game_active), best_server(s).id),
{
    let b = best_server(s).id;
    match server_check(s, token, game) {
        ServerPlanView::Relocate { instructions } => {
            assert(instructions[5].instruction == InstructionView::JoinServer { server_id: b });
        },
        ServerPlanView::Recover { instructions } => {
            assert(instructions[2].instruction == InstructionView::JoinServer { server_id: b });
        },
        _ => {},
    }
    let r = rejoin_plan(s, token, game, game_active);
    if current_server(s, token).id != "UNKNOWN"@ && game_active {
        assert(r[4].instruction == InstructionView::JoinServer { server_id: b });
    } else {
        assert(r[2].instruction == InstructionView::JoinServer { server_id: b });
    }
}

} // verus!

verus! {

/// The command-line arguments of the script that joins server `instance_id`
/// of game `game_id` through a browser, with the given web driver or, when
/// none is configured, "chromedriver.exe".
pub open spec fn join_args(game_id: i64, instance_id: Seq<char>, driver: Option<Seq<char>>) -> Seq<Seq<char>> {
    seq![
        "/C"@,
        "poetry"@,
        "run"@,
        "python"@,
        "join_game.py"@,
        "--game"@,
        crate::vision::signed_decimal(game_id as int),
        "--instance"@,
        instance_id,
        "--driver"@,
        match driver {
            Some(d) => d,
            None => "chromedriver.exe"@,
        },
    ]
}

/// The text of an optional string.
pub open spec fn text_option(o: Option<String>) -> Option<Seq<char>> {
    match o {
        Some(d) => Some(d@),
        None => None,
    }
}

/// The command-line arguments that join a server.
pub fn join_game_args(game_id: i64, instance_id: &str, driver: Option<String>) -> (r: Vec<String>)
    ensures
        r.deep_view() == join_args(game_id, instance_id@, text_option(driver)),
{
    let ghost dv = text_option(driver);
    let mut r: Vec<String> = Vec::new();
    r.push(owned("/C"));
    r.push(owned("poetry"));
    r.push(owned("run"));
    r.push(owned("python"));
    r.push(owned("join_game.py"));
    r.push(owned("--game"));
    r.push(crate::vision::signed_decimal_string(game_id));
    r.push(owned("--instance"));
    r.push(owned(instance_id));
    r.push(owned("--driver"));
    match driver {
        Some(d) => r.push(d),
        None => r.push(owned("chromedriver.exe")),
    }
    assert(r.deep_view() =~= join_args(game_id, instance_id@, dv));
    r
}

} // verus!

verus! {

/// Each server of `s1` is also a server of `s2` when the two lists hold the
/// same servers, in any order.
proof fn lemma_permuted_contains(s1: Seq<GameView>, s2: Seq<GameView>, i: int)
    requires
        s1.to_multiset() == s2.to_multiset(),
        0 <= i < s1.len(),
    ensures
        exists|k: int| 0 <= k < s2.len() && s2[k] == s1[i],
{
    broadcast use vstd::seq_lib::group_to_multiset_ensures;

    assert(s1.contains(s1[i]));
    assert(s1.to_multiset().count(s1[i]) > 0);
    assert(s2.contains(s1[i]));
}

/// The largest player count does not depend on the order of the server
/// list: two lists that hold the same servers, in any order, have best
/// servers with equally many players. When the servers with that count are
/// all the same server (or no server has a player), the best server itself
/// is the same.
pub proof fn lemma_best_count_any_order(s1: Seq<GameView>, s2: Seq<GameView>)
    requires
        s1.to_multiset() == s2.to_multiset(),
    ensures
        best_server(s1).players.len() == best_server(s2).players.len(),
        (forall|i: int, k: int|
            0 <= i < s1.len() && 0 <= k < s1.len() && s1[i].players.len() == best_server(
                s1,
            ).players.len() && s1[k].players.len() == best_server(s1).players.len() ==> #[trigger] s1[i]
                == #[trigger] s1[k]) ==> best_server(s1) == best_server(s2),
{
    lemma_best_index(s1);
    lemma_best_index(s2);
    let b1 = best_index(s1);
    let b2 = best_index(s2);
    if b1 >= 0 {
        lemma_permuted_contains(s1, s2, b1);
        let k = choose|k: int| 0 <= k < s2.len() && s2[k] == s1[b1];
        assert(s2[k].players.len() <= best_server(s2).players.len());
    }
    if b2 >= 0 {
        lemma_permuted_contains(s2, s1, b2);
        let k = choose|k: int| 0 <= k < s1.len() && s1[k] == s2[b2];
        assert(s1[k].players.len() <= best_server(s1).players.len());
        if b1 < 0 {
            assert(s1[k].players.len() == 0);
        }
    }
    if b1 >= 0 && b2 < 0 {
        lemma_permuted_contains(s1, s2, b1);
        let k = choose|k: int| 0 <= k < s2.len() && s2[k] == s1[b1];
        assert(s2[k].players.len() == 0);
    }
    if (forall|i: int, k: int|
        0 <= i < s1.len() && 0 <= k < s1.len() && s1[i].players.len() == best_server(
            s1,
        ).players.len() && s1[k].players.len() == best_server(s1).players.len() ==> #[trigger] s1[i]
            == #[trigger] s1[k]) {
        if b2 >= 0 {
            lemma_permuted_contains(s2, s1, b2);
            let k = choose|k: int| 0 <= k < s1.len() && s1[k] == s2[b2];
            assert(s1[k] == s1[b1]);
        }
    }
}

} // verus!

verus! {

/// The player moves only for a clearly fuller server: with at most two
/// players fewer than the best server it always stays, and with more than
/// five fewer it always moves (unless the best server's own id is the
/// placeholder "UNKNOWN", which the check takes for "no server").
pub proof fn lemma_switch_margin(s: Seq<GameView>, token: Seq<char>, game: Seq<char>)
    requires
        in_server(s, token),
        best_server(s).id != "UNKNOWN"@,
    ensures
        best_server(s).players.len() <= current_server(s, token).players.len() + 2 ==> server_check(
            s,
            token,
            game,
        ) == ServerPlanView::Stay,
        best_server(s).players.len() > current_server(s, token).players.len() + 5 ==> server_check(
            s,
            token,
            game,
        ) is Relocate,
{
}

} // verus!
