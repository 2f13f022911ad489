use sbfcam::instruction::{order_batch, Amount, Instruction, InstructionPair, SystemInstruction};
use sbfcam::queue::{check_verdict, CheckVerdict, QueueProcessor};
use sbfcam::servers::{
    api_check_passed, check_in_best_server, check_in_server, crash_notice, decimal_string,
    get_best_server, get_current_server, rejoin_instructions, rejoin_needs_focus_check,
    server_check_plan, GameInstance, ServerPlan,
};

fn s(x: &str) -> String {
    String::from(x)
}

fn server(id: &str, players: &[&str]) -> GameInstance {
    GameInstance { id: s(id), players: players.iter().map(|p| s(p)).collect() }
}

fn servers() -> Vec<GameInstance> {
    vec![
        server("a", &["p1", "p2"]),
        server("b", &["me", "p3", "p4"]),
        server("c", &["p5", "p6", "p7", "p8", "p9", "p10"]),
        server("d", &["q1", "q2", "q3", "q4", "q5", "q6"]),
    ]
}

#[test]
fn current_server_is_the_first_holding_the_player() {
    assert_eq!(get_current_server(&s("me"), servers()).id, "b");
    let none = get_current_server(&s("ghost"), servers());
    assert_eq!(none.id, "UNKNOWN");
    assert!(none.players.is_empty());
    assert!(check_in_server(&s("me"), servers()));
    assert!(!check_in_server(&s("ghost"), servers()));
    assert!(!check_in_server(&s("me"), vec![]));
}

#[test]
fn best_server_is_the_first_with_most_players() {
    assert_eq!(get_best_server(servers()).id, "c");
    assert_eq!(get_best_server(vec![server("x", &[]), server("y", &[])]).id, "UNKNOWN");
    assert_eq!(get_best_server(vec![]).id, "UNKNOWN");
}

#[test]
fn switch_thresholds() {
    // Best has 6 players (at most 7): a switch needs more than 2 extra players.
    assert!(!check_in_best_server(&s("me"), servers()));
    assert!(check_in_best_server(&s("p1"), vec![server("a", &["p1", "x"]), server("c", &["1", "2", "3", "4"])]));
    // Best has 9 players: a switch needs more than 5 extra players.
    let big: Vec<&str> = vec!["1", "2", "3", "4", "5", "6", "7", "8", "9"];
    assert!(check_in_best_server(&s("me"), vec![server("a", &["me", "x", "y", "z"]), server("c", &big)]));
    assert!(!check_in_best_server(&s("me"), vec![server("a", &["me", "x", "y"]), server("c", &big)]));
    // No best server known: stay.
    assert!(check_in_best_server(&s("me"), vec![]));
}

#[test]
fn decimal_numbers() {
    assert_eq!(decimal_string(0), "0");
    assert_eq!(decimal_string(7), "7");
    assert_eq!(decimal_string(10), "10");
    assert_eq!(decimal_string(1234567890), "1234567890");
    assert_eq!(decimal_string(u64::MAX), u64::MAX.to_string());
}

#[test]
fn relocation_plan() {
    match server_check_plan(&s("me"), servers(), &s("Roblox")) {
        ServerPlan::Relocate { instructions } => {
            let orders: Vec<i64> = instructions.iter().map(|p| p.execution_order).collect();
            assert_eq!(orders, vec![0, 1, 2, 3, 4, 5, 6, 7]);
            assert_eq!(instructions[1].instruction, Instruction::SystemChatMessage { message: s("[Moving servers! There is a server with 3 more players. See you there!]") });
            assert_eq!(instructions[2].instruction, Instruction::Wait { amount_ms: 7000 });
            assert_eq!(instructions[3].instruction, Instruction::TerminateGame {});
            assert_eq!(instructions[4].instruction, Instruction::WaitWithMessage { amount_ms: 10000, message: s("ABIDING ROBLOX RATE-LIMIT") });
            assert_eq!(instructions[5].instruction, Instruction::JoinServer { server_id: s("c") });
            assert_eq!(instructions[6].instruction, Instruction::CheckActive { window_title: s("Roblox") });
            assert_eq!(instructions[7].instruction, Instruction::SystemChatMessage { message: s("[Server relocation complete! Ready to accept commands.]") });
        }
        other => panic!("{:?}", other),
    }
}

#[test]
fn crash_recovery_plan() {
    match server_check_plan(&s("ghost"), servers(), &s("Roblox")) {
        ServerPlan::Recover { instructions } => {
            assert_eq!(instructions.len(), 5);
            assert_eq!(instructions[0].instruction, Instruction::TerminateGame {});
            assert_eq!(instructions[2].instruction, Instruction::JoinServer { server_id: s("c") });
            assert_eq!(instructions[4].instruction, Instruction::SystemChatMessage { message: s("[Crash recovery complete! Ready to accept commands.]") });
        }
        other => panic!("{:?}", other),
    }
    assert_eq!(crash_notice(true), "Likely crash detected | Running");
    assert_eq!(crash_notice(false), "Likely crash detected | Not found");
}

#[test]
fn staying_put() {
    assert!(matches!(server_check_plan(&s("p5"), servers(), &s("Roblox")), ServerPlan::Stay));
}

#[test]
fn forced_rejoin() {
    assert!(api_check_passed(&servers()));
    assert!(!api_check_passed(&vec![server("x", &[])]));
    assert!(rejoin_needs_focus_check(&s("me"), &servers()));
    assert!(!rejoin_needs_focus_check(&s("ghost"), &servers()));
    let full = rejoin_instructions(&s("me"), servers(), &s("Roblox"), true);
    let orders: Vec<i64> = full.iter().map(|p| p.execution_order).collect();
    assert_eq!(orders, vec![0, 1, 2, 3, 4, 5, 6]);
    assert_eq!(full[0].instruction, Instruction::SystemChatMessage { message: s("[Force-rejoin queued! Be right back!]") });
    assert_eq!(full[4].instruction, Instruction::JoinServer { server_id: s("c") });
    let short = rejoin_instructions(&s("me"), servers(), &s("Roblox"), false);
    let orders: Vec<i64> = short.iter().map(|p| p.execution_order).collect();
    assert_eq!(orders, vec![2, 3, 4, 5, 6]);
}

fn p(order: i64, tag: &str) -> InstructionPair {
    InstructionPair { execution_order: order, instruction: Instruction::ConsoleCommand { command: s(tag) } }
}

fn tags(v: &[InstructionPair]) -> Vec<String> {
    v.iter()
        .map(|x| match &x.instruction {
            Instruction::ConsoleCommand { command } => command.clone(),
            _ => String::new(),
        })
        .collect()
}

#[test]
fn batches_are_ordered_stably() {
    let sorted = order_batch(vec![p(2, "c"), p(1, "b1"), p(0, "a"), p(1, "b2"), p(-1, "z"), p(1, "b3")]);
    assert_eq!(tags(&sorted), vec!["z", "a", "b1", "b2", "b3", "c"]);
    assert!(order_batch(vec![]).is_empty());
}

#[test]
fn pairs_compare_by_order_only() {
    let a = p(1, "x");
    let b = p(1, "y");
    let c = p(2, "x");
    assert!(a == b);
    assert!(a < c);
    assert_eq!(c.partial_cmp(&a), Some(std::cmp::Ordering::Greater));
}

#[test]
fn history_records_client_requests() {
    let mut q = QueueProcessor::new();
    q.record(&Instruction::Sit {}, false);
    assert!(q.history().is_empty());
    q.record(&Instruction::Sit {}, true);
    q.record(&Instruction::Wait { amount_ms: 5 }, true);
    q.record(&Instruction::ConsoleCommand { command: s("die") }, false);
    assert_eq!(q.history().len(), 2);
    assert_eq!(q.history()[1].execution_order, 1);
    q.record(&Instruction::MoveCameraX { x_ratio: Amount::Fixed(3) }, true);
    assert_eq!(q.history().len(), 3);
    q.record(&Instruction::ConsoleCommand { command: s("warp Poolside") }, false);
    assert_eq!(q.history().len(), 1);
    assert_eq!(q.history()[0].execution_order, 3);
    assert_eq!(q.history()[0].instruction, Instruction::ConsoleCommand { command: s("warp Poolside") });
}

#[test]
fn failed_window_check_aborts() {
    assert!(matches!(check_verdict(true, true), CheckVerdict::Continue));
    match check_verdict(false, true) {
        CheckVerdict::Abort { alert, reply } => {
            assert_eq!(alert, "Failed to find Roblox!");
            assert_eq!(reply, Some(s("[Failed to find Roblox! Notified dev.]")));
        }
        other => panic!("{:?}", other),
    }
    match check_verdict(false, false) {
        CheckVerdict::Abort { reply, .. } => assert_eq!(reply, None),
        other => panic!("{:?}", other),
    }
}

#[test]
fn batch_origin() {
    let mine: SystemInstruction<u8, u8> = SystemInstruction { client: Some(1), chat_message: Some(2), instructions: vec![] };
    assert!(mine.client_origin());
    let half: SystemInstruction<u8, u8> = SystemInstruction { client: Some(1), chat_message: None, instructions: vec![] };
    assert!(!half.client_origin());
    let system: SystemInstruction<u8, u8> = sbfcam::instruction::system_batch(vec![]);
    assert!(!system.client_origin());
}

#[test]
fn best_count_does_not_depend_on_order() {
    let mut reversed = servers();
    reversed.reverse();
    let a = get_best_server(servers());
    let b = get_best_server(reversed);
    assert_eq!(a.players.len(), 6);
    assert_eq!(b.players.len(), 6);
    // Two servers share the largest count, so which one is best follows the order.
    assert_eq!(a.id, "c");
    assert_eq!(b.id, "d");
    let unique = vec![server("a", &["p1"]), server("b", &["p2", "p3"])];
    let unique_rev = vec![server("b", &["p2", "p3"]), server("a", &["p1"])];
    assert_eq!(get_best_server(unique).id, "b");
    assert_eq!(get_best_server(unique_rev).id, "b");
}

#[test]
fn server_poll_acts_only_on_a_known_list() {
    let game = s("Roblox");
    assert!(sbfcam::servers::server_poll(&s("me"), None, &game).is_none());
    let empty = vec![server("x", &[]), server("y", &[])];
    assert!(sbfcam::servers::server_poll(&s("me"), Some(empty), &game).is_none());
    match sbfcam::servers::server_poll(&s("me"), Some(servers()), &game) {
        Some(ServerPlan::Relocate { instructions }) => assert_eq!(instructions.len(), 8),
        other => panic!("{:?}", other),
    }
    let here = vec![server("a", &["me", "p1"]), server("b", &["p2"])];
    assert!(matches!(sbfcam::servers::server_poll(&s("me"), Some(here), &game), Some(ServerPlan::Stay)));
}

#[test]
fn chat_batches_carry_their_chat_line() {
    let b: SystemInstruction<&str, u32> = sbfcam::instruction::chat_batch("client", 7, vec![]);
    assert_eq!(b.client, Some("client"));
    assert_eq!(b.chat_message, Some(7));
    assert!(b.client_origin());
}
