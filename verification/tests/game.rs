use quizbackend::clock::{Reading, Timestamp, NANOS_PER_SEC};
use quizbackend::game::{
    spawn_game, Delivery, GameActor, GameCmd, GameEvent, GameInit, GameSummary,
};
use quizbackend::messages::{
    ErrorCode, GamePhase, Player, Question, QuestionOption, RevealReason, ServerBody,
    ServerMessage,
};
use quizbackend::questions::StoredQuestion;

const HOST: u64 = 11;
const GUEST: u64 = 22;
const STRANGER: u64 = 33;

fn make_q(id: &str, correct: &str) -> StoredQuestion {
    StoredQuestion {
        question: Question {
            id: id.into(),
            topic: "Test".into(),
            prompt: "?".into(),
            options: vec![
                QuestionOption { id: "a".into(), label: "A".into(), text: "A".into() },
                QuestionOption { id: "b".into(), label: "B".into(), text: "B".into() },
            ],
        },
        correct_answer_id: correct.into(),
    }
}

fn at(secs: i64) -> Reading {
    Reading {
        utc: Timestamp { secs: 1_700_000_000 + secs, nanos: 250 },
        elapsed: secs as u128 * NANOS_PER_SEC,
    }
}

fn init(qs: Vec<StoredQuestion>) -> GameInit {
    GameInit {
        id: "game_1".into(),
        topic: "Test".into(),
        questions: qs,
        host_player_id: "player_1".into(),
        host_name: "Mira".into(),
        host_out_tx: HOST,
        host_request_id: Some("req_create".into()),
        created_at: Timestamp { secs: 1_700_000_000, nanos: 0 },
    }
}

fn join_cmd() -> GameCmd {
    GameCmd::Join {
        player_id: "player_2".into(),
        name: "Jonah".into(),
        out_tx: GUEST,
        request_id: Some("req_join".into()),
    }
}

fn setup(qs: Vec<StoredQuestion>) -> GameActor {
    let (mut game, _summary, _greeting) = spawn_game(init(qs));
    let out = game.handle_cmd(join_cmd(), at(0));
    for to in [HOST, GUEST] {
        assert!(find(&out, to, |b| matches!(b, ServerBody::QuestionStarted { .. })).is_some());
    }
    game
}

fn find<F: Fn(&ServerBody) -> bool>(out: &[Delivery], to: u64, pred: F) -> Option<&ServerMessage> {
    out.iter().find(|d| d.to == to && pred(&d.message.body)).map(|d| &d.message)
}

fn submit(player: &str, question: &str, answer: &str, request: Option<&str>) -> GameCmd {
    GameCmd::Submit {
        player_id: player.into(),
        question_id: question.into(),
        answer_id: answer.into(),
        request_id: request.map(|r| r.to_string()),
    }
}

fn next(player: &str, question: &str) -> GameCmd {
    GameCmd::NextReady {
        player_id: player.into(),
        question_id: question.into(),
        request_id: Some("next".into()),
    }
}

fn gone(player: &str) -> GameCmd {
    GameCmd::Disconnect { player_id: player.into() }
}

fn is_reveal(b: &ServerBody) -> bool {
    matches!(b, ServerBody::QuestionRevealed { .. })
}

fn revealed(out: &[Delivery], to: u64) -> (RevealReason, Vec<Player>) {
    match find(out, to, is_reveal).expect("revealed").body.clone() {
        ServerBody::QuestionRevealed { reason, players, .. } => (reason, players),
        _ => unreachable!(),
    }
}

fn error_of(out: &[Delivery], to: u64) -> (Option<String>, ErrorCode, String) {
    assert_eq!(out.len(), 1);
    assert_eq!(out[0].to, to);
    match out[0].message.body.clone() {
        ServerBody::Error { code, message } => (out[0].message.request_id.clone(), code, message),
        _ => panic!("expected error"),
    }
}

fn results(out: &[Delivery], to: u64) -> (Option<String>, String, Vec<Player>) {
    match find(out, to, |b| matches!(b, ServerBody::GameResults { .. })).expect("results").body.clone()
    {
        ServerBody::GameResults { winner_player_id, winner_label, players, .. } => {
            (winner_player_id, winner_label, players)
        }
        _ => unreachable!(),
    }
}

#[test]
fn both_correct_scores_plus_one() {
    let mut game = setup(vec![make_q("q1", "a"), make_q("q2", "b")]);
    game.handle_cmd(submit("player_1", "q1", "a", None), at(1));
    let out = game.handle_cmd(submit("player_2", "q1", "a", None), at(2));
    let (reason, players) = revealed(&out, HOST);
    assert!(matches!(reason, RevealReason::BothAnswered));
    assert_eq!(players[0].score, Some(1));
    assert_eq!(players[1].score, Some(1));
    assert_eq!(players[0].did_answer_correctly, Some(true));
    assert_eq!(players[1].did_answer_correctly, Some(true));
}

#[test]
fn one_correct_one_wrong() {
    let mut game = setup(vec![make_q("q1", "a")]);
    game.handle_cmd(submit("player_1", "q1", "a", None), at(1));
    let out = game.handle_cmd(submit("player_2", "q1", "b", None), at(2));
    let (_, players) = revealed(&out, HOST);
    assert_eq!(players[0].score, Some(1));
    assert_eq!(players[1].score, Some(0));
}

#[test]
fn timer_expires_with_partial_answer() {
    let mut game = setup(vec![make_q("q1", "a")]);
    game.handle_cmd(submit("player_1", "q1", "a", None), at(1));
    let (out, over) = game.turn(GameEvent::TimeExpired, at(16));
    assert!(!over);
    let (reason, players) = revealed(&out, HOST);
    assert!(matches!(reason, RevealReason::TimeExpired));
    assert_eq!(players[0].did_answer_correctly, Some(true));
    assert_eq!(players[1].did_answer_correctly, Some(false));
}

#[test]
fn both_wrong_zero_scores() {
    let mut game = setup(vec![make_q("q1", "a")]);
    game.handle_cmd(submit("player_1", "q1", "b", None), at(1));
    let out = game.handle_cmd(submit("player_2", "q1", "b", None), at(2));
    let (_, players) = revealed(&out, HOST);
    assert_eq!(players[0].score, Some(0));
    assert_eq!(players[1].score, Some(0));
}

#[test]
fn disconnect_during_active_with_other_answer_reveals() {
    let mut game = setup(vec![make_q("q1", "a")]);
    game.handle_cmd(submit("player_1", "q1", "a", None), at(1));
    let out = game.handle_cmd(gone("player_2"), at(2));
    let (reason, players) = revealed(&out, HOST);
    assert_eq!(reason, RevealReason::BothAnswered);
    assert_eq!(players[0].score, Some(1));
    assert_eq!(players[1].score, Some(0));
    assert!(out.iter().all(|d| d.to == HOST));
}

#[test]
fn disconnect_during_reveal_advances_after_other_ready() {
    let mut game = setup(vec![make_q("q1", "a"), make_q("q2", "a")]);
    game.handle_cmd(submit("player_1", "q1", "a", None), at(1));
    let out = game.handle_cmd(submit("player_2", "q1", "a", None), at(2));
    assert!(find(&out, HOST, is_reveal).is_some());
    assert!(game.handle_cmd(gone("player_2"), at(3)).is_empty());
    let out = game.handle_cmd(next("player_1", "q1"), at(4));
    let started = find(&out, HOST, |b| matches!(b, ServerBody::QuestionStarted { .. }));
    match &started.expect("started").body {
        ServerBody::QuestionStarted { question_index, question, question_ends_at, .. } => {
            assert_eq!(*question_index, 1);
            assert_eq!(question.id, "q2");
            assert_eq!(question_ends_at.secs, at(4).utc.secs + 15);
        }
        _ => unreachable!(),
    }
    assert_eq!(game.timer(), Some(19 * NANOS_PER_SEC));
}

#[test]
fn last_question_emits_results_with_winner() {
    let mut game = setup(vec![make_q("q1", "a")]);
    game.handle_cmd(submit("player_1", "q1", "a", None), at(1));
    let out = game.handle_cmd(submit("player_2", "q1", "b", None), at(2));
    assert!(find(&out, HOST, is_reveal).is_some());
    game.handle_cmd(next("player_1", "q1"), at(3));
    let out = game.handle_cmd(next("player_2", "q1"), at(4));
    let (winner_player_id, winner_label, _) = results(&out, HOST);
    assert_eq!(winner_player_id.as_deref(), Some("player_1"));
    assert_eq!(winner_label, "Mira wins");
}

#[test]
fn results_tie_has_null_winner() {
    let mut game = setup(vec![make_q("q1", "a")]);
    game.handle_cmd(submit("player_1", "q1", "b", None), at(1));
    let out = game.handle_cmd(submit("player_2", "q1", "b", None), at(2));
    assert!(find(&out, HOST, is_reveal).is_some());
    game.handle_cmd(next("player_1", "q1"), at(3));
    let out = game.handle_cmd(next("player_2", "q1"), at(4));
    let (winner_player_id, winner_label, _) = results(&out, HOST);
    assert!(winner_player_id.is_none());
    assert_eq!(winner_label, "Draw game");
}

#[test]
fn answer_after_timeout_returns_error() {
    let mut game = setup(vec![make_q("q1", "a"), make_q("q2", "a")]);
    let out = game.time_expired(at(16));
    assert!(find(&out, HOST, is_reveal).is_some());
    let out = game.handle_cmd(submit("player_1", "q1", "a", Some("late")), at(17));
    let (request_id, code, message) = error_of(&out, HOST);
    assert_eq!(request_id.as_deref(), Some("late"));
    assert!(matches!(code, ErrorCode::QuestionTimeout));
    assert_eq!(message, "Question is no longer accepting answers.");
}

#[test]
fn double_submit_returns_error() {
    let mut game = setup(vec![make_q("q1", "a")]);
    game.handle_cmd(submit("player_1", "q1", "a", None), at(1));
    let out = game.handle_cmd(submit("player_1", "q1", "b", Some("dup")), at(2));
    let (request_id, code, message) = error_of(&out, HOST);
    assert_eq!(request_id.as_deref(), Some("dup"));
    assert!(matches!(code, ErrorCode::AnswerAlreadyLocked));
    assert_eq!(message, "Answer already locked.");
    // The first answer counts.
    let (_, players) = revealed(&game.handle_cmd(submit("player_2", "q1", "b", None), at(3)), HOST);
    assert_eq!(players[0].did_answer_correctly, Some(true));
}

#[test]
fn new_game_greets_its_host() {
    let (game, summary, greeting): (GameActor, GameSummary, Vec<Delivery>) =
        spawn_game(init(vec![make_q("q1", "a"), make_q("q2", "a")]));
    assert_eq!(summary.id, "game_1");
    assert_eq!(summary.host_name, "Mira");
    assert_eq!(summary.topic, "Test");
    assert_eq!(summary.question_count, 2);
    assert_eq!(summary.created_at.secs, 1_700_000_000);
    assert_eq!(greeting.len(), 1);
    assert_eq!(greeting[0].to, HOST);
    assert_eq!(greeting[0].message.request_id.as_deref(), Some("req_create"));
    match &greeting[0].message.body {
        ServerBody::GameCreated { game } => {
            assert_eq!(game.id, "game_1");
            assert_eq!(game.question_count, 2);
            assert_eq!(game.question_index, 0);
            assert_eq!(game.phase, GamePhase::WaitingForPlayer);
            assert_eq!(game.players.len(), 1);
            assert_eq!(game.players[0].name, "Mira");
            assert_eq!(game.players[0].score, Some(0));
            assert_eq!(game.players[0].did_answer_correctly, None);
        }
        _ => panic!("expected game.created"),
    }
    assert_eq!(game.timer(), None);
    assert!(!game.is_over());
}

#[test]
fn joining_tells_both_players_in_order() {
    let (mut game, _, _) = spawn_game(init(vec![make_q("q1", "a")]));
    let out = game.handle_cmd(join_cmd(), at(7));
    let kinds: Vec<(u64, &str)> = out
        .iter()
        .map(|d| {
            let kind = match d.message.body {
                ServerBody::GameJoined { .. } => "joined",
                ServerBody::PlayerJoined { .. } => "player_joined",
                ServerBody::QuestionStarted { .. } => "started",
                _ => "other",
            };
            (d.to, kind)
        })
        .collect();
    assert_eq!(
        kinds,
        vec![
            (GUEST, "joined"),
            (HOST, "player_joined"),
            (GUEST, "player_joined"),
            (HOST, "started"),
            (GUEST, "started"),
        ]
    );
    assert_eq!(out[0].message.request_id.as_deref(), Some("req_join"));
    match &out[0].message.body {
        ServerBody::GameJoined { game } => {
            assert_eq!(game.phase, GamePhase::QuestionActive);
            assert_eq!(game.players.len(), 2);
            assert_eq!(game.players[1].name, "Jonah");
        }
        _ => unreachable!(),
    }
    match &out[1].message.body {
        ServerBody::PlayerJoined { game_id, player } => {
            assert_eq!(game_id, "game_1");
            assert_eq!(player.id, "player_2");
            assert_eq!(player.score, None);
        }
        _ => unreachable!(),
    }
    match &out[3].message.body {
        ServerBody::QuestionStarted { question_ends_at, question_count, players, .. } => {
            assert_eq!(*question_ends_at, Timestamp { secs: 1_700_000_022, nanos: 250 });
            assert_eq!(*question_count, 1);
            assert_eq!(players.len(), 2);
        }
        _ => unreachable!(),
    }
    assert_eq!(game.timer(), Some(22 * NANOS_PER_SEC));
}

#[test]
fn full_game_turns_others_away() {
    let mut game = setup(vec![make_q("q1", "a")]);
    let out = game.handle_cmd(
        GameCmd::Join {
            player_id: "player_3".into(),
            name: "Kim".into(),
            out_tx: STRANGER,
            request_id: Some("third".into()),
        },
        at(1),
    );
    let (request_id, code, message) = error_of(&out, STRANGER);
    assert_eq!(request_id.as_deref(), Some("third"));
    assert_eq!(code, ErrorCode::GameFull);
    assert_eq!(message, "That game already has two players.");
    assert_eq!(game.snapshot().players.len(), 2);
}

#[test]
fn submit_is_accepted_then_locked() {
    let mut game = setup(vec![make_q("q1", "a")]);
    let out = game.handle_cmd(submit("player_1", "q1", "a", Some("r")), at(1));
    assert_eq!(out.len(), 3);
    assert_eq!(out[0].to, HOST);
    assert_eq!(out[0].message.request_id.as_deref(), Some("r"));
    match &out[0].message.body {
        ServerBody::AnswerAccepted(answer) => {
            assert_eq!(answer.player_id, "player_1");
            assert_eq!(answer.question_id, "q1");
            assert_eq!(answer.game_id, "game_1");
            assert_eq!(answer.locked, Some(true));
        }
        _ => panic!("expected answer.accepted"),
    }
    assert_eq!(out[1].to, HOST);
    assert_eq!(out[2].to, GUEST);
    for d in &out[1..] {
        assert_eq!(d.message.request_id, None);
        match &d.message.body {
            ServerBody::AnswerLocked(answer) => assert_eq!(answer.locked, None),
            _ => panic!("expected answer.locked"),
        }
    }
}

#[test]
fn stale_question_is_refused() {
    let mut game = setup(vec![make_q("q1", "a")]);
    let out = game.handle_cmd(submit("player_2", "q0", "a", Some("s")), at(1));
    let (_, code, message) = error_of(&out, GUEST);
    assert_eq!(code, ErrorCode::InvalidGamePhase);
    assert_eq!(message, "Stale questionId.");
    game.time_expired(at(15));
    let (_, code, message) = error_of(&game.handle_cmd(next("player_2", "q0"), at(16)), GUEST);
    assert_eq!(code, ErrorCode::InvalidGamePhase);
    assert_eq!(message, "Stale questionId.");
}

#[test]
fn next_ready_outside_reveal_is_refused() {
    let mut game = setup(vec![make_q("q1", "a")]);
    let (request_id, code, message) = error_of(&game.handle_cmd(next("player_1", "q1"), at(1)), HOST);
    assert_eq!(request_id.as_deref(), Some("next"));
    assert_eq!(code, ErrorCode::InvalidGamePhase);
    assert_eq!(message, "Not in reveal phase.");
}

#[test]
fn strangers_get_no_answer_and_change_nothing() {
    let mut game = setup(vec![make_q("q1", "a")]);
    assert!(game.handle_cmd(submit("player_9", "q1", "a", Some("x")), at(1)).is_empty());
    assert!(game.handle_cmd(gone("player_9"), at(2)).is_empty());
    assert_eq!(game.snapshot().phase, GamePhase::QuestionActive);
}

#[test]
fn waiting_for_the_other_player() {
    let mut game = setup(vec![make_q("q1", "a"), make_q("q2", "a")]);
    game.time_expired(at(15));
    let out = game.handle_cmd(next("player_2", "q1"), at(16));
    assert_eq!(out.len(), 2);
    match &out[0].message.body {
        ServerBody::NextWaiting { game_id, question_id, players } => {
            assert_eq!(game_id, "game_1");
            assert_eq!(question_id, "q1");
            assert_eq!(players[0].is_ready_for_next, Some(false));
            assert_eq!(players[1].is_ready_for_next, Some(true));
        }
        _ => panic!("expected question.next.waiting"),
    }
    assert_eq!(game.snapshot().phase, GamePhase::WaitingForNext);
    let out = game.handle_cmd(next("player_1", "q1"), at(17));
    assert!(find(&out, GUEST, |b| matches!(b, ServerBody::QuestionStarted { .. })).is_some());
    let players = game.snapshot().players;
    assert_eq!(players[0].is_ready_for_next, Some(false));
    assert_eq!(players[1].is_ready_for_next, Some(false));
}

#[test]
fn guest_wins() {
    let mut game = setup(vec![make_q("q1", "a")]);
    game.handle_cmd(submit("player_2", "q1", "a", None), at(1));
    game.time_expired(at(15));
    game.handle_cmd(next("player_2", "q1"), at(16));
    let out = game.handle_cmd(next("player_1", "q1"), at(17));
    let (winner, label, players) = results(&out, GUEST);
    assert_eq!(winner.as_deref(), Some("player_2"));
    assert_eq!(label, "Jonah wins");
    assert_eq!(players[0].score, Some(0));
    assert_eq!(players[1].score, Some(1));
    assert_eq!(game.snapshot().question_index, 1);
    // Nothing is won any more.
    assert!(game.time_expired(at(40)).is_empty());
    assert_eq!(game.snapshot().phase, GamePhase::Results);
}

#[test]
fn host_who_leaves_ends_a_waiting_game() {
    let (mut game, _, _) = spawn_game(init(vec![make_q("q1", "a")]));
    let (out, over) = game.turn(GameEvent::Cmd(gone("player_1")), at(1));
    assert!(out.is_empty());
    assert!(over);
}

#[test]
fn lobby_return_ends_a_game() {
    let mut game = setup(vec![make_q("q1", "a")]);
    let (out, over) = game.turn(GameEvent::Cmd(GameCmd::LobbyReturn), at(1));
    assert!(out.is_empty());
    assert!(over);
}

#[test]
fn closed_game_is_over() {
    let mut game = setup(vec![make_q("q1", "a")]);
    let (out, over) = game.turn(GameEvent::Closed, at(1));
    assert!(out.is_empty());
    assert!(over);
    assert_eq!(game.snapshot().phase, GamePhase::QuestionActive);
}

#[test]
fn deserted_game_runs_to_its_results() {
    let mut game = setup(vec![make_q("q1", "a"), make_q("q2", "a"), make_q("q3", "a")]);
    game.handle_cmd(submit("player_1", "q1", "a", None), at(1));
    let out = game.handle_cmd(gone("player_1"), at(2));
    assert!(out.is_empty());
    let (out, over) = game.turn(GameEvent::Cmd(gone("player_2")), at(3));
    assert!(out.is_empty());
    assert!(over);
    let state = game.snapshot();
    assert_eq!(state.phase, GamePhase::Results);
    assert_eq!(state.question_index, 3);
    assert_eq!(state.players[0].score, Some(1));
    assert_eq!(state.players[1].score, Some(0));
    assert_eq!(game.timer(), None);
}

#[test]
fn disconnect_without_answers_counts_as_time_expired() {
    let mut game = setup(vec![make_q("q1", "a")]);
    assert!(game.handle_cmd(gone("player_2"), at(1)).is_empty());
    // A second notice changes nothing.
    assert!(game.handle_cmd(gone("player_2"), at(2)).is_empty());
    let out = game.time_expired(at(15));
    let (reason, players) = revealed(&out, HOST);
    assert_eq!(reason, RevealReason::TimeExpired);
    assert_eq!(players[1].is_ready_for_next, Some(true));
    assert_eq!(out.len(), 1);
}

#[test]
fn game_without_questions_has_nothing_to_answer() {
    let (mut game, summary, _) = spawn_game(init(vec![]));
    assert_eq!(summary.question_count, 0);
    game.handle_cmd(join_cmd(), at(0));
    assert_eq!(game.timer(), None);
    let (_, code, message) =
        error_of(&game.handle_cmd(submit("player_1", "q1", "a", None), at(1)), HOST);
    assert_eq!(code, ErrorCode::InvalidGamePhase);
    assert_eq!(message, "No active question.");
}

#[test]
fn running_reads_the_clocks() {
    let (mut game, _, _) = spawn_game(init(vec![make_q("q1", "a")]));
    let begin = std::time::Instant::now();
    while begin.elapsed() < std::time::Duration::from_millis(5) {}
    let (out, over) = game.run(GameEvent::Cmd(join_cmd())).expect("the clocks can be read");
    assert!(!over);
    let started = find(&out, HOST, |b| matches!(b, ServerBody::QuestionStarted { .. }));
    match &started.expect("started").body {
        ServerBody::QuestionStarted { question_ends_at, .. } => {
            let now = std::time::SystemTime::now()
                .duration_since(std::time::SystemTime::UNIX_EPOCH)
                .unwrap()
                .as_secs() as i64;
            assert!(question_ends_at.secs >= now + 10 && question_ends_at.secs <= now + 15);
        }
        _ => unreachable!(),
    }
    let deadline = game.timer().expect("a question is active");
    assert!(deadline >= 15 * NANOS_PER_SEC + 5_000_000);
    assert!(deadline < 20 * NANOS_PER_SEC);
    assert!(game.clock_start().elapsed().as_nanos() < deadline);
    assert!(game.has_room());
}

#[test]
fn host_is_found_first_when_ids_agree() {
    let (mut game, _, _) = spawn_game(init(vec![make_q("q1", "a")]));
    let out = game.handle_cmd(
        GameCmd::Join {
            player_id: "player_1".into(),
            name: "Echo".into(),
            out_tx: GUEST,
            request_id: None,
        },
        at(0),
    );
    assert!(find(&out, HOST, |b| matches!(b, ServerBody::GameJoined { .. })).is_some());
    assert!(find(&out, GUEST, |b| matches!(b, ServerBody::GameJoined { .. })).is_none());
}

#[test]
fn answer_is_not_disclosed_early() {
    let (mut game, _, mut sent) = spawn_game(init(vec![make_q("q1", "a"), make_q("q2", "b")]));
    sent.extend(game.handle_cmd(join_cmd(), at(0)));
    sent.extend(game.handle_cmd(submit("player_1", "q1", "b", None), at(1)));
    sent.extend(game.handle_cmd(submit("player_1", "q1", "a", None), at(2)));
    assert!(!sent.iter().any(|d| is_reveal(&d.message.body)));
    let out = game.handle_cmd(submit("player_2", "q1", "a", None), at(3));
    for to in [HOST, GUEST] {
        match &find(&out, to, is_reveal).expect("revealed").body {
            ServerBody::QuestionRevealed { question_id, correct_answer_id, .. } => {
                assert_eq!(question_id, "q1");
                assert_eq!(correct_answer_id, "a");
            }
            _ => unreachable!(),
        }
    }
}

#[test]
fn results_stay_as_they_were_sent() {
    let mut game = setup(vec![make_q("q1", "a")]);
    game.handle_cmd(submit("player_1", "q1", "a", None), at(1));
    game.time_expired(at(15));
    game.handle_cmd(next("player_1", "q1"), at(16));
    let out = game.handle_cmd(next("player_2", "q1"), at(17));
    let (winner, _, _) = results(&out, HOST);
    assert_eq!(winner.as_deref(), Some("player_1"));
    let (_, code, _) = error_of(&game.handle_cmd(submit("player_2", "q1", "a", None), at(18)), GUEST);
    assert_eq!(code, ErrorCode::QuestionTimeout);
    assert!(game.handle_cmd(gone("player_2"), at(19)).is_empty());
    let state = game.snapshot();
    assert_eq!(state.phase, GamePhase::Results);
    assert_eq!(state.players[0].score, Some(1));
    assert_eq!(state.players[1].score, Some(0));
}

#[test]
fn running_goes_through_a_whole_game() {
    let (mut game, _, _) = spawn_game(init(vec![make_q("q1", "a"), make_q("q2", "b")]));
    let begin = std::time::Instant::now();
    while begin.elapsed() < std::time::Duration::from_millis(5) {}
    let mut step = |event: GameEvent| {
        let (sent, over) = game.run(event).expect("the clocks can be read");
        (sent, over, game.timer())
    };
    // The timer is set from the game's own clock whenever a question is put.
    let started = 15 * NANOS_PER_SEC + 5_000_000;
    let (_, _, timer) = step(GameEvent::Cmd(join_cmd()));
    assert!(timer.expect("a question is active") >= started);
    let (sent, _, timer) = step(GameEvent::TimeExpired);
    assert!(find(&sent, HOST, is_reveal).is_some());
    assert_eq!(timer, None);
    let (_, _, timer) = step(GameEvent::Cmd(next("player_1", "q1")));
    assert_eq!(timer, None);
    let (sent, _, timer) = step(GameEvent::Cmd(gone("player_2")));
    assert!(find(&sent, HOST, |b| matches!(b, ServerBody::QuestionStarted { .. })).is_some());
    assert!(timer.expect("a question is active") >= started);
    let (sent, _, timer) = step(GameEvent::Cmd(submit("player_1", "q2", "b", None)));
    assert!(find(&sent, HOST, is_reveal).is_some());
    assert_eq!(timer, None);
    let (sent, over, _) = step(GameEvent::Cmd(next("player_1", "q2")));
    assert_eq!(results(&sent, HOST).1, "Mira wins");
    assert!(!over);
    let (sent, over, _) = step(GameEvent::Cmd(GameCmd::LobbyReturn));
    assert!(sent.is_empty());
    assert!(over);
}

#[test]
fn messages_do_not_tell_which_answer_is_right() {
    let mut seen = vec![];
    for (right, given) in [("a", "a"), ("b", "a"), ("a", "b")] {
        let (mut game, _, mut sent) = spawn_game(init(vec![make_q("q1", right)]));
        sent.extend(game.handle_cmd(join_cmd(), at(0)));
        sent.extend(game.handle_cmd(submit("player_1", "q1", given, None), at(1)));
        seen.push(format!("{:?}", sent));
    }
    assert_eq!(seen[0], seen[1]);
    assert_eq!(seen[0], seen[2]);
}
