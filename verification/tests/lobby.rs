use std::sync::Arc;

use quizbackend::clock::Timestamp;
use quizbackend::game::{Delivery, GameCmd, GameInit};
use quizbackend::ids::IdCounter;
use quizbackend::lobby::{spawn_lobby, LobbyActor, LobbyCmd, LobbyEffect};
use quizbackend::messages::{ErrorCode, Game, GamePhase, QuestionOption, ServerBody};
use quizbackend::questions::{QuestionRegistry, RawFile, RawQuestion};

fn file(topic: &str, n: usize) -> RawFile {
    RawFile {
        topic: topic.into(),
        questions: (0..n)
            .map(|i| RawQuestion {
                id: format!("{}-{}", topic, i),
                topic: topic.into(),
                prompt: "?".into(),
                options: vec![QuestionOption { id: "a".into(), label: "A".into(), text: "A".into() }],
                correct_answer_id: "a".into(),
            })
            .collect(),
    }
}

fn registry() -> Arc<QuestionRegistry> {
    Arc::new(QuestionRegistry::from_files(&vec![
        file("Science", 10),
        file("Nerd Stuff", 6),
        file("Geography", 6),
    ]))
}

fn create(topic: &str, question_count: u16) -> LobbyCmd {
    LobbyCmd::Create {
        conn_id: 2,
        host_player_id: "player_1".into(),
        host_name: "Mira".into(),
        host_out_tx: 20,
        topic: topic.into(),
        question_count,
        request_id: Some("req".into()),
        reply_tx: 200,
    }
}

fn join(game_id: &str) -> LobbyCmd {
    LobbyCmd::Join {
        conn_id: 3,
        player_id: "player_2".into(),
        name: "Jonah".into(),
        out_tx: 30,
        game_id: game_id.into(),
        request_id: Some("join".into()),
        reply_tx: 300,
    }
}

fn snapshots(effects: &[LobbyEffect], queue: u64) -> Vec<&Vec<Game>> {
    effects
        .iter()
        .filter_map(|e| match e {
            LobbyEffect::Send(Delivery { to, message }) if *to == queue => match &message.body {
                ServerBody::LobbySnapshot { games } => Some(games),
                _ => None,
            },
            _ => None,
        })
        .collect()
}

fn link(effects: &[LobbyEffect], queue: u64) -> Option<(u64, String)> {
    let all: Vec<Option<(u64, String)>> = effects
        .iter()
        .filter_map(|e| match e {
            LobbyEffect::Reply { reply_tx, link } if *reply_tx == queue => Some(link.clone()),
            _ => None,
        })
        .collect();
    assert_eq!(all.len(), 1);
    all[0].clone()
}

fn reply(effects: &[LobbyEffect], queue: u64) -> Option<u64> {
    link(effects, queue).map(|(game_tx, _)| game_tx)
}

fn error_of(effects: &[LobbyEffect], queue: u64) -> (Option<String>, ErrorCode, String) {
    match &effects[0] {
        LobbyEffect::Send(Delivery { to, message }) => {
            assert_eq!(*to, queue);
            match &message.body {
                ServerBody::Error { code, message: text } => {
                    (message.request_id.clone(), *code, text.clone())
                }
                _ => panic!("expected error"),
            }
        }
        _ => panic!("expected error"),
    }
}

fn subscribed(lobby: &mut LobbyActor, ids: &mut IdCounter) {
    let effects = lobby.handle(LobbyCmd::Subscribe { conn_id: 1, out_tx: 10 }, ids, 0);
    assert_eq!(snapshots(&effects, 10).len(), 1);
}

fn init(id: &str, secs: i64) -> GameInit {
    GameInit {
        id: id.into(),
        topic: "Science".into(),
        questions: registry().pick("Science", 2).unwrap(),
        host_player_id: "player_1".into(),
        host_name: "Mira".into(),
        host_out_tx: 20,
        host_request_id: None,
        created_at: Timestamp { secs, nanos: 0 },
    }
}

#[test]
fn subscribe_returns_initial_snapshot_to_caller() {
    let mut lobby = spawn_lobby(registry());
    let mut ids = IdCounter::new();
    let effects = lobby.handle(LobbyCmd::Subscribe { conn_id: 1, out_tx: 10 }, &mut ids, 0);
    assert_eq!(snapshots(&effects, 10).len(), 1);
    // B has not subscribed; nothing goes there.
    assert_eq!(snapshots(&effects, 11).len(), 0);
    assert_eq!(effects.len(), 1);
    let effects = lobby.handle(LobbyCmd::Subscribe { conn_id: 2, out_tx: 11 }, &mut ids, 0);
    assert_eq!(snapshots(&effects, 11).len(), 1);
    assert!(snapshots(&effects, 11)[0].is_empty());
    assert_eq!(effects.len(), 1);
}

#[test]
fn create_broadcasts_to_subscribers() {
    let mut lobby = spawn_lobby(registry());
    let mut ids = IdCounter::new();
    subscribed(&mut lobby, &mut ids);
    let effects = lobby.handle(create("Science", 3), &mut ids, 77);
    assert!(reply(&effects, 200).is_some());
    let seen = snapshots(&effects, 10);
    assert_eq!(seen.len(), 1);
    assert_eq!(seen[0].len(), 1);
    assert_eq!(seen[0][0].topic, "Science");
    let created = effects.iter().any(|e| match e {
        LobbyEffect::Start { greeting, .. } => greeting
            .iter()
            .any(|d| d.to == 20 && matches!(d.message.body, ServerBody::GameCreated { .. })),
        _ => false,
    });
    assert!(created);
}

#[test]
fn host_left_waiting_removes_and_rebroadcasts() {
    let mut lobby = spawn_lobby(registry());
    let mut ids = IdCounter::new();
    subscribed(&mut lobby, &mut ids);
    let effects = lobby.handle(create("Science", 3), &mut ids, 77);
    let game_id = snapshots(&effects, 10)[0][0].id.clone();
    let effects =
        lobby.handle(LobbyCmd::HostLeftWaiting { game_id: game_id.clone() }, &mut ids, 0);
    assert_eq!(snapshots(&effects, 10).len(), 1);
    assert!(snapshots(&effects, 10)[0].is_empty());
    // The second time there is nothing to remove.
    let effects = lobby.handle(LobbyCmd::HostLeftWaiting { game_id }, &mut ids, 0);
    assert!(effects.is_empty());
}

#[test]
fn invalid_topic_returns_error() {
    let mut lobby = spawn_lobby(registry());
    let mut ids = IdCounter::new();
    let effects = lobby.handle(create("Sherlock Holmes", 3), &mut ids, 77);
    assert!(reply(&effects, 200).is_none());
    let (request_id, code, message) = error_of(&effects, 20);
    assert_eq!(request_id.as_deref(), Some("req"));
    assert!(matches!(code, ErrorCode::InvalidTopic));
    assert_eq!(message, "Unknown topic: Sherlock Holmes");
    assert_eq!(ids.last, 0);
    assert!(lobby.snapshot_games().is_empty());
}

#[test]
fn invalid_question_count_returns_error() {
    let mut lobby = spawn_lobby(registry());
    let mut ids = IdCounter::new();
    for count in [9999, 11, 0] {
        let effects = lobby.handle(create("Science", count), &mut ids, 77);
        assert!(reply(&effects, 200).is_none());
        let (_, code, message) = error_of(&effects, 20);
        assert!(matches!(code, ErrorCode::InvalidQuestionCount));
        assert_eq!(message, "questionCount must be between 1 and 10");
        assert_eq!(effects.len(), 2);
    }
    assert!(lobby.snapshot_games().is_empty());
}

#[test]
fn created_game_is_started_before_the_reply() {
    let mut lobby = spawn_lobby(registry());
    let mut ids = IdCounter::new();
    let effects = lobby.handle(create("Nerd Stuff", 6), &mut ids, 77);
    assert_eq!(effects.len(), 2);
    match &effects[0] {
        LobbyEffect::Start { cmd_tx, game, greeting } => {
            assert_eq!(*cmd_tx, 77);
            let state = game.snapshot();
            assert_eq!(state.id, "game_1");
            assert_eq!(state.topic, "Nerd Stuff");
            assert_eq!(state.question_count, 6);
            assert_eq!(state.phase, GamePhase::WaitingForPlayer);
            assert_eq!(greeting.len(), 1);
            assert_eq!(greeting[0].message.request_id.as_deref(), Some("req"));
        }
        _ => panic!("expected a start"),
    }
    assert_eq!(link(&effects, 200), Some((77, "game_1".to_string())));
    assert_eq!(ids.last, 1);
    let games = lobby.snapshot_games();
    assert_eq!(games.len(), 1);
    assert_eq!(games[0].id, "game_1");
    assert_eq!(games[0].host_name, "Mira");
    assert_eq!(games[0].question_count, 6);
    let now = std::time::SystemTime::now()
        .duration_since(std::time::SystemTime::UNIX_EPOCH)
        .unwrap()
        .as_secs() as i64;
    assert!(games[0].created_at.secs <= now && games[0].created_at.secs >= now - 10);
}

#[test]
fn join_hands_the_player_to_the_game() {
    let mut lobby = spawn_lobby(registry());
    let mut ids = IdCounter::new();
    subscribed(&mut lobby, &mut ids);
    lobby.handle(create("Science", 3), &mut ids, 77);
    let effects = lobby.handle(join("game_1"), &mut ids, 0);
    assert_eq!(link(&effects, 300), Some((77, "game_1".to_string())));
    match &effects[0] {
        LobbyEffect::Forward { to, cmd: GameCmd::Join { player_id, name, out_tx, request_id } } => {
            assert_eq!(*to, 77);
            assert_eq!(player_id, "player_2");
            assert_eq!(name, "Jonah");
            assert_eq!(*out_tx, 30);
            assert_eq!(request_id.as_deref(), Some("join"));
        }
        _ => panic!("expected a join"),
    }
    assert_eq!(snapshots(&effects, 10).len(), 1);
    assert!(snapshots(&effects, 10)[0].is_empty());
    // Nobody joins the same game twice.
    let effects = lobby.handle(join("game_1"), &mut ids, 0);
    assert_eq!(reply(&effects, 300), None);
    let (request_id, code, message) = error_of(&effects, 30);
    assert_eq!(request_id.as_deref(), Some("join"));
    assert_eq!(code, ErrorCode::GameNotFound);
    assert_eq!(message, "Game game_1 not found or already full.");
    assert_eq!(effects.len(), 2);
}

#[test]
fn whoever_asks_for_a_game_is_unsubscribed() {
    let mut lobby = spawn_lobby(registry());
    let mut ids = IdCounter::new();
    for (conn_id, out_tx) in [(1, 10), (2, 20), (3, 30)] {
        lobby.handle(LobbyCmd::Subscribe { conn_id, out_tx }, &mut ids, 0);
    }
    let effects = lobby.handle(create("Science", 3), &mut ids, 77);
    assert_eq!(snapshots(&effects, 10).len(), 1);
    assert_eq!(snapshots(&effects, 20).len(), 0);
    assert_eq!(snapshots(&effects, 30).len(), 1);
    // Even when the game is not found.
    lobby.handle(join("game_9"), &mut ids, 0);
    lobby.handle(LobbyCmd::Unsubscribe { conn_id: 1 }, &mut ids, 0);
    let effects = lobby.handle(create("Geography", 3), &mut ids, 78);
    assert_eq!(effects.len(), 2);
}

#[test]
fn finished_game_leaves_the_lobby() {
    let mut lobby = spawn_lobby(registry());
    let mut ids = IdCounter::new();
    subscribed(&mut lobby, &mut ids);
    lobby.handle(create("Science", 3), &mut ids, 77);
    lobby.handle(create("Science", 3), &mut ids, 78);
    lobby.handle(join("game_1"), &mut ids, 0);
    // One that is played: nothing to announce.
    let finished = LobbyCmd::GameFinished { game_id: "game_1".into() };
    assert!(lobby.handle(finished, &mut ids, 0).is_empty());
    // One that still waits: the list gets shorter.
    let finished = LobbyCmd::GameFinished { game_id: "game_2".into() };
    let effects = lobby.handle(finished, &mut ids, 0);
    assert_eq!(snapshots(&effects, 10).len(), 1);
    assert!(snapshots(&effects, 10)[0].is_empty());
}

#[test]
fn newest_game_is_listed_first() {
    let mut lobby = spawn_lobby(registry());
    for (id, secs) in [("game_1", 50), ("game_2", 70), ("game_3", 20), ("game_4", 60)] {
        let effects = lobby.open_game(init(id, secs), secs as u64, 200);
        assert_eq!(reply(&effects, 200), Some(secs as u64));
    }
    let ids: Vec<String> = lobby.snapshot_games().into_iter().map(|g| g.id).collect();
    assert_eq!(ids, vec!["game_2", "game_4", "game_1", "game_3"]);
}

#[test]
fn game_with_a_known_id_replaces_the_old_one() {
    let mut lobby = spawn_lobby(registry());
    lobby.open_game(init("game_1", 50), 77, 200);
    lobby.open_game(init("game_1", 60), 78, 200);
    let games = lobby.snapshot_games();
    assert_eq!(games.len(), 1);
    assert_eq!(games[0].created_at.secs, 60);
    let effects = lobby.handle(join("game_1"), &mut IdCounter::new(), 0);
    assert_eq!(reply(&effects, 300), Some(78));
}

#[test]
fn each_subscriber_gets_one_list() {
    let mut lobby = spawn_lobby(registry());
    let mut ids = IdCounter::new();
    for (conn_id, out_tx) in [(1, 10), (4, 40), (5, 50)] {
        lobby.handle(LobbyCmd::Subscribe { conn_id, out_tx }, &mut ids, 0);
    }
    let effects = lobby.handle(create("Science", 3), &mut ids, 77);
    for queue in [10, 40, 50] {
        assert_eq!(snapshots(&effects, queue).len(), 1);
    }
    assert_eq!(effects.len(), 2 + 3);
}
