use std::sync::Arc;

use quizbackend::clock::{Reading, Timestamp, NANOS_PER_SEC};
use quizbackend::connection::{
    handle_connection, Awaited, ConnEvent, Outcome, Session, SessionAction, SessionState,
};
use quizbackend::game::{Delivery, GameActor, GameCmd, GameEvent};
use quizbackend::ids::IdCounter;
use quizbackend::lobby::{spawn_lobby, LobbyActor, LobbyCmd, LobbyEffect};
use quizbackend::messages::{
    ClientBody, ClientMessage, EmptyPayload, ErrorCode, QuestionOption, ServerBody, ServerMessage,
};
use quizbackend::questions::{QuestionRegistry, RawFile, RawQuestion};

fn say(session: &mut Session, ids: &mut IdCounter, body: ClientBody) -> Outcome {
    let message = ClientMessage { request_id: "r".into(), body };
    handle_connection(session, ConnEvent::Message(message), ids)
}

fn hello(protocol_version: u16) -> ClientBody {
    ClientBody::SessionHello {
        protocol_version,
        client_version: "0.1.0".into(),
        resume_token: None,
    }
}

fn identify(name: &str) -> ClientBody {
    ClientBody::PlayerIdentify { display_name: name.into() }
}

fn create() -> ClientBody {
    ClientBody::GameCreate { topic: "Science".into(), question_count: 1 }
}

fn idle(ids: &mut IdCounter) -> Session {
    let mut session = Session::new(5, 50, 500);
    say(&mut session, ids, hello(1));
    say(&mut session, ids, identify("Mira"));
    assert_eq!(session.state(), SessionState::Idle);
    session
}

fn in_game(ids: &mut IdCounter, awaited: Awaited) -> Session {
    let mut session = idle(ids);
    let event = ConnEvent::Reply { awaited, link: Some((77, "game_1".into())) };
    let out = handle_connection(&mut session, event, ids);
    assert!(out.actions.is_empty() && out.awaits.is_none());
    assert_eq!(session.state(), SessionState::InGame);
    session
}

fn sent(out: &Outcome) -> &ServerMessage {
    assert_eq!(out.actions.len(), 1);
    assert!(out.awaits.is_none());
    match &out.actions[0] {
        SessionAction::Send(message) => message,
        _ => panic!("expected a message"),
    }
}

fn refused(out: &Outcome) -> (Option<String>, ErrorCode, String) {
    match &sent(out).body {
        ServerBody::Error { code, message } => {
            (sent(out).request_id.clone(), *code, message.clone())
        }
        _ => panic!("expected error"),
    }
}

fn not_allowed(out: &Outcome) {
    let (request_id, code, message) = refused(out);
    assert_eq!(request_id.as_deref(), Some("r"));
    assert_eq!(code, ErrorCode::InvalidSessionState);
    assert_eq!(message, "message not allowed in current session state");
}

#[test]
fn hello_makes_a_player() {
    let mut ids = IdCounter::new();
    let mut session = Session::new(5, 50, 500);
    assert_eq!(session.state(), SessionState::Greeting);
    let out = say(&mut session, &mut ids, hello(1));
    assert_eq!(sent(&out).request_id.as_deref(), Some("r"));
    match &sent(&out).body {
        ServerBody::SessionReady { player_id } => assert_eq!(player_id, "player_1"),
        _ => panic!("expected session.ready"),
    }
    assert_eq!(session.state(), SessionState::Identifying);
    let mut other = Session::new(6, 60, 600);
    let out = say(&mut other, &mut ids, hello(1));
    match &sent(&out).body {
        ServerBody::SessionReady { player_id } => assert_eq!(player_id, "player_2"),
        _ => panic!("expected session.ready"),
    }
}

#[test]
fn other_protocol_versions_are_refused() {
    let mut ids = IdCounter::new();
    let mut session = Session::new(5, 50, 500);
    for version in [0, 2, u16::MAX] {
        let (request_id, code, message) = refused(&say(&mut session, &mut ids, hello(version)));
        assert_eq!(request_id.as_deref(), Some("r"));
        assert_eq!(code, ErrorCode::InvalidSessionState);
        assert_eq!(message, "unsupported protocol version");
    }
    assert_eq!(session.state(), SessionState::Greeting);
    assert_eq!(ids.last, 0);
}

#[test]
fn blank_names_are_refused() {
    let mut ids = IdCounter::new();
    let mut session = Session::new(5, 50, 500);
    say(&mut session, &mut ids, hello(1));
    for name in ["", "  ", "\t\n", "\u{2003}\u{3000}"] {
        let (_, code, message) = refused(&say(&mut session, &mut ids, identify(name)));
        assert_eq!(code, ErrorCode::InvalidName);
        assert_eq!(message, "display name required");
        assert_eq!(session.state(), SessionState::Identifying);
    }
    let out = say(&mut session, &mut ids, identify(" Mira "));
    assert!(out.actions.is_empty() && out.awaits.is_none());
    assert_eq!(session.state(), SessionState::Idle);
    // The name stays as it was given.
    let out = say(&mut session, &mut ids, create());
    match &out.actions[0] {
        SessionAction::Lobby(LobbyCmd::Create { host_name, .. }) => assert_eq!(host_name, " Mira "),
        _ => panic!("expected a create"),
    }
}

#[test]
fn steps_cannot_be_skipped() {
    let mut ids = IdCounter::new();
    let mut session = Session::new(5, 50, 500);
    not_allowed(&say(&mut session, &mut ids, identify("Mira")));
    not_allowed(&say(&mut session, &mut ids, create()));
    say(&mut session, &mut ids, hello(1));
    not_allowed(&say(&mut session, &mut ids, hello(1)));
    not_allowed(&say(&mut session, &mut ids, ClientBody::LobbySubscribe(EmptyPayload {})));
    say(&mut session, &mut ids, identify("Mira"));
    not_allowed(&say(&mut session, &mut ids, identify("Mira")));
    not_allowed(&say(
        &mut session,
        &mut ids,
        ClientBody::LobbyReturn { game_id: "game_1".into() },
    ));
    assert_eq!(session.state(), SessionState::Idle);
    assert_eq!(ids.last, 1);
}

#[test]
fn unreadable_messages_are_answered() {
    let mut ids = IdCounter::new();
    let mut session = Session::new(5, 50, 500);
    let event = ConnEvent::Unreadable { error: "expected value at line 1".into() };
    let (request_id, code, message) = refused(&handle_connection(&mut session, event, &mut ids));
    assert_eq!(request_id, None);
    assert_eq!(code, ErrorCode::InvalidSessionState);
    assert_eq!(message, "invalid message: expected value at line 1");
    assert_eq!(session.state(), SessionState::Greeting);
}

#[test]
fn lobby_is_asked_on_behalf_of_the_player() {
    let mut ids = IdCounter::new();
    let mut session = idle(&mut ids);
    let out = say(&mut session, &mut ids, ClientBody::LobbySubscribe(EmptyPayload {}));
    match &out.actions[..] {
        [SessionAction::Lobby(LobbyCmd::Subscribe { conn_id: 5, out_tx: 50 })] => {}
        _ => panic!("expected a subscribe"),
    }
    let out = say(&mut session, &mut ids, create());
    assert!(matches!(out.awaits, Some(Awaited::Created)));
    match &out.actions[..] {
        [SessionAction::Lobby(LobbyCmd::Create {
            conn_id,
            host_player_id,
            host_name,
            host_out_tx,
            topic,
            question_count,
            request_id,
            reply_tx,
        })] => {
            assert_eq!((*conn_id, *host_out_tx, *reply_tx), (5, 50, 500));
            assert_eq!(host_player_id, "player_1");
            assert_eq!(host_name, "Mira");
            assert_eq!(topic, "Science");
            assert_eq!(*question_count, 1);
            assert_eq!(request_id.as_deref(), Some("r"));
        }
        _ => panic!("expected a create"),
    }
    let out = say(&mut session, &mut ids, ClientBody::GameJoin { game_id: "game_4".into() });
    match &out.awaits {
        Some(Awaited::Joined { game_id }) => assert_eq!(game_id, "game_4"),
        _ => panic!("expected to await a reply"),
    }
    match &out.actions[..] {
        [SessionAction::Lobby(LobbyCmd::Join {
            conn_id,
            player_id,
            name,
            out_tx,
            game_id,
            request_id,
            reply_tx,
        })] => {
            assert_eq!((*conn_id, *out_tx, *reply_tx), (5, 50, 500));
            assert_eq!(player_id, "player_1");
            assert_eq!(name, "Mira");
            assert_eq!(game_id, "game_4");
            assert_eq!(request_id.as_deref(), Some("r"));
        }
        _ => panic!("expected a join"),
    }
    // No game: the player stays in the lobby.
    let event = ConnEvent::Reply { awaited: Awaited::Created, link: None };
    handle_connection(&mut session, event, &mut ids);
    assert_eq!(session.state(), SessionState::Idle);
}

#[test]
fn answers_go_to_the_players_game() {
    let mut ids = IdCounter::new();
    let mut session = in_game(&mut ids, Awaited::Created);
    let out = say(
        &mut session,
        &mut ids,
        ClientBody::AnswerSubmit {
            game_id: "game_of_others".into(),
            question_id: "q1".into(),
            answer_id: "a".into(),
        },
    );
    match &out.actions[..] {
        [SessionAction::Game {
            to: 77,
            cmd: GameCmd::Submit { player_id, question_id, answer_id, request_id },
        }] => {
            assert_eq!(player_id, "player_1");
            assert_eq!(question_id, "q1");
            assert_eq!(answer_id, "a");
            assert_eq!(request_id.as_deref(), Some("r"));
        }
        _ => panic!("expected a submit"),
    }
    let out = say(
        &mut session,
        &mut ids,
        ClientBody::QuestionNextReady { game_id: "game_1".into(), question_id: "q1".into() },
    );
    match &out.actions[..] {
        [SessionAction::Game { to: 77, cmd: GameCmd::NextReady { player_id, question_id, .. } }] => {
            assert_eq!(player_id, "player_1");
            assert_eq!(question_id, "q1");
        }
        _ => panic!("expected a next"),
    }
}

#[test]
fn lobby_return_leaves_the_game() {
    let mut ids = IdCounter::new();
    let mut session = in_game(&mut ids, Awaited::Joined { game_id: "game_1".into() });
    let out =
        say(&mut session, &mut ids, ClientBody::LobbyReturn { game_id: "game_1".into() });
    match &out.actions[..] {
        [SessionAction::Game { to: 77, cmd: GameCmd::LobbyReturn }, SessionAction::Lobby(LobbyCmd::GameFinished { game_id })] => {
            assert_eq!(game_id, "game_1")
        }
        _ => panic!("expected a return"),
    }
    assert_eq!(session.state(), SessionState::Idle);
    let out = handle_connection(&mut session, ConnEvent::Closed, &mut ids);
    assert!(matches!(
        &out.actions[..],
        [SessionAction::Lobby(LobbyCmd::Unsubscribe { conn_id: 5 })]
    ));
}

#[test]
fn closing_tells_lobby_and_game() {
    let mut ids = IdCounter::new();
    let mut session = in_game(&mut ids, Awaited::Joined { game_id: "game_1".into() });
    let out = handle_connection(&mut session, ConnEvent::Closed, &mut ids);
    match &out.actions[..] {
        [SessionAction::Lobby(LobbyCmd::Unsubscribe { conn_id: 5 }), SessionAction::Game { to: 77, cmd: GameCmd::Disconnect { player_id } }, SessionAction::Lobby(LobbyCmd::HostLeftWaiting { game_id })] =>
        {
            assert_eq!(player_id, "player_1");
            assert_eq!(game_id, "game_1");
        }
        _ => panic!("expected three notices"),
    }
}

#[test]
fn closing_host_asks_to_unlist_the_game() {
    let mut ids = IdCounter::new();
    let mut host = in_game(&mut ids, Awaited::Created);
    let out = handle_connection(&mut host, ConnEvent::Closed, &mut ids);
    match &out.actions[..] {
        [SessionAction::Lobby(LobbyCmd::Unsubscribe { conn_id: 5 }), SessionAction::Game { to: 77, cmd: GameCmd::Disconnect { player_id } }, SessionAction::Lobby(LobbyCmd::HostLeftWaiting { game_id })] =>
        {
            assert_eq!(player_id, "player_1");
            assert_eq!(game_id, "game_1");
        }
        _ => panic!("expected three notices"),
    }
}

/// A lobby, its games and its clients, run by hand.
struct Hub {
    lobby: LobbyActor,
    games: Vec<(u64, GameActor)>,
    sessions: Vec<Session>,
    inboxes: Vec<Vec<ServerMessage>>,
    player_ids: IdCounter,
    game_ids: IdCounter,
    secs: i64,
}

impl Hub {
    fn new(n: u64) -> Hub {
        let question = RawQuestion {
            id: "q1".into(),
            topic: "Science".into(),
            prompt: "?".into(),
            options: vec![QuestionOption { id: "a".into(), label: "A".into(), text: "A".into() }],
            correct_answer_id: "a".into(),
        };
        let files = vec![RawFile { topic: "Science".into(), questions: vec![question] }];
        Hub {
            lobby: spawn_lobby(Arc::new(QuestionRegistry::from_files(&files))),
            games: vec![],
            sessions: (0..n).map(|i| Session::new(i, i, i)).collect(),
            inboxes: (0..n).map(|_| vec![]).collect(),
            player_ids: IdCounter::new(),
            game_ids: IdCounter::new(),
            secs: 0,
        }
    }

    fn deliver(&mut self, deliveries: Vec<Delivery>) {
        for d in deliveries {
            self.inboxes[d.to as usize].push(d.message);
        }
    }

    fn play(&mut self, to: u64, cmd: GameCmd) {
        self.secs += 1;
        let now = Reading {
            utc: Timestamp { secs: self.secs, nanos: 0 },
            elapsed: self.secs as u128 * NANOS_PER_SEC,
        };
        if let Some(i) = self.games.iter().position(|(tx, _)| *tx == to) {
            let (out, over) = self.games[i].1.turn(GameEvent::Cmd(cmd), now);
            if over {
                self.games.remove(i);
            }
            self.deliver(out);
        }
    }

    fn ask(&mut self, cmd: LobbyCmd) -> Vec<(u64, Option<(u64, String)>)> {
        let next = 1000 + self.game_ids.last;
        let mut replies = vec![];
        for effect in self.lobby.handle(cmd, &mut self.game_ids, next) {
            match effect {
                LobbyEffect::Send(d) => self.deliver(vec![d]),
                LobbyEffect::Reply { reply_tx, link } => replies.push((reply_tx, link)),
                LobbyEffect::Start { cmd_tx, game, greeting } => {
                    self.deliver(greeting);
                    self.games.push((cmd_tx, game));
                }
                LobbyEffect::Forward { to, cmd } => self.play(to, cmd),
            }
        }
        replies
    }

    fn event(&mut self, who: usize, event: ConnEvent) {
        let out = handle_connection(&mut self.sessions[who], event, &mut self.player_ids);
        let mut replies = vec![];
        for action in out.actions {
            match action {
                SessionAction::Send(message) => self.inboxes[who].push(message),
                SessionAction::Lobby(cmd) => replies = self.ask(cmd),
                SessionAction::Game { to, cmd } => self.play(to, cmd),
            }
        }
        if let Some(awaited) = out.awaits {
            assert_eq!(replies.len(), 1);
            assert_eq!(replies[0].0, who as u64);
            let link = replies.remove(0).1;
            self.event(who, ConnEvent::Reply { awaited, link });
        }
    }

    fn says(&mut self, who: usize, body: ClientBody) {
        self.event(who, ConnEvent::Message(ClientMessage { request_id: "r".into(), body }));
    }

    fn last(&self, who: usize) -> &ServerBody {
        &self.inboxes[who].last().expect("a message").body
    }
}

#[test]
fn two_clients_play_a_game() {
    let mut hub = Hub::new(3);
    for (who, name) in [(0, "Mira"), (1, "Jonah"), (2, "Kim")] {
        hub.says(who, hello(1));
        hub.says(who, identify(name));
        hub.says(who, ClientBody::LobbySubscribe(EmptyPayload {}));
    }
    hub.says(0, create());
    let game_id = match hub.last(0) {
        ServerBody::GameCreated { game } => game.id.clone(),
        _ => panic!("expected game.created"),
    };
    match hub.last(1) {
        ServerBody::LobbySnapshot { games } => assert_eq!(games[0].id, game_id),
        _ => panic!("expected lobby.snapshot"),
    }
    hub.says(1, ClientBody::GameJoin { game_id: game_id.clone() });
    assert!(matches!(hub.last(0), ServerBody::QuestionStarted { .. }));
    assert!(matches!(hub.last(1), ServerBody::QuestionStarted { .. }));
    // Whoever comes too late stays in the lobby.
    hub.says(2, ClientBody::GameJoin { game_id: game_id.clone() });
    assert!(matches!(hub.last(2), ServerBody::Error { code: ErrorCode::GameNotFound, .. }));
    assert_eq!(hub.sessions[2].state(), SessionState::Idle);
    for (who, answer) in [(0, "b"), (1, "a")] {
        hub.says(
            who,
            ClientBody::AnswerSubmit {
                game_id: game_id.clone(),
                question_id: "q1".into(),
                answer_id: answer.into(),
            },
        );
    }
    assert!(matches!(hub.last(0), ServerBody::QuestionRevealed { .. }));
    for who in [0, 1] {
        hub.says(
            who,
            ClientBody::QuestionNextReady { game_id: game_id.clone(), question_id: "q1".into() },
        );
    }
    for who in [0, 1] {
        match hub.last(who) {
            ServerBody::GameResults { winner_player_id, winner_label, .. } => {
                assert_eq!(winner_player_id.as_deref(), Some("player_2"));
                assert_eq!(winner_label, "Jonah wins");
            }
            _ => panic!("expected game.results"),
        }
    }
    hub.says(1, ClientBody::LobbyReturn { game_id });
    assert!(hub.games.is_empty());
    assert_eq!(hub.sessions[1].state(), SessionState::Idle);
    hub.event(0, ConnEvent::Closed);
}

#[test]
fn opponents_disconnect_is_noticed() {
    let mut hub = Hub::new(2);
    for (who, name) in [(0, "Mira"), (1, "Jonah")] {
        hub.says(who, hello(1));
        hub.says(who, identify(name));
    }
    hub.says(0, create());
    hub.says(1, ClientBody::GameJoin { game_id: "game_1".into() });
    hub.says(
        0,
        ClientBody::AnswerSubmit {
            game_id: "game_1".into(),
            question_id: "q1".into(),
            answer_id: "a".into(),
        },
    );
    hub.event(1, ConnEvent::Closed);
    assert!(matches!(hub.last(0), ServerBody::QuestionRevealed { .. }));
    hub.event(0, ConnEvent::Closed);
    assert!(hub.games.is_empty());
}

#[test]
fn waiting_game_goes_with_its_host() {
    let mut hub = Hub::new(3);
    for (who, name) in [(0, "Mira"), (1, "Jonah"), (2, "Kim")] {
        hub.says(who, hello(1));
        hub.says(who, identify(name));
        hub.says(who, ClientBody::LobbySubscribe(EmptyPayload {}));
    }
    hub.says(0, create());
    hub.says(1, create());
    hub.event(0, ConnEvent::Closed);
    assert_eq!(hub.games.len(), 1);
    match hub.last(2) {
        ServerBody::LobbySnapshot { games } => {
            assert_eq!(games.len(), 1);
            assert_eq!(games[0].id, "game_2");
        }
        _ => panic!("expected lobby.snapshot"),
    }
    // Nobody can join it any more.
    hub.says(2, ClientBody::GameJoin { game_id: "game_1".into() });
    assert!(matches!(hub.last(2), ServerBody::Error { code: ErrorCode::GameNotFound, .. }));
    assert_eq!(hub.sessions[2].state(), SessionState::Idle);
}
