//! The machine behind one client: what may be said when, and who is to hear of it.
use vstd::prelude::*;
use crate::connection_model::{AwaitedView, SessionActionView, SessionStep, SessionView};
use crate::game::GameCmd;
use crate::game_model::{refusal, OutTx};
use crate::ids::{next_player_id, player_id, ConnId, IdCounter};
use crate::lobby::LobbyCmd;
use crate::lobby_model::{GameTx, ReplyTx};
use crate::messages::{ClientBody, ClientMessage, ErrorCode, ServerBody, ServerMessage};
use crate::text::{is_blank, join};

verus! {

/// The version of the protocol that is spoken here.
pub const PROTOCOL_VERSION: u16 = 1;

/// How far a client has come.
#[derive(Clone, Copy, Debug, PartialEq, Eq, Structural)]
pub enum SessionState {
    /// The client has yet to say hello.
    Greeting,
    /// The client has yet to say who plays.
    Identifying,
    /// The player is in the lobby.
    Idle,
    /// The player is in a game, or waits for an opponent in one.
    InGame,
}

/// What is to be done about an event.
#[derive(Debug)]
pub enum SessionAction {
    /// Put a message into the client's queue.
    Send(ServerMessage),
    /// Put a command into the lobby's queue.
    Lobby(LobbyCmd),
    /// Put a command into a game's queue.
    Game { to: GameTx, cmd: GameCmd },
}

impl View for SessionAction {
    type V = SessionActionView;

    open spec fn view(&self) -> SessionActionView {
        match self {
            SessionAction::Send(message) => SessionActionView::Send(message@),
            SessionAction::Lobby(cmd) => SessionActionView::Lobby(cmd@),
            SessionAction::Game { to, cmd } => SessionActionView::Game { to: *to, cmd: cmd@ },
        }
    }
}

impl DeepView for SessionAction {
    type V = SessionActionView;

    open spec fn deep_view(&self) -> SessionActionView {
        self@
    }
}

/// Which reply of the lobby a session awaits.
#[derive(Debug)]
pub enum Awaited {
    /// The game that was asked for.
    Created,
    /// The game that was to be joined.
    Joined { game_id: String },
}

impl View for Awaited {
    type V = AwaitedView;

    open spec fn view(&self) -> AwaitedView {
        match self {
            Awaited::Created => AwaitedView::Created,
            Awaited::Joined { game_id } => AwaitedView::Joined { game_id: game_id@ },
        }
    }
}

impl DeepView for Awaited {
    type V = AwaitedView;

    open spec fn deep_view(&self) -> AwaitedView {
        self@
    }
}

/// What can happen to a session.
#[derive(Debug)]
pub enum ConnEvent {
    /// The client has said something.
    Message(ClientMessage),
    /// The client has said something that cannot be read, for this reason.
    Unreadable { error: String },
    /// The lobby has replied, with a game's queue and id or without.
    Reply { awaited: Awaited, link: Option<(GameTx, String)> },
    /// The connection has come to its end.
    Closed,
}

/// What an event calls for: the actions, in order, and the reply to be awaited before the client
/// is heard again.
#[derive(Debug)]
pub struct Outcome {
    pub actions: Vec<SessionAction>,
    pub awaits: Option<Awaited>,
}

impl Outcome {
    /// Whether this is what a step calls for.
    pub open spec fn is(self, step: SessionStep) -> bool {
        &&& self.actions.deep_view() == step.actions
        &&& self.awaits.deep_view() == step.awaits
    }
}

/// One client.
pub struct Session {
    conn_id: ConnId,
    out_tx: OutTx,
    reply_tx: ReplyTx,
    state: SessionState,
    player_id: Option<String>,
    display_name: Option<String>,
    current_game: Option<GameTx>,
    current_game_id: Option<String>,
}

impl View for Session {
    type V = SessionView;

    closed spec fn view(&self) -> SessionView {
        SessionView {
            conn_id: self.conn_id,
            out_tx: self.out_tx,
            reply_tx: self.reply_tx,
            state: self.state,
            player_id: self.player_id.deep_view(),
            display_name: self.display_name.deep_view(),
            current_game: self.current_game,
            current_game_id: self.current_game_id.deep_view(),
        }
    }
}

fn no_action() -> (r: Outcome)
    ensures
        r.actions.deep_view() == Seq::<SessionActionView>::empty(),
        r.awaits is None,
{
    let actions: Vec<SessionAction> = Vec::new();
    assert(actions.deep_view() =~= Seq::<SessionActionView>::empty());
    Outcome { actions, awaits: None }
}

fn one_action(action: SessionAction) -> (r: Outcome)
    ensures
        r.actions.deep_view() == seq![action@],
        r.awaits is None,
{
    let mut actions: Vec<SessionAction> = Vec::new();
    actions.push(action);
    assert(actions.deep_view() =~= seq![action@]);
    Outcome { actions, awaits: None }
}

fn refuse(request_id: Option<String>, code: ErrorCode, text: String) -> (r: Outcome)
    ensures
        r.actions.deep_view() == seq![
            SessionActionView::Send(
                refusal(request_id.deep_view(), code, text@),
            ),
        ],
        r.awaits is None,
{
    one_action(
        SessionAction::Send(
            ServerMessage { request_id, body: ServerBody::Error { code, message: text } },
        ),
    )
}

impl Session {
    /// The session of a client who has just connected. Messages for the client go into the queue
    /// `out_tx`, and the lobby's replies to `reply_tx`.
    pub fn new(conn_id: ConnId, out_tx: OutTx, reply_tx: ReplyTx) -> (s: Session)
        ensures
            s@ == (SessionView {
                conn_id,
                out_tx,
                reply_tx,
                state: SessionState::Greeting,
                player_id: None,
                display_name: None,
                current_game: None,
                current_game_id: None,
            }),
            s@.wf(),
    {
        Session {
            conn_id,
            out_tx,
            reply_tx,
            state: SessionState::Greeting,
            player_id: None,
            display_name: None,
            current_game: None,
            current_game_id: None,
        }
    }

    /// How far the client has come.
    pub fn state(&self) -> (r: SessionState)
        ensures
            r == self@.state,
    {
        self.state
    }

    fn name(&self) -> (r: String)
        ensures
            r@ == self@.name(),
    {
        match &self.display_name {
            Some(name) => name.clone(),
            None => "Player".to_string(),
        }
    }

    fn on_hello(
        &mut self,
        protocol_version: u16,
        request_id: Option<String>,
        player_ids: &mut IdCounter,
    ) -> (r: Outcome)
        requires
            protocol_version == PROTOCOL_VERSION ==> old(player_ids).last < u64::MAX,
        ensures
            final(player_ids).last == old(player_ids).last + if protocol_version
                == PROTOCOL_VERSION {
                1int
            } else {
                0int
            },
            ({
                let step = old(self)@.on_hello(
                    protocol_version,
                    request_id.deep_view(),
                    player_id(old(player_ids).last as nat + 1),
                );
                final(self)@ == step.session && r.is(step)
            }),
    {
        if protocol_version != PROTOCOL_VERSION {
            return refuse(
                request_id,
                ErrorCode::InvalidSessionState,
                "unsupported protocol version".to_string(),
            );
        }
        let pid = next_player_id(player_ids);
        self.player_id = Some(pid.clone());
        self.state = SessionState::Identifying;
        one_action(
            SessionAction::Send(
                ServerMessage { request_id, body: ServerBody::SessionReady { player_id: pid } },
            ),
        )
    }

    fn on_identify(&mut self, display_name: String, request_id: Option<String>) -> (r: Outcome)
        ensures
            ({
                let step = old(self)@.on_identify(display_name@, request_id.deep_view());
                final(self)@ == step.session && r.is(step)
            }),
    {
        if is_blank(display_name.as_str()) {
            return refuse(
                request_id,
                ErrorCode::InvalidName,
                "display name required".to_string(),
            );
        }
        self.display_name = Some(display_name);
        self.state = SessionState::Idle;
        no_action()
    }

    fn on_create(&self, topic: String, question_count: u16, request_id: Option<String>) -> (r:
        Outcome)
        ensures
            r.is(self@.on_create(topic@, question_count, request_id.deep_view())),
    {
        match &self.player_id {
            Some(pid) => {
                let asked = one_action(
                    SessionAction::Lobby(
                        LobbyCmd::Create {
                            conn_id: self.conn_id,
                            host_player_id: pid.clone(),
                            host_name: self.name(),
                            host_out_tx: self.out_tx,
                            topic,
                            question_count,
                            request_id,
                            reply_tx: self.reply_tx,
                        },
                    ),
                );
                Outcome { actions: asked.actions, awaits: Some(Awaited::Created) }
            },
            None => no_action(),
        }
    }

    fn on_join(&self, game_id: String, request_id: Option<String>) -> (r: Outcome)
        ensures
            r.is(self@.on_join(game_id@, request_id.deep_view())),
    {
        match &self.player_id {
            Some(pid) => {
                let asked = one_action(
                    SessionAction::Lobby(
                        LobbyCmd::Join {
                            conn_id: self.conn_id,
                            player_id: pid.clone(),
                            name: self.name(),
                            out_tx: self.out_tx,
                            game_id: game_id.clone(),
                            request_id,
                            reply_tx: self.reply_tx,
                        },
                    ),
                );
                Outcome { actions: asked.actions, awaits: Some(Awaited::Joined { game_id }) }
            },
            None => no_action(),
        }
    }

    fn on_submit(&self, question_id: String, answer_id: String, request_id: Option<String>) -> (r:
        Outcome)
        ensures
            r.is(self@.on_submit(question_id@, answer_id@, request_id.deep_view())),
    {
        match (self.current_game, &self.player_id) {
            (Some(to), Some(pid)) => one_action(
                SessionAction::Game {
                    to,
                    cmd: GameCmd::Submit {
                        player_id: pid.clone(),
                        question_id,
                        answer_id,
                        request_id,
                    },
                },
            ),
            _ => no_action(),
        }
    }

    fn on_next_ready(&self, question_id: String, request_id: Option<String>) -> (r: Outcome)
        ensures
            r.is(self@.on_next_ready(question_id@, request_id.deep_view())),
    {
        match (self.current_game, &self.player_id) {
            (Some(to), Some(pid)) => one_action(
                SessionAction::Game {
                    to,
                    cmd: GameCmd::NextReady { player_id: pid.clone(), question_id, request_id },
                },
            ),
            _ => no_action(),
        }
    }

    fn on_lobby_return(&mut self, game_id: String) -> (r: Outcome)
        ensures
            ({
                let step = old(self)@.on_lobby_return(game_id@);
                final(self)@ == step.session && r.is(step)
            }),
    {
        let ghost step = self@.on_lobby_return(game_id@);
        let mut actions: Vec<SessionAction> = Vec::new();
        if let Some(to) = self.current_game {
            if self.player_id.is_some() {
                actions.push(SessionAction::Game { to, cmd: GameCmd::LobbyReturn });
                actions.push(SessionAction::Lobby(LobbyCmd::GameFinished { game_id }));
            }
        }
        assert(actions.deep_view() =~= step.actions);
        self.current_game = None;
        self.current_game_id = None;
        self.state = SessionState::Idle;
        Outcome { actions, awaits: None }
    }

    fn on_message(&mut self, message: ClientMessage, player_ids: &mut IdCounter) -> (r: Outcome)
        requires
            old(self)@.greets(message) ==> old(player_ids).last < u64::MAX,
        ensures
            final(player_ids).last == old(player_ids).last + if old(self)@.greets(message) {
                1int
            } else {
                0int
            },
            ({
                let step = old(self)@.on_message(
                    message,
                    player_id(old(player_ids).last as nat + 1),
                );
                final(self)@ == step.session && r.is(step)
            }),
    {
        let request_id = Some(message.request_id);
        match (self.state, message.body) {
            (SessionState::Greeting, ClientBody::SessionHello { protocol_version, .. }) => {
                self.on_hello(protocol_version, request_id, player_ids)
            },
            (SessionState::Identifying, ClientBody::PlayerIdentify { display_name }) => {
                self.on_identify(display_name, request_id)
            },
            (SessionState::Idle, ClientBody::LobbySubscribe(_)) => one_action(
                SessionAction::Lobby(
                    LobbyCmd::Subscribe { conn_id: self.conn_id, out_tx: self.out_tx },
                ),
            ),
            (SessionState::Idle, ClientBody::GameCreate { topic, question_count }) => {
                self.on_create(topic, question_count, request_id)
            },
            (SessionState::Idle, ClientBody::GameJoin { game_id }) => {
                self.on_join(game_id, request_id)
            },
            (SessionState::InGame, ClientBody::AnswerSubmit { question_id, answer_id, .. }) => {
                self.on_submit(question_id, answer_id, request_id)
            },
            (SessionState::InGame, ClientBody::QuestionNextReady { question_id, .. }) => {
                self.on_next_ready(question_id, request_id)
            },
            (SessionState::InGame, ClientBody::LobbyReturn { game_id }) => {
                self.on_lobby_return(game_id)
            },
            _ => refuse(
                request_id,
                ErrorCode::InvalidSessionState,
                "message not allowed in current session state".to_string(),
            ),
        }
    }

    fn on_reply(&mut self, awaited: Awaited, link: Option<(GameTx, String)>) -> (r: Outcome)
        ensures
            ({
                let step = old(self)@.on_reply(awaited@, link.deep_view());
                final(self)@ == step.session && r.is(step)
            }),
    {
        if let Some((game_tx, new_game_id)) = link {
            self.current_game = Some(game_tx);
            self.current_game_id = Some(
                match awaited {
                    Awaited::Created => new_game_id,
                    Awaited::Joined { game_id } => game_id,
                },
            );
            self.state = SessionState::InGame;
        }
        no_action()
    }

    fn on_close(&self) -> (r: Outcome)
        ensures
            r.is(self@.on_close()),
    {
        let mut actions: Vec<SessionAction> = Vec::new();
        actions.push(SessionAction::Lobby(LobbyCmd::Unsubscribe { conn_id: self.conn_id }));
        if let Some(to) = self.current_game {
            if let Some(pid) = &self.player_id {
                actions.push(
                    SessionAction::Game {
                        to,
                        cmd: GameCmd::Disconnect { player_id: pid.clone() },
                    },
                );
            }
        }
        if let Some(game_id) = &self.current_game_id {
            // If this was the host and the game still waits, it is to be taken off the list.
            actions.push(
                SessionAction::Lobby(LobbyCmd::HostLeftWaiting { game_id: game_id.clone() }),
            );
        }
        assert(actions.deep_view() =~= self@.on_close().actions);
        Outcome { actions, awaits: None }
    }
}

/// Handles an event of a session. A client who says hello gets an id from `player_ids`.
pub fn handle_connection(session: &mut Session, event: ConnEvent, player_ids: &mut IdCounter) -> (r:
    Outcome)
    requires
        old(session)@.makes_player(event) ==> old(player_ids).last < u64::MAX,
    ensures
        final(player_ids).last == old(player_ids).last + if old(session)@.makes_player(event) {
            1int
        } else {
            0int
        },
        ({
            let step = old(session)@.on_event(event, player_id(old(player_ids).last as nat + 1));
            final(session)@ == step.session && r.is(step)
        }),
{
    match event {
        ConnEvent::Message(message) => session.on_message(message, player_ids),
        ConnEvent::Unreadable { error } => refuse(
            None,
            ErrorCode::InvalidSessionState,
            join("invalid message: ", error.as_str()),
        ),
        ConnEvent::Reply { awaited, link } => session.on_reply(awaited, link),
        ConnEvent::Closed => session.on_close(),
    }
}

} // verus!
