//! The mathematical model of a client's session: its states, and what each event makes of them.
use vstd::prelude::*;
use crate::connection::{ConnEvent, SessionState, PROTOCOL_VERSION};
use crate::game_model::{refusal, GameCmdView, OutTx};
use crate::ids::ConnId;
use crate::lobby_model::{GameTx, LobbyCmdView, ReplyTx};
use crate::messages::{
    ClientBody, ClientMessage, ErrorCode, ServerBodyView, ServerMessageView,
};
use crate::text::blank;

verus! {

/// The model of a [`crate::connection::SessionAction`].
pub enum SessionActionView {
    Send(ServerMessageView),
    Lobby(LobbyCmdView),
    Game { to: GameTx, cmd: GameCmdView },
}

/// The model of an [`crate::connection::Awaited`].
pub enum AwaitedView {
    Created,
    Joined { game_id: Seq<char> },
}

/// The model of a [`crate::connection::Session`].
pub struct SessionView {
    pub conn_id: ConnId,
    pub out_tx: OutTx,
    pub reply_tx: ReplyTx,
    pub state: SessionState,
    pub player_id: Option<Seq<char>>,
    pub display_name: Option<Seq<char>>,
    pub current_game: Option<GameTx>,
    pub current_game_id: Option<Seq<char>>,
}

/// What an event makes of a session, what is to be done about it, and what is then awaited.
pub struct SessionStep {
    pub session: SessionView,
    pub actions: Seq<SessionActionView>,
    pub awaits: Option<AwaitedView>,
}

impl SessionView {
    /// The same session, with these actions.
    pub open spec fn act(self, actions: Seq<SessionActionView>) -> SessionStep {
        SessionStep { session: self, actions, awaits: None }
    }

    /// The same session, with a refusal.
    pub open spec fn refuse(
        self,
        request_id: Option<Seq<char>>,
        code: ErrorCode,
        message: Seq<char>,
    ) -> SessionStep {
        self.act(seq![SessionActionView::Send(refusal(request_id, code, message))])
    }

    /// The name under which the player plays.
    pub open spec fn name(self) -> Seq<char> {
        match self.display_name {
            Some(name) => name,
            None => "Player"@,
        }
    }

    /// Whether a message makes a player of the client.
    pub open spec fn greets(self, message: ClientMessage) -> bool {
        &&& self.state == SessionState::Greeting
        &&& message.body matches ClientBody::SessionHello { protocol_version, .. }
            && protocol_version == PROTOCOL_VERSION
    }

    pub open spec fn on_hello(
        self,
        protocol_version: u16,
        request_id: Option<Seq<char>>,
        new_id: Seq<char>,
    ) -> SessionStep {
        if protocol_version != PROTOCOL_VERSION {
            self.refuse(
                request_id,
                ErrorCode::InvalidSessionState,
                "unsupported protocol version"@,
            )
        } else {
            SessionView {
                player_id: Some(new_id),
                state: SessionState::Identifying,
                ..self
            }.act(
                seq![
                    SessionActionView::Send(
                        ServerMessageView {
                            request_id,
                            body: ServerBodyView::SessionReady { player_id: new_id },
                        },
                    ),
                ],
            )
        }
    }

    pub open spec fn on_identify(
        self,
        display_name: Seq<char>,
        request_id: Option<Seq<char>>,
    ) -> SessionStep {
        if blank(display_name) {
            self.refuse(request_id, ErrorCode::InvalidName, "display name required"@)
        } else {
            SessionView {
                display_name: Some(display_name),
                state: SessionState::Idle,
                ..self
            }.act(seq![])
        }
    }

    pub open spec fn on_create(
        self,
        topic: Seq<char>,
        question_count: u16,
        request_id: Option<Seq<char>>,
    ) -> SessionStep {
        match self.player_id {
            Some(host_player_id) => SessionStep {
                session: self,
                actions: seq![
                    SessionActionView::Lobby(
                        LobbyCmdView::Create {
                            conn_id: self.conn_id,
                            host_player_id,
                            host_name: self.name(),
                            host_out_tx: self.out_tx,
                            topic,
                            question_count,
                            request_id,
                            reply_tx: self.reply_tx,
                        },
                    ),
                ],
                awaits: Some(AwaitedView::Created),
            },
            None => self.act(seq![]),
        }
    }

    pub open spec fn on_join(
        self,
        game_id: Seq<char>,
        request_id: Option<Seq<char>>,
    ) -> SessionStep {
        match self.player_id {
            Some(player_id) => SessionStep {
                session: self,
                actions: seq![
                    SessionActionView::Lobby(
                        LobbyCmdView::Join {
                            conn_id: self.conn_id,
                            player_id,
                            name: self.name(),
                            out_tx: self.out_tx,
                            game_id,
                            request_id,
                            reply_tx: self.reply_tx,
                        },
                    ),
                ],
                awaits: Some(AwaitedView::Joined { game_id }),
            },
            None => self.act(seq![]),
        }
    }

    /// Whether the session has a player and a game to play.
    pub open spec fn plays(self) -> bool {
        self.current_game is Some && self.player_id is Some
    }

    pub open spec fn on_submit(
        self,
        question_id: Seq<char>,
        answer_id: Seq<char>,
        request_id: Option<Seq<char>>,
    ) -> SessionStep {
        if self.plays() {
            self.act(
                seq![
                    SessionActionView::Game {
                        to: self.current_game->0,
                        cmd: GameCmdView::Submit {
                            player_id: self.player_id->0,
                            question_id,
                            answer_id,
                            request_id,
                        },
                    },
                ],
            )
        } else {
            self.act(seq![])
        }
    }

    pub open spec fn on_next_ready(
        self,
        question_id: Seq<char>,
        request_id: Option<Seq<char>>,
    ) -> SessionStep {
        if self.plays() {
            self.act(
                seq![
                    SessionActionView::Game {
                        to: self.current_game->0,
                        cmd: GameCmdView::NextReady {
                            player_id: self.player_id->0,
                            question_id,
                            request_id,
                        },
                    },
                ],
            )
        } else {
            self.act(seq![])
        }
    }

    pub open spec fn on_lobby_return(self, game_id: Seq<char>) -> SessionStep {
        SessionView {
            current_game: None,
            current_game_id: None,
            state: SessionState::Idle,
            ..self
        }.act(
            if self.plays() {
                seq![
                    SessionActionView::Game {
                        to: self.current_game->0,
                        cmd: GameCmdView::LobbyReturn,
                    },
                    SessionActionView::Lobby(LobbyCmdView::GameFinished { game_id }),
                ]
            } else {
                seq![]
            },
        )
    }

    /// Which messages a session takes in the state that it is in.
    pub open spec fn allows(self, body: ClientBody) -> bool {
        match self.state {
            SessionState::Greeting => body is SessionHello,
            SessionState::Identifying => body is PlayerIdentify,
            SessionState::Idle => body is LobbySubscribe || body is GameCreate
                || body is GameJoin,
            SessionState::InGame => body is AnswerSubmit || body is QuestionNextReady
                || body is LobbyReturn,
        }
    }

    /// What a message does. The player that it may make is called `new_id`.
    pub open spec fn on_message(self, message: ClientMessage, new_id: Seq<char>) -> SessionStep {
        let request_id = Some(message.request_id@);
        if !self.allows(message.body) {
            self.refuse(
                request_id,
                ErrorCode::InvalidSessionState,
                "message not allowed in current session state"@,
            )
        } else {
            match message.body {
                ClientBody::SessionHello { protocol_version, .. } => self.on_hello(
                    protocol_version,
                    request_id,
                    new_id,
                ),
                ClientBody::PlayerIdentify { display_name } => self.on_identify(
                    display_name@,
                    request_id,
                ),
                ClientBody::LobbySubscribe(_) => self.act(
                    seq![
                        SessionActionView::Lobby(
                            LobbyCmdView::Subscribe { conn_id: self.conn_id, out_tx: self.out_tx },
                        ),
                    ],
                ),
                ClientBody::GameCreate { topic, question_count } => self.on_create(
                    topic@,
                    question_count,
                    request_id,
                ),
                ClientBody::GameJoin { game_id } => self.on_join(game_id@, request_id),
                ClientBody::AnswerSubmit { question_id, answer_id, .. } => self.on_submit(
                    question_id@,
                    answer_id@,
                    request_id,
                ),
                ClientBody::QuestionNextReady { question_id, .. } => self.on_next_ready(
                    question_id@,
                    request_id,
                ),
                ClientBody::LobbyReturn { game_id } => self.on_lobby_return(game_id@),
            }
        }
    }

    /// What a message that cannot be read does.
    pub open spec fn on_unreadable(self, error: Seq<char>) -> SessionStep {
        self.refuse(None, ErrorCode::InvalidSessionState, "invalid message: "@ + error)
    }

    /// What the lobby's reply does: with a game, the client plays it, whether as its host or as
    /// the one who has joined it.
    pub open spec fn on_reply(
        self,
        awaited: AwaitedView,
        link: Option<(GameTx, Seq<char>)>,
    ) -> SessionStep {
        match link {
            Some((game_tx, new_game_id)) => SessionView {
                current_game: Some(game_tx),
                current_game_id: Some(
                    match awaited {
                        AwaitedView::Created => new_game_id,
                        AwaitedView::Joined { game_id } => game_id,
                    },
                ),
                state: SessionState::InGame,
                ..self
            }.act(seq![]),
            None => self.act(seq![]),
        }
    }

    /// What the end of the connection does: the lobby is told, and, if the client is in a game, the
    /// game, and the lobby again under which id, so that a game that still waits for an opponent
    /// waits no longer.
    pub open spec fn on_close(self) -> SessionStep {
        let lobby = seq![
            SessionActionView::Lobby(LobbyCmdView::Unsubscribe { conn_id: self.conn_id }),
        ];
        let game = if self.plays() {
            seq![
                SessionActionView::Game {
                    to: self.current_game->0,
                    cmd: GameCmdView::Disconnect { player_id: self.player_id->0 },
                },
            ]
        } else {
            seq![]
        };
        let waiting = match self.current_game_id {
            Some(game_id) => seq![
                SessionActionView::Lobby(LobbyCmdView::HostLeftWaiting { game_id }),
            ],
            None => seq![],
        };
        self.act(lobby + game + waiting)
    }

    /// What an event does. The player that it may make is called `new_id`.
    pub open spec fn on_event(self, event: ConnEvent, new_id: Seq<char>) -> SessionStep {
        match event {
            ConnEvent::Message(message) => self.on_message(message, new_id),
            ConnEvent::Unreadable { error } => self.on_unreadable(error@),
            ConnEvent::Reply { awaited, link } => self.on_reply(awaited@, link.deep_view()),
            ConnEvent::Closed => self.on_close(),
        }
    }

    /// Whether an event makes a player of the client.
    pub open spec fn makes_player(self, event: ConnEvent) -> bool {
        event matches ConnEvent::Message(message) && self.greets(message)
    }

    /// What holds of every session between two events.
    pub open spec fn wf(self) -> bool {
        match self.state {
            SessionState::Greeting => {
                &&& self.player_id is None
                &&& self.display_name is None
                &&& self.current_game is None
                &&& self.current_game_id is None
            },
            SessionState::Identifying => {
                &&& self.player_id is Some
                &&& self.display_name is None
                &&& self.current_game is None
                &&& self.current_game_id is None
            },
            SessionState::Idle => {
                &&& self.player_id is Some
                &&& self.display_name is Some
                &&& !blank(self.display_name->0)
                &&& self.current_game is None
                &&& self.current_game_id is None
            },
            SessionState::InGame => {
                &&& self.player_id is Some
                &&& self.display_name is Some
                &&& !blank(self.display_name->0)
                &&& self.current_game is Some
                &&& self.current_game_id is Some
            },
        }
    }
}

} // verus!
