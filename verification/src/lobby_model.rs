//! The mathematical model of the lobby: its states, and what each command makes of them.
use vstd::prelude::*;
use crate::clock::Timestamp;
use crate::game_model::{
    announcement, refusal, DeliveryView, GameActorView, GameCmdView, GameInitView, OutTx,
};
use crate::ids::ConnId;
use crate::messages::{ErrorCode, GameView, ServerBodyView};
use crate::questions::{drawn, offers, StoredQuestionView};
use crate::text::decimal;

verus! {

/// The number of the queue on which a game takes commands.
pub type GameTx = u64;

/// The number of the place where a reply is awaited.
pub type ReplyTx = u64;

/// The model of a [`crate::lobby::LobbyCmd`].
pub enum LobbyCmdView {
    Subscribe { conn_id: ConnId, out_tx: OutTx },
    Unsubscribe { conn_id: ConnId },
    Create {
        conn_id: ConnId,
        host_player_id: Seq<char>,
        host_name: Seq<char>,
        host_out_tx: OutTx,
        topic: Seq<char>,
        question_count: u16,
        request_id: Option<Seq<char>>,
        reply_tx: ReplyTx,
    },
    Join {
        conn_id: ConnId,
        player_id: Seq<char>,
        name: Seq<char>,
        out_tx: OutTx,
        game_id: Seq<char>,
        request_id: Option<Seq<char>>,
        reply_tx: ReplyTx,
    },
    GameFinished { game_id: Seq<char> },
    HostLeftWaiting { game_id: Seq<char> },
}

/// The model of a [`crate::lobby::LobbyEffect`].
pub enum LobbyEffectView {
    Send(DeliveryView),
    Reply { reply_tx: ReplyTx, link: Option<(GameTx, Seq<char>)> },
    Start { cmd_tx: GameTx, game: GameActorView, greeting: Seq<DeliveryView> },
    Forward { to: GameTx, cmd: GameCmdView },
}

/// The model of a [`crate::lobby::WaitingGame`].
pub struct WaitingView {
    pub summary: GameView,
    pub cmd_tx: GameTx,
}

/// The model of a [`crate::lobby::LobbyActor`].
pub struct LobbyView {
    pub pools: Map<Seq<char>, Seq<StoredQuestionView>>,
    pub subscribers: Map<ConnId, OutTx>,
    pub waiting: Map<Seq<char>, WaitingView>,
    pub active: Map<Seq<char>, GameTx>,
}

/// Who gets to see the waiting games after a command.
pub enum Audience {
    Nobody,
    One(OutTx),
    Subscribers,
}

/// What a command makes of the lobby, what is done about it, and who then gets to see the
/// waiting games.
pub struct LobbyStep {
    pub lobby: LobbyView,
    pub effects: Seq<LobbyEffectView>,
    pub audience: Audience,
}

impl LobbyStep {
    /// Whether this is what has been done: the effects, and then the waiting games shown to the
    /// audience.
    pub open spec fn done_by(self, effects: Seq<LobbyEffectView>) -> bool {
        exists|sent: Seq<LobbyEffectView>| #[trigger]
            self.lobby.announces(self.audience, sent) && effects == self.effects + sent
    }
}

/// What a new game has from chance and from the clock.
pub struct Chance {
    pub questions: Seq<StoredQuestionView>,
    pub created_at: Timestamp,
}

/// Sends a list of games.
pub open spec fn send_games(to: OutTx, games: Seq<GameView>) -> LobbyEffectView {
    LobbyEffectView::Send(
        DeliveryView { to, message: announcement(ServerBodyView::LobbySnapshot { games }) },
    )
}

/// Whether `games` are the waiting games, each of them once, the newest first. Games of the same
/// age may stand in any order.
pub open spec fn is_snapshot(
    waiting: Map<Seq<char>, WaitingView>,
    games: Seq<GameView>,
) -> bool {
    &&& forall|i: int|
        0 <= i < games.len() ==> {
            &&& waiting.contains_key((#[trigger] games[i]).id)
            &&& waiting[games[i].id].summary == games[i]
        }
    &&& forall|i: int, j: int|
        0 <= i < j < games.len() ==> (#[trigger] games[i]).id != (#[trigger] games[j]).id
    &&& forall|i: int, j: int|
        0 <= i < j < games.len() ==> !(#[trigger] games[i]).created_at.earlier(
            (#[trigger] games[j]).created_at,
        )
    &&& forall|id: Seq<char>| #[trigger]
        waiting.contains_key(id) ==> games.contains(waiting[id].summary)
}

/// Whether `order` holds every subscriber once. The order is open.
pub open spec fn is_roll(subscribers: Map<ConnId, OutTx>, order: Seq<ConnId>) -> bool {
    &&& order.no_duplicates()
    &&& order.to_set() == subscribers.dom()
}

/// One copy of the list of games for each subscriber.
pub open spec fn send_to_all(
    subscribers: Map<ConnId, OutTx>,
    order: Seq<ConnId>,
    games: Seq<GameView>,
) -> Seq<LobbyEffectView> {
    Seq::new(order.len(), |i: int| send_games(subscribers[order[i]], games))
}

impl LobbyView {
    /// Whether `sent` shows the waiting games to the audience, and does nothing else.
    pub open spec fn announces(self, audience: Audience, sent: Seq<LobbyEffectView>) -> bool {
        match audience {
            Audience::Nobody => sent.len() == 0,
            Audience::One(to) => exists|games: Seq<GameView>| #[trigger]
                is_snapshot(self.waiting, games) && sent == seq![send_games(to, games)],
            Audience::Subscribers => exists|games: Seq<GameView>, order: Seq<ConnId>|
                {
                    &&& #[trigger] is_snapshot(self.waiting, games)
                    &&& #[trigger] is_roll(self.subscribers, order)
                    &&& sent == send_to_all(self.subscribers, order, games)
                },
        }
    }

    pub open spec fn without_subscriber(self, conn_id: ConnId) -> LobbyView {
        LobbyView { subscribers: self.subscribers.remove(conn_id), ..self }
    }

    pub open spec fn without_waiting(self, game_id: Seq<char>) -> LobbyView {
        LobbyView { waiting: self.waiting.remove(game_id), ..self }
    }

    /// Why a game cannot be had, if it cannot.
    pub open spec fn create_error(
        self,
        topic: Seq<char>,
        question_count: u16,
    ) -> Option<(ErrorCode, Seq<char>)> {
        if !self.pools.contains_key(topic) {
            Some((ErrorCode::InvalidTopic, "Unknown topic: "@ + topic))
        } else if !offers(self.pools, topic, question_count as nat) {
            Some(
                (
                    ErrorCode::InvalidQuestionCount,
                    "questionCount must be between 1 and "@ + decimal(self.pools[topic].len()),
                ),
            )
        } else {
            None
        }
    }

    /// A request is refused: the one who asked is told why, and gets no game.
    pub open spec fn refuse(
        self,
        to: OutTx,
        request_id: Option<Seq<char>>,
        code: ErrorCode,
        message: Seq<char>,
        reply_tx: ReplyTx,
    ) -> LobbyStep {
        LobbyStep {
            lobby: self,
            effects: seq![
                LobbyEffectView::Send(
                    DeliveryView { to, message: refusal(request_id, code, message) },
                ),
                LobbyEffectView::Reply { reply_tx, link: None },
            ],
            audience: Audience::Nobody,
        }
    }

    /// A game is started and waits for an opponent.
    pub open spec fn open_game(
        self,
        init: GameInitView,
        cmd_tx: GameTx,
        reply_tx: ReplyTx,
    ) -> LobbyStep {
        LobbyStep {
            lobby: LobbyView {
                waiting: self.waiting.insert(
                    init.id,
                    WaitingView { summary: init.summary(), cmd_tx },
                ),
                ..self
            },
            effects: seq![
                LobbyEffectView::Start {
                    cmd_tx,
                    game: init.game(),
                    greeting: seq![init.greeting()],
                },
                LobbyEffectView::Reply { reply_tx, link: Some((cmd_tx, init.id)) },
            ],
            audience: Audience::Subscribers,
        }
    }

    /// A waiting game gets an opponent: it waits no longer, and is told who wants to join.
    pub open spec fn join(
        self,
        player_id: Seq<char>,
        name: Seq<char>,
        out_tx: OutTx,
        game_id: Seq<char>,
        request_id: Option<Seq<char>>,
        reply_tx: ReplyTx,
    ) -> LobbyStep {
        if self.waiting.contains_key(game_id) {
            let to = self.waiting[game_id].cmd_tx;
            LobbyStep {
                lobby: LobbyView {
                    active: self.active.insert(game_id, to),
                    ..self.without_waiting(game_id)
                },
                effects: seq![
                    LobbyEffectView::Forward {
                        to,
                        cmd: GameCmdView::Join { player_id, name, out_tx, request_id },
                    },
                    LobbyEffectView::Reply { reply_tx, link: Some((to, game_id)) },
                ],
                audience: Audience::Subscribers,
            }
        } else {
            self.refuse(
                out_tx,
                request_id,
                ErrorCode::GameNotFound,
                "Game "@ + game_id + " not found or already full."@,
                reply_tx,
            )
        }
    }

    /// A game waits no longer, and those who watch the lobby are told if it did.
    pub open spec fn close_waiting(self, game_id: Seq<char>) -> LobbyStep {
        LobbyStep {
            lobby: self.without_waiting(game_id),
            effects: seq![],
            audience: if self.waiting.contains_key(game_id) {
                Audience::Subscribers
            } else {
                Audience::Nobody
            },
        }
    }

    /// What a command does. A game that it starts is called `new_id`, takes commands on
    /// `cmd_tx`, and has from chance what `chance` says.
    pub open spec fn handle(
        self,
        cmd: LobbyCmdView,
        new_id: Seq<char>,
        cmd_tx: GameTx,
        chance: Chance,
    ) -> LobbyStep {
        match cmd {
            LobbyCmdView::Subscribe { conn_id, out_tx } => LobbyStep {
                lobby: LobbyView { subscribers: self.subscribers.insert(conn_id, out_tx), ..self },
                effects: seq![],
                audience: Audience::One(out_tx),
            },
            LobbyCmdView::Unsubscribe { conn_id } => LobbyStep {
                lobby: self.without_subscriber(conn_id),
                effects: seq![],
                audience: Audience::Nobody,
            },
            LobbyCmdView::Create {
                conn_id,
                host_player_id,
                host_name,
                host_out_tx,
                topic,
                question_count,
                request_id,
                reply_tx,
            } => {
                let lobby = self.without_subscriber(conn_id);
                match lobby.create_error(topic, question_count) {
                    Some((code, message)) => lobby.refuse(
                        host_out_tx,
                        request_id,
                        code,
                        message,
                        reply_tx,
                    ),
                    None => lobby.open_game(
                        GameInitView {
                            id: new_id,
                            topic,
                            questions: chance.questions,
                            host_player_id,
                            host_name,
                            host_out_tx,
                            host_request_id: request_id,
                            created_at: chance.created_at,
                        },
                        cmd_tx,
                        reply_tx,
                    ),
                }
            },
            LobbyCmdView::Join {
                conn_id,
                player_id,
                name,
                out_tx,
                game_id,
                request_id,
                reply_tx,
            } => {
                self.without_subscriber(conn_id).join(
                    player_id,
                    name,
                    out_tx,
                    game_id,
                    request_id,
                    reply_tx,
                )
            },
            LobbyCmdView::GameFinished { game_id } => LobbyView {
                active: self.active.remove(game_id),
                ..self
            }.close_waiting(game_id),
            LobbyCmdView::HostLeftWaiting { game_id } => self.close_waiting(game_id),
        }
    }

    /// Whether a command starts a game.
    pub open spec fn starts_game(self, cmd: LobbyCmdView) -> bool {
        cmd matches LobbyCmdView::Create { topic, question_count, .. } && self.create_error(
            topic,
            question_count,
        ) is None
    }

    /// What chance can give to the game that a command starts: as many questions as were asked
    /// for, none of them twice, and a time of day.
    pub open spec fn possible(self, cmd: LobbyCmdView, chance: Chance) -> bool {
        self.starts_game(cmd) ==> {
            &&& drawn(
                self.pools[cmd->Create_topic],
                chance.questions,
                cmd->Create_question_count as nat,
            )
            &&& chance.created_at.in_calendar()
        }
    }
}

} // verus!
