//! The machine behind the lobby: who watches it, and which games wait for an opponent.
use std::collections::HashMap;
use std::sync::Arc;
use vstd::prelude::*;
use vstd::hash_map::StringHashMap;
use crate::clock::utc_now;
use crate::game::{spawn_game, Delivery, GameActor, GameCmd, GameInit, GameSummary};
use crate::game_model::OutTx;
use crate::ids::{game_id, next_game_id, ConnId, IdCounter};
use crate::lobby_model::{
    is_roll, is_snapshot, send_games, send_to_all, Audience, Chance, GameTx, LobbyCmdView,
    LobbyEffectView, LobbyView, ReplyTx, WaitingView,
};
use crate::messages::{copy_games, ErrorCode, Game, GameView, ServerBody, ServerMessage};
use crate::questions::QuestionRegistry;
use crate::text::{join, number};

verus! {

/// What can be asked of the lobby.
#[derive(Debug)]
pub enum LobbyCmd {
    Subscribe { conn_id: ConnId, out_tx: OutTx },
    Unsubscribe { conn_id: ConnId },
    Create {
        conn_id: ConnId,
        host_player_id: String,
        host_name: String,
        host_out_tx: OutTx,
        topic: String,
        question_count: u16,
        request_id: Option<String>,
        /// Where the host awaits the queue on which the new game takes commands.
        reply_tx: ReplyTx,
    },
    Join {
        conn_id: ConnId,
        player_id: String,
        name: String,
        out_tx: OutTx,
        game_id: String,
        request_id: Option<String>,
        reply_tx: ReplyTx,
    },
    GameFinished { game_id: String },
    HostLeftWaiting { game_id: String },
}

impl View for LobbyCmd {
    type V = LobbyCmdView;

    open spec fn view(&self) -> LobbyCmdView {
        match self {
            LobbyCmd::Subscribe { conn_id, out_tx } => LobbyCmdView::Subscribe {
                conn_id: *conn_id,
                out_tx: *out_tx,
            },
            LobbyCmd::Unsubscribe { conn_id } => LobbyCmdView::Unsubscribe { conn_id: *conn_id },
            LobbyCmd::Create {
                conn_id,
                host_player_id,
                host_name,
                host_out_tx,
                topic,
                question_count,
                request_id,
                reply_tx,
            } => LobbyCmdView::Create {
                conn_id: *conn_id,
                host_player_id: host_player_id@,
                host_name: host_name@,
                host_out_tx: *host_out_tx,
                topic: topic@,
                question_count: *question_count,
                request_id: request_id.deep_view(),
                reply_tx: *reply_tx,
            },
            LobbyCmd::Join {
                conn_id,
                player_id,
                name,
                out_tx,
                game_id,
                request_id,
                reply_tx,
            } => LobbyCmdView::Join {
                conn_id: *conn_id,
                player_id: player_id@,
                name: name@,
                out_tx: *out_tx,
                game_id: game_id@,
                request_id: request_id.deep_view(),
                reply_tx: *reply_tx,
            },
            LobbyCmd::GameFinished { game_id } => LobbyCmdView::GameFinished { game_id: game_id@ },
            LobbyCmd::HostLeftWaiting { game_id } => LobbyCmdView::HostLeftWaiting {
                game_id: game_id@,
            },
        }
    }
}

/// What is to be done about a command.
pub enum LobbyEffect {
    /// Put a message into a queue. If the queue is full or gone, the message is lost.
    Send(Delivery),
    /// Tell the one who asked which queue the game takes commands on and what its id is, or that
    /// there is no game.
    Reply { reply_tx: ReplyTx, link: Option<(GameTx, String)> },
    /// Run a game that takes commands on `cmd_tx`, after sending its greeting.
    Start { cmd_tx: GameTx, game: GameActor, greeting: Vec<Delivery> },
    /// Put a command into a game's queue.
    Forward { to: GameTx, cmd: GameCmd },
}

impl View for LobbyEffect {
    type V = LobbyEffectView;

    open spec fn view(&self) -> LobbyEffectView {
        match self {
            LobbyEffect::Send(delivery) => LobbyEffectView::Send(delivery@),
            LobbyEffect::Reply { reply_tx, link } => LobbyEffectView::Reply {
                reply_tx: *reply_tx,
                link: link.deep_view(),
            },
            LobbyEffect::Start { cmd_tx, game, greeting } => LobbyEffectView::Start {
                cmd_tx: *cmd_tx,
                game: game@,
                greeting: greeting.deep_view(),
            },
            LobbyEffect::Forward { to, cmd } => LobbyEffectView::Forward { to: *to, cmd: cmd@ },
        }
    }
}

impl DeepView for LobbyEffect {
    type V = LobbyEffectView;

    open spec fn deep_view(&self) -> LobbyEffectView {
        self@
    }
}

/// A game that waits for an opponent.
pub struct WaitingGame {
    summary: GameSummary,
    cmd_tx: GameTx,
}

impl View for WaitingGame {
    type V = WaitingView;

    closed spec fn view(&self) -> WaitingView {
        WaitingView { summary: self.summary@, cmd_tx: self.cmd_tx }
    }
}

impl DeepView for WaitingGame {
    type V = WaitingView;

    open spec fn deep_view(&self) -> WaitingView {
        self@
    }
}

/// The lobby.
pub struct LobbyActor {
    registry: Arc<QuestionRegistry>,
    subscribers: HashMap<ConnId, OutTx>,
    /// No two of these games have the same id.
    waiting: Vec<WaitingGame>,
    active: StringHashMap<GameTx>,
}

/// No two games of the list have the same id.
spec fn unique(games: Seq<WaitingView>) -> bool {
    forall|i: int, j: int|
        0 <= i < j < games.len() ==> (#[trigger] games[i]).summary.id != (
        #[trigger] games[j]).summary.id
}

/// Whether the game at `i` has this id.
spec fn has_id(games: Seq<WaitingView>, i: int, id: Seq<char>) -> bool {
    0 <= i < games.len() && games[i].summary.id == id
}

/// The games of a list, by id.
spec fn by_id(games: Seq<WaitingView>) -> Map<Seq<char>, WaitingView> {
    Map::new(
        |id: Seq<char>| exists|i: int| has_id(games, i, id),
        |id: Seq<char>| games[choose|i: int| has_id(games, i, id)],
    )
}

proof fn lemma_by_id_at(games: Seq<WaitingView>, i: int)
    requires
        unique(games),
        0 <= i < games.len(),
    ensures
        by_id(games).contains_key(games[i].summary.id),
        by_id(games)[games[i].summary.id] == games[i],
{
    let id = games[i].summary.id;
    assert(has_id(games, i, id));
    let j = choose|j: int| has_id(games, j, id);
    assert(has_id(games, j, id));
    assert(i == j);
}

proof fn lemma_by_id_push(games: Seq<WaitingView>, game: WaitingView)
    requires
        unique(games),
        !by_id(games).contains_key(game.summary.id),
    ensures
        unique(games.push(game)),
        by_id(games.push(game)) == by_id(games).insert(game.summary.id, game),
{
    let after = games.push(game);
    assert forall|i: int| 0 <= i < games.len() implies (#[trigger] games[i]).summary.id
        != game.summary.id by {
        assert(has_id(games, i, games[i].summary.id));
    }
    assert(unique(after));
    assert forall|id: Seq<char>|
        by_id(after).contains_key(id) == by_id(games).insert(
            game.summary.id,
            game,
        ).contains_key(id) by {
        if by_id(after).contains_key(id) {
            let i = choose|i: int| has_id(after, i, id);
            if i < games.len() {
                assert(has_id(games, i, id));
            }
        }
        if by_id(games).contains_key(id) {
            let i = choose|i: int| has_id(games, i, id);
            assert(has_id(after, i, id));
        }
        assert(has_id(after, games.len() as int, game.summary.id));
    }
    assert forall|id: Seq<char>| by_id(after).contains_key(id) implies by_id(after)[id]
        == by_id(games).insert(game.summary.id, game)[id] by {
        let i = choose|i: int| has_id(after, i, id);
        lemma_by_id_at(after, i);
        if i < games.len() {
            lemma_by_id_at(games, i);
        }
    }
    assert(by_id(after) =~= by_id(games).insert(game.summary.id, game));
}

proof fn lemma_by_id_remove(games: Seq<WaitingView>, k: int)
    requires
        unique(games),
        0 <= k < games.len(),
    ensures
        unique(games.remove(k)),
        by_id(games.remove(k)) == by_id(games).remove(games[k].summary.id),
{
    let after = games.remove(k);
    let gone = games[k].summary.id;
    assert forall|i: int| 0 <= i < after.len() implies #[trigger] after[i] == games[if i < k {
        i
    } else {
        i + 1
    }] by {}
    assert(unique(after));
    assert forall|id: Seq<char>|
        by_id(after).contains_key(id) == by_id(games).remove(gone).contains_key(id) by {
        if by_id(after).contains_key(id) {
            let i = choose|i: int| has_id(after, i, id);
            let j = if i < k {
                i
            } else {
                i + 1
            };
            assert(after[i] == games[j]);
            assert(has_id(games, j, id));
        }
        if by_id(games).remove(gone).contains_key(id) {
            let j = choose|j: int| has_id(games, j, id);
            let i = if j < k {
                j
            } else {
                j - 1
            };
            assert(after[i] == games[j]);
            assert(has_id(after, i, id));
        }
    }
    assert forall|id: Seq<char>| by_id(after).contains_key(id) implies by_id(after)[id]
        == by_id(games).remove(gone)[id] by {
        let i = choose|i: int| has_id(after, i, id);
        lemma_by_id_at(after, i);
        lemma_by_id_at(
            games,
            if i < k {
                i
            } else {
                i + 1
            },
        );
    }
    assert(by_id(after) =~= by_id(games).remove(gone));
}

/// A game put where it belongs by age completes the list of games.
proof fn lemma_snapshot_insert(
    waiting: Map<Seq<char>, WaitingView>,
    games: Seq<GameView>,
    game: WaitingView,
    p: int,
)
    requires
        is_snapshot(waiting, games),
        !waiting.contains_key(game.summary.id),
        0 <= p <= games.len(),
        forall|i: int|
            0 <= i < p ==> !(#[trigger] games[i]).created_at.earlier(game.summary.created_at),
        p < games.len() ==> games[p].created_at.earlier(game.summary.created_at),
    ensures
        is_snapshot(waiting.insert(game.summary.id, game), games.insert(p, game.summary)),
{
    let after = games.insert(p, game.summary);
    let more = waiting.insert(game.summary.id, game);
    assert forall|i: int, j: int| 0 <= i < j < after.len() implies {
        &&& (#[trigger] after[i]).id != (#[trigger] after[j]).id
        &&& !after[i].created_at.earlier(after[j].created_at)
    } by {
        let a = if i < p {
            games[i]
        } else if i == p {
            game.summary
        } else {
            games[i - 1]
        };
        let b = if j < p {
            games[j]
        } else if j == p {
            game.summary
        } else {
            games[j - 1]
        };
        assert(after[i] == a && after[j] == b);
        if i == p {
            assert(waiting.contains_key(games[j - 1].id));
            if j - 1 > p {
                assert(!games[p].created_at.earlier(games[j - 1].created_at));
            }
        } else if j == p {
            assert(waiting.contains_key(games[i].id));
        }
    }
    assert forall|id: Seq<char>| #[trigger] more.contains_key(id) implies after.contains(
        more[id].summary,
    ) by {
        if id == game.summary.id {
            assert(after[p] == game.summary);
        } else {
            assert(games.contains(waiting[id].summary));
            let i = choose|i: int| 0 <= i < games.len() && games[i] == waiting[id].summary;
            assert(after[if i < p {
                i
            } else {
                i + 1
            }] == games[i]);
        }
    }
    assert forall|i: int| 0 <= i < after.len() implies {
        &&& more.contains_key((#[trigger] after[i]).id)
        &&& more[after[i].id].summary == after[i]
    } by {
        if i < p {
            assert(after[i] == games[i]);
        } else if i > p {
            assert(after[i] == games[i - 1]);
        }
    }
}

/// The place in a list of games, newest first, for one of this age.
fn place_for(games: &Vec<Game>, game: &Game) -> (p: usize)
    ensures
        p <= games.len(),
        forall|i: int|
            0 <= i < p ==> !(#[trigger] games.deep_view()[i]).created_at.earlier(game.created_at),
        p < games.len() ==> games.deep_view()[p as int].created_at.earlier(game.created_at),
{
    for p in 0..games.len()
        invariant
            forall|i: int|
                0 <= i < p ==> !(#[trigger] games.deep_view()[i]).created_at.earlier(
                    game.created_at,
                ),
    {
        assert(games.deep_view()[p as int] == games[p as int]@);
        if games[p].created_at.is_before(&game.created_at) {
            return p;
        }
    }
    games.len()
}

impl View for LobbyActor {
    type V = LobbyView;

    closed spec fn view(&self) -> LobbyView {
        LobbyView {
            pools: self.registry@,
            subscribers: self.subscribers@,
            waiting: by_id(self.waiting.deep_view()),
            active: self.active@,
        }
    }
}

/// Starts the lobby: nobody watches, and no game waits.
pub fn spawn_lobby(registry: Arc<QuestionRegistry>) -> (lobby: LobbyActor)
    ensures
        lobby.wf(),
        lobby@ == (LobbyView {
            pools: registry@,
            subscribers: Map::empty(),
            waiting: Map::empty(),
            active: Map::empty(),
        }),
{
    let lobby = LobbyActor {
        registry,
        subscribers: HashMap::new(),
        waiting: Vec::new(),
        active: StringHashMap::new(),
    };
    assert(lobby@.waiting =~= Map::empty());
    lobby
}

impl LobbyActor {
    /// What holds of the lobby between two commands.
    pub closed spec fn wf(self) -> bool {
        unique(self.waiting.deep_view())
    }

    fn find(&self, game_id: &String) -> (r: Option<usize>)
        requires
            self.wf(),
        ensures
            match r {
                Some(i) => {
                    &&& i < self.waiting.len()
                    &&& self.waiting[i as int]@.summary.id == game_id@
                    &&& self@.waiting.contains_key(game_id@)
                    &&& self@.waiting[game_id@] == self.waiting[i as int]@
                },
                None => !self@.waiting.contains_key(game_id@),
            },
    {
        for i in 0..self.waiting.len()
            invariant
                self.wf(),
                forall|j: int| 0 <= j < i ==> self.waiting[j]@.summary.id != game_id@,
        {
            if self.waiting[i].summary.id == *game_id {
                proof {
                    lemma_by_id_at(self.waiting.deep_view(), i as int);
                }
                return Some(i);
            }
        }
        proof {
            if self@.waiting.contains_key(game_id@) {
                let i = choose|i: int| has_id(self.waiting.deep_view(), i, game_id@);
                assert(self.waiting[i]@.summary.id == game_id@);
            }
        }
        None
    }

    /// Takes a game from the waiting ones, if it is one of them.
    fn remove_waiting(&mut self, game_id: &String) -> (r: Option<WaitingGame>)
        requires
            old(self).wf(),
        ensures
            final(self).wf(),
            final(self)@ == old(self)@.without_waiting(game_id@),
            match r {
                Some(game) => {
                    &&& old(self)@.waiting.contains_key(game_id@)
                    &&& game@ == old(self)@.waiting[game_id@]
                },
                None => !old(self)@.waiting.contains_key(game_id@),
            },
    {
        match self.find(game_id) {
            Some(i) => {
                let ghost before = self.waiting.deep_view();
                let game = self.waiting.remove(i);
                proof {
                    lemma_by_id_remove(before, i as int);
                    assert(self.waiting.deep_view() =~= before.remove(i as int));
                }
                Some(game)
            },
            None => {
                assert(self@.waiting.remove(game_id@) =~= self@.waiting);
                None
            },
        }
    }

    fn insert_waiting(&mut self, game: WaitingGame)
        requires
            old(self).wf(),
        ensures
            final(self).wf(),
            final(self)@ == (LobbyView {
                waiting: old(self)@.waiting.insert(game@.summary.id, game@),
                ..old(self)@
            }),
    {
        let ghost start = self@.waiting;
        let _ = self.remove_waiting(&game.summary.id);
        let ghost before = self.waiting.deep_view();
        self.waiting.push(game);
        proof {
            lemma_by_id_push(before, game@);
            assert(self.waiting.deep_view() =~= before.push(game@));
            assert(self@.waiting =~= start.insert(game@.summary.id, game@));
        }
    }

    /// The waiting games, the newest first.
    pub fn snapshot_games(&self) -> (games: Vec<Game>)
        requires
            self.wf(),
        ensures
            is_snapshot(self@.waiting, games.deep_view()),
    {
        let mut games: Vec<Game> = Vec::new();
        let ghost all = self.waiting.deep_view();
        assert(by_id(all.take(0)) =~= Map::empty());
        for i in 0..self.waiting.len()
            invariant
                self.wf(),
                all == self.waiting.deep_view(),
                is_snapshot(by_id(all.take(i as int)), games.deep_view()),
        {
            let summary = &self.waiting[i].summary;
            let game = Game {
                id: summary.id.clone(),
                host_name: summary.host_name.clone(),
                topic: summary.topic.clone(),
                question_count: summary.question_count,
                created_at: summary.created_at,
            };
            let p: usize = place_for(&games, &game);
            let ghost before = games.deep_view();
            games.insert(p, game);
            proof {
                let so_far = all.take(i as int);
                assert(all.take(i + 1) =~= so_far.push(all[i as int]));
                assert(!by_id(so_far).contains_key(game@.id)) by {
                    if by_id(so_far).contains_key(game@.id) {
                        let j = choose|j: int| has_id(so_far, j, game@.id);
                        assert(all[j].summary.id == all[i as int].summary.id);
                    }
                }
                assert(unique(so_far)) by {
                    assert forall|a: int, b: int| 0 <= a < b < so_far.len() implies (
                    #[trigger] so_far[a]).summary.id != (#[trigger] so_far[b]).summary.id by {
                        assert(so_far[a] == all[a] && so_far[b] == all[b]);
                    }
                }
                lemma_by_id_push(so_far, all[i as int]);
                lemma_snapshot_insert(by_id(so_far), before, all[i as int], p as int);
                assert(games.deep_view() =~= before.insert(p as int, game@));
            }
        }
        assert(all.take(all.len() as int) =~= all);
        games
    }

    /// Shows the waiting games to everybody who watches the lobby.
    fn broadcast_snapshot(&self, out: &mut Vec<LobbyEffect>)
        requires
            self.wf(),
        ensures
            exists|sent: Seq<LobbyEffectView>|
                {
                    &&& #[trigger] self@.announces(Audience::Subscribers, sent)
                    &&& final(out).deep_view() == old(out).deep_view() + sent
                },
    {
        let games = self.snapshot_games();
        let ghost before = out.deep_view();
        let ghost list = games.deep_view();
        let ghost subscribers = self.subscribers@;
        let ghost mut order: Seq<ConnId> = seq![];
        broadcast use vstd::std_specs::hash::group_hash_axioms;

        for conn_id in it: self.subscribers.keys()
            invariant
                list == games.deep_view(),
                subscribers == self.subscribers@,
                is_roll(subscribers, it.seq().unref()),
                order == it.seq().unref().take(it.index() as int),
                it.index() == it.seq().len() ==> order == it.seq().unref(),
                out.deep_view() == before + send_to_all(subscribers, order, list),
        {
            let ghost so_far = out.deep_view();
            assert(it.seq().unref()[it.index() as int] == *conn_id);
            assert(it.seq().unref().to_set().contains(*conn_id));
            match self.subscribers.get(conn_id) {
                Some(to) => {
                    let message = ServerMessage {
                        request_id: None,
                        body: ServerBody::LobbySnapshot { games: copy_games(&games) },
                    };
                    out.push(LobbyEffect::Send(Delivery { to: *to, message }));
                },
                None => {},
            }
            proof {
                assert(out.deep_view() =~= so_far.push(send_games(subscribers[*conn_id], list)));
                let more = order.push(*conn_id);
                assert(send_to_all(subscribers, more, list) =~= send_to_all(
                    subscribers,
                    order,
                    list,
                ).push(send_games(subscribers[*conn_id], list)));
                assert(more =~= it.seq().unref().take(it.index() + 1));
                order = more;
            }
        }
        assert(is_snapshot(self@.waiting, list));
        assert(is_roll(self@.subscribers, order));
        assert(self@.announces(
            Audience::Subscribers,
            send_to_all(self@.subscribers, order, list),
        ));
    }

    fn remove_subscriber(&mut self, conn_id: ConnId)
        requires
            old(self).wf(),
        ensures
            final(self).wf(),
            final(self)@ == old(self)@.without_subscriber(conn_id),
    {
        broadcast use vstd::std_specs::hash::group_hash_axioms;

        self.subscribers.remove(&conn_id);
    }

    fn refuse(
        &self,
        to: OutTx,
        request_id: Option<String>,
        code: ErrorCode,
        text: String,
        reply_tx: ReplyTx,
    ) -> (effects: Vec<LobbyEffect>)
        ensures
            self@.refuse(to, request_id.deep_view(), code, text@, reply_tx).done_by(
                effects.deep_view(),
            ),
    {
        let message = ServerMessage { request_id, body: ServerBody::Error { code, message: text } };
        let mut effects: Vec<LobbyEffect> = Vec::new();
        effects.push(LobbyEffect::Send(Delivery { to, message }));
        effects.push(LobbyEffect::Reply { reply_tx, link: None });
        proof {
            let step = self@.refuse(to, request_id.deep_view(), code, text@, reply_tx);
            assert(step.lobby.announces(step.audience, seq![]));
            assert(effects.deep_view() =~= step.effects + seq![]);
        }
        effects
    }

    /// Starts a game that takes commands on `cmd_tx`, and lists it.
    pub fn open_game(&mut self, init: GameInit, cmd_tx: GameTx, reply_tx: ReplyTx) -> (effects: Vec<
        LobbyEffect,
    >)
        requires
            old(self).wf(),
        ensures
            final(self).wf(),
            final(self)@ == old(self)@.open_game(init@, cmd_tx, reply_tx).lobby,
            old(self)@.open_game(init@, cmd_tx, reply_tx).done_by(effects.deep_view()),
    {
        let ghost step = self@.open_game(init@, cmd_tx, reply_tx);
        let game_id = init.id.clone();
        let (game, summary, greeting) = spawn_game(init);
        self.insert_waiting(WaitingGame { summary, cmd_tx });
        let mut effects: Vec<LobbyEffect> = Vec::new();
        effects.push(LobbyEffect::Start { cmd_tx, game, greeting });
        effects.push(LobbyEffect::Reply { reply_tx, link: Some((cmd_tx, game_id)) });
        assert(effects.deep_view() =~= step.effects);
        assert(self@ == step.lobby);
        self.broadcast_snapshot(&mut effects);
        effects
    }

    fn join_game(
        &mut self,
        player_id: String,
        name: String,
        out_tx: OutTx,
        game_id: String,
        request_id: Option<String>,
        reply_tx: ReplyTx,
    ) -> (effects: Vec<LobbyEffect>)
        requires
            old(self).wf(),
        ensures
            final(self).wf(),
            final(self)@ == old(self)@.join(
                player_id@,
                name@,
                out_tx,
                game_id@,
                request_id.deep_view(),
                reply_tx,
            ).lobby,
            old(self)@.join(
                player_id@,
                name@,
                out_tx,
                game_id@,
                request_id.deep_view(),
                reply_tx,
            ).done_by(effects.deep_view()),
    {
        let ghost step = self@.join(
            player_id@,
            name@,
            out_tx,
            game_id@,
            request_id.deep_view(),
            reply_tx,
        );
        let to: GameTx = match self.remove_waiting(&game_id) {
            Some(game) => game.cmd_tx,
            None => {
                assert(self@.waiting =~= old(self)@.waiting);
                let text = join(
                    join("Game ", game_id.as_str()).as_str(),
                    " not found or already full.",
                );
                return self.refuse(out_tx, request_id, ErrorCode::GameNotFound, text, reply_tx);
            },
        };
        self.active.insert(game_id.clone(), to);
        let mut effects: Vec<LobbyEffect> = Vec::new();
        effects.push(
            LobbyEffect::Forward {
                to,
                cmd: GameCmd::Join { player_id, name, out_tx, request_id },
            },
        );
        effects.push(LobbyEffect::Reply { reply_tx, link: Some((to, game_id)) });
        assert(effects.deep_view() =~= step.effects);
        assert(self@ == step.lobby);
        self.broadcast_snapshot(&mut effects);
        effects
    }

    fn create_error(&self, topic: &String, question_count: u16) -> (r: Option<
        (ErrorCode, String),
    >)
        ensures
            match r {
                Some((code, text)) => self@.create_error(topic@, question_count) == Some(
                    (code, text@),
                ),
                None => self@.create_error(topic@, question_count) is None,
            },
    {
        match self.registry.pool_size(topic.as_str()) {
            Some(pool_size) => {
                if question_count == 0 || question_count as usize > pool_size {
                    let text = join(
                        "questionCount must be between 1 and ",
                        number(pool_size as u64).as_str(),
                    );
                    Some((ErrorCode::InvalidQuestionCount, text))
                } else {
                    None
                }
            },
            None => Some((ErrorCode::InvalidTopic, join("Unknown topic: ", topic.as_str()))),
        }
    }

    /// Handles a command, and returns what is to be done, in order. A game that it starts takes
    /// its id from `game_ids` and commands on `cmd_tx`.
    pub fn handle(&mut self, cmd: LobbyCmd, game_ids: &mut IdCounter, cmd_tx: GameTx) -> (effects:
        Vec<LobbyEffect>)
        requires
            old(self).wf(),
            old(self)@.starts_game(cmd@) ==> old(game_ids).last < u64::MAX,
        ensures
            final(self).wf(),
            final(game_ids).last == old(game_ids).last + if old(self)@.starts_game(cmd@) {
                1int
            } else {
                0int
            },
            exists|chance: Chance|
                {
                    let step = old(self)@.handle(
                        cmd@,
                        game_id(old(game_ids).last as nat + 1),
                        cmd_tx,
                        chance,
                    );
                    &&& #[trigger] old(self)@.possible(cmd@, chance)
                    &&& final(self)@ == step.lobby
                    &&& step.done_by(effects.deep_view())
                },
    {
        let ghost before = self@;
        let ghost model = cmd@;
        let ghost id = game_id(game_ids.last as nat + 1);
        match cmd {
            LobbyCmd::Subscribe { conn_id, out_tx } => {
                broadcast use vstd::std_specs::hash::group_hash_axioms;

                self.subscribers.insert(conn_id, out_tx);
                let games = self.snapshot_games();
                let message = ServerMessage {
                    request_id: None,
                    body: ServerBody::LobbySnapshot { games },
                };
                let mut effects: Vec<LobbyEffect> = Vec::new();
                effects.push(LobbyEffect::Send(Delivery { to: out_tx, message }));
                proof {
                    let sent = seq![send_games(out_tx, games.deep_view())];
                    let chance = arbitrary::<Chance>();
                    let step = before.handle(model, id, cmd_tx, chance);
                    assert(before.possible(model, chance));
                    assert(self@ == step.lobby);
                    assert(step.lobby.announces(step.audience, sent));
                    assert(effects.deep_view() =~= step.effects + sent);
                }
                effects
            },
            LobbyCmd::Unsubscribe { conn_id } => {
                self.remove_subscriber(conn_id);
                let effects: Vec<LobbyEffect> = Vec::new();
                proof {
                    let chance = arbitrary::<Chance>();
                    let step = before.handle(model, id, cmd_tx, chance);
                    assert(before.possible(model, chance));
                    assert(step.lobby.announces(step.audience, seq![]));
                    assert(effects.deep_view() =~= step.effects + seq![]);
                }
                effects
            },
            LobbyCmd::Create {
                conn_id,
                host_player_id,
                host_name,
                host_out_tx,
                topic,
                question_count,
                request_id,
                reply_tx,
            } => {
                self.remove_subscriber(conn_id);
                if let Some((code, text)) = self.create_error(&topic, question_count) {
                    assert(before.possible(model, arbitrary::<Chance>()));
                    return self.refuse(host_out_tx, request_id, code, text, reply_tx);
                }
                let questions = self.registry.pick(
                    topic.as_str(),
                    question_count as usize,
                ).unwrap();
                let created_at = utc_now();
                let ghost chance = Chance { questions: questions.deep_view(), created_at };
                assert(before.possible(model, chance));
                let init = GameInit {
                    id: next_game_id(game_ids),
                    topic,
                    questions,
                    host_player_id,
                    host_name,
                    host_out_tx,
                    host_request_id: request_id,
                    created_at,
                };
                self.open_game(init, cmd_tx, reply_tx)
            },
            LobbyCmd::Join {
                conn_id,
                player_id,
                name,
                out_tx,
                game_id,
                request_id,
                reply_tx,
            } => {
                assert(before.possible(model, arbitrary::<Chance>()));
                self.remove_subscriber(conn_id);
                self.join_game(player_id, name, out_tx, game_id, request_id, reply_tx)
            },
            LobbyCmd::GameFinished { game_id } => {
                self.active.remove(game_id.as_str());
                assert(before.possible(model, arbitrary::<Chance>()));
                self.close_waiting(&game_id)
            },
            LobbyCmd::HostLeftWaiting { game_id } => {
                assert(before.possible(model, arbitrary::<Chance>()));
                self.close_waiting(&game_id)
            },
        }
    }

    /// Takes a game off the list, and tells those who watch the lobby if it was there.
    fn close_waiting(&mut self, game_id: &String) -> (effects: Vec<LobbyEffect>)
        requires
            old(self).wf(),
        ensures
            final(self).wf(),
            final(self)@ == old(self)@.close_waiting(game_id@).lobby,
            old(self)@.close_waiting(game_id@).done_by(effects.deep_view()),
    {
        let ghost step = self@.close_waiting(game_id@);
        let mut effects: Vec<LobbyEffect> = Vec::new();
        assert(effects.deep_view() =~= step.effects);
        match self.remove_waiting(game_id) {
            Some(_) => {
                self.broadcast_snapshot(&mut effects);
            },
            None => {
                assert(step.lobby.announces(step.audience, seq![]));
                assert(effects.deep_view() =~= step.effects + seq![]);
            },
        }
        effects
    }
}

} // verus!
