//! The rules of the lobby, command by command: what each makes of the lists of watchers and games,
//! who is told what, and what the draw of questions and the list of games are worth.
use vstd::prelude::*;
use crate::game_model::{DeliveryView, GameActorView, GameCmdView, GameInitView, OutTx, SlotView};
use crate::game_step_laws::{into_queue, picture, rule_new_game};
use crate::ids::ConnId;
use crate::lobby_model::{
    is_roll, is_snapshot, send_to_all, Chance, GameTx, LobbyCmdView, LobbyEffectView,
    LobbyView, ReplyTx, WaitingView,
};
use crate::messages::{ErrorCode, GamePhase, GameView, ServerBodyView, ServerMessageView};
use crate::questions::{law_drawn, picked_from};
use crate::text::decimal;

verus! {

/// Whether a list shows the waiting games and no others, each once, under its own id, and none
/// before one that is newer.
pub open spec fn lists_waiting(
    waiting: Map<Seq<char>, WaitingView>,
    games: Seq<GameView>,
) -> bool {
    &&& forall|i: int|
        0 <= i < games.len() ==> waiting.contains_key((#[trigger] games[i]).id) && games[i]
            == waiting[games[i].id].summary
    &&& forall|i: int, j: int|
        0 <= i < j < games.len() ==> (#[trigger] games[i]).id != (#[trigger] games[j]).id
    &&& forall|i: int, j: int|
        0 <= i < j < games.len() ==> {
            let a = (#[trigger] games[i]).created_at;
            let b = (#[trigger] games[j]).created_at;
            a.secs > b.secs || a.secs == b.secs && a.nanos >= b.nanos
        }
    &&& forall|id: Seq<char>| #[trigger]
        waiting.contains_key(id) ==> exists|i: int|
            0 <= i < games.len() && #[trigger] games[i] == waiting[id].summary
}

/// A list of games into a queue.
pub open spec fn list_into(to: OutTx, games: Seq<GameView>) -> LobbyEffectView {
    LobbyEffectView::Send(
        DeliveryView {
            to,
            message: ServerMessageView {
                request_id: None,
                body: ServerBodyView::LobbySnapshot { games },
            },
        },
    )
}

/// Whether `sent` is the list of games for each of the watchers, once, and nothing else, `order`
/// being the order in which they get it.
pub open spec fn list_for_each(
    watchers: Map<ConnId, OutTx>,
    order: Seq<ConnId>,
    games: Seq<GameView>,
    sent: Seq<LobbyEffectView>,
) -> bool {
    &&& sent.len() == order.len()
    &&& forall|i: int|
        0 <= i < order.len() ==> watchers.contains_key(#[trigger] order[i]) && sent[i]
            == list_into(watchers[order[i]], games)
    &&& forall|i: int, j: int|
        0 <= i < j < order.len() ==> #[trigger] order[i] != #[trigger] order[j]
    &&& forall|c: ConnId| #[trigger]
        watchers.contains_key(c) ==> exists|i: int| 0 <= i < order.len() && #[trigger] order[i] == c
}

/// Whether the effects are `first`, and then the list of waiting games for each watcher.
pub open spec fn then_lists(
    after: LobbyView,
    first: Seq<LobbyEffectView>,
    effects: Seq<LobbyEffectView>,
) -> bool {
    exists|games: Seq<GameView>, order: Seq<ConnId>|
        {
            &&& #[trigger] lists_waiting(after.waiting, games)
            &&& first.len() <= effects.len()
            &&& effects.take(first.len() as int) == first
            &&& #[trigger] list_for_each(
                after.subscribers,
                order,
                games,
                effects.skip(first.len() as int),
            )
        }
}

/// A list of the waiting games is worth what its name says.
pub proof fn rule_snapshot(waiting: Map<Seq<char>, WaitingView>, games: Seq<GameView>)
    requires
        is_snapshot(waiting, games),
    ensures
        lists_waiting(waiting, games),
{
    assert forall|id: Seq<char>| #[trigger] waiting.contains_key(id) implies exists|i: int|
        0 <= i < games.len() && #[trigger] games[i] == waiting[id].summary by {
        assert(games.contains(waiting[id].summary));
    }
}

proof fn lemma_then_lists(
    step: crate::lobby_model::LobbyStep,
    effects: Seq<LobbyEffectView>,
)
    requires
        step.done_by(effects),
        step.audience is Subscribers,
    ensures
        then_lists(step.lobby, step.effects, effects),
{
    let after = step.lobby;
    let sent = choose|sent: Seq<LobbyEffectView>| #[trigger]
        after.announces(step.audience, sent) && effects == step.effects + sent;
    let (games, order) = choose|games: Seq<GameView>, order: Seq<ConnId>|
        {
            &&& #[trigger] is_snapshot(after.waiting, games)
            &&& #[trigger] is_roll(after.subscribers, order)
            &&& sent == send_to_all(after.subscribers, order, games)
        };
    rule_snapshot(after.waiting, games);
    assert(effects.take(step.effects.len() as int) =~= step.effects);
    assert(effects.skip(step.effects.len() as int) =~= sent);
    assert forall|i: int| 0 <= i < order.len() implies after.subscribers.contains_key(
        #[trigger] order[i],
    ) by {
        assert(order.to_set().contains(order[i]));
    }
    assert forall|c: ConnId| #[trigger] after.subscribers.contains_key(c) implies exists|i: int|
        0 <= i < order.len() && #[trigger] order[i] == c by {
        assert(order.to_set().contains(c));
    }
    assert(list_for_each(after.subscribers, order, games, sent));
}

proof fn lemma_nothing_more(
    step: crate::lobby_model::LobbyStep,
    effects: Seq<LobbyEffectView>,
)
    requires
        step.done_by(effects),
        step.audience is Nobody,
    ensures
        effects == step.effects,
{
    let sent = choose|sent: Seq<LobbyEffectView>| #[trigger]
        step.lobby.announces(step.audience, sent) && effects == step.effects + sent;
    assert(effects =~= step.effects);
}

/// Whoever starts to watch is put down as a watcher and is sent the list of waiting games. Nobody
/// else is sent anything, and no game is touched.
pub proof fn rule_subscribe(
    lobby: LobbyView,
    conn_id: ConnId,
    out_tx: OutTx,
    new_id: Seq<char>,
    cmd_tx: GameTx,
    chance: Chance,
    effects: Seq<LobbyEffectView>,
)
    requires
        lobby.handle(
            LobbyCmdView::Subscribe { conn_id, out_tx },
            new_id,
            cmd_tx,
            chance,
        ).done_by(effects),
    ensures
        lobby.handle(LobbyCmdView::Subscribe { conn_id, out_tx }, new_id, cmd_tx, chance).lobby == (
        LobbyView { subscribers: lobby.subscribers.insert(conn_id, out_tx), ..lobby }),
        exists|games: Seq<GameView>| #[trigger]
            lists_waiting(lobby.waiting, games) && effects == seq![list_into(out_tx, games)],
{
    let step = lobby.handle(
        LobbyCmdView::Subscribe { conn_id, out_tx },
        new_id,
        cmd_tx,
        chance,
    );
    let sent = choose|sent: Seq<LobbyEffectView>| #[trigger]
        step.lobby.announces(step.audience, sent) && effects == step.effects + sent;
    assert(effects =~= sent);
    let games = choose|games: Seq<GameView>| #[trigger]
        is_snapshot(lobby.waiting, games) && sent == seq![
            crate::lobby_model::send_games(out_tx, games),
        ];
    rule_snapshot(lobby.waiting, games);
}

/// Whoever stops watching is no watcher any more, and nothing else happens.
pub proof fn rule_unsubscribe(
    lobby: LobbyView,
    conn_id: ConnId,
    new_id: Seq<char>,
    cmd_tx: GameTx,
    chance: Chance,
    effects: Seq<LobbyEffectView>,
)
    requires
        lobby.handle(
            LobbyCmdView::Unsubscribe { conn_id },
            new_id,
            cmd_tx,
            chance,
        ).done_by(effects),
    ensures
        lobby.handle(LobbyCmdView::Unsubscribe { conn_id }, new_id, cmd_tx, chance).lobby == (
        LobbyView { subscribers: lobby.subscribers.remove(conn_id), ..lobby }),
        effects.len() == 0,
{
    lemma_nothing_more(
        lobby.handle(LobbyCmdView::Unsubscribe { conn_id }, new_id, cmd_tx, chance),
        effects,
    );
}

/// A request that is refused is answered with an error under its own id and with no game.
pub open spec fn refused_with(
    to: OutTx,
    request_id: Option<Seq<char>>,
    code: ErrorCode,
    text: Seq<char>,
    reply_tx: ReplyTx,
) -> Seq<LobbyEffectView> {
    seq![
        LobbyEffectView::Send(
            DeliveryView {
                to,
                message: ServerMessageView {
                    request_id,
                    body: ServerBodyView::Error { code, message: text },
                },
            },
        ),
        LobbyEffectView::Reply { reply_tx, link: None },
    ]
}

/// A game on an unknown topic, or with no question, or with more than the topic has, is refused.
/// The one who asked does not watch any more; nothing else changes.
pub proof fn rule_create_refused(
    lobby: LobbyView,
    cmd: LobbyCmdView,
    new_id: Seq<char>,
    cmd_tx: GameTx,
    chance: Chance,
    effects: Seq<LobbyEffectView>,
)
    requires
        cmd is Create,
        !lobby.pools.contains_key(cmd->Create_topic) || cmd->Create_question_count == 0
            || cmd->Create_question_count > lobby.pools[cmd->Create_topic].len(),
        lobby.handle(cmd, new_id, cmd_tx, chance).done_by(effects),
    ensures
        !lobby.starts_game(cmd),
        lobby.handle(cmd, new_id, cmd_tx, chance).lobby == (LobbyView {
            subscribers: lobby.subscribers.remove(cmd->Create_conn_id),
            ..lobby
        }),
        ({
            let known = lobby.pools.contains_key(cmd->Create_topic);
            effects == refused_with(
                cmd->Create_host_out_tx,
                cmd->Create_request_id,
                if known {
                    ErrorCode::InvalidQuestionCount
                } else {
                    ErrorCode::InvalidTopic
                },
                if known {
                    "questionCount must be between 1 and "@ + decimal(
                        lobby.pools[cmd->Create_topic].len(),
                    )
                } else {
                    "Unknown topic: "@ + cmd->Create_topic
                },
                cmd->Create_reply_tx,
            )
        }),
{
    lemma_nothing_more(lobby.handle(cmd, new_id, cmd_tx, chance), effects);
}

/// A game that can be had is started: its questions are as many as were asked for, taken from the
/// topic's pool at different places; its host is the one who asked; host and lobby know it under
/// the new id; and everybody who watches is sent the new list.
pub proof fn rule_create(
    lobby: LobbyView,
    cmd: LobbyCmdView,
    new_id: Seq<char>,
    cmd_tx: GameTx,
    chance: Chance,
    effects: Seq<LobbyEffectView>,
)
    requires
        cmd is Create,
        lobby.pools.contains_key(cmd->Create_topic),
        0 < cmd->Create_question_count <= lobby.pools[cmd->Create_topic].len(),
        lobby.possible(cmd, chance),
        lobby.handle(cmd, new_id, cmd_tx, chance).done_by(effects),
    ensures
        lobby.starts_game(cmd),
        effects.len() >= 2,
        effects[0] is Start,
        ({
            let after = lobby.handle(cmd, new_id, cmd_tx, chance).lobby;
            let game = effects[0]->game;
            let first = seq![
                LobbyEffectView::Start {
                    cmd_tx,
                    game,
                    greeting: into_queue(
                        Some(cmd->Create_host_out_tx),
                        ServerMessageView {
                            request_id: cmd->Create_request_id,
                            body: ServerBodyView::GameCreated { game: picture(game) },
                        },
                    ),
                },
                LobbyEffectView::Reply {
                    reply_tx: cmd->Create_reply_tx,
                    link: Some((cmd_tx, new_id)),
                },
            ];
            let listed = WaitingView {
                summary: GameView {
                    id: new_id,
                    host_name: cmd->Create_host_name,
                    topic: cmd->Create_topic,
                    question_count: cmd->Create_question_count,
                    created_at: chance.created_at,
                },
                cmd_tx,
            };
            &&& picked_from(
                lobby.pools[cmd->Create_topic],
                game.questions,
                cmd->Create_question_count as nat,
            )
            &&& game == GameActorView {
                id: new_id,
                topic: cmd->Create_topic,
                questions: game.questions,
                question_index: 0,
                phase: GamePhase::WaitingForPlayer,
                p1: SlotView {
                    id: cmd->Create_host_player_id,
                    name: cmd->Create_host_name,
                    score: 0,
                    out_tx: Some(cmd->Create_host_out_tx),
                    answer: None,
                    is_ready_for_next: false,
                },
                p2: None,
                deadline: None,
                finished: false,
            }
            &&& after == LobbyView {
                subscribers: lobby.subscribers.remove(cmd->Create_conn_id),
                waiting: lobby.waiting.insert(new_id, listed),
                ..lobby
            }
            &&& then_lists(after, first, effects)
        }),
{
    let step = lobby.handle(cmd, new_id, cmd_tx, chance);
    let init = GameInitView {
        id: new_id,
        topic: cmd->Create_topic,
        questions: chance.questions,
        host_player_id: cmd->Create_host_player_id,
        host_name: cmd->Create_host_name,
        host_out_tx: cmd->Create_host_out_tx,
        host_request_id: cmd->Create_request_id,
        created_at: chance.created_at,
    };
    rule_new_game(init);
    law_drawn(
        lobby.pools[cmd->Create_topic],
        chance.questions,
        cmd->Create_question_count as nat,
    );
    lemma_then_lists(step, effects);
    assert(effects[0] == effects.take(step.effects.len() as int)[0]);
    assert(step.effects[0]->greeting =~= into_queue(
        Some(cmd->Create_host_out_tx),
        ServerMessageView {
            request_id: cmd->Create_request_id,
            body: ServerBodyView::GameCreated { game: picture(init.game()) },
        },
    ));
}

/// No other command starts a game.
pub proof fn rule_only_create_starts(lobby: LobbyView, cmd: LobbyCmdView)
    requires
        !(cmd is Create),
    ensures
        !lobby.starts_game(cmd),
{
}

/// To open a game is to run it, to tell the host of its queue and id, and to list it under its id
/// as it is.
pub proof fn rule_open_game(
    lobby: LobbyView,
    init: GameInitView,
    cmd_tx: GameTx,
    reply_tx: ReplyTx,
    effects: Seq<LobbyEffectView>,
)
    requires
        lobby.open_game(init, cmd_tx, reply_tx).done_by(effects),
    ensures
        ({
            let after = lobby.open_game(init, cmd_tx, reply_tx).lobby;
            &&& after == LobbyView {
                waiting: lobby.waiting.insert(
                    init.id,
                    WaitingView { summary: init.summary(), cmd_tx },
                ),
                ..lobby
            }
            &&& then_lists(
                after,
                seq![
                    LobbyEffectView::Start {
                        cmd_tx,
                        game: init.game(),
                        greeting: seq![init.greeting()],
                    },
                    LobbyEffectView::Reply { reply_tx, link: Some((cmd_tx, init.id)) },
                ],
                effects,
            )
        }),
{
    lemma_then_lists(lobby.open_game(init, cmd_tx, reply_tx), effects);
}

/// A waiting game is joined: it is told of the opponent, the opponent is told of its queue and id,
/// it is played from then on, and everybody who watches is sent the list without it.
pub proof fn rule_join_waiting(
    lobby: LobbyView,
    cmd: LobbyCmdView,
    new_id: Seq<char>,
    cmd_tx: GameTx,
    chance: Chance,
    effects: Seq<LobbyEffectView>,
)
    requires
        cmd is Join,
        lobby.waiting.contains_key(cmd->Join_game_id),
        lobby.handle(cmd, new_id, cmd_tx, chance).done_by(effects),
    ensures
        ({
            let after = lobby.handle(cmd, new_id, cmd_tx, chance).lobby;
            let id = cmd->Join_game_id;
            let queue = lobby.waiting[id].cmd_tx;
            let first = seq![
                LobbyEffectView::Forward {
                    to: queue,
                    cmd: GameCmdView::Join {
                        player_id: cmd->Join_player_id,
                        name: cmd->Join_name,
                        out_tx: cmd->Join_out_tx,
                        request_id: cmd->Join_request_id,
                    },
                },
                LobbyEffectView::Reply { reply_tx: cmd->Join_reply_tx, link: Some((queue, id)) },
            ];
            &&& after == LobbyView {
                subscribers: lobby.subscribers.remove(cmd->Join_conn_id),
                waiting: lobby.waiting.remove(id),
                active: lobby.active.insert(id, queue),
                ..lobby
            }
            &&& then_lists(after, first, effects)
        }),
{
    lemma_then_lists(lobby.handle(cmd, new_id, cmd_tx, chance), effects);
}

/// A game that does not wait cannot be joined. The one who asked does not watch any more; nothing
/// else changes.
pub proof fn rule_join_refused_by_lobby(
    lobby: LobbyView,
    cmd: LobbyCmdView,
    new_id: Seq<char>,
    cmd_tx: GameTx,
    chance: Chance,
    effects: Seq<LobbyEffectView>,
)
    requires
        cmd is Join,
        !lobby.waiting.contains_key(cmd->Join_game_id),
        lobby.handle(cmd, new_id, cmd_tx, chance).done_by(effects),
    ensures
        lobby.handle(cmd, new_id, cmd_tx, chance).lobby == (LobbyView {
            subscribers: lobby.subscribers.remove(cmd->Join_conn_id),
            ..lobby
        }),
        effects == refused_with(
            cmd->Join_out_tx,
            cmd->Join_request_id,
            ErrorCode::GameNotFound,
            "Game "@ + cmd->Join_game_id + " not found or already full."@,
            cmd->Join_reply_tx,
        ),
{
    lemma_nothing_more(lobby.handle(cmd, new_id, cmd_tx, chance), effects);
}

/// A game that is finished, or whose host has left, is on no list any more; one that is finished
/// is not being played either. Those who watch are sent the new list exactly if it was on it.
pub proof fn rule_game_gone(
    lobby: LobbyView,
    cmd: LobbyCmdView,
    id: Seq<char>,
    new_id: Seq<char>,
    cmd_tx: GameTx,
    chance: Chance,
    effects: Seq<LobbyEffectView>,
)
    requires
        cmd == (LobbyCmdView::GameFinished { game_id: id }) || cmd == (
        LobbyCmdView::HostLeftWaiting { game_id: id }),
        lobby.handle(cmd, new_id, cmd_tx, chance).done_by(effects),
    ensures
        ({
            let after = lobby.handle(cmd, new_id, cmd_tx, chance).lobby;
            &&& after == LobbyView {
                waiting: lobby.waiting.remove(id),
                active: if cmd is GameFinished {
                    lobby.active.remove(id)
                } else {
                    lobby.active
                },
                ..lobby
            }
            &&& if lobby.waiting.contains_key(id) {
                then_lists(after, seq![], effects)
            } else {
                effects.len() == 0
            }
        }),
{
    let step = lobby.handle(cmd, new_id, cmd_tx, chance);
    if lobby.waiting.contains_key(id) {
        lemma_then_lists(step, effects);
        assert(step.effects =~= seq![]);
    } else {
        lemma_nothing_more(step, effects);
    }
}

/// The questions of a game that the lobby starts are as many as were asked for, all of them from
/// the topic's pool, and where no two questions of the pool have the same id, no question occurs
/// twice.
pub proof fn law_no_question_twice(
    lobby: LobbyView,
    cmd: LobbyCmdView,
    new_id: Seq<char>,
    cmd_tx: GameTx,
    chance: Chance,
    effects: Seq<LobbyEffectView>,
)
    requires
        cmd is Create,
        lobby.starts_game(cmd),
        lobby.possible(cmd, chance),
        lobby.handle(cmd, new_id, cmd_tx, chance).done_by(effects),
        forall|i: int, j: int|
            0 <= i < j < lobby.pools[cmd->Create_topic].len() ==> (
            #[trigger] lobby.pools[cmd->Create_topic][i]).question.id != (
            #[trigger] lobby.pools[cmd->Create_topic][j]).question.id,
    ensures
        effects[0] is Start,
        ({
            let questions = effects[0]->game.questions;
            &&& questions.len() == cmd->Create_question_count
            &&& forall|i: int|
                0 <= i < questions.len() ==> lobby.pools[cmd->Create_topic].contains(
                    #[trigger] questions[i],
                )
            &&& forall|i: int, j: int|
                0 <= i < j < questions.len() ==> (#[trigger] questions[i]).question.id != (
                #[trigger] questions[j]).question.id
        }),
{
    rule_create(lobby, cmd, new_id, cmd_tx, chance, effects);
    let pool = lobby.pools[cmd->Create_topic];
    let questions = effects[0]->game.questions;
    let places = choose|places: Seq<int>|
        #[trigger] crate::questions::taken_at(pool, questions, places);
    assert forall|i: int, j: int| 0 <= i < j < questions.len() implies (
    #[trigger] questions[i]).question.id != (#[trigger] questions[j]).question.id by {
        assert(places[i] != places[j]);
        assert(questions[i] == pool[places[i]] && questions[j] == pool[places[j]]);
    }
    assert forall|i: int| 0 <= i < questions.len() implies pool.contains(
        #[trigger] questions[i],
    ) by {
        assert(questions[i] == pool[places[i]]);
    }
}

} // verus!
