//! What holds of the lobby at all times, and what it promises.
use vstd::prelude::*;
use crate::clock::Reading;
use crate::game_laws::{law_history, play};
use crate::game_model::{GameCmdView, GameEventView, OutTx};
use crate::ids::{game_id, law_game_ids_distinct, ConnId};
use crate::lobby_model::{
    is_roll, is_snapshot, send_games, send_to_all, Audience, Chance, GameTx, LobbyCmdView,
    LobbyEffectView, LobbyView, ReplyTx, WaitingView,
};
use crate::messages::{ErrorCode, GameView, ServerBodyView};
use crate::questions::offers;

verus! {

/// Whether an id is one of the first `last` that were drawn for games.
pub open spec fn issued(id: Seq<char>, last: nat) -> bool {
    exists|k: nat| 1 <= k <= last && id == #[trigger] game_id(k)
}

/// What holds of a lobby that has drawn `last` game ids: it knows no other games, none both
/// waits and is being played, and each waiting game is listed under its own id, with as many
/// questions as its topic can give it, and at least one.
pub open spec fn consistent(lobby: LobbyView, last: nat) -> bool {
    &&& forall|id: Seq<char>| #[trigger]
        lobby.waiting.contains_key(id) ==> {
            &&& issued(id, last)
            &&& !lobby.active.contains_key(id)
            &&& lobby.waiting[id].summary.id == id
            &&& offers(
                lobby.pools,
                lobby.waiting[id].summary.topic,
                lobby.waiting[id].summary.question_count as nat,
            )
        }
    &&& forall|id: Seq<char>| #[trigger] lobby.active.contains_key(id) ==> issued(id, last)
}

/// A lobby in which nothing has happened is consistent.
pub proof fn law_new_lobby_consistent(lobby: LobbyView)
    requires
        lobby.waiting == Map::<Seq<char>, WaitingView>::empty(),
        lobby.active == Map::<Seq<char>, GameTx>::empty(),
    ensures
        consistent(lobby, 0),
{
}

/// Every command keeps the lobby consistent.
pub proof fn law_consistent(
    lobby: LobbyView,
    cmd: LobbyCmdView,
    last: nat,
    cmd_tx: GameTx,
    chance: Chance,
)
    requires
        consistent(lobby, last),
        lobby.possible(cmd, chance),
    ensures
        consistent(
            lobby.handle(cmd, game_id(last + 1), cmd_tx, chance).lobby,
            if lobby.starts_game(cmd) {
                last + 1
            } else {
                last
            },
        ),
{
    let after = lobby.handle(cmd, game_id(last + 1), cmd_tx, chance).lobby;
    assert forall|id: Seq<char>| issued(id, last) implies issued(id, last + 1) by {
        let k = choose|k: nat| 1 <= k <= last && id == #[trigger] game_id(k);
        assert(1 <= k <= last + 1 && id == game_id(k));
    }
    assert(issued(game_id(last + 1), last + 1));
    assert(!issued(game_id(last + 1), last)) by {
        if issued(game_id(last + 1), last) {
            let k = choose|k: nat| 1 <= k <= last && game_id(last + 1) == #[trigger] game_id(k);
            law_game_ids_distinct(last + 1, k);
        }
    }
    assert(!lobby.active.contains_key(game_id(last + 1)));
}

/// A game that the lobby starts has as many questions as were asked for, at least one, and fewer
/// than the score and the wire can count.
pub proof fn law_started_game(
    lobby: LobbyView,
    cmd: LobbyCmdView,
    new_id: Seq<char>,
    cmd_tx: GameTx,
    chance: Chance,
)
    requires
        lobby.starts_game(cmd),
        lobby.possible(cmd, chance),
    ensures
        lobby.handle(cmd, new_id, cmd_tx, chance).effects[0] matches LobbyEffectView::Start {
            cmd_tx: tx,
            game,
            greeting,
        } && {
            &&& tx == cmd_tx
            &&& game.id == new_id
            &&& game.wf()
            &&& game.questions.len() == cmd->Create_question_count
            &&& 1 <= game.questions.len() <= u16::MAX
            &&& game.snapshot().question_count == cmd->Create_question_count
            &&& greeting.len() == 1
            &&& greeting[0].to == cmd->Create_host_out_tx
        },
{
}

/// Whatever happens to a game that the lobby starts, there is always room to count the next point.
pub proof fn law_started_game_has_room(
    lobby: LobbyView,
    cmd: LobbyCmdView,
    new_id: Seq<char>,
    cmd_tx: GameTx,
    chance: Chance,
    events: Seq<(GameEventView, Reading)>,
)
    requires
        lobby.starts_game(cmd),
        lobby.possible(cmd, chance),
    ensures
        lobby.handle(cmd, new_id, cmd_tx, chance).effects[0] matches LobbyEffectView::Start {
            game,
            ..
        } && play(game, events).wf() && play(game, events).has_room(),
{
    law_started_game(lobby, cmd, new_id, cmd_tx, chance);
    law_history(lobby.handle(cmd, new_id, cmd_tx, chance).effects[0]->game, events);
}

/// A game that has been started can be joined under its id. Host and opponent are told of the
/// same queue, and on it the game hears of the opponent.
pub proof fn law_create_then_join(
    lobby: LobbyView,
    create: LobbyCmdView,
    join: LobbyCmdView,
    new_id: Seq<char>,
    cmd_tx: GameTx,
    chance: Chance,
)
    requires
        lobby.starts_game(create),
        join is Join,
        join->Join_game_id == new_id,
    ensures
        ({
            let created = lobby.handle(create, new_id, cmd_tx, chance);
            let joined = created.lobby.handle(join, new_id, cmd_tx, chance);
            &&& created.effects[1] == LobbyEffectView::Reply {
                reply_tx: create->Create_reply_tx,
                link: Some((cmd_tx, new_id)),
            }
            &&& joined.effects == seq![
                LobbyEffectView::Forward {
                    to: cmd_tx,
                    cmd: GameCmdView::Join {
                        player_id: join->Join_player_id,
                        name: join->Join_name,
                        out_tx: join->Join_out_tx,
                        request_id: join->Join_request_id,
                    },
                },
                LobbyEffectView::Reply {
                    reply_tx: join->Join_reply_tx,
                    link: Some((cmd_tx, new_id)),
                },
            ]
            &&& !joined.lobby.waiting.contains_key(new_id)
            &&& joined.lobby.active.contains_key(new_id)
            &&& joined.lobby.active[new_id] == cmd_tx
        }),
{
}

/// Whether an effect shows somebody a list of games.
pub open spec fn shows_games(effect: LobbyEffectView) -> bool {
    effect matches LobbyEffectView::Send(delivery) && delivery.message.body is LobbySnapshot
}

/// The lists of games among the effects, in order.
pub open spec fn lists_shown(effects: Seq<LobbyEffectView>) -> Seq<LobbyEffectView> {
    effects.filter(|effect: LobbyEffectView| shows_games(effect))
}

proof fn lemma_lists_shown(effects: Seq<LobbyEffectView>, all: bool)
    requires
        forall|i: int| 0 <= i < effects.len() ==> shows_games(#[trigger] effects[i]) == all,
    ensures
        lists_shown(effects) == if all {
            effects
        } else {
            seq![]
        },
    decreases effects.len(),
{
    reveal(Seq::filter);
    if effects.len() > 0 {
        assert forall|i: int| 0 <= i < effects.drop_last().len() implies shows_games(
            #[trigger] effects.drop_last()[i],
        ) == all by {
            assert(effects.drop_last()[i] == effects[i]);
        }
        lemma_lists_shown(effects.drop_last(), all);
        assert(shows_games(effects.last()) == all);
        assert(effects.drop_last().push(effects.last()) =~= effects);
    }
}

/// Whenever a game is listed or taken off the list, everybody who then watches the lobby is sent
/// the new list, once, and nobody else is sent one.
pub proof fn law_changes_announced(
    lobby: LobbyView,
    cmd: LobbyCmdView,
    new_id: Seq<char>,
    cmd_tx: GameTx,
    chance: Chance,
    effects: Seq<LobbyEffectView>,
)
    requires
        lobby.handle(cmd, new_id, cmd_tx, chance).done_by(effects),
        lobby.handle(cmd, new_id, cmd_tx, chance).lobby.waiting != lobby.waiting,
    ensures
        ({
            let after = lobby.handle(cmd, new_id, cmd_tx, chance).lobby;
            exists|games: Seq<GameView>, order: Seq<ConnId>|
                {
                    &&& #[trigger] is_snapshot(after.waiting, games)
                    &&& #[trigger] is_roll(after.subscribers, order)
                    &&& lists_shown(effects) == send_to_all(after.subscribers, order, games)
                }
        }),
{
    let step = lobby.handle(cmd, new_id, cmd_tx, chance);
    let after = step.lobby;
    if !(step.audience is Subscribers) {
        assert(after.waiting =~= lobby.waiting);
    }
    let sent = choose|sent: Seq<LobbyEffectView>| #[trigger]
        after.announces(step.audience, sent) && effects == step.effects + sent;
    let (games, order) = choose|games: Seq<GameView>, order: Seq<ConnId>|
        {
            &&& #[trigger] is_snapshot(after.waiting, games)
            &&& #[trigger] is_roll(after.subscribers, order)
            &&& sent == send_to_all(after.subscribers, order, games)
        };
    lemma_lists_shown(step.effects, false);
    lemma_lists_shown(sent, true);
    Seq::filter_distributes_over_add(
        step.effects,
        sent,
        |effect: LobbyEffectView| shows_games(effect),
    );
    assert(lists_shown(effects) =~= sent);
    assert(is_snapshot(after.waiting, games) && is_roll(after.subscribers, order));
}

/// A game whose host has left is not on the list any more. No other game is touched, and those
/// who watch the lobby stay.
pub proof fn law_host_left_unlists(
    lobby: LobbyView,
    game_id: Seq<char>,
    new_id: Seq<char>,
    cmd_tx: GameTx,
    chance: Chance,
)
    ensures
        ({
            let after = lobby.handle(
                LobbyCmdView::HostLeftWaiting { game_id },
                new_id,
                cmd_tx,
                chance,
            ).lobby;
            &&& !after.waiting.contains_key(game_id)
            &&& after.waiting == lobby.waiting.remove(game_id)
            &&& after.active == lobby.active
            &&& after.subscribers == lobby.subscribers
        }),
{
}

/// Whoever starts to watch the lobby is sent the list of games, and nobody else is sent anything.
pub proof fn law_subscriber_sees_games(
    lobby: LobbyView,
    conn_id: ConnId,
    out_tx: OutTx,
    new_id: Seq<char>,
    cmd_tx: GameTx,
    chance: Chance,
    effects: Seq<LobbyEffectView>,
)
    requires
        lobby.handle(
            LobbyCmdView::Subscribe { conn_id, out_tx },
            new_id,
            cmd_tx,
            chance,
        ).done_by(effects),
    ensures
        exists|games: Seq<GameView>| #[trigger]
            is_snapshot(lobby.waiting, games) && effects == seq![send_games(out_tx, games)],
{
    let step = lobby.handle(
        LobbyCmdView::Subscribe { conn_id, out_tx },
        new_id,
        cmd_tx,
        chance,
    );
    let sent = choose|sent: Seq<LobbyEffectView>| #[trigger]
        step.lobby.announces(step.audience, sent) && effects == step.effects + sent;
    assert(effects =~= sent);
}

/// Whether a step turns a request down: the one who asked is told why, under the request's own
/// id, and gets no game, and nobody else hears of it.
pub open spec fn turns_down(
    effects: Seq<LobbyEffectView>,
    audience: Audience,
    to: OutTx,
    request_id: Option<Seq<char>>,
    code: ErrorCode,
    reply_tx: ReplyTx,
) -> bool {
    &&& audience is Nobody
    &&& effects.len() == 2
    &&& effects[0] matches LobbyEffectView::Send(delivery) && {
        &&& delivery.to == to
        &&& delivery.message.request_id == request_id
        &&& delivery.message.body matches ServerBodyView::Error { code: c, .. } && c == code
    }
    &&& effects[1] == LobbyEffectView::Reply { reply_tx, link: None }
}

/// A game can be joined once: whoever comes second is told that it is not to be had.
pub proof fn law_join_once(
    lobby: LobbyView,
    first: LobbyCmdView,
    second: LobbyCmdView,
    new_id: Seq<char>,
    cmd_tx: GameTx,
    chance: Chance,
)
    requires
        first is Join,
        second is Join,
        first->Join_game_id == second->Join_game_id,
    ensures
        ({
            let after = lobby.handle(first, new_id, cmd_tx, chance).lobby;
            let step = after.handle(second, new_id, cmd_tx, chance);
            &&& turns_down(
                step.effects,
                step.audience,
                second->Join_out_tx,
                second->Join_request_id,
                ErrorCode::GameNotFound,
                second->Join_reply_tx,
            )
            &&& step.lobby.waiting == after.waiting
            &&& step.lobby.active == after.active
        }),
{
}

/// A game is refused for an unknown topic and for a number of questions that the topic does not
/// have. Then no game is started and none is listed.
pub proof fn law_create_refused(
    lobby: LobbyView,
    cmd: LobbyCmdView,
    new_id: Seq<char>,
    cmd_tx: GameTx,
    chance: Chance,
)
    requires
        cmd is Create,
        !lobby.starts_game(cmd),
    ensures
        ({
            let step = lobby.handle(cmd, new_id, cmd_tx, chance);
            let code = if lobby.pools.contains_key(cmd->Create_topic) {
                ErrorCode::InvalidQuestionCount
            } else {
                ErrorCode::InvalidTopic
            };
            &&& turns_down(
                step.effects,
                step.audience,
                cmd->Create_host_out_tx,
                cmd->Create_request_id,
                code,
                cmd->Create_reply_tx,
            )
            &&& step.lobby.waiting == lobby.waiting
            &&& step.lobby.active == lobby.active
        }),
{
}

/// Whoever asks for a game stops watching the lobby, whether they get one or not. Nobody else's
/// subscription changes.
pub proof fn law_asking_unsubscribes(
    lobby: LobbyView,
    cmd: LobbyCmdView,
    new_id: Seq<char>,
    cmd_tx: GameTx,
    chance: Chance,
    conn_id: ConnId,
)
    requires
        match cmd {
            LobbyCmdView::Create { conn_id: c, .. } => c == conn_id,
            LobbyCmdView::Join { conn_id: c, .. } => c == conn_id,
            LobbyCmdView::Unsubscribe { conn_id: c } => c == conn_id,
            _ => false,
        },
    ensures
        lobby.handle(cmd, new_id, cmd_tx, chance).lobby.subscribers == lobby.subscribers.remove(
            conn_id,
        ),
{
}

/// The list of games shows exactly those that can be joined.
pub proof fn law_listed_can_be_joined(
    lobby: LobbyView,
    games: Seq<GameView>,
    id: Seq<char>,
)
    requires
        is_snapshot(lobby.waiting, games),
        forall|id: Seq<char>| #[trigger]
            lobby.waiting.contains_key(id) ==> lobby.waiting[id].summary.id == id,
    ensures
        lobby.waiting.contains_key(id) <==> exists|i: int|
            0 <= i < games.len() && (#[trigger] games[i]).id == id,
{
    if lobby.waiting.contains_key(id) {
        assert(games.contains(lobby.waiting[id].summary));
        let i = choose|i: int| 0 <= i < games.len() && games[i] == lobby.waiting[id].summary;
        assert(games[i].id == id);
    }
}

} // verus!
