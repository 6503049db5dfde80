//! What holds of every session, and what it promises to the client.
use vstd::prelude::*;
use crate::connection::{ConnEvent, SessionState};
use crate::connection_model::{AwaitedView, SessionActionView, SessionView};
use crate::game_model::{refusal, GameCmdView};
use crate::ids::{law_player_ids_distinct, player_id};
use crate::lobby_model::{Chance, GameTx, LobbyCmdView, LobbyView};
use crate::messages::{ClientMessage, ErrorCode};

verus! {

/// Whether an event comes when it may: a reply only to a session that has asked for a game and
/// has none.
pub open spec fn timely(session: SessionView, event: ConnEvent) -> bool {
    event is Reply ==> session.state == SessionState::Idle
}

/// Every event keeps a session well-formed: who plays, under which name and in which game, is
/// known as far as the state says.
pub proof fn law_session_wf(session: SessionView, event: ConnEvent, new_id: Seq<char>)
    requires
        session.wf(),
        timely(session, event),
    ensures
        session.on_event(event, new_id).session.wf(),
{
}

/// A reply is awaited only by a player in the lobby, whom the wait leaves as they were, so that
/// the reply is timely.
pub proof fn law_await_in_lobby(session: SessionView, event: ConnEvent, new_id: Seq<char>)
    requires
        session.on_event(event, new_id).awaits is Some,
    ensures
        session.state == SessionState::Idle,
        session.on_event(event, new_id).session == session,
{
}

/// How far a client has come, as a number. From a game one comes back to the lobby.
pub open spec fn progress(state: SessionState) -> nat {
    match state {
        SessionState::Greeting => 0,
        SessionState::Identifying => 1,
        SessionState::Idle => 2,
        SessionState::InGame => 2,
    }
}

/// A client comes forward one step at a time and never falls back behind the lobby.
pub proof fn law_step_by_step(session: SessionView, event: ConnEvent, new_id: Seq<char>)
    requires
        session.wf(),
        timely(session, event),
    ensures
        progress(session.state) <= progress(session.on_event(event, new_id).session.state)
            <= progress(session.state) + 1,
{
}

/// Once a client has a player id and a name, both stay as they are.
pub proof fn law_identity_kept(session: SessionView, event: ConnEvent, new_id: Seq<char>)
    requires
        session.wf(),
        timely(session, event),
    ensures
        ({
            let after = session.on_event(event, new_id).session;
            &&& after.conn_id == session.conn_id
            &&& after.out_tx == session.out_tx
            &&& after.reply_tx == session.reply_tx
            &&& session.player_id is Some ==> after.player_id == session.player_id
            &&& session.display_name is Some ==> after.display_name == session.display_name
        }),
{
}

/// A message that is not allowed in the state that the session is in changes nothing and is
/// answered with an error under the request's own id.
pub proof fn law_not_allowed(session: SessionView, message: ClientMessage, new_id: Seq<char>)
    requires
        !session.allows(message.body),
    ensures
        ({
            let step = session.on_event(ConnEvent::Message(message), new_id);
            &&& step.session == session
            &&& step.actions == seq![
                SessionActionView::Send(
                    refusal(
                        Some(message.request_id@),
                        ErrorCode::InvalidSessionState,
                        "message not allowed in current session state"@,
                    ),
                ),
            ]
            &&& step.awaits is None
        }),
{
}

/// Only a player who is in a game is heard by one, and by no other game than that.
pub proof fn law_own_game_only(
    session: SessionView,
    event: ConnEvent,
    new_id: Seq<char>,
    i: int,
)
    requires
        session.wf(),
        timely(session, event),
        0 <= i < session.on_event(event, new_id).actions.len(),
        session.on_event(event, new_id).actions[i] is Game,
    ensures
        session.state == SessionState::InGame,
        session.current_game == Some(session.on_event(event, new_id).actions[i]->Game_to),
{
}

/// The end of a connection is always told to the lobby, and to the game that the player is in.
pub proof fn law_close_is_told(session: SessionView)
    requires
        session.wf(),
    ensures
        ({
            let actions = session.on_close().actions;
            &&& actions.contains(
                SessionActionView::Lobby(LobbyCmdView::Unsubscribe { conn_id: session.conn_id }),
            )
            &&& session.state == SessionState::InGame ==> actions.contains(
                SessionActionView::Game {
                    to: session.current_game->0,
                    cmd: GameCmdView::Disconnect {
                        player_id: session.player_id->0,
                    },
                },
            )
        }),
{
    let actions = session.on_close().actions;
    assert(actions[0] == SessionActionView::Lobby(
        LobbyCmdView::Unsubscribe { conn_id: session.conn_id },
    ));
    if session.state == SessionState::InGame {
        assert(actions[1] == SessionActionView::Game {
            to: session.current_game->0,
            cmd: GameCmdView::Disconnect { player_id: session.player_id->0 },
        });
    }
}

/// A host whose connection ends asks the lobby to take the game off its list.
pub proof fn law_host_close_unlists(session: SessionView, tx: GameTx, id: Seq<char>)
    requires
        session.wf(),
        session.state == SessionState::Idle,
    ensures
        session.on_reply(AwaitedView::Created, Some((tx, id))).session.on_close().actions.contains(
            SessionActionView::Lobby(LobbyCmdView::HostLeftWaiting { game_id: id }),
        ),
{
    let actions = session.on_reply(AwaitedView::Created, Some((tx, id))).session.on_close().actions;
    assert(actions[2] == SessionActionView::Lobby(LobbyCmdView::HostLeftWaiting { game_id: id }));
}

/// No game is left on the list by its host: a player asks for a game, gets it, and the connection
/// ends. What the lobby is told then takes that game off the list, whatever has become of the
/// lobby in between.
pub proof fn law_left_game_is_unlisted(
    session: SessionView,
    message: ClientMessage,
    lobby: LobbyView,
    later: LobbyView,
    new_id: Seq<char>,
    cmd_tx: GameTx,
    chance: Chance,
)
    requires
        session.wf(),
        session.state == SessionState::Idle,
        message.body is GameCreate,
        session.on_message(message, new_id).actions[0] matches SessionActionView::Lobby(cmd)
            && lobby.starts_game(cmd),
    ensures
        ({
            let asked = session.on_message(message, new_id);
            let created = lobby.handle(asked.actions[0]->Lobby_0, new_id, cmd_tx, chance);
            let host = asked.session.on_reply(
                asked.awaits->0,
                created.effects[1]->Reply_link,
            ).session;
            let farewell = LobbyCmdView::HostLeftWaiting { game_id: new_id };
            &&& created.lobby.waiting.contains_key(new_id)
            &&& host.on_close().actions.contains(SessionActionView::Lobby(farewell))
            &&& !later.handle(farewell, new_id, cmd_tx, chance).lobby.waiting.contains_key(new_id)
        }),
{
    law_host_close_unlists(session, cmd_tx, new_id);
}

/// Two clients who have been greeted after drawing from the same counter are different players.
pub proof fn law_players_differ(
    a: SessionView,
    b: SessionView,
    hello_a: ConnEvent,
    hello_b: ConnEvent,
    m: nat,
    n: nat,
)
    requires
        m != n,
        a.makes_player(hello_a),
        b.makes_player(hello_b),
    ensures
        a.on_event(hello_a, player_id(m)).session.player_id is Some,
        b.on_event(hello_b, player_id(n)).session.player_id is Some,
        a.on_event(hello_a, player_id(m)).session.player_id != b.on_event(
            hello_b,
            player_id(n),
        ).session.player_id,
{
    law_player_ids_distinct(m, n);
}

} // verus!
