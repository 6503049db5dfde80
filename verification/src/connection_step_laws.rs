//! The rules of a session, event by event: what each message of the client, each reply of the lobby
//! and the end of the connection make of it, and who hears of it.
use vstd::prelude::*;
use crate::connection::{ConnEvent, Outcome, SessionState};
use crate::connection_model::{AwaitedView, SessionActionView, SessionStep, SessionView};
use crate::game_model::GameCmdView;
use crate::lobby_model::{GameTx, LobbyCmdView};
use crate::messages::{
    ClientBody, ClientMessage, ErrorCode, ServerBodyView, ServerMessageView,
};
use crate::text::blank;

verus! {

/// A session as it is, with an error for the client.
pub open spec fn error_for(
    session: SessionView,
    request_id: Option<Seq<char>>,
    code: ErrorCode,
    text: Seq<char>,
) -> SessionStep {
    SessionStep {
        session,
        actions: seq![
            SessionActionView::Send(
                ServerMessageView {
                    request_id,
                    body: ServerBodyView::Error { code, message: text },
                },
            ),
        ],
        awaits: None,
    }
}

/// What a message does.
pub open spec fn said(session: SessionView, message: ClientMessage, new_id: Seq<char>) -> SessionStep {
    session.on_event(ConnEvent::Message(message), new_id)
}

/// An outcome is that of a step exactly if it calls for the same actions, in the same order, and
/// awaits the same reply.
pub proof fn rule_outcome(outcome: Outcome, step: SessionStep)
    ensures
        outcome.is(step) <==> {
            &&& outcome.actions.len() == step.actions.len()
            &&& forall|i: int|
                0 <= i < outcome.actions.len() ==> (#[trigger] outcome.actions[i])@
                    == step.actions[i]
            &&& match outcome.awaits {
                Some(awaited) => step.awaits == Some(awaited@),
                None => step.awaits is None,
            }
        },
{
    if outcome.is(step) {
        assert forall|i: int| 0 <= i < outcome.actions.len() implies (
        #[trigger] outcome.actions[i])@ == step.actions[i] by {
            assert(outcome.actions.deep_view()[i] == step.actions[i]);
        }
    } else if outcome.actions.len() == step.actions.len() && forall|i: int|
        0 <= i < outcome.actions.len() ==> (#[trigger] outcome.actions[i])@ == step.actions[i] {
        assert(outcome.actions.deep_view() =~= step.actions);
    }
}

/// Hello makes a player of a client who speaks this protocol, and the client is told which one.
/// One who speaks another is refused.
pub proof fn rule_hello(session: SessionView, message: ClientMessage, new_id: Seq<char>)
    requires
        session.state == SessionState::Greeting,
        message.body is SessionHello,
    ensures
        ({
            let spoken = message.body->SessionHello_protocol_version;
            &&& session.makes_player(ConnEvent::Message(message)) <==> spoken == 1
            &&& said(session, message, new_id) == if spoken == 1 {
                SessionStep {
                    session: SessionView {
                        state: SessionState::Identifying,
                        player_id: Some(new_id),
                        ..session
                    },
                    actions: seq![
                        SessionActionView::Send(
                            ServerMessageView {
                                request_id: Some(message.request_id@),
                                body: ServerBodyView::SessionReady { player_id: new_id },
                            },
                        ),
                    ],
                    awaits: None,
                }
            } else {
                error_for(
                    session,
                    Some(message.request_id@),
                    ErrorCode::InvalidSessionState,
                    "unsupported protocol version"@,
                )
            }
        }),
{
}

/// A player who gives a name is in the lobby under just that name. A blank one is refused.
pub proof fn rule_identify(session: SessionView, message: ClientMessage, new_id: Seq<char>)
    requires
        session.state == SessionState::Identifying,
        message.body is PlayerIdentify,
    ensures
        ({
            let name = message.body->PlayerIdentify_display_name@;
            said(session, message, new_id) == if blank(name) {
                error_for(
                    session,
                    Some(message.request_id@),
                    ErrorCode::InvalidName,
                    "display name required"@,
                )
            } else {
                SessionStep {
                    session: SessionView {
                        state: SessionState::Idle,
                        display_name: Some(name),
                        ..session
                    },
                    actions: seq![],
                    awaits: None,
                }
            }
        }),
{
}

/// A player in the lobby can watch it, ask for a game of their own, and ask to join one. The lobby
/// hears of it as it was asked, in the player's name and under the id of the request, and the
/// session waits for a game where one was asked for.
pub proof fn rule_in_lobby(session: SessionView, message: ClientMessage, new_id: Seq<char>)
    requires
        session.wf(),
        session.state == SessionState::Idle,
    ensures
        ({
            let step = said(session, message, new_id);
            let request_id = Some(message.request_id@);
            match message.body {
                ClientBody::LobbySubscribe(_) => {
                    &&& step.session == session
                    &&& step.awaits is None
                    &&& step.actions == seq![
                        SessionActionView::Lobby(
                            LobbyCmdView::Subscribe {
                                conn_id: session.conn_id,
                                out_tx: session.out_tx,
                            },
                        ),
                    ]
                },
                ClientBody::GameCreate { topic, question_count } => {
                    &&& step.session == session
                    &&& step.awaits == Some(AwaitedView::Created)
                    &&& step.actions == seq![
                        SessionActionView::Lobby(
                            LobbyCmdView::Create {
                                conn_id: session.conn_id,
                                host_player_id: session.player_id->0,
                                host_name: session.display_name->0,
                                host_out_tx: session.out_tx,
                                topic: topic@,
                                question_count,
                                request_id,
                                reply_tx: session.reply_tx,
                            },
                        ),
                    ]
                },
                ClientBody::GameJoin { game_id } => {
                    &&& step.session == session
                    &&& step.awaits == Some(AwaitedView::Joined { game_id: game_id@ })
                    &&& step.actions == seq![
                        SessionActionView::Lobby(
                            LobbyCmdView::Join {
                                conn_id: session.conn_id,
                                player_id: session.player_id->0,
                                name: session.display_name->0,
                                out_tx: session.out_tx,
                                game_id: game_id@,
                                request_id,
                                reply_tx: session.reply_tx,
                            },
                        ),
                    ]
                },
                _ => step == error_for(
                    session,
                    request_id,
                    ErrorCode::InvalidSessionState,
                    "message not allowed in current session state"@,
                ),
            }
        }),
{
}

/// A player in a game can answer, ask for the next question and go back to the lobby. Their own
/// game hears of it, as it was said and under the id of the request.
pub proof fn rule_in_game(session: SessionView, message: ClientMessage, new_id: Seq<char>)
    requires
        session.wf(),
        session.state == SessionState::InGame,
    ensures
        ({
            let step = said(session, message, new_id);
            let request_id = Some(message.request_id@);
            let to = session.current_game->0;
            let player_id = session.player_id->0;
            match message.body {
                ClientBody::AnswerSubmit { question_id, answer_id, .. } => {
                    &&& step.session == session
                    &&& step.awaits is None
                    &&& step.actions == seq![
                        SessionActionView::Game {
                            to,
                            cmd: GameCmdView::Submit {
                                player_id,
                                question_id: question_id@,
                                answer_id: answer_id@,
                                request_id,
                            },
                        },
                    ]
                },
                ClientBody::QuestionNextReady { question_id, .. } => {
                    &&& step.session == session
                    &&& step.awaits is None
                    &&& step.actions == seq![
                        SessionActionView::Game {
                            to,
                            cmd: GameCmdView::NextReady {
                                player_id,
                                question_id: question_id@,
                                request_id,
                            },
                        },
                    ]
                },
                ClientBody::LobbyReturn { game_id } => {
                    &&& step.session == SessionView {
                        state: SessionState::Idle,
                        current_game: None,
                        current_game_id: None,
                        ..session
                    }
                    &&& step.awaits is None
                    &&& step.actions == seq![
                        SessionActionView::Game { to, cmd: GameCmdView::LobbyReturn },
                        SessionActionView::Lobby(
                            LobbyCmdView::GameFinished { game_id: game_id@ },
                        ),
                    ]
                },
                _ => step == error_for(
                    session,
                    request_id,
                    ErrorCode::InvalidSessionState,
                    "message not allowed in current session state"@,
                ),
            }
        }),
{
}

/// Before a client has said hello and given a name, nothing else is taken.
pub proof fn rule_first_things_first(
    session: SessionView,
    message: ClientMessage,
    new_id: Seq<char>,
)
    requires
        session.state == SessionState::Greeting && !(message.body is SessionHello)
            || session.state == SessionState::Identifying && !(message.body is PlayerIdentify),
    ensures
        said(session, message, new_id) == error_for(
            session,
            Some(message.request_id@),
            ErrorCode::InvalidSessionState,
            "message not allowed in current session state"@,
        ),
{
}

/// A player is made by the first hello only.
pub proof fn rule_one_player(session: SessionView, event: ConnEvent)
    requires
        session.makes_player(event),
    ensures
        session.state == SessionState::Greeting,
        event matches ConnEvent::Message(message) && message.body is SessionHello,
{
}

/// What cannot be read is answered with the reason, and changes nothing.
pub proof fn rule_unreadable(session: SessionView, error: String, new_id: Seq<char>)
    ensures
        session.on_event(ConnEvent::Unreadable { error }, new_id) == error_for(
            session,
            None,
            ErrorCode::InvalidSessionState,
            "invalid message: "@ + error@,
        ),
{
}

/// With the lobby's reply a player is in the game that was started or joined: its queue is the one
/// replied, and its id the one that was asked for or that the new game got. Without a game nothing
/// changes. Nobody hears of it.
pub proof fn rule_reply(
    session: SessionView,
    awaited: AwaitedView,
    link: Option<(GameTx, Seq<char>)>,
)
    ensures
        session.on_reply(awaited, link).actions.len() == 0,
        session.on_reply(awaited, link).awaits is None,
        session.on_reply(awaited, link).session == match link {
            None => session,
            Some((queue, id)) => SessionView {
                state: SessionState::InGame,
                current_game: Some(queue),
                current_game_id: match awaited {
                    AwaitedView::Created => Some(id),
                    AwaitedView::Joined { game_id } => Some(game_id),
                },
                ..session
            },
        },
{
}

/// A reply and the end of a connection do the same as events.
pub proof fn rule_session_events(
    session: SessionView,
    awaited: crate::connection::Awaited,
    link: Option<(GameTx, String)>,
    new_id: Seq<char>,
)
    ensures
        session.on_event(ConnEvent::Reply { awaited, link }, new_id) == session.on_reply(
            awaited@,
            link.deep_view(),
        ),
        session.on_event(ConnEvent::Closed, new_id) == session.on_close(),
{
}

/// When a connection ends, the lobby hears that the client does not watch any more. The game of a
/// player who was in one hears that the player is gone, and the lobby under which id, so that a
/// game that waits is taken off its list.
pub proof fn rule_closed(session: SessionView)
    requires
        session.wf(),
    ensures
        session.on_close().session == session,
        session.on_close().awaits is None,
        ({
            let unsubscribe = SessionActionView::Lobby(
                LobbyCmdView::Unsubscribe { conn_id: session.conn_id },
            );
            session.on_close().actions == if session.state == SessionState::InGame {
                seq![
                    unsubscribe,
                    SessionActionView::Game {
                        to: session.current_game->0,
                        cmd: GameCmdView::Disconnect { player_id: session.player_id->0 },
                    },
                    SessionActionView::Lobby(
                        LobbyCmdView::HostLeftWaiting { game_id: session.current_game_id->0 },
                    ),
                ]
            } else {
                seq![unsubscribe]
            }
        }),
{
    let unsubscribe = SessionActionView::Lobby(
        LobbyCmdView::Unsubscribe { conn_id: session.conn_id },
    );
    if session.state == SessionState::InGame {
        assert(session.on_close().actions =~= seq![
            unsubscribe,
            SessionActionView::Game {
                to: session.current_game->0,
                cmd: GameCmdView::Disconnect { player_id: session.player_id->0 },
            },
            SessionActionView::Lobby(
                LobbyCmdView::HostLeftWaiting { game_id: session.current_game_id->0 },
            ),
        ]);
    } else {
        assert(session.on_close().actions =~= seq![unsubscribe]);
    }
}

} // verus!
