//! The rules of the game, event by event: what each event makes of the game's places, phase and
//! timer, and what every player is told, field by field.
use vstd::prelude::*;
use crate::clock::{Reading, Timestamp};
use crate::game_laws::{law_identity_kept, law_puts_question, law_turn_keeps_wf};
use crate::game_model::{
    DeliveryView, GameActorView, GameCmdView, GameEventView, GameInitView, OutTx, SlotView,
};
use crate::messages::{
    AnswerView, ErrorCode, GamePhase, GameStateView, GameView, PlayerView, RevealReason,
    ServerBodyView, ServerMessageView,
};

verus! {

/// A message into a queue, if there is one.
pub open spec fn into_queue(queue: Option<OutTx>, message: ServerMessageView) -> Seq<DeliveryView> {
    match queue {
        Some(to) => seq![DeliveryView { to, message }],
        None => seq![],
    }
}

/// News for every player who is there, the host first.
pub open spec fn everyone(game: GameActorView, body: ServerBodyView) -> Seq<DeliveryView> {
    let message = ServerMessageView { request_id: None, body };
    into_queue(game.p1.out_tx, message) + match game.p2 {
        Some(p2) => into_queue(p2.out_tx, message),
        None => seq![],
    }
}

/// Whether the player is the host, or the opponent.
pub open spec fn is_host(game: GameActorView, player_id: Seq<char>) -> bool {
    player_id == game.p1.id
}

pub open spec fn is_guest(game: GameActorView, player_id: Seq<char>) -> bool {
    player_id != game.p1.id && game.p2 is Some && player_id == game.p2->0.id
}

/// An answer to the request of one player. One who is not in the game gets none.
pub open spec fn answer_to(
    game: GameActorView,
    player_id: Seq<char>,
    request_id: Option<Seq<char>>,
    body: ServerBodyView,
) -> Seq<DeliveryView> {
    let message = ServerMessageView { request_id, body };
    if is_host(game, player_id) {
        into_queue(game.p1.out_tx, message)
    } else if is_guest(game, player_id) {
        into_queue(game.p2->0.out_tx, message)
    } else {
        seq![]
    }
}

/// A player in a list of players.
pub open spec fn entry(slot: SlotView, right: Option<bool>) -> PlayerView {
    PlayerView {
        id: slot.id,
        name: slot.name,
        score: Some(slot.score),
        is_ready_for_next: Some(slot.is_ready_for_next),
        did_answer_correctly: right,
    }
}

/// The list of players, while no answer is shown.
pub open spec fn entries(game: GameActorView) -> Seq<PlayerView> {
    match game.p2 {
        Some(p2) => seq![entry(game.p1, None), entry(p2, None)],
        None => seq![entry(game.p1, None)],
    }
}

/// The game as its players see it.
pub open spec fn picture(game: GameActorView) -> GameStateView {
    GameStateView {
        id: game.id,
        topic: game.topic,
        question_count: game.questions.len() as u16,
        question_index: game.question_index as u16,
        phase: game.phase,
        players: entries(game),
    }
}

/// When the timer of a question that starts now runs out: 15 seconds later.
pub open spec fn timer_from(now: Reading) -> Option<nat> {
    Some((now.elapsed + 15_000_000_000) as nat)
}

/// What tells the players the question that the game is at: all of the question, and an end 15
/// seconds from now.
pub open spec fn question_started(game: GameActorView, now: Reading) -> ServerBodyView {
    ServerBodyView::QuestionStarted {
        game_id: game.id,
        question_index: game.question_index as u16,
        question_count: game.questions.len() as u16,
        question_ends_at: Timestamp { secs: (now.utc.secs + 15) as i64, nanos: now.utc.nanos },
        question: game.questions[game.question_index as int].question,
        players: entries(game),
    }
}

/// Whether a player's answer to the question that the game is at is right.
pub open spec fn is_right(game: GameActorView, slot: SlotView) -> bool {
    slot.answer == Some(game.questions[game.question_index as int].correct_answer_id)
}

/// A player's place once the question is over: one point more for the right answer, and no need
/// to wait for one who is gone.
pub open spec fn after_question(game: GameActorView, slot: SlotView) -> SlotView {
    SlotView {
        score: if is_right(game, slot) {
            (slot.score + 1) as u16
        } else {
            slot.score
        },
        is_ready_for_next: slot.out_tx is None,
        ..slot
    }
}

/// The game once the question is over and somebody is there to see the answer.
pub open spec fn answer_revealed(game: GameActorView) -> GameActorView {
    GameActorView {
        phase: GamePhase::AnswerReveal,
        deadline: None,
        p1: after_question(game, game.p1),
        p2: Some(after_question(game, game.p2->0)),
        ..game
    }
}

/// What tells the players the answer to the question that `game` was at: which one is right, and
/// who knew it.
pub open spec fn question_revealed(game: GameActorView, reason: RevealReason) -> ServerBodyView {
    let q = game.questions[game.question_index as int];
    ServerBodyView::QuestionRevealed {
        game_id: game.id,
        question_id: q.question.id,
        correct_answer_id: q.correct_answer_id,
        players: seq![
            entry(after_question(game, game.p1), Some(is_right(game, game.p1))),
            entry(after_question(game, game.p2->0), Some(is_right(game, game.p2->0))),
        ],
        reason,
    }
}

/// What tells the players how the game ended: who has more points has won.
pub open spec fn results(game: GameActorView) -> ServerBodyView {
    let host = game.p1.score as int;
    let guest = game.p2->0.score as int;
    ServerBodyView::GameResults {
        game_id: game.id,
        players: entries(game),
        winner_player_id: if host == guest {
            None
        } else if host > guest {
            Some(game.p1.id)
        } else {
            Some(game.p2->0.id)
        },
        winner_label: if host == guest {
            "Draw game"@
        } else if host > guest {
            game.p1.name + " wins"@
        } else {
            game.p2->0.name + " wins"@
        },
    }
}

/// The game at its next question, or past its last.
pub open spec fn moved_on(game: GameActorView, now: Reading) -> GameActorView {
    if game.question_index + 1 < game.questions.len() {
        GameActorView {
            question_index: game.question_index + 1,
            phase: GamePhase::QuestionActive,
            deadline: timer_from(now),
            p1: SlotView { answer: None, is_ready_for_next: false, ..game.p1 },
            p2: Some(SlotView { answer: None, is_ready_for_next: false, ..game.p2->0 }),
            ..game
        }
    } else {
        GameActorView {
            question_index: game.question_index + 1,
            phase: GamePhase::Results,
            ..game
        }
    }
}

/// What tells the players that the game has moved on.
pub open spec fn next_news(after: GameActorView, now: Reading) -> ServerBodyView {
    if after.question_index < after.questions.len() {
        question_started(after, now)
    } else {
        results(after)
    }
}

/// Whether the question waits for the answer of somebody who is there.
pub open spec fn answer_due(game: GameActorView) -> bool {
    ||| game.p1.out_tx is Some && game.p1.answer is None
    ||| game.p2 is Some && game.p2->0.out_tx is Some && game.p2->0.answer is None
}

/// Whether the game waits for somebody who is there to be ready for the next question.
pub open spec fn reader_left(game: GameActorView) -> bool {
    ||| game.p1.out_tx is Some && !game.p1.is_ready_for_next
    ||| game.p2 is Some && game.p2->0.out_tx is Some && !game.p2->0.is_ready_for_next
}

/// Whether a player is there.
pub open spec fn anybody(game: GameActorView) -> bool {
    game.p1.out_tx is Some || (game.p2 is Some && game.p2->0.out_tx is Some)
}

/// Whether the players are looking at an answer.
pub open spec fn at_answer(game: GameActorView) -> bool {
    game.phase == GamePhase::AnswerReveal || game.phase == GamePhase::WaitingForNext
}

/// A question is active and is named by its id.
pub open spec fn at_question(game: GameActorView, question_id: Seq<char>) -> bool {
    &&& game.question_index < game.questions.len()
    &&& game.questions[game.question_index as int].question.id == question_id
}

proof fn lemma_everyone(game: GameActorView, body: ServerBodyView)
    ensures
        game.broadcast(ServerMessageView { request_id: None, body }) == everyone(game, body),
{
    assert(game.broadcast(ServerMessageView { request_id: None, body }) =~= everyone(game, body));
}

proof fn lemma_answer_to(
    game: GameActorView,
    player_id: Seq<char>,
    request_id: Option<Seq<char>>,
    body: ServerBodyView,
)
    ensures
        game.send_to(player_id, ServerMessageView { request_id, body }) == answer_to(
            game,
            player_id,
            request_id,
            body,
        ),
{
}

proof fn lemma_moved_on(game: GameActorView, now: Reading)
    requires
        game.p2 is Some,
        game.question_index < game.questions.len(),
        anybody(game),
    ensures
        game.advance(now).game == moved_on(game, now),
        game.advance(now).sent == everyone(
            moved_on(game, now),
            next_news(moved_on(game, now), now),
        ),
{
    reveal(GameActorView::advance);
    reveal(GameActorView::start_question);
    reveal(GameActorView::emit_results);
    let after = moved_on(game, now);
    lemma_everyone(after, next_news(after, now));
    assert(after.players(None) =~= entries(after));
}

proof fn lemma_answer_revealed(game: GameActorView, reason: RevealReason, now: Reading)
    requires
        game.p2 is Some,
        game.phase == GamePhase::QuestionActive,
        game.question_index < game.questions.len(),
        !game.p1.is_ready_for_next,
        !game.p2->0.is_ready_for_next,
        anybody(game),
    ensures
        game.reveal_answer(reason, now).game == answer_revealed(game),
        game.reveal_answer(reason, now).sent == everyone(game, question_revealed(game, reason)),
{
    reveal(GameActorView::reveal_answer);
    let after = answer_revealed(game);
    let correct = game.questions[game.question_index as int].correct_answer_id;
    assert(after.players(Some(correct)) =~= question_revealed(game, reason)->QuestionRevealed_players);
    lemma_everyone(after, question_revealed(game, reason));
    assert(game.reveal_answer(reason, now).sent =~= everyone(
        game,
        question_revealed(game, reason),
    ));
}

/// A new game: the host waits in it for an opponent, without points, and is told so under the
/// id of the request. The lobby lists it as it is.
pub proof fn rule_new_game(init: GameInitView)
    ensures
        init.game() == (GameActorView {
            id: init.id,
            topic: init.topic,
            questions: init.questions,
            question_index: 0,
            phase: GamePhase::WaitingForPlayer,
            p1: SlotView {
                id: init.host_player_id,
                name: init.host_name,
                score: 0,
                out_tx: Some(init.host_out_tx),
                answer: None,
                is_ready_for_next: false,
            },
            p2: None,
            deadline: None,
            finished: false,
        }),
        init.summary() == (GameView {
            id: init.id,
            host_name: init.host_name,
            topic: init.topic,
            question_count: init.questions.len() as u16,
            created_at: init.created_at,
        }),
        init.greeting().to == init.host_out_tx,
        init.greeting().message.request_id == init.host_request_id,
        init.greeting().message.body == (ServerBodyView::GameCreated {
            game: picture(init.game()),
        }),
{
    assert(init.game().players(None) =~= entries(init.game()));
}

/// What a player sees of a game at any time.
pub proof fn rule_picture(game: GameActorView)
    ensures
        game.snapshot() == picture(game),
{
    assert(game.players(None) =~= entries(game));
}

/// A game takes no more events once it has been given up or nobody is there.
pub proof fn rule_over(game: GameActorView)
    ensures
        game.is_over() <==> game.finished || !anybody(game),
{
}

/// A player's place when they come in, and how it is shown.
pub proof fn rule_place(slot: SlotView, id: Seq<char>, name: Seq<char>, out_tx: OutTx, r: Option<bool>)
    ensures
        SlotView::new(id, name, out_tx) == (SlotView {
            id,
            name,
            score: 0,
            out_tx: Some(out_tx),
            answer: None,
            is_ready_for_next: false,
        }),
        slot.is_connected() <==> slot.out_tx is Some,
        slot.to_player(r) == entry(slot, r),
{
}

/// A command, and the end of a question's time, do the same whether they are handled on their own
/// or as an event.
pub proof fn rule_events(game: GameActorView, cmd: GameCmdView, now: Reading)
    ensures
        game.handle_cmd(cmd, now) == game.turn(GameEventView::Cmd(cmd), now),
        game.reveal_answer(RevealReason::TimeExpired, now) == game.turn(
            GameEventView::TimeExpired,
            now,
        ),
{
}

/// An opponent comes into a waiting game: the opponent is told what the game is, both are told
/// who has come, and both are put the first question.
pub proof fn rule_join(
    game: GameActorView,
    player_id: Seq<char>,
    name: Seq<char>,
    out_tx: OutTx,
    request_id: Option<Seq<char>>,
    now: Reading,
)
    requires
        game.wf(),
        game.phase == GamePhase::WaitingForPlayer,
    ensures
        ({
            let step = game.turn(
                GameEventView::Cmd(GameCmdView::Join { player_id, name, out_tx, request_id }),
                now,
            );
            let after = step.game;
            let guest = PlayerView {
                id: player_id,
                name,
                score: None,
                is_ready_for_next: None,
                did_answer_correctly: None,
            };
            &&& after == GameActorView {
                phase: GamePhase::QuestionActive,
                p2: Some(
                    SlotView {
                        id: player_id,
                        name,
                        score: 0,
                        out_tx: Some(out_tx),
                        answer: None,
                        is_ready_for_next: false,
                    },
                ),
                deadline: if game.questions.len() > 0 {
                    timer_from(now)
                } else {
                    None
                },
                ..game
            }
            &&& step.sent == answer_to(
                after,
                player_id,
                request_id,
                ServerBodyView::GameJoined { game: picture(after) },
            ) + everyone(after, ServerBodyView::PlayerJoined { game_id: game.id, player: guest })
                + if game.questions.len() > 0 {
                everyone(after, question_started(after, now))
            } else {
                seq![]
            }
        }),
{
    reveal(GameActorView::start_question);
    let step = game.turn(
        GameEventView::Cmd(GameCmdView::Join { player_id, name, out_tx, request_id }),
        now,
    );
    let after = step.game;
    let joined = GameActorView { deadline: None, ..after };
    let player = PlayerView {
        id: player_id,
        name,
        score: None,
        is_ready_for_next: None,
        did_answer_correctly: None,
    };
    assert(joined.players(None) =~= entries(after));
    assert(after.players(None) =~= entries(after));
    lemma_answer_to(
        joined,
        player_id,
        request_id,
        ServerBodyView::GameJoined { game: picture(after) },
    );
    lemma_everyone(joined, ServerBodyView::PlayerJoined { game_id: game.id, player });
    lemma_everyone(after, question_started(after, now));
    let rest = if game.questions.len() > 0 {
        everyone(after, question_started(after, now))
    } else {
        seq![]
    };
    assert(step.sent =~= answer_to(
        after,
        player_id,
        request_id,
        ServerBodyView::GameJoined { game: picture(after) },
    ) + everyone(after, ServerBodyView::PlayerJoined { game_id: game.id, player }) + rest);
}

/// A game that does not wait takes nobody in. The one who asked is told so, and nothing else
/// happens.
pub proof fn rule_join_refused(
    game: GameActorView,
    player_id: Seq<char>,
    name: Seq<char>,
    out_tx: OutTx,
    request_id: Option<Seq<char>>,
    now: Reading,
)
    requires
        game.wf(),
        game.phase != GamePhase::WaitingForPlayer,
    ensures
        ({
            let step = game.turn(
                GameEventView::Cmd(GameCmdView::Join { player_id, name, out_tx, request_id }),
                now,
            );
            &&& step.game == game
            &&& step.sent == into_queue(
                Some(out_tx),
                ServerMessageView {
                    request_id,
                    body: ServerBodyView::Error {
                        code: ErrorCode::GameFull,
                        message: "That game already has two players."@,
                    },
                },
            )
        }),
{
}

/// The error that an answer meets with: no question is active; there is none; it is another one;
/// the player is not in the game; or the player has answered before.
pub open spec fn submit_refusal(
    game: GameActorView,
    player_id: Seq<char>,
    question_id: Seq<char>,
) -> Option<(ErrorCode, Seq<char>)> {
    if game.phase != GamePhase::QuestionActive {
        Some((ErrorCode::QuestionTimeout, "Question is no longer accepting answers."@))
    } else if game.question_index >= game.questions.len() {
        Some((ErrorCode::InvalidGamePhase, "No active question."@))
    } else if !at_question(game, question_id) {
        Some((ErrorCode::InvalidGamePhase, "Stale questionId."@))
    } else if !is_host(game, player_id) && !is_guest(game, player_id) {
        Some((ErrorCode::NotAGameMember, "Not a member of this game."@))
    } else if is_host(game, player_id) && game.p1.answer is Some {
        Some((ErrorCode::AnswerAlreadyLocked, "Answer already locked."@))
    } else if is_guest(game, player_id) && game.p2->0.answer is Some {
        Some((ErrorCode::AnswerAlreadyLocked, "Answer already locked."@))
    } else {
        None
    }
}

/// An answer that is late, stale, repeated or not a player's is refused, with the reason, and
/// changes nothing.
pub proof fn rule_submit_refused(
    game: GameActorView,
    player_id: Seq<char>,
    question_id: Seq<char>,
    answer_id: Seq<char>,
    request_id: Option<Seq<char>>,
    now: Reading,
)
    requires
        submit_refusal(game, player_id, question_id) is Some,
    ensures
        ({
            let step = game.turn(
                GameEventView::Cmd(
                    GameCmdView::Submit { player_id, question_id, answer_id, request_id },
                ),
                now,
            );
            let (code, message) = submit_refusal(game, player_id, question_id)->0;
            &&& step.game == game
            &&& step.sent == answer_to(
                game,
                player_id,
                request_id,
                ServerBodyView::Error { code, message },
            )
        }),
{
}

/// The game with a player's answer put down.
pub open spec fn with_answer(
    game: GameActorView,
    player_id: Seq<char>,
    answer_id: Seq<char>,
) -> GameActorView {
    if is_host(game, player_id) {
        GameActorView { p1: SlotView { answer: Some(answer_id), ..game.p1 }, ..game }
    } else {
        GameActorView { p2: Some(SlotView { answer: Some(answer_id), ..game.p2->0 }), ..game }
    }
}

/// A player's first answer to the active question is taken, whatever the other has done: it is
/// put down, the player is told so, and both are told that it is locked. If nobody who is there
/// has yet to answer, the question is over and the answer is shown.
pub proof fn rule_submit(
    game: GameActorView,
    player_id: Seq<char>,
    question_id: Seq<char>,
    answer_id: Seq<char>,
    request_id: Option<Seq<char>>,
    now: Reading,
)
    requires
        game.wf(),
        game.phase == GamePhase::QuestionActive,
        at_question(game, question_id),
        is_host(game, player_id) && game.p1.answer is None || is_guest(game, player_id)
            && game.p2->0.answer is None,
    ensures
        ({
            let step = game.turn(
                GameEventView::Cmd(
                    GameCmdView::Submit { player_id, question_id, answer_id, request_id },
                ),
                now,
            );
            let answered = with_answer(game, player_id, answer_id);
            let accepted = ServerBodyView::AnswerAccepted(
                AnswerView { game_id: game.id, question_id, player_id, locked: Some(true) },
            );
            let locked = ServerBodyView::AnswerLocked(
                AnswerView { game_id: game.id, question_id, player_id, locked: None },
            );
            let told = answer_to(game, player_id, request_id, accepted) + everyone(game, locked);
            if answer_due(answered) {
                step.game == answered && step.sent == told
            } else {
                &&& step.game == answer_revealed(answered)
                &&& step.sent == told + everyone(
                    game,
                    question_revealed(answered, RevealReason::BothAnswered),
                )
            }
        }),
{
    let step = game.turn(
        GameEventView::Cmd(
            GameCmdView::Submit { player_id, question_id, answer_id, request_id },
        ),
        now,
    );
    let answered = with_answer(game, player_id, answer_id);
    let accepted = ServerBodyView::AnswerAccepted(
        AnswerView { game_id: game.id, question_id, player_id, locked: Some(true) },
    );
    let locked = ServerBodyView::AnswerLocked(
        AnswerView { game_id: game.id, question_id, player_id, locked: None },
    );
    assert(game.submit_error(player_id, question_id) is None);
    assert(game.lock_answer(player_id, answer_id) == answered);
    lemma_answer_to(answered, player_id, request_id, accepted);
    lemma_everyone(answered, locked);
    if !answer_due(answered) {
        lemma_answer_revealed(answered, RevealReason::BothAnswered, now);
    }
}

/// When the time for a question is up, the question is over and the answer is shown, whoever has
/// answered.
pub proof fn rule_time_up(game: GameActorView, now: Reading)
    requires
        game.wf(),
        game.phase == GamePhase::QuestionActive,
        game.question_index < game.questions.len(),
    ensures
        ({
            let step = game.turn(GameEventView::TimeExpired, now);
            &&& step.game == answer_revealed(game)
            &&& step.sent == everyone(game, question_revealed(game, RevealReason::TimeExpired))
        }),
{
    lemma_answer_revealed(game, RevealReason::TimeExpired, now);
}

/// Where no question is active, nothing can run out. Once nothing can be asked of a game any
/// more, nothing happens to it. A game that is given up is not otherwise changed.
pub proof fn rule_quiet_events(game: GameActorView, now: Reading)
    requires
        game.wf(),
    ensures
        game.phase != GamePhase::QuestionActive || game.questions.len() == 0 ==> game.turn(
            GameEventView::TimeExpired,
            now,
        ) == (crate::game_model::Step { game, sent: seq![] }),
        game.turn(GameEventView::Closed, now) == (crate::game_model::Step { game, sent: seq![] }),
        game.turn(GameEventView::Cmd(GameCmdView::LobbyReturn), now) == (
        crate::game_model::Step {
            game: GameActorView { finished: true, ..game },
            sent: seq![],
        }),
{
    reveal(GameActorView::reveal_answer);
}

/// The game with a player who is in it marked as ready.
pub open spec fn with_reader_ready(game: GameActorView, player_id: Seq<char>) -> GameActorView {
    if is_host(game, player_id) {
        GameActorView { p1: SlotView { is_ready_for_next: true, ..game.p1 }, ..game }
    } else if is_guest(game, player_id) {
        GameActorView { p2: Some(SlotView { is_ready_for_next: true, ..game.p2->0 }), ..game }
    } else {
        game
    }
}

/// A player is ready for the next question. If another is not, both are told who is waited for;
/// otherwise the next question starts, and after the last one come the results.
pub proof fn rule_next_ready(
    game: GameActorView,
    player_id: Seq<char>,
    question_id: Seq<char>,
    request_id: Option<Seq<char>>,
    now: Reading,
)
    requires
        game.wf(),
        at_answer(game),
        at_question(game, question_id),
    ensures
        ({
            let step = game.turn(
                GameEventView::Cmd(GameCmdView::NextReady { player_id, question_id, request_id }),
                now,
            );
            let marked = with_reader_ready(game, player_id);
            if reader_left(marked) {
                &&& step.game == GameActorView { phase: GamePhase::WaitingForNext, ..marked }
                &&& step.sent == everyone(
                    game,
                    ServerBodyView::NextWaiting {
                        game_id: game.id,
                        question_id,
                        players: entries(marked),
                    },
                )
            } else {
                &&& step.game == moved_on(marked, now)
                &&& step.sent == everyone(game, next_news(step.game, now))
            }
        }),
{
    let marked = with_reader_ready(game, player_id);
    let waiting = GameActorView { phase: GamePhase::WaitingForNext, ..marked };
    assert(game.with_slot_of(
        player_id,
        |slot: SlotView| SlotView { is_ready_for_next: true, ..slot },
    ) == marked);
    if reader_left(marked) {
        assert(waiting.players(None) =~= entries(marked));
        lemma_everyone(
            waiting,
            ServerBodyView::NextWaiting {
                game_id: game.id,
                question_id,
                players: entries(marked),
            },
        );
    } else {
        lemma_moved_on(marked, now);
    }
}

/// One who asks for the next question while no answer is shown, or after another one, is refused
/// with the reason, and nothing changes.
pub proof fn rule_next_ready_refused(
    game: GameActorView,
    player_id: Seq<char>,
    question_id: Seq<char>,
    request_id: Option<Seq<char>>,
    now: Reading,
)
    requires
        game.wf(),
        !at_answer(game) || !at_question(game, question_id),
    ensures
        ({
            let step = game.turn(
                GameEventView::Cmd(GameCmdView::NextReady { player_id, question_id, request_id }),
                now,
            );
            &&& step.game == game
            &&& step.sent == answer_to(
                game,
                player_id,
                request_id,
                ServerBodyView::Error {
                    code: ErrorCode::InvalidGamePhase,
                    message: if at_answer(game) {
                        "Stale questionId."@
                    } else {
                        "Not in reveal phase."@
                    },
                },
            )
        }),
{
}

/// The game with a player who was in it gone.
pub open spec fn without(game: GameActorView, player_id: Seq<char>) -> GameActorView {
    if is_host(game, player_id) {
        GameActorView { p1: SlotView { out_tx: None, ..game.p1 }, ..game }
    } else if is_guest(game, player_id) {
        GameActorView { p2: Some(SlotView { out_tx: None, ..game.p2->0 }), ..game }
    } else {
        game
    }
}

/// Nobody is told that a player has gone from a waiting game, which is then given up, nor after
/// the results.
pub proof fn rule_disconnect_aside(game: GameActorView, player_id: Seq<char>, now: Reading)
    requires
        game.wf(),
        game.phase == GamePhase::WaitingForPlayer || game.phase == GamePhase::Results,
    ensures
        ({
            let step = game.turn(
                GameEventView::Cmd(GameCmdView::Disconnect { player_id }),
                now,
            );
            &&& step.sent.len() == 0
            &&& step.game == GameActorView {
                finished: game.finished || game.phase == GamePhase::WaitingForPlayer,
                ..without(game, player_id)
            }
        }),
{
}

/// A player goes while a question is active. The question goes on as long as somebody who is
/// there has yet to answer. Otherwise it is over, and whoever is there is shown the answer.
pub proof fn rule_disconnect_active(game: GameActorView, player_id: Seq<char>, now: Reading)
    requires
        game.wf(),
        game.phase == GamePhase::QuestionActive,
        game.questions.len() == 0 || anybody(without(game, player_id)),
    ensures
        ({
            let step = game.turn(
                GameEventView::Cmd(GameCmdView::Disconnect { player_id }),
                now,
            );
            let left = without(game, player_id);
            if game.questions.len() == 0 || answer_due(left) {
                step.game == left && step.sent.len() == 0
            } else {
                &&& step.game == answer_revealed(left)
                &&& step.sent == everyone(
                    left,
                    question_revealed(left, RevealReason::BothAnswered),
                )
            }
        }),
{
    let left = without(game, player_id);
    assert(game.with_slot_of(player_id, |slot: SlotView| SlotView { out_tx: None, ..slot })
        == left);
    if game.questions.len() == 0 {
        reveal(GameActorView::reveal_answer);
    } else if !answer_due(left) {
        lemma_answer_revealed(left, RevealReason::BothAnswered, now);
    }
}

/// A player goes while an answer is shown. Whoever is there is not kept waiting for the one who
/// is gone.
pub proof fn rule_disconnect_at_answer(game: GameActorView, player_id: Seq<char>, now: Reading)
    requires
        game.wf(),
        at_answer(game),
        anybody(without(game, player_id)),
    ensures
        ({
            let step = game.turn(
                GameEventView::Cmd(GameCmdView::Disconnect { player_id }),
                now,
            );
            let left = without(game, player_id);
            let excused = GameActorView {
                p1: SlotView {
                    is_ready_for_next: left.p1.is_ready_for_next || left.p1.out_tx is None,
                    ..left.p1
                },
                p2: Some(
                    SlotView {
                        is_ready_for_next: left.p2->0.is_ready_for_next || left.p2->0.out_tx
                            is None,
                        ..left.p2->0
                    },
                ),
                ..left
            };
            if reader_left(left) {
                step.game == excused && step.sent.len() == 0
            } else {
                &&& step.game == moved_on(excused, now)
                &&& step.sent == everyone(left, next_news(step.game, now))
            }
        }),
{
    let left = without(game, player_id);
    assert(game.with_slot_of(player_id, |slot: SlotView| SlotView { out_tx: None, ..slot })
        == left);
    let excused = left.with_slots(|slot: SlotView| slot.excused());
    if !reader_left(left) {
        lemma_moved_on(excused, now);
    }
}

/// The last player goes. Nobody is told anything. The question that was active is counted, and
/// the game is past its last question.
pub proof fn rule_last_one_goes(game: GameActorView, player_id: Seq<char>, now: Reading)
    requires
        game.wf(),
        game.questions.len() > 0,
        game.phase == GamePhase::QuestionActive || at_answer(game),
        !anybody(without(game, player_id)),
    ensures
        ({
            let step = game.turn(
                GameEventView::Cmd(GameCmdView::Disconnect { player_id }),
                now,
            );
            let active = game.phase == GamePhase::QuestionActive;
            let more = game.question_index + 1 < game.questions.len();
            let score_of = |slot: SlotView|
                if active && is_right(game, slot) {
                    (slot.score + 1) as u16
                } else {
                    slot.score
                };
            let answer_of = |slot: SlotView|
                if more {
                    None
                } else {
                    slot.answer
                };
            &&& step.sent.len() == 0
            &&& step.game == GameActorView {
                phase: GamePhase::Results,
                question_index: game.questions.len(),
                deadline: None,
                p1: SlotView {
                    out_tx: None,
                    is_ready_for_next: true,
                    score: score_of(game.p1),
                    answer: answer_of(game.p1),
                    ..game.p1
                },
                p2: Some(
                    SlotView {
                        out_tx: None,
                        is_ready_for_next: true,
                        score: score_of(game.p2->0),
                        answer: answer_of(game.p2->0),
                        ..game.p2->0
                    },
                ),
                ..game
            }
        }),
{
    reveal(GameActorView::advance);
    reveal(GameActorView::start_question);
    reveal(GameActorView::emit_results);
    reveal(GameActorView::reveal_answer);
}

/// The game as an event finds it: with the answer that it brings, if that is taken, and without the
/// player who has gone, if it tells of one.
pub open spec fn found_by(game: GameActorView, event: GameEventView) -> GameActorView {
    match event {
        GameEventView::Cmd(GameCmdView::Submit { player_id, question_id, answer_id, .. }) => {
            if submit_refusal(game, player_id, question_id) is None {
                with_answer(game, player_id, answer_id)
            } else {
                game
            }
        },
        GameEventView::Cmd(GameCmdView::Disconnect { player_id }) => without(game, player_id),
        _ => game,
    }
}

/// Whether the active question of a game is over after an event.
pub open spec fn is_past(game: GameActorView, after: GameActorView) -> bool {
    &&& game.phase == GamePhase::QuestionActive
    &&& after.phase != GamePhase::QuestionActive || after.question_index != game.question_index
}

/// Whether a question has been put to the players by an event: a timer runs that did not.
pub open spec fn has_put_question(game: GameActorView, after: GameActorView) -> bool {
    &&& after.deadline is Some
    &&& game.phase == GamePhase::QuestionActive ==> after.question_index != game.question_index
}

/// What a message may say, and when. `game` is the game before the event and `after` after it.
pub open spec fn rightly_said(
    game: GameActorView,
    event: GameEventView,
    now: Reading,
    after: GameActorView,
    message: ServerMessageView,
) -> bool {
    match message.body {
        ServerBodyView::SessionReady { .. } => false,
        ServerBodyView::LobbySnapshot { .. } => false,
        ServerBodyView::GameCreated { .. } => false,
        ServerBodyView::GameJoined { game: shown } => {
            &&& game.phase == GamePhase::WaitingForPlayer
            &&& event matches GameEventView::Cmd(GameCmdView::Join { request_id, .. })
                && message.request_id == request_id
            &&& shown == picture(after)
        },
        ServerBodyView::PlayerJoined { game_id, player } => {
            &&& game.phase == GamePhase::WaitingForPlayer
            &&& message.request_id is None
            &&& game_id == game.id
            &&& event matches GameEventView::Cmd(GameCmdView::Join { player_id, name, .. })
                && player.id == player_id && player.name == name
            &&& player.score is None
        },
        ServerBodyView::QuestionStarted { .. } => {
            &&& has_put_question(game, after)
            &&& message.request_id is None
            &&& message.body == question_started(after, now)
        },
        ServerBodyView::AnswerAccepted(answer) => {
            &&& game.phase == GamePhase::QuestionActive
            &&& event matches GameEventView::Cmd(
                GameCmdView::Submit { player_id, question_id, request_id, .. },
            ) && {
                &&& submit_refusal(game, player_id, question_id) is None
                &&& message.request_id == request_id
                &&& answer.game_id == game.id
                &&& answer.player_id == player_id
                &&& answer.question_id == question_id
                &&& answer.locked == Some(true)
            }
        },
        ServerBodyView::AnswerLocked(answer) => {
            &&& message.request_id is None
            &&& event matches GameEventView::Cmd(
                GameCmdView::Submit { player_id, question_id, .. },
            ) && {
                &&& submit_refusal(game, player_id, question_id) is None
                &&& answer.game_id == game.id
                &&& answer.player_id == player_id
                &&& answer.question_id == question_id
                &&& answer.locked is None
            }
        },
        ServerBodyView::QuestionRevealed { reason, .. } => {
            &&& is_past(game, after)
            &&& message.request_id is None
            &&& message.body == question_revealed(found_by(game, event), reason)
            &&& reason == RevealReason::TimeExpired <==> event is TimeExpired
        },
        ServerBodyView::NextWaiting { game_id, question_id, players } => {
            &&& at_answer(game)
            &&& after.phase == GamePhase::WaitingForNext
            &&& message.request_id is None
            &&& game_id == game.id
            &&& at_question(game, question_id)
            &&& players == entries(after)
        },
        ServerBodyView::GameResults { .. } => {
            &&& at_answer(game)
            &&& after.phase == GamePhase::Results
            &&& message.request_id is None
            &&& message.body == results(after)
        },
        ServerBodyView::Error { code, message: text } => {
            &&& after == game
            &&& match event {
                GameEventView::Cmd(GameCmdView::Join { request_id, .. }) => {
                    &&& message.request_id == request_id
                    &&& code == ErrorCode::GameFull
                    &&& game.phase != GamePhase::WaitingForPlayer
                },
                GameEventView::Cmd(
                    GameCmdView::Submit { player_id, question_id, request_id, .. },
                ) => {
                    &&& message.request_id == request_id
                    &&& submit_refusal(game, player_id, question_id) == Some((code, text))
                },
                GameEventView::Cmd(
                    GameCmdView::NextReady { player_id, question_id, request_id },
                ) => {
                    &&& message.request_id == request_id
                    &&& code == ErrorCode::InvalidGamePhase
                    &&& !at_answer(game) || !at_question(game, question_id)
                },
                _ => false,
            }
        },
    }
}

/// Whether an event puts a question to the players: an opponent comes in, or everybody who is there
/// is ready for the next one.
pub open spec fn question_due(game: GameActorView, event: GameEventView) -> bool {
    match event {
        GameEventView::Cmd(GameCmdView::Join { .. }) => {
            game.phase == GamePhase::WaitingForPlayer && game.questions.len() > 0
        },
        GameEventView::Cmd(GameCmdView::NextReady { player_id, question_id, .. }) => {
            &&& at_answer(game)
            &&& at_question(game, question_id)
            &&& game.question_index + 1 < game.questions.len()
            &&& !reader_left(with_reader_ready(game, player_id))
        },
        GameEventView::Cmd(GameCmdView::Disconnect { player_id }) => {
            &&& at_answer(game)
            &&& game.question_index + 1 < game.questions.len()
            &&& anybody(without(game, player_id))
            &&& !reader_left(without(game, player_id))
        },
        _ => false,
    }
}

/// What is proved below of every event.
spec fn in_order(game: GameActorView, event: GameEventView, now: Reading) -> bool {
    let after = game.turn(event, now).game;
    let sent = game.turn(event, now).sent;
    &&& forall|i: int|
        0 <= i < sent.len() ==> rightly_said(
            game,
            event,
            now,
            after,
            (#[trigger] sent[i]).message,
        )
    &&& has_put_question(game, after) <==> question_due(game, event)
    &&& game.phase != GamePhase::Results && after.phase == GamePhase::Results ==> sent == everyone(
        after,
        results(after),
    )
}

proof fn lemma_join_in_order(
    game: GameActorView,
    player_id: Seq<char>,
    name: Seq<char>,
    out_tx: OutTx,
    request_id: Option<Seq<char>>,
    now: Reading,
)
    requires
        game.wf(),
    ensures
        in_order(
            game,
            GameEventView::Cmd(GameCmdView::Join { player_id, name, out_tx, request_id }),
            now,
        ),
{
    if game.phase == GamePhase::WaitingForPlayer {
        rule_join(game, player_id, name, out_tx, request_id, now);
    } else {
        rule_join_refused(game, player_id, name, out_tx, request_id, now);
    }
}

proof fn lemma_submit_in_order(
    game: GameActorView,
    player_id: Seq<char>,
    question_id: Seq<char>,
    answer_id: Seq<char>,
    request_id: Option<Seq<char>>,
    now: Reading,
)
    requires
        game.wf(),
    ensures
        in_order(
            game,
            GameEventView::Cmd(
                GameCmdView::Submit { player_id, question_id, answer_id, request_id },
            ),
            now,
        ),
{
    if submit_refusal(game, player_id, question_id) is Some {
        rule_submit_refused(game, player_id, question_id, answer_id, request_id, now);
    } else {
        rule_submit(game, player_id, question_id, answer_id, request_id, now);
    }
}

proof fn lemma_next_ready_in_order(
    game: GameActorView,
    player_id: Seq<char>,
    question_id: Seq<char>,
    request_id: Option<Seq<char>>,
    now: Reading,
)
    requires
        game.wf(),
    ensures
        in_order(
            game,
            GameEventView::Cmd(GameCmdView::NextReady { player_id, question_id, request_id }),
            now,
        ),
{
    if at_answer(game) && at_question(game, question_id) {
        rule_next_ready(game, player_id, question_id, request_id, now);
    } else {
        rule_next_ready_refused(game, player_id, question_id, request_id, now);
    }
}

proof fn lemma_disconnect_in_order(game: GameActorView, player_id: Seq<char>, now: Reading)
    requires
        game.wf(),
    ensures
        in_order(game, GameEventView::Cmd(GameCmdView::Disconnect { player_id }), now),
{
    let step = game.turn(GameEventView::Cmd(GameCmdView::Disconnect { player_id }), now);
    if game.phase == GamePhase::WaitingForPlayer || game.phase == GamePhase::Results {
        rule_disconnect_aside(game, player_id, now);
    } else if game.questions.len() > 0 && !anybody(without(game, player_id)) {
        rule_last_one_goes(game, player_id, now);
        assert(step.sent =~= everyone(step.game, results(step.game)));
    } else if game.phase == GamePhase::QuestionActive {
        rule_disconnect_active(game, player_id, now);
    } else {
        rule_disconnect_at_answer(game, player_id, now);
    }
}

proof fn lemma_in_order(game: GameActorView, event: GameEventView, now: Reading)
    requires
        game.wf(),
        game.has_room(),
    ensures
        in_order(game, event, now),
{
    match event {
        GameEventView::Cmd(GameCmdView::Join { player_id, name, out_tx, request_id }) => {
            lemma_join_in_order(game, player_id, name, out_tx, request_id, now);
        },
        GameEventView::Cmd(
            GameCmdView::Submit { player_id, question_id, answer_id, request_id },
        ) => {
            lemma_submit_in_order(game, player_id, question_id, answer_id, request_id, now);
        },
        GameEventView::Cmd(GameCmdView::NextReady { player_id, question_id, request_id }) => {
            lemma_next_ready_in_order(game, player_id, question_id, request_id, now);
        },
        GameEventView::Cmd(GameCmdView::Disconnect { player_id }) => {
            lemma_disconnect_in_order(game, player_id, now);
        },
        GameEventView::TimeExpired => {
            if game.phase == GamePhase::QuestionActive && game.questions.len() > 0 {
                rule_time_up(game, now);
            } else {
                rule_quiet_events(game, now);
            }
        },
        _ => rule_quiet_events(game, now),
    }
}

/// Every message that a game sends says what is the case, and is sent only when it is due.
pub proof fn law_every_message(game: GameActorView, event: GameEventView, now: Reading, i: int)
    requires
        game.wf(),
        game.has_room(),
        0 <= i < game.turn(event, now).sent.len(),
    ensures
        rightly_said(
            game,
            event,
            now,
            game.turn(event, now).game,
            game.turn(event, now).sent[i].message,
        ),
{
    lemma_in_order(game, event, now);
}

/// Whenever an event puts a question to the players, everybody who is there is told, once and last
/// of all, the whole question that the game is then at: its id, topic, prompt and options, where
/// it stands among the others, and an end 15 seconds from now, to which the timer is set.
pub proof fn law_question_is_put(game: GameActorView, event: GameEventView, now: Reading)
    requires
        game.wf(),
        game.has_room(),
        has_put_question(game, game.turn(event, now).game),
    ensures
        ({
            let after = game.turn(event, now).game;
            let sent = game.turn(event, now).sent;
            let asked = everyone(after, question_started(after, now));
            let first = sent.len() - asked.len();
            &&& after.phase == GamePhase::QuestionActive
            &&& after.question_index < after.questions.len()
            &&& after.deadline == timer_from(now)
            &&& asked.len() > 0
            &&& first >= 0
            &&& sent.skip(first) == asked
            &&& forall|i: int|
                0 <= i < first ==> !((#[trigger] sent[i]).message.body is QuestionStarted)
        }),
{
    let sent = game.turn(event, now).sent;
    let after = game.turn(event, now).game;
    let asked = everyone(after, question_started(after, now));
    law_time_of_question(game, event, now);
    match event {
        GameEventView::Cmd(GameCmdView::Join { player_id, name, out_tx, request_id }) => {
            rule_join(game, player_id, name, out_tx, request_id, now);
        },
        GameEventView::Cmd(GameCmdView::NextReady { player_id, question_id, request_id }) => {
            rule_next_ready(game, player_id, question_id, request_id, now);
        },
        GameEventView::Cmd(GameCmdView::Disconnect { player_id }) => {
            rule_disconnect_at_answer(game, player_id, now);
        },
        _ => {},
    }
    assert(sent.skip(sent.len() - asked.len()) =~= asked);
}

/// A question is put to the players when an opponent comes in, and when everybody who is there is
/// ready for the next one, and at no other time.
pub proof fn law_time_of_question(game: GameActorView, event: GameEventView, now: Reading)
    requires
        game.wf(),
        game.has_room(),
    ensures
        has_put_question(game, game.turn(event, now).game) <==> question_due(game, event),
{
    lemma_in_order(game, event, now);
}

/// The clocks are read for just the events that put a question to the players.
pub proof fn law_clock_is_for_questions(game: GameActorView, event: GameEventView, now: Reading)
    requires
        game.wf(),
        game.has_room(),
    ensures
        game.puts_question(event) <==> question_due(game, event),
{
    law_time_of_question(game, event, now);
    law_puts_question(game, event, now);
}

/// A player's first answer to the active question is always taken, whether or not the other player
/// has answered: the player is told first of all, under the id of the request, and the answer is
/// put down; the other player's place is as it was, unless the question is thereby over.
pub proof fn law_first_answer_is_taken(
    game: GameActorView,
    player_id: Seq<char>,
    question_id: Seq<char>,
    answer_id: Seq<char>,
    request_id: Option<Seq<char>>,
    now: Reading,
)
    requires
        game.wf(),
        game.has_room(),
        game.phase == GamePhase::QuestionActive,
        game.question_index < game.questions.len(),
        game.questions[game.question_index as int].question.id == question_id,
        player_id == game.p1.id && game.p1.answer is None || player_id != game.p1.id && player_id
            == game.p2->0.id && game.p2->0.answer is None,
    ensures
        ({
            let step = game.turn(
                GameEventView::Cmd(
                    GameCmdView::Submit { player_id, question_id, answer_id, request_id },
                ),
                now,
            );
            let after = step.game;
            let host = player_id == game.p1.id;
            let own = if host {
                game.p1
            } else {
                game.p2->0
            };
            let own_after = if host {
                after.p1
            } else {
                after.p2->0
            };
            let other = if host {
                game.p2->0
            } else {
                game.p1
            };
            let other_after = if host {
                after.p2->0
            } else {
                after.p1
            };
            &&& own_after.answer == Some(answer_id)
            &&& own.out_tx is Some ==> step.sent.len() > 0 && step.sent[0] == (DeliveryView {
                to: own.out_tx->0,
                message: ServerMessageView {
                    request_id,
                    body: ServerBodyView::AnswerAccepted(
                        AnswerView { game_id: game.id, question_id, player_id, locked: Some(true) },
                    ),
                },
            })
            &&& other_after.answer == other.answer
            &&& other_after.out_tx == other.out_tx
            &&& if other.out_tx is Some && other.answer is None {
                &&& other_after == other
                &&& own_after == SlotView { answer: Some(answer_id), ..own }
                &&& after.phase == GamePhase::QuestionActive
            } else {
                own.out_tx is Some ==> after.phase == GamePhase::AnswerReveal
            }
        }),
{
    rule_submit(game, player_id, question_id, answer_id, request_id, now);
}

/// That an answer is already locked is told only to a player whose own answer has been put down.
pub proof fn law_locked_out_by_own_answer(
    game: GameActorView,
    event: GameEventView,
    now: Reading,
    i: int,
)
    requires
        game.wf(),
        game.has_room(),
        0 <= i < game.turn(event, now).sent.len(),
        game.turn(event, now).sent[i].message.body matches ServerBodyView::Error { code, .. }
            && code == ErrorCode::AnswerAlreadyLocked,
    ensures
        game.phase == GamePhase::QuestionActive,
        event matches GameEventView::Cmd(GameCmdView::Submit { player_id, .. }) && if player_id
            == game.p1.id {
            game.p1.answer is Some
        } else {
            game.p2->0.id == player_id && game.p2->0.answer is Some
        },
{
    law_every_message(game, event, now, i);
}

/// When an answer is revealed, each player is shown under their own id and name, with the points
/// that they then have, as right exactly if the answer that they had put down is the right one,
/// which is exactly if they have just won a point.
pub proof fn law_revealed_players(game: GameActorView, event: GameEventView, now: Reading, i: int)
    requires
        game.wf(),
        game.has_room(),
        0 <= i < game.turn(event, now).sent.len(),
        game.turn(event, now).sent[i].message.body is QuestionRevealed,
    ensures
        ({
            let after = game.turn(event, now).game;
            let body = game.turn(event, now).sent[i].message.body;
            let players = body->QuestionRevealed_players;
            let q = game.questions[game.question_index as int];
            let right = Some(q.correct_answer_id);
            &&& body->QuestionRevealed_game_id == game.id
            &&& body->QuestionRevealed_question_id == q.question.id
            &&& body->QuestionRevealed_correct_answer_id == q.correct_answer_id
            &&& players.len() == 2
            &&& players[0].id == game.p1.id
            &&& players[0].name == game.p1.name
            &&& players[0].score == Some(after.p1.score)
            &&& players[0].did_answer_correctly == Some(after.p1.answer == right)
            &&& players[0].did_answer_correctly == Some(after.p1.score == game.p1.score + 1)
            &&& players[0].is_ready_for_next == Some(after.p1.out_tx is None)
            &&& players[1].id == game.p2->0.id
            &&& players[1].name == game.p2->0.name
            &&& players[1].score == Some(after.p2->0.score)
            &&& players[1].did_answer_correctly == Some(after.p2->0.answer == right)
            &&& players[1].did_answer_correctly == Some(
                after.p2->0.score == game.p2->0.score + 1,
            )
            &&& players[1].is_ready_for_next == Some(after.p2->0.out_tx is None)
        }),
{
    law_every_message(game, event, now, i);
    match event {
        GameEventView::Cmd(
            GameCmdView::Submit { player_id, question_id, answer_id, request_id },
        ) => {
            if submit_refusal(game, player_id, question_id) is Some {
                rule_submit_refused(game, player_id, question_id, answer_id, request_id, now);
            } else {
                rule_submit(game, player_id, question_id, answer_id, request_id, now);
            }
        },
        GameEventView::Cmd(GameCmdView::Disconnect { player_id }) => {
            if game.questions.len() > 0 && !anybody(without(game, player_id)) {
                rule_last_one_goes(game, player_id, now);
            } else {
                rule_disconnect_active(game, player_id, now);
            }
        },
        GameEventView::TimeExpired => {
            if game.questions.len() > 0 {
                rule_time_up(game, now);
            } else {
                rule_quiet_events(game, now);
            }
        },
        GameEventView::Cmd(GameCmdView::NextReady { player_id, question_id, request_id }) => {
            rule_next_ready_refused(game, player_id, question_id, request_id, now);
        },
        _ => {
            rule_quiet_events(game, now);
        },
    }
}

/// What a game's results say is what the points say: the one with more points has won, under
/// their own id and name, and it is a draw exactly where both have the same.
pub proof fn law_results_say_who_won(
    game: GameActorView,
    event: GameEventView,
    now: Reading,
    i: int,
)
    requires
        game.wf(),
        game.has_room(),
        0 <= i < game.turn(event, now).sent.len(),
        game.turn(event, now).sent[i].message.body is GameResults,
    ensures
        ({
            let after = game.turn(event, now).game;
            let body = game.turn(event, now).sent[i].message.body;
            let winner = body->GameResults_winner_player_id;
            let label = body->GameResults_winner_label;
            let players = body->GameResults_players;
            let host = after.p1;
            let guest = after.p2->0;
            &&& after.phase == GamePhase::Results
            &&& body->GameResults_game_id == game.id
            &&& host.score > guest.score ==> winner == Some(host.id) && label == host.name
                + " wins"@
            &&& guest.score > host.score ==> winner == Some(guest.id) && label == guest.name
                + " wins"@
            &&& host.score == guest.score <==> winner is None
            &&& host.score == guest.score ==> label == "Draw game"@
            &&& players.len() == 2
            &&& players[0].id == host.id && players[0].name == host.name
            &&& players[0].score == Some(host.score)
            &&& players[0].did_answer_correctly is None
            &&& players[1].id == guest.id && players[1].name == guest.name
            &&& players[1].score == Some(guest.score)
            &&& players[1].did_answer_correctly is None
        }),
{
    law_every_message(game, event, now, i);
    law_turn_keeps_wf(game, event, now);
    law_identity_kept(game, event, now);
}

/// When a game comes to its results, everybody who is there is told them, once, and nothing else.
pub proof fn law_results_reach_everyone(game: GameActorView, event: GameEventView, now: Reading)
    requires
        game.wf(),
        game.has_room(),
        game.phase != GamePhase::Results,
        game.turn(event, now).game.phase == GamePhase::Results,
    ensures
        game.turn(event, now).sent == everyone(
            game.turn(event, now).game,
            results(game.turn(event, now).game),
        ),
{
    lemma_in_order(game, event, now);
}

} // verus!
