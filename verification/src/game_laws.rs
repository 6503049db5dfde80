//! What holds of every game: the invariant, and the promises to the players.
use vstd::prelude::*;
use crate::clock::{deadline_after, Reading};
use crate::game_model::{
    announcement, deliver, refusal, wire_count, DeliveryView, GameActorView, GameCmdView,
    GameEventView, OutTx, SlotView,
};
use crate::messages::{
    AnswerView, ErrorCode, GamePhase, PlayerView, RevealReason, ServerBodyView, ServerMessageView,
};

verus! {

/// Whether two games are about the same questions and are played by the same players, but for an
/// opponent who has come in between, and one that was given up is given up still.
pub open spec fn same_game(before: GameActorView, after: GameActorView) -> bool {
    &&& after.id == before.id
    &&& after.topic == before.topic
    &&& after.questions == before.questions
    &&& after.p1.id == before.p1.id
    &&& after.p1.name == before.p1.name
    &&& before.p2 is Some ==> {
        &&& after.p2 is Some
        &&& after.p2->0.id == before.p2->0.id
        &&& after.p2->0.name == before.p2->0.name
    }
    &&& before.finished ==> after.finished
}

/// Whether the same players are there.
spec fn same_queues(before: GameActorView, after: GameActorView) -> bool {
    &&& after.p1.out_tx == before.p1.out_tx
    &&& before.p2 is Some ==> after.p2 is Some && after.p2->0.out_tx == before.p2->0.out_tx
}

spec fn same_scores(before: GameActorView, after: GameActorView) -> bool {
    &&& after.p1.score == before.p1.score
    &&& before.p2 is Some ==> after.p2 is Some && after.p2->0.score == before.p2->0.score
}

/// Whether everything goes to players who are there.
pub open spec fn reaches_players(game: GameActorView, sent: Seq<DeliveryView>) -> bool {
    forall|i: int|
        0 <= i < sent.len() ==> {
            ||| game.p1.out_tx == Some((#[trigger] sent[i]).to)
            ||| game.p2 is Some && game.p2->0.out_tx == Some(sent[i].to)
        }
}

spec fn all_say(sent: Seq<DeliveryView>, message: ServerMessageView) -> bool {
    forall|i: int| 0 <= i < sent.len() ==> (#[trigger] sent[i]).message == message
}

/// Whether a message shows the answer to a question.
pub open spec fn discloses(message: ServerMessageView) -> bool {
    message.body is QuestionRevealed
}

spec fn none_discloses(sent: Seq<DeliveryView>) -> bool {
    forall|i: int| 0 <= i < sent.len() ==> !discloses((#[trigger] sent[i]).message)
}

proof fn lemma_broadcast(game: GameActorView, message: ServerMessageView)
    ensures
        reaches_players(game, game.broadcast(message)),
        all_say(game.broadcast(message), message),
        game.p2 is Some && game.deserted() ==> game.broadcast(message).len() == 0,
{
}

proof fn lemma_send_to(game: GameActorView, player_id: Seq<char>, message: ServerMessageView)
    ensures
        reaches_players(game, game.send_to(player_id, message)),
        all_say(game.send_to(player_id, message), message),
{
}

/// A question starts: it is active and its timer runs, or the game that nobody plays is over.
proof fn lemma_start(game: GameActorView, now: Reading)
    requires
        game.p2 is Some,
    ensures
        ({
            let step = game.start_question(now);
            let after = step.game;
            &&& same_game(game, after)
            &&& same_queues(game, after)
            &&& same_scores(game, after)
            &&& reaches_players(after, step.sent)
            &&& none_discloses(step.sent)
            &&& after.p1.answer is None && after.p2->0.answer is None
            &&& if game.current_question() is Some && game.deserted() {
                &&& after.phase == GamePhase::Results
                &&& after.question_index == game.questions.len()
                &&& after.deadline is None
                &&& step.sent.len() == 0
            } else {
                &&& after.phase == GamePhase::QuestionActive
                &&& after.question_index == game.question_index
                &&& after.deadline == if game.current_question() is Some {
                    Some(deadline_after(now.elapsed as nat))
                } else {
                    None
                }
                &&& !after.p1.is_ready_for_next && !after.p2->0.is_ready_for_next
            }
        }),
{
    reveal(GameActorView::start_question);
    let step = game.start_question(now);
    if game.current_question() is Some && !game.deserted() {
        let body = ServerBodyView::QuestionStarted {
            game_id: step.game.id,
            question_index: wire_count(step.game.question_index),
            question_count: wire_count(step.game.questions.len()),
            question_ends_at: now.question_ends_at(),
            question: game.current_question()->0.question,
            players: step.game.players(None),
        };
        lemma_broadcast(step.game, announcement(body));
    }
}

/// After a question comes the next one, or the results.
proof fn lemma_advance(game: GameActorView, now: Reading)
    requires
        game.p2 is Some,
        game.question_index < game.questions.len(),
    ensures
        ({
            let step = game.advance(now);
            let after = step.game;
            &&& same_game(game, after)
            &&& same_queues(game, after)
            &&& same_scores(game, after)
            &&& reaches_players(after, step.sent)
            &&& none_discloses(step.sent)
            &&& if game.question_index + 1 == game.questions.len() || game.deserted() {
                &&& after.phase == GamePhase::Results
                &&& after.question_index == game.questions.len()
                &&& game.deadline is None ==> after.deadline is None
                &&& game.question_index + 1 == game.questions.len() ==> step.sent
                    == after.emit_results().sent
                &&& game.deserted() ==> step.sent.len() == 0
            } else {
                &&& after.phase == GamePhase::QuestionActive
                &&& after.question_index == game.question_index + 1
                &&& after.deadline == Some(deadline_after(now.elapsed as nat))
                &&& !after.p1.is_ready_for_next && !after.p2->0.is_ready_for_next
                &&& after.p1.answer is None && after.p2->0.answer is None
            }
        }),
{
    reveal(GameActorView::advance);
    let next = GameActorView { question_index: game.question_index + 1, ..game };
    if next.question_index < next.questions.len() {
        lemma_start(next, now);
    } else {
        reveal(GameActorView::emit_results);
        let after = next.emit_results().game;
        lemma_broadcast(after, after.results_message());
    }
}

/// What is sent when an answer is revealed.
spec fn reveal_message(
    game: GameActorView,
    after: GameActorView,
    reason: RevealReason,
) -> ServerMessageView {
    let q = game.current_question()->0;
    announcement(
        ServerBodyView::QuestionRevealed {
            game_id: game.id,
            question_id: q.question.id,
            correct_answer_id: q.correct_answer_id,
            players: after.players(Some(q.correct_answer_id)),
            reason,
        },
    )
}

/// The answer is revealed to those who are there. Where nobody is, the game is over.
proof fn lemma_reveal(game: GameActorView, reason: RevealReason, now: Reading)
    requires
        game.p2 is Some,
        game.phase == GamePhase::QuestionActive,
        game.current_question() is Some,
        !game.p1.is_ready_for_next,
        !game.p2->0.is_ready_for_next,
    ensures
        ({
            let step = game.reveal_answer(reason, now);
            let after = step.game;
            let correct = game.current_question()->0.correct_answer_id;
            &&& same_game(game, after)
            &&& same_queues(game, after)
            &&& reaches_players(after, step.sent)
            &&& after.p1.score == game.p1.scored(correct).score
            &&& after.p2->0.score == game.p2->0.scored(correct).score
            &&& after.deadline is None
            &&& if game.deserted() {
                &&& after.phase == GamePhase::Results
                &&& after.question_index == game.questions.len()
                &&& step.sent.len() == 0
            } else {
                &&& after.phase == GamePhase::AnswerReveal
                &&& after.question_index == game.question_index
                &&& after.p1.is_ready_for_next == !after.p1.is_connected()
                &&& after.p2->0.is_ready_for_next == !after.p2->0.is_connected()
                &&& step.sent == after.broadcast(reveal_message(game, after, reason))
                &&& all_say(step.sent, reveal_message(game, after, reason))
            }
        }),
{
    reveal(GameActorView::reveal_answer);
    let q = game.current_question()->0;
    let counted = game.with_slots(|slot: SlotView| slot.scored(q.correct_answer_id).excused());
    let shown = GameActorView { phase: GamePhase::AnswerReveal, deadline: None, ..counted };
    let step = game.reveal_answer(reason, now);
    lemma_broadcast(shown, reveal_message(game, shown, reason));
    if game.deserted() {
        lemma_advance(shown, now);
    } else {
        assert(step.game == shown);
        assert(step.sent =~= shown.broadcast(reveal_message(game, shown, reason)));
    }
}

/// Whether an event ends the question that is active.
pub open spec fn ends_question(game: GameActorView, event: GameEventView, now: Reading) -> bool {
    let after = game.turn(event, now).game;
    &&& game.phase == GamePhase::QuestionActive
    &&& !(after.phase == GamePhase::QuestionActive && after.question_index
        == game.question_index)
}

/// The game once the answer, if the event is one that is accepted, has been put down, and the
/// player, if the event is that one has left, is gone.
pub open spec fn noted(game: GameActorView, event: GameEventView) -> GameActorView {
    match event {
        GameEventView::Cmd(
            GameCmdView::Submit { player_id, question_id, answer_id, request_id },
        ) => if game.submit_error(player_id, question_id) is None {
            game.lock_answer(player_id, answer_id)
        } else {
            game
        },
        GameEventView::Cmd(GameCmdView::Disconnect { player_id }) => game.with_slot_of(
            player_id,
            |slot: SlotView| SlotView { out_tx: None, ..slot },
        ),
        _ => game,
    }
}

/// The queue, if any, to which an answer goes outside the game: that of one who may not join.
pub open spec fn turned_away(game: GameActorView, event: GameEventView) -> Option<OutTx> {
    match event {
        GameEventView::Cmd(GameCmdView::Join { player_id, name, out_tx, request_id }) => {
            if game.phase != GamePhase::WaitingForPlayer || game.p2 is Some {
                Some(out_tx)
            } else {
                None
            }
        },
        _ => None,
    }
}

/// While a question is active an event ends it or leaves it as it was, but for what
/// [`noted`] says.
proof fn lemma_turn_active(game: GameActorView, event: GameEventView, now: Reading)
    requires
        game.wf(),
        game.has_room(),
        game.phase == GamePhase::QuestionActive,
    ensures
        ({
            let step = game.turn(event, now);
            let after = step.game;
            let seen = noted(game, event);
            let ended = game.current_question() is Some && (event is TimeExpired
                || seen.all_done());
            &&& after.wf()
            &&& same_game(game, after)
            &&& same_queues(noted(game, event), after)
            &&& turned_away(game, event) is None ==> reaches_players(after, step.sent)
            &&& ended == ends_question(game, event, now)
            &&& if ended {
                let correct = game.current_question()->0.correct_answer_id;
                &&& after.deadline is None
                &&& after.p1.score == seen.p1.scored(correct).score
                &&& after.p2->0.score == seen.p2->0.scored(correct).score
                &&& if seen.deserted() {
                    &&& after.phase == GamePhase::Results
                    &&& after.question_index == game.questions.len()
                    &&& step.sent.len() == 0
                } else {
                    &&& after.phase == GamePhase::AnswerReveal
                    &&& after.question_index == game.question_index
                    &&& forall|i: int|
                        0 <= i < step.sent.len() && discloses((#[trigger] step.sent[i]).message)
                            ==> step.sent[i].message.body->QuestionRevealed_question_id
                            == game.current_question()->0.question.id
                }
            } else {
                &&& none_discloses(step.sent)
                &&& after == GameActorView {
                    finished: game.finished || event == GameEventView::Cmd(
                        GameCmdView::LobbyReturn,
                    ),
                    ..seen
                }
            }
        }),
{
    let seen = noted(game, event);
    match event {
        GameEventView::Cmd(
            GameCmdView::Submit { player_id, question_id, answer_id, request_id },
        ) => {
            match game.submit_error(player_id, question_id) {
                Some((code, message)) => lemma_send_to(
                    game,
                    player_id,
                    refusal(request_id, code, message),
                ),
                None => {
                    let accepted = ServerMessageView {
                        request_id,
                        body: ServerBodyView::AnswerAccepted(
                            AnswerView {
                                game_id: seen.id,
                                question_id,
                                player_id,
                                locked: Some(true),
                            },
                        ),
                    };
                    let locked = announcement(
                        ServerBodyView::AnswerLocked(
                            AnswerView { game_id: seen.id, question_id, player_id, locked: None },
                        ),
                    );
                    lemma_send_to(seen, player_id, accepted);
                    lemma_broadcast(seen, locked);
                    lemma_reveal(seen, RevealReason::BothAnswered, now);
                },
            }
        },
        GameEventView::Cmd(GameCmdView::NextReady { player_id, question_id, request_id }) => {
            lemma_send_to(
                game,
                player_id,
                refusal(request_id, ErrorCode::InvalidGamePhase, "Not in reveal phase."@),
            );
        },
        GameEventView::Cmd(GameCmdView::Disconnect { player_id }) => {
            if game.current_question() is Some {
                lemma_reveal(seen, RevealReason::BothAnswered, now);
                lemma_reveal(seen, RevealReason::TimeExpired, now);
            } else {
                reveal(GameActorView::reveal_answer);
            }
        },
        GameEventView::TimeExpired => {
            if game.current_question() is Some {
                lemma_reveal(seen, RevealReason::TimeExpired, now);
            } else {
                reveal(GameActorView::reveal_answer);
            }
        },
        _ => {},
    }
}

/// While an answer is shown an event leads to the next question, to the results, or leaves the
/// game waiting.
proof fn lemma_turn_reveal(game: GameActorView, event: GameEventView, now: Reading)
    requires
        game.wf(),
        game.phase == GamePhase::AnswerReveal || game.phase == GamePhase::WaitingForNext,
    ensures
        ({
            let step = game.turn(event, now);
            let after = step.game;
            &&& after.wf()
            &&& same_game(game, after)
            &&& same_scores(game, after)
            &&& same_queues(noted(game, event), after)
            &&& turned_away(game, event) is None ==> reaches_players(after, step.sent)
            &&& none_discloses(step.sent)
            &&& match after.phase {
                GamePhase::WaitingForPlayer => false,
                GamePhase::QuestionActive => {
                    &&& after.question_index == game.question_index + 1
                    &&& after.deadline == Some(deadline_after(now.elapsed as nat))
                },
                GamePhase::AnswerReveal => {
                    &&& game.phase == GamePhase::AnswerReveal
                    &&& after.question_index == game.question_index
                },
                GamePhase::WaitingForNext => after.question_index == game.question_index,
                GamePhase::Results => {
                    &&& after.question_index == game.questions.len()
                    &&& !after.deserted() ==> {
                        &&& game.question_index + 1 == game.questions.len()
                        &&& step.sent == after.emit_results().sent
                    }
                },
            }
        }),
{
    match event {
        GameEventView::Cmd(
            GameCmdView::Submit { player_id, question_id, answer_id, request_id },
        ) => {
            let (code, message) = game.submit_error(player_id, question_id)->0;
            lemma_send_to(game, player_id, refusal(request_id, code, message));
        },
        GameEventView::Cmd(GameCmdView::NextReady { player_id, question_id, request_id }) => {
            let marked = game.with_slot_of(
                player_id,
                |slot: SlotView| SlotView { is_ready_for_next: true, ..slot },
            );
            let waiting = GameActorView { phase: GamePhase::WaitingForNext, ..marked };
            lemma_advance(marked, now);
            lemma_send_to(
                game,
                player_id,
                refusal(request_id, ErrorCode::InvalidGamePhase, "Stale questionId."@),
            );
            lemma_broadcast(
                waiting,
                announcement(
                    ServerBodyView::NextWaiting {
                        game_id: waiting.id,
                        question_id,
                        players: waiting.players(None),
                    },
                ),
            );
        },
        GameEventView::Cmd(GameCmdView::Disconnect { player_id }) => {
            let left = game.with_slot_of(
                player_id,
                |slot: SlotView| SlotView { out_tx: None, ..slot },
            );
            lemma_advance(left.with_slots(|slot: SlotView| slot.excused()), now);
        },
        GameEventView::TimeExpired => {
            reveal(GameActorView::reveal_answer);
        },
        _ => {},
    }
}

/// While the host is alone only an opponent makes a game of it.
proof fn lemma_turn_waiting(game: GameActorView, event: GameEventView, now: Reading)
    requires
        game.wf(),
        game.phase == GamePhase::WaitingForPlayer,
    ensures
        ({
            let step = game.turn(event, now);
            let after = step.game;
            &&& after.wf()
            &&& same_game(game, after)
            &&& same_scores(game, after)
            &&& same_queues(noted(game, event), after)
            &&& reaches_players(after, step.sent)
            &&& none_discloses(step.sent)
            &&& match after.phase {
                GamePhase::WaitingForPlayer => true,
                GamePhase::QuestionActive => {
                    &&& after.question_index == 0
                    &&& after.deadline == if game.questions.len() > 0 {
                        Some(deadline_after(now.elapsed as nat))
                    } else {
                        None
                    }
                },
                _ => false,
            }
        }),
{
    match event {
        GameEventView::Cmd(GameCmdView::Join { player_id, name, out_tx, request_id }) => {
            let joined = GameActorView {
                p2: Some(SlotView::new(player_id, name, out_tx)),
                phase: GamePhase::QuestionActive,
                ..game
            };
            lemma_start(joined, now);
            let welcome = ServerMessageView {
                request_id,
                body: ServerBodyView::GameJoined { game: joined.snapshot() },
            };
            let news = announcement(
                ServerBodyView::PlayerJoined {
                    game_id: joined.id,
                    player: PlayerView {
                        id: player_id,
                        name,
                        score: None,
                        is_ready_for_next: None,
                        did_answer_correctly: None,
                    },
                },
            );
            lemma_send_to(joined, player_id, welcome);
            lemma_broadcast(joined, news);
        },
        GameEventView::Cmd(
            GameCmdView::Submit { player_id, question_id, answer_id, request_id },
        ) => {
            let (code, message) = game.submit_error(player_id, question_id)->0;
            lemma_send_to(game, player_id, refusal(request_id, code, message));
        },
        GameEventView::Cmd(GameCmdView::NextReady { player_id, question_id, request_id }) => {
            lemma_send_to(
                game,
                player_id,
                refusal(request_id, ErrorCode::InvalidGamePhase, "Not in reveal phase."@),
            );
        },
        GameEventView::TimeExpired => {
            reveal(GameActorView::reveal_answer);
        },
        _ => {},
    }
}

/// After the results nothing moves.
proof fn lemma_turn_results(game: GameActorView, event: GameEventView, now: Reading)
    requires
        game.wf(),
        game.phase == GamePhase::Results,
    ensures
        ({
            let step = game.turn(event, now);
            let after = step.game;
            &&& after.wf()
            &&& same_game(game, after)
            &&& same_scores(game, after)
            &&& same_queues(noted(game, event), after)
            &&& after.phase == GamePhase::Results
            &&& after.question_index == game.question_index
            &&& turned_away(game, event) is None ==> reaches_players(after, step.sent)
            &&& none_discloses(step.sent)
        }),
{
    match event {
        GameEventView::Cmd(
            GameCmdView::Submit { player_id, question_id, answer_id, request_id },
        ) => {
            let (code, message) = game.submit_error(player_id, question_id)->0;
            lemma_send_to(game, player_id, refusal(request_id, code, message));
        },
        GameEventView::Cmd(GameCmdView::NextReady { player_id, question_id, request_id }) => {
            lemma_send_to(
                game,
                player_id,
                refusal(request_id, ErrorCode::InvalidGamePhase, "Not in reveal phase."@),
            );
        },
        GameEventView::TimeExpired => {
            reveal(GameActorView::reveal_answer);
        },
        _ => {},
    }
}

/// The invariant of a game is kept by every event.
pub proof fn law_turn_keeps_wf(game: GameActorView, event: GameEventView, now: Reading)
    requires
        game.wf(),
        game.has_room(),
    ensures
        game.turn(event, now).game.wf(),
{
    match game.phase {
        GamePhase::WaitingForPlayer => lemma_turn_waiting(game, event, now),
        GamePhase::QuestionActive => lemma_turn_active(game, event, now),
        GamePhase::AnswerReveal => lemma_turn_reveal(game, event, now),
        GamePhase::WaitingForNext => lemma_turn_reveal(game, event, now),
        GamePhase::Results => lemma_turn_results(game, event, now),
    }
}

/// As long as a game has no more questions than the score can count, there is always room for
/// one more point.
pub proof fn law_room_for_points(game: GameActorView)
    requires
        game.wf(),
        game.questions.len() <= u16::MAX,
    ensures
        game.has_room(),
{
}

/// No event changes what a game is about, nor who plays it: a place, once taken, is kept.
pub proof fn law_identity_kept(game: GameActorView, event: GameEventView, now: Reading)
    requires
        game.wf(),
        game.has_room(),
    ensures
        same_game(game, game.turn(event, now).game),
{
    match game.phase {
        GamePhase::WaitingForPlayer => lemma_turn_waiting(game, event, now),
        GamePhase::QuestionActive => lemma_turn_active(game, event, now),
        GamePhase::AnswerReveal => lemma_turn_reveal(game, event, now),
        GamePhase::WaitingForNext => lemma_turn_reveal(game, event, now),
        GamePhase::Results => lemma_turn_results(game, event, now),
    }
}

/// The order of the phases within one question.
pub open spec fn phase_rank(phase: GamePhase) -> nat {
    match phase {
        GamePhase::WaitingForPlayer => 0,
        GamePhase::QuestionActive => 1,
        GamePhase::AnswerReveal => 2,
        GamePhase::WaitingForNext => 3,
        GamePhase::Results => 4,
    }
}

/// A game never goes back: it moves on to a later question, or to a later phase of the same
/// one, or stays where it is.
pub proof fn law_only_forward(game: GameActorView, event: GameEventView, now: Reading)
    requires
        game.wf(),
        game.has_room(),
    ensures
        ({
            let after = game.turn(event, now).game;
            ||| after.question_index > game.question_index
            ||| after.question_index == game.question_index && phase_rank(after.phase)
                >= phase_rank(game.phase)
        }),
{
    match game.phase {
        GamePhase::WaitingForPlayer => lemma_turn_waiting(game, event, now),
        GamePhase::QuestionActive => lemma_turn_active(game, event, now),
        GamePhase::AnswerReveal => lemma_turn_reveal(game, event, now),
        GamePhase::WaitingForNext => lemma_turn_reveal(game, event, now),
        GamePhase::Results => lemma_turn_results(game, event, now),
    }
}

/// The points that the end of a question brings: one for the right answer.
pub open spec fn points(game: GameActorView, slot: SlotView, ended: bool) -> int {
    if ended && game.current_question() is Some && slot.answered(
        game.current_question()->0.correct_answer_id,
    ) {
        1
    } else {
        0
    }
}

/// Points are only ever won, one at a time, and only when a question ends, by those whose answer
/// to it is right.
pub proof fn law_scoring(game: GameActorView, event: GameEventView, now: Reading)
    requires
        game.wf(),
        game.has_room(),
    ensures
        ({
            let after = game.turn(event, now).game;
            let ended = ends_question(game, event, now);
            let seen = noted(game, event);
            &&& after.p1.score == game.p1.score + points(game, seen.p1, ended)
            &&& game.p2 is Some ==> after.p2->0.score == game.p2->0.score + points(
                game,
                seen.p2->0,
                ended,
            )
        }),
{
    match game.phase {
        GamePhase::WaitingForPlayer => lemma_turn_waiting(game, event, now),
        GamePhase::QuestionActive => lemma_turn_active(game, event, now),
        GamePhase::AnswerReveal => lemma_turn_reveal(game, event, now),
        GamePhase::WaitingForNext => lemma_turn_reveal(game, event, now),
        GamePhase::Results => lemma_turn_results(game, event, now),
    }
}

/// An answer that has been put down stays as it is for as long as the question is active.
pub proof fn law_answer_locked(game: GameActorView, event: GameEventView, now: Reading)
    requires
        game.wf(),
        game.has_room(),
        game.phase == GamePhase::QuestionActive,
        !ends_question(game, event, now),
    ensures
        ({
            let after = game.turn(event, now).game;
            &&& game.p1.answer is Some ==> after.p1.answer == game.p1.answer
            &&& game.p2->0.answer is Some ==> after.p2->0.answer == game.p2->0.answer
        }),
{
    lemma_turn_active(game, event, now);
}

/// An active question ends only when its time is up or when everybody who is there has answered.
pub proof fn law_ends_when_all_done(game: GameActorView, cmd: GameCmdView, now: Reading)
    requires
        game.wf(),
        game.has_room(),
        ends_question(game, GameEventView::Cmd(cmd), now),
    ensures
        noted(game, GameEventView::Cmd(cmd)).all_done(),
{
    lemma_turn_active(game, GameEventView::Cmd(cmd), now);
}

/// An active question ends as soon as everybody who is there has answered.
pub proof fn law_all_done_ends(game: GameActorView, cmd: GameCmdView, now: Reading)
    requires
        game.wf(),
        game.has_room(),
        game.phase == GamePhase::QuestionActive,
        game.current_question() is Some,
        noted(game, GameEventView::Cmd(cmd)).all_done(),
    ensures
        ends_question(game, GameEventView::Cmd(cmd), now),
{
    lemma_turn_active(game, GameEventView::Cmd(cmd), now);
}

/// When time is up the question ends, the answer is revealed to everybody who is there, and the
/// game waits for them to go on.
pub proof fn law_time_up_reveals(game: GameActorView, now: Reading)
    requires
        game.wf(),
        game.has_room(),
        game.phase == GamePhase::QuestionActive,
        game.current_question() is Some,
    ensures
        ({
            let step = game.turn(GameEventView::TimeExpired, now);
            let q = game.current_question()->0;
            &&& step.game.phase == GamePhase::AnswerReveal
            &&& step.game.question_index == game.question_index
            &&& step.sent == step.game.broadcast(
                announcement(
                    ServerBodyView::QuestionRevealed {
                        game_id: game.id,
                        question_id: q.question.id,
                        correct_answer_id: q.correct_answer_id,
                        players: step.game.players(Some(q.correct_answer_id)),
                        reason: RevealReason::TimeExpired,
                    },
                ),
            )
        }),
{
    lemma_reveal(game, RevealReason::TimeExpired, now);
}

/// Once the answer has been shown, the game goes on to the next question, or to the results, as
/// soon as everybody who is there is ready, and not before.
pub proof fn law_ready_goes_on(
    game: GameActorView,
    player_id: Seq<char>,
    request_id: Option<Seq<char>>,
    now: Reading,
)
    requires
        game.wf(),
        game.phase == GamePhase::AnswerReveal || game.phase == GamePhase::WaitingForNext,
    ensures
        ({
            let question_id = game.current_question()->0.question.id;
            let marked = game.with_slot_of(
                player_id,
                |slot: SlotView| SlotView { is_ready_for_next: true, ..slot },
            );
            let after = game.handle_cmd(
                GameCmdView::NextReady { player_id, question_id, request_id },
                now,
            ).game;
            if marked.all_ready() {
                &&& after.question_index == game.question_index + 1
                &&& after.phase == if after.question_index < game.questions.len() {
                    GamePhase::QuestionActive
                } else {
                    GamePhase::Results
                }
            } else {
                &&& after.question_index == game.question_index
                &&& after.phase == GamePhase::WaitingForNext
            }
        }),
{
    let marked = game.with_slot_of(
        player_id,
        |slot: SlotView| SlotView { is_ready_for_next: true, ..slot },
    );
    lemma_advance(marked, now);
}

/// The timer runs exactly while there is a question to answer. It is set when the question
/// starts, to run out when the time for the question is up, and is not touched until it ends.
pub proof fn law_timer(game: GameActorView, event: GameEventView, now: Reading)
    requires
        game.wf(),
        game.has_room(),
    ensures
        ({
            let after = game.turn(event, now).game;
            &&& after.deadline is Some <==> after.phase == GamePhase::QuestionActive
                && after.current_question() is Some
            &&& after.deadline is Some ==> after.deadline == if game.phase
                == GamePhase::QuestionActive && game.question_index == after.question_index {
                game.deadline
            } else {
                Some(deadline_after(now.elapsed as nat))
            }
        }),
{
    match game.phase {
        GamePhase::WaitingForPlayer => lemma_turn_waiting(game, event, now),
        GamePhase::QuestionActive => lemma_turn_active(game, event, now),
        GamePhase::AnswerReveal => lemma_turn_reveal(game, event, now),
        GamePhase::WaitingForNext => lemma_turn_reveal(game, event, now),
        GamePhase::Results => lemma_turn_results(game, event, now),
    }
}

/// A question is put to the players exactly when the timer is set.
pub proof fn law_puts_question(game: GameActorView, event: GameEventView, now: Reading)
    requires
        game.wf(),
        game.has_room(),
    ensures
        ({
            let after = game.turn(event, now).game;
            game.puts_question(event) <==> {
                &&& after.deadline is Some
                &&& game.phase == GamePhase::QuestionActive ==> after.question_index
                    != game.question_index
            }
        }),
{
    law_timer(game, event, now);
    match event {
        GameEventView::Cmd(GameCmdView::Join { player_id, name, out_tx, request_id }) => {
            let joined = GameActorView {
                p2: Some(SlotView::new(player_id, name, out_tx)),
                phase: GamePhase::QuestionActive,
                ..game
            };
            lemma_start(joined, now);
        },
        GameEventView::Cmd(GameCmdView::NextReady { player_id, question_id, request_id }) => {
            if game.answer_shown() {
                lemma_advance(
                    game.with_slot_of(
                        player_id,
                        |slot: SlotView| SlotView { is_ready_for_next: true, ..slot },
                    ),
                    now,
                );
            }
        },
        GameEventView::Cmd(GameCmdView::Disconnect { player_id }) => {
            if game.answer_shown() {
                lemma_advance(
                    noted(game, event).with_slots(|slot: SlotView| slot.excused()),
                    now,
                );
            } else if game.phase == GamePhase::QuestionActive {
                lemma_turn_active(game, event, now);
            }
        },
        _ => {
            if game.phase == GamePhase::QuestionActive {
                lemma_turn_active(game, event, now);
            }
            reveal(GameActorView::reveal_answer);
        },
    }
}

/// What an event does depends on the time only where it puts a question to the players.
pub proof fn law_time_is_for_questions(
    game: GameActorView,
    event: GameEventView,
    a: Reading,
    b: Reading,
)
    requires
        game.wf(),
        game.has_room(),
        !game.puts_question(event),
    ensures
        game.turn(event, a) == game.turn(event, b),
{
    reveal(GameActorView::start_question);
    reveal(GameActorView::advance);
    reveal(GameActorView::reveal_answer);
}

/// A game that nobody is left to play does not wait for anything: it has been given up by its
/// host, has come to its results, or never had a question.
pub proof fn law_deserted_is_over(game: GameActorView)
    requires
        game.wf(),
        game.deserted(),
    ensures
        game.is_over(),
        game.phase == GamePhase::WaitingForPlayer || game.phase == GamePhase::Results
            || game.questions.len() == 0,
{
}

/// After the results nothing is won or lost any more: they stay as they were sent.
pub proof fn law_results_final(game: GameActorView, event: GameEventView, now: Reading)
    requires
        game.wf(),
        game.phase == GamePhase::Results,
    ensures
        ({
            let after = game.turn(event, now).game;
            &&& after.phase == GamePhase::Results
            &&& after.p1.score == game.p1.score
            &&& after.p2->0.score == game.p2->0.score
            &&& after.results_message() == game.results_message()
        }),
{
    lemma_turn_results(game, event, now);
    reveal(GameActorView::reveal_answer);
}

/// The winner has more points than the other player; there is none only where both have the
/// same.
pub proof fn law_winner(game: GameActorView)
    requires
        game.p2 is Some,
    ensures
        match game.winner() {
            Some(winner) => {
                ||| winner == game.p1 && game.p1.score > game.p2->0.score
                ||| winner == game.p2->0 && game.p2->0.score > game.p1.score
            },
            None => game.p1.score == game.p2->0.score,
        },
{
}

/// That somebody has disconnected is noted once: to be told again changes nothing, and nothing is
/// sent.
pub proof fn law_disconnect_once(game: GameActorView, player_id: Seq<char>, now: Reading)
    requires
        game.wf(),
        game.has_room(),
    ensures
        ({
            let once = game.handle_disconnect(player_id, now).game;
            let again = once.handle_disconnect(player_id, now);
            again.game == once && again.sent.len() == 0
        }),
{
    let event = GameEventView::Cmd(GameCmdView::Disconnect { player_id });
    match game.phase {
        GamePhase::WaitingForPlayer => lemma_turn_waiting(game, event, now),
        GamePhase::QuestionActive => lemma_turn_active(game, event, now),
        GamePhase::AnswerReveal => lemma_turn_reveal(game, event, now),
        GamePhase::WaitingForNext => lemma_turn_reveal(game, event, now),
        GamePhase::Results => lemma_turn_results(game, event, now),
    }
    let once = game.turn(event, now).game;
    assert(once.with_slot_of(player_id, |slot: SlotView| SlotView { out_tx: None, ..slot })
        == once);
    reveal(GameActorView::reveal_answer);
}

/// A game sends only to its players who are still there, and to one whom it turns away.
pub proof fn law_recipients(game: GameActorView, event: GameEventView, now: Reading)
    requires
        game.wf(),
        game.has_room(),
    ensures
        ({
            let step = game.turn(event, now);
            match turned_away(game, event) {
                Some(out_tx) => step.sent.len() == 1 && step.sent[0].to == out_tx,
                None => reaches_players(step.game, step.sent),
            }
        }),
{
    match game.phase {
        GamePhase::WaitingForPlayer => lemma_turn_waiting(game, event, now),
        GamePhase::QuestionActive => lemma_turn_active(game, event, now),
        GamePhase::AnswerReveal => lemma_turn_reveal(game, event, now),
        GamePhase::WaitingForNext => lemma_turn_reveal(game, event, now),
        GamePhase::Results => lemma_turn_results(game, event, now),
    }
}

/// An answer that is refused changes nothing. The one who gave it, and nobody else, is told why,
/// under the request's own id; a stranger to the game is told nothing.
pub proof fn law_refused_submit(
    game: GameActorView,
    player_id: Seq<char>,
    question_id: Seq<char>,
    answer_id: Seq<char>,
    request_id: Option<Seq<char>>,
    now: Reading,
)
    requires
        game.submit_error(player_id, question_id) is Some,
    ensures
        ({
            let step = game.handle_cmd(
                GameCmdView::Submit { player_id, question_id, answer_id, request_id },
                now,
            );
            let (code, message) = game.submit_error(player_id, question_id)->0;
            &&& step.game == game
            &&& step.sent == match game.slot_of(player_id) {
                Some(slot) => deliver(slot, refusal(request_id, code, message)),
                None => seq![],
            }
        }),
{
}

/// One who asks for the next question before the answer has been shown, or names another question
/// than the one that was shown, is refused: nothing changes, and the one who asked, and nobody
/// else, is told why, under the request's own id; a stranger to the game is told nothing.
pub proof fn law_refused_next_ready(
    game: GameActorView,
    player_id: Seq<char>,
    question_id: Seq<char>,
    request_id: Option<Seq<char>>,
    now: Reading,
)
    requires
        game.wf(),
        ({
            let shown = game.phase == GamePhase::AnswerReveal || game.phase
                == GamePhase::WaitingForNext;
            !shown || game.current_question()->0.question.id != question_id
        }),
    ensures
        ({
            let step = game.handle_cmd(
                GameCmdView::NextReady { player_id, question_id, request_id },
                now,
            );
            let shown = game.phase == GamePhase::AnswerReveal || game.phase
                == GamePhase::WaitingForNext;
            let message = if shown {
                "Stale questionId."@
            } else {
                "Not in reveal phase."@
            };
            &&& step.game == game
            &&& step.sent == match game.slot_of(player_id) {
                Some(slot) => deliver(
                    slot,
                    refusal(request_id, ErrorCode::InvalidGamePhase, message),
                ),
                None => seq![],
            }
        }),
{
}

/// A game that has an opponent takes no other: whoever asks is told so and nothing changes.
pub proof fn law_full_game(
    game: GameActorView,
    player_id: Seq<char>,
    name: Seq<char>,
    out_tx: OutTx,
    request_id: Option<Seq<char>>,
    now: Reading,
)
    requires
        game.wf(),
        game.p2 is Some,
    ensures
        ({
            let step = game.handle_cmd(
                GameCmdView::Join { player_id, name, out_tx, request_id },
                now,
            );
            &&& step.game == game
            &&& step.sent.len() == 1
            &&& step.sent[0].to == out_tx
            &&& step.sent[0].message.request_id == request_id
            &&& step.sent[0].message.body matches ServerBodyView::Error { code, .. } && code
                == ErrorCode::GameFull
        }),
{
}

/// The answer to a question is shown only when the question ends.
pub proof fn law_answer_secret(game: GameActorView, event: GameEventView, now: Reading, i: int)
    requires
        game.wf(),
        game.has_room(),
        0 <= i < game.turn(event, now).sent.len(),
        discloses(game.turn(event, now).sent[i].message),
    ensures
        ends_question(game, event, now),
        game.turn(event, now).sent[i].message.body->QuestionRevealed_question_id
            == game.current_question()->0.question.id,
{
    match game.phase {
        GamePhase::WaitingForPlayer => lemma_turn_waiting(game, event, now),
        GamePhase::QuestionActive => lemma_turn_active(game, event, now),
        GamePhase::AnswerReveal => lemma_turn_reveal(game, event, now),
        GamePhase::WaitingForNext => lemma_turn_reveal(game, event, now),
        GamePhase::Results => lemma_turn_results(game, event, now),
    }
}

/// Whether two games differ at most in which answers are right.
pub open spec fn same_but_for_answers(a: GameActorView, b: GameActorView) -> bool {
    &&& a.questions.len() == b.questions.len()
    &&& forall|i: int|
        0 <= i < a.questions.len() ==> (#[trigger] a.questions[i]).question
            == b.questions[i].question
    &&& b == GameActorView { questions: b.questions, ..a }
}

/// A question is put to the players in the same words whichever answer is right.
pub proof fn law_question_hides_answer(a: GameActorView, b: GameActorView, now: Reading)
    requires
        same_but_for_answers(a, b),
    ensures
        a.start_question(now).sent == b.start_question(now).sent,
        same_but_for_answers(a.start_question(now).game, b.start_question(now).game),
{
    reveal(GameActorView::start_question);
    if a.question_index < a.questions.len() {
        assert(a.questions[a.question_index as int].question
            == b.questions[b.question_index as int].question);
    }
}

proof fn lemma_advance_hides_answer(a: GameActorView, b: GameActorView, now: Reading)
    requires
        same_but_for_answers(a, b),
    ensures
        a.advance(now).sent == b.advance(now).sent,
        same_but_for_answers(a.advance(now).game, b.advance(now).game),
{
    reveal(GameActorView::advance);
    reveal(GameActorView::emit_results);
    law_question_hides_answer(
        GameActorView { question_index: a.question_index + 1, ..a },
        GameActorView { question_index: b.question_index + 1, ..b },
        now,
    );
}

/// Until a question ends nothing that is sent depends on which answer is right, to this question
/// or to a later one.
pub proof fn law_answer_has_no_influence(
    a: GameActorView,
    b: GameActorView,
    event: GameEventView,
    now: Reading,
)
    requires
        a.wf(),
        a.has_room(),
        same_but_for_answers(a, b),
        !ends_question(a, event, now),
    ensures
        a.turn(event, now).sent == b.turn(event, now).sent,
        same_but_for_answers(a.turn(event, now).game, b.turn(event, now).game),
{
    if a.current_question() is Some {
        assert(a.current_question()->0.question == b.current_question()->0.question);
    }
    match event {
        GameEventView::Cmd(GameCmdView::Join { player_id, name, out_tx, request_id }) => {
            let p2 = Some(SlotView::new(player_id, name, out_tx));
            law_question_hides_answer(
                GameActorView { p2, phase: GamePhase::QuestionActive, ..a },
                GameActorView { p2, phase: GamePhase::QuestionActive, ..b },
                now,
            );
        },
        GameEventView::Cmd(GameCmdView::NextReady { player_id, question_id, request_id }) => {
            let mark = |slot: SlotView| SlotView { is_ready_for_next: true, ..slot };
            lemma_advance_hides_answer(
                a.with_slot_of(player_id, mark),
                b.with_slot_of(player_id, mark),
                now,
            );
        },
        GameEventView::Cmd(GameCmdView::Disconnect { player_id }) => {
            let excuse = |slot: SlotView| slot.excused();
            lemma_advance_hides_answer(
                noted(a, event).with_slots(excuse),
                noted(b, event).with_slots(excuse),
                now,
            );
        },
        _ => {},
    }
    if a.phase == GamePhase::QuestionActive {
        lemma_turn_active(a, event, now);
    }
    reveal(GameActorView::reveal_answer);
}

/// As long as the opponent is there and has yet to answer, nothing that is sent depends on which
/// answer a player gives.
pub proof fn law_given_answer_secret(
    game: GameActorView,
    player_id: Seq<char>,
    question_id: Seq<char>,
    first: Seq<char>,
    second: Seq<char>,
    request_id: Option<Seq<char>>,
    now: Reading,
)
    requires
        game.wf(),
        game.p2 is Some,
        ({
            let opponent = if game.p1.id == player_id {
                game.p2->0
            } else {
                game.p1
            };
            opponent.is_connected() && opponent.answer is None
        }),
    ensures
        game.handle_submit(player_id, question_id, first, request_id, now).sent
            == game.handle_submit(player_id, question_id, second, request_id, now).sent,
{
}

/// The results are sent when the last question is over, to everybody who is there.
pub proof fn law_results_sent(game: GameActorView, event: GameEventView, now: Reading)
    requires
        game.wf(),
        game.has_room(),
        game.phase != GamePhase::Results,
        game.turn(event, now).game.phase == GamePhase::Results,
        !game.turn(event, now).game.deserted(),
    ensures
        ({
            let step = game.turn(event, now);
            &&& game.question_index + 1 == game.questions.len()
            &&& step.sent == step.game.emit_results().sent
        }),
{
    match game.phase {
        GamePhase::WaitingForPlayer => lemma_turn_waiting(game, event, now),
        GamePhase::QuestionActive => lemma_turn_active(game, event, now),
        GamePhase::AnswerReveal => lemma_turn_reveal(game, event, now),
        GamePhase::WaitingForNext => lemma_turn_reveal(game, event, now),
        GamePhase::Results => lemma_turn_results(game, event, now),
    }
}

/// What a series of events, each at its own time, makes of a game.
pub open spec fn play(game: GameActorView, events: Seq<(GameEventView, Reading)>) -> GameActorView
    decreases events.len(),
{
    if events.len() == 0 {
        game
    } else {
        play(game, events.drop_last()).turn(events.last().0, events.last().1).game
    }
}

/// Whatever happens to a game that has no more questions than the score can count: it stays
/// well-formed, remains the same game, and always has room for the next point.
pub proof fn law_history(game: GameActorView, events: Seq<(GameEventView, Reading)>)
    requires
        game.wf(),
        game.questions.len() <= u16::MAX,
    ensures
        play(game, events).wf(),
        play(game, events).has_room(),
        same_game(game, play(game, events)),
    decreases events.len(),
{
    if events.len() > 0 {
        let before = play(game, events.drop_last());
        law_history(game, events.drop_last());
        law_turn_keeps_wf(before, events.last().0, events.last().1);
        law_identity_kept(before, events.last().0, events.last().1);
    }
    law_room_for_points(play(game, events));
}

} // verus!
