//! The mathematical model of a game: its states, and what each event makes of them.
use vstd::prelude::*;
use crate::clock::{deadline_after, Reading, Timestamp};
use crate::messages::{
    AnswerView, ErrorCode, GamePhase, GameStateView, GameView, PlayerView, RevealReason,
    ServerBodyView, ServerMessageView,
};
use crate::questions::StoredQuestionView;

verus! {

/// The number of a queue of outgoing messages.
pub type OutTx = u64;

/// The model of a [`crate::game::Delivery`].
pub struct DeliveryView {
    pub to: OutTx,
    pub message: ServerMessageView,
}

/// The model of a [`crate::game::GameCmd`].
pub enum GameCmdView {
    Join { player_id: Seq<char>, name: Seq<char>, out_tx: OutTx, request_id: Option<Seq<char>> },
    Submit {
        player_id: Seq<char>,
        question_id: Seq<char>,
        answer_id: Seq<char>,
        request_id: Option<Seq<char>>,
    },
    NextReady {
        player_id: Seq<char>,
        question_id: Seq<char>,
        request_id: Option<Seq<char>>,
    },
    LobbyReturn,
    Disconnect { player_id: Seq<char> },
}

/// The model of a [`crate::game::GameEvent`].
pub enum GameEventView {
    Cmd(GameCmdView),
    TimeExpired,
    Closed,
}

/// The model of a [`crate::game::PlayerSlot`].
pub struct SlotView {
    pub id: Seq<char>,
    pub name: Seq<char>,
    pub score: u16,
    pub out_tx: Option<OutTx>,
    pub answer: Option<Seq<char>>,
    pub is_ready_for_next: bool,
}

impl SlotView {
    /// The place of a player who has just come in.
    pub open spec fn new(id: Seq<char>, name: Seq<char>, out_tx: OutTx) -> SlotView {
        SlotView {
            id,
            name,
            score: 0,
            out_tx: Some(out_tx),
            answer: None,
            is_ready_for_next: false,
        }
    }

    pub open spec fn is_connected(self) -> bool {
        self.out_tx is Some
    }

    /// The current question waits for nothing more from this player.
    pub open spec fn done(self) -> bool {
        self.answer is Some || !self.is_connected()
    }

    /// The next question waits for nothing more from this player.
    pub open spec fn ready(self) -> bool {
        self.is_ready_for_next || !self.is_connected()
    }

    pub open spec fn answered(self, answer_id: Seq<char>) -> bool {
        self.answer == Some(answer_id)
    }

    pub open spec fn to_player(self, did_answer_correctly: Option<bool>) -> PlayerView {
        PlayerView {
            id: self.id,
            name: self.name,
            score: Some(self.score),
            is_ready_for_next: Some(self.is_ready_for_next),
            did_answer_correctly,
        }
    }

    /// The player as shown when an answer is revealed, or otherwise.
    pub open spec fn shown(self, reveal_correct: Option<Seq<char>>) -> PlayerView {
        match reveal_correct {
            Some(correct) => self.to_player(Some(self.answered(correct))),
            None => self.to_player(None),
        }
    }

    /// Before a question nothing is answered and nobody is ready.
    pub open spec fn cleared(self) -> SlotView {
        SlotView { answer: None, is_ready_for_next: false, ..self }
    }

    /// One point for the right answer.
    pub open spec fn scored(self, correct: Seq<char>) -> SlotView {
        if self.answered(correct) {
            SlotView { score: (self.score + 1) as u16, ..self }
        } else {
            self
        }
    }

    /// A player who is gone counts as ready.
    pub open spec fn excused(self) -> SlotView {
        SlotView { is_ready_for_next: self.ready(), ..self }
    }

    /// A point more can be counted.
    pub open spec fn has_room(self) -> bool {
        self.score < u16::MAX
    }
}

/// What an event makes of a game, and what is sent.
pub struct Step {
    pub game: GameActorView,
    pub sent: Seq<DeliveryView>,
}

impl Step {
    /// The same step with `sent` sent before it.
    pub open spec fn after(self, sent: Seq<DeliveryView>) -> Step {
        Step { game: self.game, sent: sent + self.sent }
    }
}

/// The model of a [`crate::game::GameActor`].
pub struct GameActorView {
    pub id: Seq<char>,
    pub topic: Seq<char>,
    pub questions: Seq<StoredQuestionView>,
    pub question_index: nat,
    pub phase: GamePhase,
    pub p1: SlotView,
    pub p2: Option<SlotView>,
    /// The game clock's reading at which the active question runs out.
    pub deadline: Option<nat>,
    pub finished: bool,
}

/// The model of a [`crate::game::GameInit`].
pub struct GameInitView {
    pub id: Seq<char>,
    pub topic: Seq<char>,
    pub questions: Seq<StoredQuestionView>,
    pub host_player_id: Seq<char>,
    pub host_name: Seq<char>,
    pub host_out_tx: OutTx,
    pub host_request_id: Option<Seq<char>>,
    pub created_at: Timestamp,
}

impl GameInitView {
    /// The new game, in which the host waits for an opponent.
    pub open spec fn game(self) -> GameActorView {
        GameActorView {
            id: self.id,
            topic: self.topic,
            questions: self.questions,
            question_index: 0,
            phase: GamePhase::WaitingForPlayer,
            p1: SlotView::new(self.host_player_id, self.host_name, self.host_out_tx),
            p2: None,
            deadline: None,
            finished: false,
        }
    }

    /// The new game as the lobby lists it.
    pub open spec fn summary(self) -> GameView {
        GameView {
            id: self.id,
            host_name: self.host_name,
            topic: self.topic,
            question_count: wire_count(self.questions.len()),
            created_at: self.created_at,
        }
    }

    /// The message that tells the host about the new game.
    pub open spec fn greeting(self) -> DeliveryView {
        DeliveryView {
            to: self.host_out_tx,
            message: ServerMessageView {
                request_id: self.host_request_id,
                body: ServerBodyView::GameCreated { game: self.game().snapshot() },
            },
        }
    }
}

/// A message to a slot's queue, if the player is there to get it.
pub open spec fn deliver(slot: SlotView, message: ServerMessageView) -> Seq<DeliveryView> {
    match slot.out_tx {
        Some(to) => seq![DeliveryView { to, message }],
        None => seq![],
    }
}

/// A message that answers no request.
pub open spec fn announcement(body: ServerBodyView) -> ServerMessageView {
    ServerMessageView { request_id: None, body }
}

/// An answer to a request that is refused.
pub open spec fn refusal(
    request_id: Option<Seq<char>>,
    code: ErrorCode,
    message: Seq<char>,
) -> ServerMessageView {
    ServerMessageView { request_id, body: ServerBodyView::Error { code, message } }
}

/// A count as the wire carries it, in 16 bits.
pub open spec fn wire_count(n: nat) -> u16 {
    n as u16
}

impl GameActorView {
    /// The question that the game is at.
    pub open spec fn current_question(self) -> Option<StoredQuestionView> {
        if self.question_index < self.questions.len() {
            Some(self.questions[self.question_index as int])
        } else {
            None
        }
    }

    /// The players, host first.
    pub open spec fn players(self, reveal_correct: Option<Seq<char>>) -> Seq<PlayerView> {
        match self.p2 {
            Some(p2) => seq![self.p1.shown(reveal_correct), p2.shown(reveal_correct)],
            None => seq![self.p1.shown(reveal_correct)],
        }
    }

    pub open spec fn snapshot(self) -> GameStateView {
        GameStateView {
            id: self.id,
            topic: self.topic,
            question_count: wire_count(self.questions.len()),
            question_index: wire_count(self.question_index),
            phase: self.phase,
            players: self.players(None),
        }
    }

    /// The place of the player with this id; the host's, where both have it.
    pub open spec fn slot_of(self, player_id: Seq<char>) -> Option<SlotView> {
        if self.p1.id == player_id {
            Some(self.p1)
        } else if self.p2 is Some && self.p2->0.id == player_id {
            self.p2
        } else {
            None
        }
    }

    /// A message to one player. A stranger to the game gets nothing.
    pub open spec fn send_to(
        self,
        player_id: Seq<char>,
        message: ServerMessageView,
    ) -> Seq<DeliveryView> {
        match self.slot_of(player_id) {
            Some(slot) => deliver(slot, message),
            None => seq![],
        }
    }

    /// A message to everyone who is there.
    pub open spec fn broadcast(self, message: ServerMessageView) -> Seq<DeliveryView> {
        match self.p2 {
            Some(p2) => deliver(self.p1, message) + deliver(p2, message),
            None => deliver(self.p1, message),
        }
    }

    /// The game as it is, with a refusal to the one who asked.
    pub open spec fn refuse(
        self,
        player_id: Seq<char>,
        request_id: Option<Seq<char>>,
        code: ErrorCode,
        message: Seq<char>,
    ) -> Step {
        Step { game: self, sent: self.send_to(player_id, refusal(request_id, code, message)) }
    }

    pub open spec fn all_done(self) -> bool {
        self.p1.done() && (self.p2 is Some ==> self.p2->0.done())
    }

    pub open spec fn all_ready(self) -> bool {
        self.p1.ready() && (self.p2 is Some ==> self.p2->0.ready())
    }

    pub open spec fn any_answer(self) -> bool {
        self.p1.answer is Some || (self.p2 is Some && self.p2->0.answer is Some)
    }

    /// Nobody is left to play.
    pub open spec fn deserted(self) -> bool {
        !self.p1.is_connected() && (self.p2 is Some ==> !self.p2->0.is_connected())
    }

    /// The game with each player's place changed in the same way.
    pub open spec fn with_slots(self, f: spec_fn(SlotView) -> SlotView) -> GameActorView {
        GameActorView {
            p1: f(self.p1),
            p2: match self.p2 {
                Some(p2) => Some(f(p2)),
                None => None,
            },
            ..self
        }
    }

    /// The game with the place of the player with this id changed, if there is one.
    pub open spec fn with_slot_of(
        self,
        player_id: Seq<char>,
        f: spec_fn(SlotView) -> SlotView,
    ) -> GameActorView {
        if self.p1.id == player_id {
            GameActorView { p1: f(self.p1), ..self }
        } else if self.p2 is Some && self.p2->0.id == player_id {
            GameActorView { p2: Some(f(self.p2->0)), ..self }
        } else {
            self
        }
    }

    /// A game that nobody is left to play runs through its remaining questions: nobody answers,
    /// everybody counts as ready.
    pub open spec fn run_out(self) -> GameActorView {
        let all_ready = self.with_slots(
            |slot: SlotView| SlotView { answer: None, is_ready_for_next: true, ..slot },
        );
        GameActorView {
            question_index: self.questions.len(),
            phase: GamePhase::Results,
            deadline: None,
            ..all_ready
        }
    }

    /// The question that the game is at becomes active. Without a question there is nothing to
    /// wait for and nothing to send.
    #[verifier::opaque]
    pub open spec fn start_question(self, now: Reading) -> Step {
        let cleared = self.with_slots(|slot: SlotView| slot.cleared());
        let game = GameActorView {
            phase: GamePhase::QuestionActive,
            deadline: Some(deadline_after(now.elapsed as nat)),
            ..cleared
        };
        match game.current_question() {
            None => Step { game: GameActorView { deadline: None, ..game }, sent: seq![] },
            Some(q) => {
                if game.p2 is Some && game.deserted() {
                    Step { game: game.run_out(), sent: seq![] }
                } else {
                    Step {
                        game,
                        sent: game.broadcast(
                            announcement(
                                ServerBodyView::QuestionStarted {
                                    game_id: game.id,
                                    question_index: wire_count(game.question_index),
                                    question_count: wire_count(game.questions.len()),
                                    question_ends_at: now.question_ends_at(),
                                    question: q.question,
                                    players: game.players(None),
                                },
                            ),
                        ),
                    }
                }
            },
        }
    }

    /// Who has won: the one with more points, if there is one, and a host without an opponent.
    pub open spec fn winner(self) -> Option<SlotView> {
        match self.p2 {
            Some(p2) => if self.p1.score > p2.score {
                Some(self.p1)
            } else if p2.score > self.p1.score {
                Some(p2)
            } else {
                None
            },
            None => Some(self.p1),
        }
    }

    /// What is sent when the game is over.
    pub open spec fn results_message(self) -> ServerMessageView {
        announcement(
            ServerBodyView::GameResults {
                game_id: self.id,
                players: self.players(None),
                winner_player_id: match self.winner() {
                    Some(slot) => Some(slot.id),
                    None => None,
                },
                winner_label: match self.winner() {
                    Some(slot) => slot.name + " wins"@,
                    None => "Draw game"@,
                },
            },
        )
    }

    #[verifier::opaque]
    pub open spec fn emit_results(self) -> Step {
        let game = GameActorView { phase: GamePhase::Results, ..self };
        Step { game, sent: game.broadcast(game.results_message()) }
    }

    /// On to the next question, or to the results.
    #[verifier::opaque]
    pub open spec fn advance(self, now: Reading) -> Step {
        let game = GameActorView { question_index: self.question_index + 1, ..self };
        if game.question_index >= game.questions.len() {
            game.emit_results()
        } else {
            game.start_question(now)
        }
    }

    /// Advances if the answer has been revealed and everybody is ready.
    pub open spec fn maybe_advance_after_ready(self, now: Reading) -> Step {
        if (self.phase == GamePhase::AnswerReveal || self.phase == GamePhase::WaitingForNext)
            && self.all_ready() {
            self.advance(now)
        } else {
            Step { game: self, sent: seq![] }
        }
    }

    /// The active question ends: points are counted and the answer is shown. Where everybody is
    /// gone the game goes on by itself.
    #[verifier::opaque]
    pub open spec fn reveal_answer(self, reason: RevealReason, now: Reading) -> Step {
        match self.current_question() {
            Some(q) => if self.phase == GamePhase::QuestionActive {
                let counted = self.with_slots(
                    |slot: SlotView| slot.scored(q.correct_answer_id).excused(),
                );
                let game = GameActorView {
                    phase: GamePhase::AnswerReveal,
                    deadline: None,
                    ..counted
                };
                game.maybe_advance_after_ready(now).after(
                    game.broadcast(
                        announcement(
                            ServerBodyView::QuestionRevealed {
                                game_id: game.id,
                                question_id: q.question.id,
                                correct_answer_id: q.correct_answer_id,
                                players: game.players(Some(q.correct_answer_id)),
                                reason,
                            },
                        ),
                    ),
                )
            } else {
                Step { game: self, sent: seq![] }
            },
            None => Step { game: self, sent: seq![] },
        }
    }

    /// Reveals the answer if the active question waits for nobody any more.
    pub open spec fn maybe_auto_reveal(self, now: Reading) -> Step {
        if self.phase == GamePhase::QuestionActive && self.p2 is Some && self.all_done() {
            if self.any_answer() {
                self.reveal_answer(RevealReason::BothAnswered, now)
            } else {
                self.reveal_answer(RevealReason::TimeExpired, now)
            }
        } else {
            Step { game: self, sent: seq![] }
        }
    }

    pub open spec fn handle_join(
        self,
        player_id: Seq<char>,
        name: Seq<char>,
        out_tx: OutTx,
        request_id: Option<Seq<char>>,
        now: Reading,
    ) -> Step {
        if self.phase != GamePhase::WaitingForPlayer || self.p2 is Some {
            Step {
                game: self,
                sent: seq![
                    DeliveryView {
                        to: out_tx,
                        message: refusal(
                            request_id,
                            ErrorCode::GameFull,
                            "That game already has two players."@,
                        ),
                    },
                ],
            }
        } else {
            let game = GameActorView {
                p2: Some(SlotView::new(player_id, name, out_tx)),
                phase: GamePhase::QuestionActive,
                ..self
            };
            let joined = ServerMessageView {
                request_id,
                body: ServerBodyView::GameJoined { game: game.snapshot() },
            };
            let player_joined = announcement(
                ServerBodyView::PlayerJoined {
                    game_id: game.id,
                    player: PlayerView {
                        id: player_id,
                        name,
                        score: None,
                        is_ready_for_next: None,
                        did_answer_correctly: None,
                    },
                },
            );
            game.start_question(now).after(
                game.send_to(player_id, joined) + game.broadcast(player_joined),
            )
        }
    }

    /// Why an answer is refused, if it is.
    pub open spec fn submit_error(
        self,
        player_id: Seq<char>,
        question_id: Seq<char>,
    ) -> Option<(ErrorCode, Seq<char>)> {
        if self.phase != GamePhase::QuestionActive {
            Some((ErrorCode::QuestionTimeout, "Question is no longer accepting answers."@))
        } else if self.current_question() is None {
            Some((ErrorCode::InvalidGamePhase, "No active question."@))
        } else if self.current_question()->0.question.id != question_id {
            Some((ErrorCode::InvalidGamePhase, "Stale questionId."@))
        } else if self.slot_of(player_id) is None {
            Some((ErrorCode::NotAGameMember, "Not a member of this game."@))
        } else if self.slot_of(player_id)->0.answer is Some {
            Some((ErrorCode::AnswerAlreadyLocked, "Answer already locked."@))
        } else {
            None
        }
    }

    /// A player's answer is put down.
    pub open spec fn lock_answer(
        self,
        player_id: Seq<char>,
        answer_id: Seq<char>,
    ) -> GameActorView {
        self.with_slot_of(
            player_id,
            |slot: SlotView| SlotView { answer: Some(answer_id), ..slot },
        )
    }

    pub open spec fn handle_submit(
        self,
        player_id: Seq<char>,
        question_id: Seq<char>,
        answer_id: Seq<char>,
        request_id: Option<Seq<char>>,
        now: Reading,
    ) -> Step {
        match self.submit_error(player_id, question_id) {
            Some((code, message)) => self.refuse(player_id, request_id, code, message),
            None => {
                let game = self.lock_answer(player_id, answer_id);
                let accepted = ServerMessageView {
                    request_id,
                    body: ServerBodyView::AnswerAccepted(
                        AnswerView { game_id: game.id, question_id, player_id, locked: Some(true) },
                    ),
                };
                let locked = announcement(
                    ServerBodyView::AnswerLocked(
                        AnswerView { game_id: game.id, question_id, player_id, locked: None },
                    ),
                );
                let sent = game.send_to(player_id, accepted) + game.broadcast(locked);
                if game.all_done() {
                    game.reveal_answer(RevealReason::BothAnswered, now).after(sent)
                } else {
                    Step { game, sent }
                }
            },
        }
    }

    pub open spec fn handle_next_ready(
        self,
        player_id: Seq<char>,
        question_id: Seq<char>,
        request_id: Option<Seq<char>>,
        now: Reading,
    ) -> Step {
        if self.phase != GamePhase::AnswerReveal && self.phase != GamePhase::WaitingForNext {
            self.refuse(
                player_id,
                request_id,
                ErrorCode::InvalidGamePhase,
                "Not in reveal phase."@,
            )
        } else if self.current_question() is None {
            Step { game: self, sent: seq![] }
        } else if self.current_question()->0.question.id != question_id {
            self.refuse(player_id, request_id, ErrorCode::InvalidGamePhase, "Stale questionId."@)
        } else {
            let game = self.with_slot_of(
                player_id,
                |slot: SlotView| SlotView { is_ready_for_next: true, ..slot },
            );
            if game.all_ready() {
                game.advance(now)
            } else {
                let waiting = GameActorView { phase: GamePhase::WaitingForNext, ..game };
                Step {
                    game: waiting,
                    sent: waiting.broadcast(
                        announcement(
                            ServerBodyView::NextWaiting {
                                game_id: waiting.id,
                                question_id,
                                players: waiting.players(None),
                            },
                        ),
                    ),
                }
            }
        }
    }

    pub open spec fn handle_disconnect(self, player_id: Seq<char>, now: Reading) -> Step {
        let game = self.with_slot_of(
            player_id,
            |slot: SlotView| SlotView { out_tx: None, ..slot },
        );
        match game.phase {
            GamePhase::WaitingForPlayer => Step {
                game: GameActorView { finished: true, ..game },
                sent: seq![],
            },
            GamePhase::QuestionActive => game.maybe_auto_reveal(now),
            GamePhase::AnswerReveal | GamePhase::WaitingForNext => game.with_slots(
                |slot: SlotView| slot.excused(),
            ).maybe_advance_after_ready(now),
            GamePhase::Results => Step { game, sent: seq![] },
        }
    }

    /// What a command does.
    pub open spec fn handle_cmd(self, cmd: GameCmdView, now: Reading) -> Step {
        match cmd {
            GameCmdView::Join { player_id, name, out_tx, request_id } => self.handle_join(
                player_id,
                name,
                out_tx,
                request_id,
                now,
            ),
            GameCmdView::Submit { player_id, question_id, answer_id, request_id } => {
                self.handle_submit(player_id, question_id, answer_id, request_id, now)
            },
            GameCmdView::NextReady { player_id, question_id, request_id } => {
                self.handle_next_ready(player_id, question_id, request_id, now)
            },
            GameCmdView::LobbyReturn => Step {
                game: GameActorView { finished: true, ..self },
                sent: seq![],
            },
            GameCmdView::Disconnect { player_id } => self.handle_disconnect(player_id, now),
        }
    }

    /// What an event does.
    pub open spec fn turn(self, event: GameEventView, now: Reading) -> Step {
        match event {
            GameEventView::Cmd(cmd) => self.handle_cmd(cmd, now),
            GameEventView::TimeExpired => self.reveal_answer(RevealReason::TimeExpired, now),
            GameEventView::Closed => Step { game: self, sent: seq![] },
        }
    }

    /// Whether the answer to the question that the game is at has been shown.
    pub open spec fn answer_shown(self) -> bool {
        self.phase == GamePhase::AnswerReveal || self.phase == GamePhase::WaitingForNext
    }

    /// Whether an event puts a question to a player who is there: an opponent comes in, or
    /// everybody is ready and there is a next question.
    pub open spec fn puts_question(self, event: GameEventView) -> bool {
        match event {
            GameEventView::Cmd(GameCmdView::Join { .. }) => {
                &&& self.phase == GamePhase::WaitingForPlayer
                &&& self.p2 is None
                &&& self.current_question() is Some
            },
            GameEventView::Cmd(GameCmdView::NextReady { player_id, question_id, .. }) => {
                &&& self.answer_shown()
                &&& self.question_index + 1 < self.questions.len()
                &&& self.current_question()->0.question.id == question_id
                &&& self.with_slot_of(
                    player_id,
                    |slot: SlotView| SlotView { is_ready_for_next: true, ..slot },
                ).all_ready()
            },
            GameEventView::Cmd(GameCmdView::Disconnect { player_id }) => {
                let left = self.with_slot_of(
                    player_id,
                    |slot: SlotView| SlotView { out_tx: None, ..slot },
                );
                &&& self.answer_shown()
                &&& self.question_index + 1 < self.questions.len()
                &&& left.all_ready()
                &&& !left.deserted()
            },
            _ => false,
        }
    }

    /// Whether the game takes no more events: it has been given up, or nobody is left.
    pub open spec fn is_over(self) -> bool {
        self.finished || self.deserted()
    }

    /// What holds of every game between two events.
    pub open spec fn wf(self) -> bool {
        &&& self.question_index <= self.questions.len()
        &&& match self.phase {
            // The host is alone and nothing has been played.
            GamePhase::WaitingForPlayer => {
                &&& self.question_index == 0
                &&& self.p2 is None
                &&& self.p1.score == 0
                &&& self.p1.answer is None
                &&& !self.p1.is_ready_for_next
                &&& self.deadline is None
            },
            // The timer runs, and somebody who is there has yet to answer.
            GamePhase::QuestionActive => {
                &&& self.p2 is Some
                &&& self.p1.score <= self.question_index
                &&& self.p2->0.score <= self.question_index
                &&& !self.p1.is_ready_for_next
                &&& !self.p2->0.is_ready_for_next
                &&& if self.question_index < self.questions.len() {
                    self.deadline is Some && !self.all_done()
                } else {
                    self.questions.len() == 0 && self.deadline is None
                }
            },
            // Somebody who is there is not ready yet.
            GamePhase::AnswerReveal | GamePhase::WaitingForNext => {
                &&& self.p2 is Some
                &&& self.question_index < self.questions.len()
                &&& self.p1.score <= self.question_index + 1
                &&& self.p2->0.score <= self.question_index + 1
                &&& self.deadline is None
                &&& self.p1.is_connected() || self.p1.is_ready_for_next
                &&& self.p2->0.is_connected() || self.p2->0.is_ready_for_next
                &&& !self.all_ready()
            },
            // Every question has been played.
            GamePhase::Results => {
                &&& self.p2 is Some
                &&& self.question_index == self.questions.len()
                &&& 0 < self.questions.len()
                &&& self.p1.score <= self.question_index
                &&& self.p2->0.score <= self.question_index
                &&& self.deadline is None
            },
        }
    }

    /// The answers that have been given can be counted.
    pub open spec fn can_count(self) -> bool {
        &&& self.p1.answer is Some ==> self.p1.has_room()
        &&& self.p2 is Some && self.p2->0.answer is Some ==> self.p2->0.has_room()
    }

    /// If the active question ends now, the points can be counted.
    pub open spec fn has_room(self) -> bool {
        self.phase == GamePhase::QuestionActive ==> {
            &&& self.p1.has_room()
            &&& self.p2 is Some ==> self.p2->0.has_room()
        }
    }
}

} // verus!
