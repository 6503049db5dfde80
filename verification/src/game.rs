//! The machine behind one game: phases, timer, scoring, reveals and results.
use vstd::prelude::*;
use crate::clock::{GameClock, Reading, Timestamp};
use crate::game_model::{
    deliver, refusal, DeliveryView, GameActorView, GameCmdView, GameEventView, GameInitView, OutTx,
    SlotView,
};
use crate::game_laws::{law_time_is_for_questions, law_turn_keeps_wf};
use crate::messages::{
    Answer, ErrorCode, GamePhase, GameState, GameView, Player, RevealReason, ServerBody,
    ServerMessage,
};
use crate::questions::StoredQuestion;
use crate::text::join;

verus! {

/// What can be asked of a game.
#[derive(Debug)]
pub enum GameCmd {
    Join { player_id: String, name: String, out_tx: OutTx, request_id: Option<String> },
    Submit {
        player_id: String,
        question_id: String,
        answer_id: String,
        request_id: Option<String>,
    },
    NextReady { player_id: String, question_id: String, request_id: Option<String> },
    LobbyReturn,
    Disconnect { player_id: String },
}

impl View for GameCmd {
    type V = GameCmdView;

    open spec fn view(&self) -> GameCmdView {
        match self {
            GameCmd::Join { player_id, name, out_tx, request_id } => GameCmdView::Join {
                player_id: player_id@,
                name: name@,
                out_tx: *out_tx,
                request_id: request_id.deep_view(),
            },
            GameCmd::Submit { player_id, question_id, answer_id, request_id } => {
                GameCmdView::Submit {
                    player_id: player_id@,
                    question_id: question_id@,
                    answer_id: answer_id@,
                    request_id: request_id.deep_view(),
                }
            },
            GameCmd::NextReady { player_id, question_id, request_id } => GameCmdView::NextReady {
                player_id: player_id@,
                question_id: question_id@,
                request_id: request_id.deep_view(),
            },
            GameCmd::LobbyReturn => GameCmdView::LobbyReturn,
            GameCmd::Disconnect { player_id } => GameCmdView::Disconnect { player_id: player_id@ },
        }
    }
}

/// What can happen to a game.
#[derive(Debug)]
pub enum GameEvent {
    /// Something is asked of it.
    Cmd(GameCmd),
    /// Its deadline has passed.
    TimeExpired,
    /// Nothing can be asked of it any more.
    Closed,
}

impl View for GameEvent {
    type V = GameEventView;

    open spec fn view(&self) -> GameEventView {
        match self {
            GameEvent::Cmd(cmd) => GameEventView::Cmd(cmd@),
            GameEvent::TimeExpired => GameEventView::TimeExpired,
            GameEvent::Closed => GameEventView::Closed,
        }
    }
}

/// A message, and the queue that it is to be put into. If the queue is full or gone, the message
/// is lost.
#[derive(Debug)]
pub struct Delivery {
    pub to: OutTx,
    pub message: ServerMessage,
}

impl View for Delivery {
    type V = DeliveryView;

    open spec fn view(&self) -> DeliveryView {
        DeliveryView { to: self.to, message: self.message@ }
    }
}

impl DeepView for Delivery {
    type V = DeliveryView;

    open spec fn deep_view(&self) -> DeliveryView {
        self@
    }
}

/// What the lobby keeps of a waiting game.
#[derive(Debug)]
pub struct GameSummary {
    pub id: String,
    pub host_name: String,
    pub topic: String,
    pub question_count: u16,
    pub created_at: Timestamp,
}

impl View for GameSummary {
    type V = GameView;

    open spec fn view(&self) -> GameView {
        GameView {
            id: self.id@,
            host_name: self.host_name@,
            topic: self.topic@,
            question_count: self.question_count,
            created_at: self.created_at,
        }
    }
}

impl Clone for GameSummary {
    fn clone(&self) -> (r: GameSummary)
        ensures
            r@ == self@,
    {
        GameSummary {
            id: self.id.clone(),
            host_name: self.host_name.clone(),
            topic: self.topic.clone(),
            question_count: self.question_count,
            created_at: self.created_at,
        }
    }
}

/// A player's place in a game. The queue is gone once the player has disconnected.
pub struct PlayerSlot {
    id: String,
    name: String,
    score: u16,
    out_tx: Option<OutTx>,
    answer: Option<String>,
    is_ready_for_next: bool,
}

impl View for PlayerSlot {
    type V = SlotView;

    closed spec fn view(&self) -> SlotView {
        SlotView {
            id: self.id@,
            name: self.name@,
            score: self.score,
            out_tx: self.out_tx,
            answer: self.answer.deep_view(),
            is_ready_for_next: self.is_ready_for_next,
        }
    }
}

impl DeepView for PlayerSlot {
    type V = SlotView;

    open spec fn deep_view(&self) -> SlotView {
        self@
    }
}

impl PlayerSlot {
    /// The place of a player who has just come in.
    pub fn new(id: String, name: String, out_tx: OutTx) -> (slot: PlayerSlot)
        ensures
            slot@ == SlotView::new(id@, name@, out_tx),
    {
        PlayerSlot {
            id,
            name,
            score: 0,
            out_tx: Some(out_tx),
            answer: None,
            is_ready_for_next: false,
        }
    }

    /// Tells whether the player is still there.
    pub fn is_connected(&self) -> (r: bool)
        ensures
            r == self@.is_connected(),
    {
        self.out_tx.is_some()
    }

    /// The player as the clients see them.
    pub fn to_player(&self, did_answer_correctly: Option<bool>) -> (p: Player)
        ensures
            p@ == self@.to_player(did_answer_correctly),
    {
        Player {
            id: self.id.clone(),
            name: self.name.clone(),
            score: Some(self.score),
            is_ready_for_next: Some(self.is_ready_for_next),
            did_answer_correctly,
        }
    }

    fn shown(&self, reveal_correct: &Option<String>) -> (p: Player)
        ensures
            p@ == self@.shown(reveal_correct.deep_view()),
    {
        match reveal_correct {
            Some(correct) => self.to_player(Some(self.answered(correct))),
            None => self.to_player(None),
        }
    }

    fn answered(&self, answer_id: &String) -> (r: bool)
        ensures
            r == self@.answered(answer_id@),
    {
        match &self.answer {
            Some(answer) => *answer == *answer_id,
            None => false,
        }
    }

    fn done(&self) -> (r: bool)
        ensures
            r == self@.done(),
    {
        self.answer.is_some() || !self.is_connected()
    }

    fn ready(&self) -> (r: bool)
        ensures
            r == self@.ready(),
    {
        self.is_ready_for_next || !self.is_connected()
    }

    fn clear(&mut self)
        ensures
            final(self)@ == old(self)@.cleared(),
    {
        self.answer = None;
        self.is_ready_for_next = false;
    }

    fn score(&mut self, correct: &String)
        requires
            old(self)@.answer is Some ==> old(self)@.has_room(),
        ensures
            final(self)@ == old(self)@.scored(correct@),
    {
        if self.answered(correct) {
            self.score = self.score + 1;
        }
    }

    fn excuse(&mut self)
        ensures
            final(self)@ == old(self)@.excused(),
    {
        if !self.is_connected() {
            self.is_ready_for_next = true;
        }
    }

    fn send(&self, message: ServerMessage, out: &mut Vec<Delivery>)
        ensures
            final(out).deep_view() == old(out).deep_view() + deliver(self@, message@),
    {
        match self.out_tx {
            Some(to) => {
                out.push(Delivery { to, message });
            },
            None => {},
        }
        assert(out.deep_view() =~= old(out).deep_view() + deliver(self@, message@));
    }
}

/// What a game is made from.
pub struct GameInit {
    pub id: String,
    pub topic: String,
    pub questions: Vec<StoredQuestion>,
    pub host_player_id: String,
    pub host_name: String,
    pub host_out_tx: OutTx,
    pub host_request_id: Option<String>,
    pub created_at: Timestamp,
}

impl View for GameInit {
    type V = GameInitView;

    open spec fn view(&self) -> GameInitView {
        GameInitView {
            id: self.id@,
            topic: self.topic@,
            questions: self.questions.deep_view(),
            host_player_id: self.host_player_id@,
            host_name: self.host_name@,
            host_out_tx: self.host_out_tx,
            host_request_id: self.host_request_id.deep_view(),
            created_at: self.created_at,
        }
    }
}

/// One game.
pub struct GameActor {
    id: String,
    topic: String,
    questions: Vec<StoredQuestion>,
    question_index: usize,
    phase: GamePhase,
    p1: PlayerSlot,
    p2: Option<PlayerSlot>,
    deadline: Option<u128>,
    finished: bool,
    clock: GameClock,
}

impl View for GameActor {
    type V = GameActorView;

    closed spec fn view(&self) -> GameActorView {
        GameActorView {
            id: self.id@,
            topic: self.topic@,
            questions: self.questions.deep_view(),
            question_index: self.question_index as nat,
            phase: self.phase,
            p1: self.p1@,
            p2: self.p2.deep_view(),
            deadline: match self.deadline {
                Some(d) => Some(d as nat),
                None => None,
            },
            finished: self.finished,
        }
    }
}

/// Starts a game: the machine, what the lobby keeps of it, and the first message to send.
pub fn spawn_game(init: GameInit) -> (r: (GameActor, GameSummary, Vec<Delivery>))
    ensures
        r.0@ == init@.game(),
        r.0@.wf(),
        r.1@ == init@.summary(),
        r.2.deep_view() == seq![init@.greeting()],
{
    let summary = GameSummary {
        id: init.id.clone(),
        host_name: init.host_name.clone(),
        topic: init.topic.clone(),
        question_count: init.questions.len() as u16,
        created_at: init.created_at,
    };
    let p1 = PlayerSlot::new(init.host_player_id, init.host_name, init.host_out_tx);
    let host_id = p1.id.clone();
    let actor = GameActor {
        id: init.id,
        topic: init.topic,
        questions: init.questions,
        question_index: 0,
        phase: GamePhase::WaitingForPlayer,
        p1,
        p2: None,
        deadline: None,
        finished: false,
        clock: GameClock::start(),
    };
    assert(actor@ == init@.game());
    let mut out: Vec<Delivery> = Vec::new();
    let snapshot = actor.snapshot();
    actor.send_to(
        &host_id,
        ServerMessage {
            request_id: init.host_request_id,
            body: ServerBody::GameCreated { game: snapshot },
        },
        &mut out,
    );
    assert(out.deep_view() =~= seq![init@.greeting()]);
    (actor, summary, out)
}

impl GameActor {
    /// The game as its players see it.
    pub fn snapshot(&self) -> (s: GameState)
        ensures
            s@ == self@.snapshot(),
    {
        GameState {
            id: self.id.clone(),
            topic: self.topic.clone(),
            question_count: self.questions.len() as u16,
            question_index: self.question_index as u16,
            phase: self.phase,
            players: self.players_full_payload(&None),
        }
    }

    fn send_to(&self, player_id: &String, message: ServerMessage, out: &mut Vec<Delivery>)
        ensures
            final(out).deep_view() == old(out).deep_view() + self@.send_to(player_id@, message@),
    {
        if self.p1.id == *player_id {
            self.p1.send(message, out);
            return;
        }
        if let Some(p2) = &self.p2 {
            if p2.id == *player_id {
                p2.send(message, out);
                return;
            }
        }
        assert(out.deep_view() =~= old(out).deep_view() + self@.send_to(player_id@, message@));
    }

    fn broadcast(&self, message: ServerMessage, out: &mut Vec<Delivery>)
        ensures
            final(out).deep_view() == old(out).deep_view() + self@.broadcast(message@),
    {
        match &self.p2 {
            Some(p2) => {
                self.p1.send(message.clone(), out);
                p2.send(message, out);
            },
            None => {
                self.p1.send(message, out);
            },
        }
        assert(out.deep_view() =~= old(out).deep_view() + self@.broadcast(message@));
    }

    fn current_question(&self) -> (q: Option<&StoredQuestion>)
        ensures
            match q {
                Some(q) => self@.current_question() == Some(q@),
                None => self@.current_question() is None,
            },
    {
        if self.question_index < self.questions.len() {
            Some(&self.questions[self.question_index])
        } else {
            None
        }
    }

    fn players_full_payload(&self, reveal_correct: &Option<String>) -> (players: Vec<Player>)
        ensures
            players.deep_view() == self@.players(reveal_correct.deep_view()),
    {
        let mut players: Vec<Player> = Vec::with_capacity(2);
        players.push(self.p1.shown(reveal_correct));
        if let Some(p2) = &self.p2 {
            players.push(p2.shown(reveal_correct));
        }
        assert(players.deep_view() =~= self@.players(reveal_correct.deep_view()));
        players
    }

    fn send_error(
        &self,
        player_id: &String,
        request_id: Option<String>,
        code: ErrorCode,
        message: &str,
        out: &mut Vec<Delivery>,
    )
        ensures
            final(out).deep_view() == old(out).deep_view() + self@.send_to(
                player_id@,
                refusal(request_id.deep_view(), code, message@),
            ),
    {
        self.send_to(
            player_id,
            ServerMessage {
                request_id,
                body: ServerBody::Error { code, message: message.to_string() },
            },
            out,
        );
    }

    fn all_done(&self) -> (r: bool)
        ensures
            r == self@.all_done(),
    {
        match &self.p2 {
            Some(p2) => self.p1.done() && p2.done(),
            None => self.p1.done(),
        }
    }

    fn all_ready(&self) -> (r: bool)
        ensures
            r == self@.all_ready(),
    {
        match &self.p2 {
            Some(p2) => self.p1.ready() && p2.ready(),
            None => self.p1.ready(),
        }
    }

    fn any_answer(&self) -> (r: bool)
        ensures
            r == self@.any_answer(),
    {
        match &self.p2 {
            Some(p2) => self.p1.answer.is_some() || p2.answer.is_some(),
            None => self.p1.answer.is_some(),
        }
    }

    fn start_question(&mut self, now: &Reading, out: &mut Vec<Delivery>)
        requires
            now.in_range(),
        ensures
            final(self).clock_started() == old(self).clock_started(),
            final(self)@ == old(self)@.start_question(*now).game,
            final(out).deep_view() == old(out).deep_view() + old(self)@.start_question(*now).sent,
        decreases old(self).questions.len() - old(self).question_index, 5int,
    {
        proof {
            reveal(GameActorView::start_question);
            reveal(GameActorView::reveal_answer);
            reveal(GameActorView::advance);
            reveal(GameActorView::emit_results);
        }
        let ghost before = self@;
        let ghost sent_before = out.deep_view();
        self.p1.clear();
        if let Some(p2) = &mut self.p2 {
            p2.clear();
        }
        self.phase = GamePhase::QuestionActive;
        let ends_at = now.ends_at();
        self.deadline = Some(now.deadline());
        let question = match self.current_question() {
            Some(q) => q.question.clone(),
            None => {
                self.deadline = None;
                assert(out.deep_view() =~= sent_before + before.start_question(*now).sent);
                return;
            },
        };
        self.broadcast(
            ServerMessage {
                request_id: None,
                body: ServerBody::QuestionStarted {
                    game_id: self.id.clone(),
                    question_index: self.question_index as u16,
                    question_count: self.questions.len() as u16,
                    question_ends_at: ends_at,
                    question,
                    players: self.players_full_payload(&None),
                },
            },
            out,
        );
        self.maybe_auto_reveal_on_disconnect(now, out);
        assert(out.deep_view() =~= sent_before + before.start_question(*now).sent);
    }

    fn reveal_answer(&mut self, reason: RevealReason, now: &Reading, out: &mut Vec<Delivery>)
        requires
            now.in_range(),
            old(self)@.phase == GamePhase::QuestionActive ==> old(self)@.can_count(),
        ensures
            final(self).clock_started() == old(self).clock_started(),
            final(self)@ == old(self)@.reveal_answer(reason, *now).game,
            final(out).deep_view() == old(out).deep_view() + old(self)@.reveal_answer(
                reason,
                *now,
            ).sent,
        decreases old(self).questions.len() - old(self).question_index, 3int,
    {
        proof {
            reveal(GameActorView::reveal_answer);
        }
        let ghost before = self@;
        let ghost sent_before = out.deep_view();
        if self.phase != GamePhase::QuestionActive {
            assert(out.deep_view() =~= sent_before + before.reveal_answer(reason, *now).sent);
            return;
        }
        let (correct_id, qid) = match self.current_question() {
            Some(q) => (q.correct_answer_id.clone(), q.question.id.clone()),
            None => {
                assert(out.deep_view() =~= sent_before + before.reveal_answer(reason, *now).sent);
                return;
            },
        };
        self.p1.score(&correct_id);
        if let Some(p2) = &mut self.p2 {
            p2.score(&correct_id);
        }
        self.phase = GamePhase::AnswerReveal;
        self.deadline = None;
        // A player who is gone needs no time to read the answer.
        self.p1.excuse();
        if let Some(p2) = &mut self.p2 {
            p2.excuse();
        }
        let players = self.players_full_payload(&Some(correct_id.clone()));
        self.broadcast(
            ServerMessage {
                request_id: None,
                body: ServerBody::QuestionRevealed {
                    game_id: self.id.clone(),
                    question_id: qid,
                    correct_answer_id: correct_id,
                    players,
                    reason,
                },
            },
            out,
        );
        self.maybe_advance_after_ready(now, out);
        assert(out.deep_view() =~= sent_before + before.reveal_answer(reason, *now).sent);
    }

    fn maybe_advance_after_ready(&mut self, now: &Reading, out: &mut Vec<Delivery>)
        requires
            now.in_range(),
            old(self)@.question_index < old(self)@.questions.len(),
        ensures
            final(self).clock_started() == old(self).clock_started(),
            final(self)@ == old(self)@.maybe_advance_after_ready(*now).game,
            final(out).deep_view() == old(out).deep_view()
                + old(self)@.maybe_advance_after_ready(*now).sent,
        decreases old(self).questions.len() - old(self).question_index, 2int,
    {
        let ghost before = self@;
        let ghost sent_before = out.deep_view();
        if self.phase != GamePhase::AnswerReveal && self.phase != GamePhase::WaitingForNext {
            assert(out.deep_view() =~= sent_before + before.maybe_advance_after_ready(*now).sent);
            return;
        }
        if self.all_ready() {
            self.advance(now, out);
        }
        assert(out.deep_view() =~= sent_before + before.maybe_advance_after_ready(*now).sent);
    }

    fn advance(&mut self, now: &Reading, out: &mut Vec<Delivery>)
        requires
            now.in_range(),
            old(self)@.question_index < old(self)@.questions.len(),
        ensures
            final(self).clock_started() == old(self).clock_started(),
            final(self)@ == old(self)@.advance(*now).game,
            final(out).deep_view() == old(out).deep_view() + old(self)@.advance(*now).sent,
        decreases old(self).questions.len() - old(self).question_index, 1int,
    {
        proof {
            reveal(GameActorView::advance);
        }
        self.question_index = self.question_index + 1;
        if self.question_index >= self.questions.len() {
            self.emit_results(out);
        } else {
            self.start_question(now, out);
        }
    }

    fn emit_results(&mut self, out: &mut Vec<Delivery>)
        ensures
            final(self).clock_started() == old(self).clock_started(),
            final(self)@ == old(self)@.emit_results().game,
            final(out).deep_view() == old(out).deep_view() + old(self)@.emit_results().sent,
    {
        proof {
            reveal(GameActorView::emit_results);
        }
        self.phase = GamePhase::Results;
        let (winner_player_id, winner_label) = match &self.p2 {
            Some(p2) => {
                if self.p1.score > p2.score {
                    (Some(self.p1.id.clone()), join(self.p1.name.as_str(), " wins"))
                } else if p2.score > self.p1.score {
                    (Some(p2.id.clone()), join(p2.name.as_str(), " wins"))
                } else {
                    (None, "Draw game".to_string())
                }
            },
            None => (Some(self.p1.id.clone()), join(self.p1.name.as_str(), " wins")),
        };
        let players = self.players_full_payload(&None);
        self.broadcast(
            ServerMessage {
                request_id: None,
                body: ServerBody::GameResults {
                    game_id: self.id.clone(),
                    players,
                    winner_player_id,
                    winner_label,
                },
            },
            out,
        );
    }

    fn maybe_auto_reveal_on_disconnect(&mut self, now: &Reading, out: &mut Vec<Delivery>)
        requires
            now.in_range(),
            old(self)@.can_count(),
        ensures
            final(self).clock_started() == old(self).clock_started(),
            final(self)@ == old(self)@.maybe_auto_reveal(*now).game,
            final(out).deep_view() == old(out).deep_view() + old(self)@.maybe_auto_reveal(
                *now,
            ).sent,
        decreases old(self).questions.len() - old(self).question_index, 4int,
    {
        let ghost before = self@;
        let ghost sent_before = out.deep_view();
        if self.phase != GamePhase::QuestionActive || self.p2.is_none() || !self.all_done() {
            assert(out.deep_view() =~= sent_before + before.maybe_auto_reveal(*now).sent);
            return;
        }
        // Without any answer it is as if time had run out.
        let reason = if self.any_answer() {
            RevealReason::BothAnswered
        } else {
            RevealReason::TimeExpired
        };
        self.reveal_answer(reason, now, out);
    }

    fn handle_join(
        &mut self,
        player_id: String,
        name: String,
        out_tx: OutTx,
        request_id: Option<String>,
        now: &Reading,
        out: &mut Vec<Delivery>,
    )
        requires
            now.in_range(),
        ensures
            final(self).clock_started() == old(self).clock_started(),
            final(self)@ == old(self)@.handle_join(
                player_id@,
                name@,
                out_tx,
                request_id.deep_view(),
                *now,
            ).game,
            final(out).deep_view() == old(out).deep_view() + old(self)@.handle_join(
                player_id@,
                name@,
                out_tx,
                request_id.deep_view(),
                *now,
            ).sent,
    {
        let ghost step = self@.handle_join(
            player_id@,
            name@,
            out_tx,
            request_id.deep_view(),
            *now,
        );
        let ghost sent_before = out.deep_view();
        if self.phase != GamePhase::WaitingForPlayer || self.p2.is_some() {
            let message = ServerMessage {
                request_id,
                body: ServerBody::Error {
                    code: ErrorCode::GameFull,
                    message: "That game already has two players.".to_string(),
                },
            };
            out.push(Delivery { to: out_tx, message });
            assert(out.deep_view() =~= sent_before + step.sent);
            return;
        }
        self.p2 = Some(PlayerSlot::new(player_id.clone(), name.clone(), out_tx));
        self.phase = GamePhase::QuestionActive;
        let snapshot = self.snapshot();
        self.send_to(
            &player_id,
            ServerMessage { request_id, body: ServerBody::GameJoined { game: snapshot } },
            out,
        );
        self.broadcast(
            ServerMessage {
                request_id: None,
                body: ServerBody::PlayerJoined {
                    game_id: self.id.clone(),
                    player: Player {
                        id: player_id,
                        name,
                        score: None,
                        is_ready_for_next: None,
                        did_answer_correctly: None,
                    },
                },
            },
            out,
        );
        self.start_question(now, out);
        assert(out.deep_view() =~= sent_before + step.sent);
    }

    fn submit_error(&self, player_id: &String, question_id: &String) -> (r: Option<
        (ErrorCode, &'static str),
    >)
        ensures
            match r {
                Some((code, message)) => self@.submit_error(player_id@, question_id@) == Some(
                    (code, message@),
                ),
                None => self@.submit_error(player_id@, question_id@) is None,
            },
    {
        if self.phase != GamePhase::QuestionActive {
            return Some(
                (ErrorCode::QuestionTimeout, "Question is no longer accepting answers."),
            );
        }
        let stale = match self.current_question() {
            Some(q) => q.question.id != *question_id,
            None => {
                return Some((ErrorCode::InvalidGamePhase, "No active question."));
            },
        };
        if stale {
            return Some((ErrorCode::InvalidGamePhase, "Stale questionId."));
        }
        let (is_member, already_locked) = if self.p1.id == *player_id {
            (true, self.p1.answer.is_some())
        } else {
            match &self.p2 {
                Some(p2) => (p2.id == *player_id, p2.answer.is_some()),
                None => (false, false),
            }
        };
        if !is_member {
            Some((ErrorCode::NotAGameMember, "Not a member of this game."))
        } else if already_locked {
            Some((ErrorCode::AnswerAlreadyLocked, "Answer already locked."))
        } else {
            None
        }
    }

    fn lock_answer(&mut self, player_id: &String, answer_id: String)
        ensures
            final(self).clock_started() == old(self).clock_started(),
            final(self)@ == old(self)@.lock_answer(player_id@, answer_id@),
    {
        if self.p1.id == *player_id {
            self.p1.answer = Some(answer_id);
        } else if let Some(p2) = &mut self.p2 {
            if p2.id == *player_id {
                p2.answer = Some(answer_id);
            }
        }
    }

    fn handle_submit(
        &mut self,
        player_id: String,
        question_id: String,
        answer_id: String,
        request_id: Option<String>,
        now: &Reading,
        out: &mut Vec<Delivery>,
    )
        requires
            now.in_range(),
            old(self)@.has_room(),
        ensures
            final(self).clock_started() == old(self).clock_started(),
            final(self)@ == old(self)@.handle_submit(
                player_id@,
                question_id@,
                answer_id@,
                request_id.deep_view(),
                *now,
            ).game,
            final(out).deep_view() == old(out).deep_view() + old(self)@.handle_submit(
                player_id@,
                question_id@,
                answer_id@,
                request_id.deep_view(),
                *now,
            ).sent,
    {
        let ghost step = self@.handle_submit(
            player_id@,
            question_id@,
            answer_id@,
            request_id.deep_view(),
            *now,
        );
        let ghost sent_before = out.deep_view();
        if let Some((code, message)) = self.submit_error(&player_id, &question_id) {
            self.send_error(&player_id, request_id, code, message, out);
            return;
        }
        self.lock_answer(&player_id, answer_id);
        self.send_to(
            &player_id,
            ServerMessage {
                request_id,
                body: ServerBody::AnswerAccepted(
                    Answer {
                        game_id: self.id.clone(),
                        question_id: question_id.clone(),
                        player_id: player_id.clone(),
                        locked: Some(true),
                    },
                ),
            },
            out,
        );
        self.broadcast(
            ServerMessage {
                request_id: None,
                body: ServerBody::AnswerLocked(
                    Answer { game_id: self.id.clone(), question_id, player_id, locked: None },
                ),
            },
            out,
        );
        if self.all_done() {
            self.reveal_answer(RevealReason::BothAnswered, now, out);
        }
        assert(out.deep_view() =~= sent_before + step.sent);
    }

    fn handle_next_ready(
        &mut self,
        player_id: String,
        question_id: String,
        request_id: Option<String>,
        now: &Reading,
        out: &mut Vec<Delivery>,
    )
        requires
            now.in_range(),
        ensures
            final(self).clock_started() == old(self).clock_started(),
            final(self)@ == old(self)@.handle_next_ready(
                player_id@,
                question_id@,
                request_id.deep_view(),
                *now,
            ).game,
            final(out).deep_view() == old(out).deep_view() + old(self)@.handle_next_ready(
                player_id@,
                question_id@,
                request_id.deep_view(),
                *now,
            ).sent,
    {
        let ghost step = self@.handle_next_ready(
            player_id@,
            question_id@,
            request_id.deep_view(),
            *now,
        );
        let ghost sent_before = out.deep_view();
        if self.phase != GamePhase::AnswerReveal && self.phase != GamePhase::WaitingForNext {
            self.send_error(
                &player_id,
                request_id,
                ErrorCode::InvalidGamePhase,
                "Not in reveal phase.",
                out,
            );
            return;
        }
        let stale = match self.current_question() {
            Some(q) => q.question.id != question_id,
            None => {
                assert(out.deep_view() =~= sent_before + step.sent);
                return;
            },
        };
        if stale {
            self.send_error(
                &player_id,
                request_id,
                ErrorCode::InvalidGamePhase,
                "Stale questionId.",
                out,
            );
            return;
        }
        if self.p1.id == player_id {
            self.p1.is_ready_for_next = true;
        } else if let Some(p2) = &mut self.p2 {
            if p2.id == player_id {
                p2.is_ready_for_next = true;
            }
        }
        if self.all_ready() {
            self.advance(now, out);
        } else {
            self.phase = GamePhase::WaitingForNext;
            let players = self.players_full_payload(&None);
            self.broadcast(
                ServerMessage {
                    request_id: None,
                    body: ServerBody::NextWaiting {
                        game_id: self.id.clone(),
                        question_id,
                        players,
                    },
                },
                out,
            );
        }
    }

    fn handle_disconnect(&mut self, player_id: String, now: &Reading, out: &mut Vec<Delivery>)
        requires
            now.in_range(),
            old(self)@.wf(),
            old(self)@.has_room(),
        ensures
            final(self).clock_started() == old(self).clock_started(),
            final(self)@ == old(self)@.handle_disconnect(player_id@, *now).game,
            final(out).deep_view() == old(out).deep_view() + old(self)@.handle_disconnect(
                player_id@,
                *now,
            ).sent,
    {
        let ghost step = self@.handle_disconnect(player_id@, *now);
        let ghost sent_before = out.deep_view();
        if self.p1.id == player_id {
            self.p1.out_tx = None;
        } else if let Some(p2) = &mut self.p2 {
            if p2.id == player_id {
                p2.out_tx = None;
            }
        }
        match self.phase {
            GamePhase::WaitingForPlayer => {
                // The host has left; the lobby takes the game off its list.
                self.finished = true;
            },
            GamePhase::QuestionActive => {
                self.maybe_auto_reveal_on_disconnect(now, out);
            },
            GamePhase::AnswerReveal | GamePhase::WaitingForNext => {
                self.p1.excuse();
                if let Some(p2) = &mut self.p2 {
                    p2.excuse();
                }
                self.maybe_advance_after_ready(now, out);
            },
            GamePhase::Results => {},
        }
        assert(out.deep_view() =~= sent_before + step.sent);
    }

    /// Handles a command when the clocks show `now`, and returns what is to be sent, in order.
    pub fn handle_cmd(&mut self, cmd: GameCmd, now: Reading) -> (sent: Vec<Delivery>)
        requires
            now.in_range(),
            old(self)@.wf(),
            old(self)@.has_room(),
        ensures
            final(self).clock_started() == old(self).clock_started(),
            final(self)@ == old(self)@.handle_cmd(cmd@, now).game,
            sent.deep_view() == old(self)@.handle_cmd(cmd@, now).sent,
            final(self)@.wf(),
    {
        let ghost step = self@.handle_cmd(cmd@, now);
        let mut out: Vec<Delivery> = Vec::new();
        proof {
            law_turn_keeps_wf(self@, GameEventView::Cmd(cmd@), now);
        }
        match cmd {
            GameCmd::Join { player_id, name, out_tx, request_id } => {
                self.handle_join(player_id, name, out_tx, request_id, &now, &mut out);
            },
            GameCmd::Submit { player_id, question_id, answer_id, request_id } => {
                self.handle_submit(player_id, question_id, answer_id, request_id, &now, &mut out);
            },
            GameCmd::NextReady { player_id, question_id, request_id } => {
                self.handle_next_ready(player_id, question_id, request_id, &now, &mut out);
            },
            GameCmd::LobbyReturn => {
                self.finished = true;
            },
            GameCmd::Disconnect { player_id } => {
                self.handle_disconnect(player_id, &now, &mut out);
            },
        }
        assert(out.deep_view() =~= step.sent);
        out
    }

    /// Ends the active question, if there is one, because its time is up.
    pub fn time_expired(&mut self, now: Reading) -> (sent: Vec<Delivery>)
        requires
            now.in_range(),
            old(self)@.wf(),
            old(self)@.has_room(),
        ensures
            final(self).clock_started() == old(self).clock_started(),
            final(self)@ == old(self)@.reveal_answer(RevealReason::TimeExpired, now).game,
            sent.deep_view() == old(self)@.reveal_answer(RevealReason::TimeExpired, now).sent,
            final(self)@.wf(),
    {
        let ghost step = self@.reveal_answer(RevealReason::TimeExpired, now);
        let mut out: Vec<Delivery> = Vec::new();
        proof {
            law_turn_keeps_wf(self@, GameEventView::TimeExpired, now);
        }
        self.reveal_answer(RevealReason::TimeExpired, &now, &mut out);
        assert(out.deep_view() =~= step.sent);
        out
    }

    /// Handles an event when the clocks show `now`: what is to be sent, and whether the game
    /// takes no more events.
    pub fn turn(&mut self, event: GameEvent, now: Reading) -> (r: (Vec<Delivery>, bool))
        requires
            now.in_range(),
            old(self)@.wf(),
            old(self)@.has_room(),
        ensures
            final(self).clock_started() == old(self).clock_started(),
            final(self)@ == old(self)@.turn(event@, now).game,
            r.0.deep_view() == old(self)@.turn(event@, now).sent,
            r.1 == (event is Closed || final(self)@.is_over()),
            final(self)@.wf(),
    {
        match event {
            GameEvent::Cmd(cmd) => {
                let sent = self.handle_cmd(cmd, now);
                (sent, self.is_over())
            },
            GameEvent::TimeExpired => {
                let sent = self.time_expired(now);
                (sent, self.is_over())
            },
            GameEvent::Closed => {
                let sent: Vec<Delivery> = Vec::new();
                assert(sent.deep_view() =~= Seq::<DeliveryView>::empty());
                (sent, true)
            },
        }
    }

    /// Handles an event: what is to be sent, and whether the game takes no more events. The clocks
    /// are read where a question is put to the players, and only there; if they then have no
    /// reading to give, nothing happens.
    pub fn run(&mut self, event: GameEvent) -> (r: Option<(Vec<Delivery>, bool)>)
        requires
            old(self)@.wf(),
            old(self)@.has_room(),
        ensures
            final(self).clock_started() == old(self).clock_started(),
            final(self)@.wf(),
            match r {
                Some((sent, over)) => exists|now: Reading|
                    {
                        &&& #[trigger] now.in_range()
                        &&& final(self)@ == old(self)@.turn(event@, now).game
                        &&& sent.deep_view() == old(self)@.turn(event@, now).sent
                        &&& over == (event is Closed || final(self)@.is_over())
                    },
                None => final(self)@ == old(self)@ && old(self)@.puts_question(event@),
            },
            !old(self)@.puts_question(event@) ==> (r matches Some((sent, over)) && forall|
                now: Reading,
            |
                {
                    let step = #[trigger] old(self)@.turn(event@, now);
                    final(self)@ == step.game && sent.deep_view() == step.sent
                }),
    {
        if self.puts_question(&event) {
            match self.clock.read() {
                Some(now) => Some(self.turn(event, now)),
                None => None,
            }
        } else {
            let ghost before = self@;
            let any_time = Reading { utc: Timestamp { secs: 0, nanos: 0 }, elapsed: 0 };
            proof {
                assert forall|now: Reading| before.turn(event@, any_time) == #[trigger] before.turn(
                    event@,
                    now,
                ) by {
                    law_time_is_for_questions(before, event@, any_time, now);
                }
                assert(any_time.in_range());
            }
            Some(self.turn(event, any_time))
        }
    }

    /// Tells whether an event puts a question to the players.
    fn puts_question(&self, event: &GameEvent) -> (r: bool)
        ensures
            r == self@.puts_question(event@),
    {
        let next_is_due = (self.phase == GamePhase::AnswerReveal || self.phase
            == GamePhase::WaitingForNext) && self.question_index < self.questions.len()
            && self.question_index + 1 < self.questions.len();
        match event {
            GameEvent::Cmd(GameCmd::Join { .. }) => {
                self.phase == GamePhase::WaitingForPlayer && self.p2.is_none()
                    && self.question_index < self.questions.len()
            },
            GameEvent::Cmd(GameCmd::NextReady { player_id, question_id, .. }) => {
                if !next_is_due || self.questions[self.question_index].question.id
                    != *question_id {
                    return false;
                }
                let is_host = self.p1.id == *player_id;
                match &self.p2 {
                    Some(p2) => (is_host || self.p1.ready()) && ((!is_host && p2.id
                        == *player_id) || p2.ready()),
                    None => is_host || self.p1.ready(),
                }
            },
            GameEvent::Cmd(GameCmd::Disconnect { player_id }) => {
                let is_host = self.p1.id == *player_id;
                let p1_there = !is_host && self.p1.is_connected();
                let (p2_there, p2_waits) = match &self.p2 {
                    Some(p2) => {
                        let there = (is_host || p2.id != *player_id) && p2.is_connected();
                        (there, there && !p2.is_ready_for_next)
                    },
                    None => (false, false),
                };
                let p1_waits = p1_there && !self.p1.is_ready_for_next;
                next_is_due && !p1_waits && !p2_waits && (p1_there || p2_there)
            },
            _ => false,
        }
    }

    /// Tells whether the game takes no more events.
    pub fn is_over(&self) -> (r: bool)
        ensures
            r == self@.is_over(),
    {
        let p2_gone = match &self.p2 {
            Some(p2) => !p2.is_connected(),
            None => true,
        };
        self.finished || (!self.p1.is_connected() && p2_gone)
    }

    /// The reading of the game's clock at which time is up, while a question is active.
    pub fn timer(&self) -> (r: Option<u128>)
        ensures
            match r {
                Some(d) => self@.phase == GamePhase::QuestionActive && self@.deadline == Some(
                    d as nat,
                ),
                None => !(self@.phase == GamePhase::QuestionActive && self@.deadline is Some),
            },
    {
        if self.phase == GamePhase::QuestionActive {
            self.deadline
        } else {
            None
        }
    }

    /// When the clock was started by which the game's timer goes.
    pub closed spec fn clock_started(&self) -> tokio::time::Instant {
        self.clock.start
    }

    /// When the game's clock was started.
    pub fn clock_start(&self) -> (r: tokio::time::Instant)
        ensures
            r == self.clock_started(),
    {
        self.clock.start
    }

    /// Tells whether points can be counted if the active question ends now.
    pub fn has_room(&self) -> (r: bool)
        ensures
            r == self@.has_room(),
    {
        if self.phase != GamePhase::QuestionActive {
            return true;
        }
        match &self.p2 {
            Some(p2) => self.p1.score < u16::MAX && p2.score < u16::MAX,
            None => self.p1.score < u16::MAX,
        }
    }
}

} // verus!
