//! The messages of the wire protocol, and their mathematical models.
use vstd::prelude::*;
use crate::clock::Timestamp;
use crate::text::copy_opt;

verus! {

/// A message from a client.
#[derive(Clone, Debug)]
pub struct ClientMessage {
    pub request_id: String,
    pub body: ClientBody,
}

/// What a client asks for.
#[derive(Clone, Debug)]
pub enum ClientBody {
    /// `session.hello`
    SessionHello { protocol_version: u16, client_version: String, resume_token: Option<String> },
    /// `player.identify`
    PlayerIdentify { display_name: String },
    /// `lobby.subscribe`
    LobbySubscribe(EmptyPayload),
    /// `game.create`
    GameCreate { topic: String, question_count: u16 },
    /// `game.join`
    GameJoin { game_id: String },
    /// `answer.submit`
    AnswerSubmit { game_id: String, question_id: String, answer_id: String },
    /// `question.next.ready`
    QuestionNextReady { game_id: String, question_id: String },
    /// `lobby.return`
    LobbyReturn { game_id: String },
}

/// A message to a client.
#[derive(Debug)]
pub struct ServerMessage {
    /// The request that this answers, if it answers one.
    pub request_id: Option<String>,
    pub body: ServerBody,
}

/// What the server tells a client.
#[derive(Debug)]
pub enum ServerBody {
    /// `session.ready`
    SessionReady { player_id: String },
    /// `lobby.snapshot`
    LobbySnapshot { games: Vec<Game> },
    /// `game.created`
    GameCreated { game: GameState },
    /// `game.joined`
    GameJoined { game: GameState },
    /// `game.player_joined`
    PlayerJoined { game_id: String, player: Player },
    /// `question.started`
    QuestionStarted {
        game_id: String,
        question_index: u16,
        question_count: u16,
        question_ends_at: Timestamp,
        question: Question,
        players: Vec<Player>,
    },
    /// `answer.accepted`
    AnswerAccepted(Answer),
    /// `answer.locked`
    AnswerLocked(Answer),
    /// `question.revealed`
    QuestionRevealed {
        game_id: String,
        question_id: String,
        correct_answer_id: String,
        players: Vec<Player>,
        reason: RevealReason,
    },
    /// `question.next.waiting`
    NextWaiting { game_id: String, question_id: String, players: Vec<Player> },
    /// `game.results`
    GameResults {
        game_id: String,
        players: Vec<Player>,
        winner_player_id: Option<String>,
        winner_label: String,
    },
    /// `error`
    Error { code: ErrorCode, message: String },
}

/// A waiting game, as the lobby lists it.
#[derive(Debug)]
pub struct Game {
    pub id: String,
    pub host_name: String,
    pub topic: String,
    pub question_count: u16,
    pub created_at: Timestamp,
}

/// A game, as its players see it.
#[derive(Debug)]
pub struct GameState {
    pub id: String,
    pub topic: String,
    pub question_count: u16,
    pub question_index: u16,
    pub phase: GamePhase,
    pub players: Vec<Player>,
}

/// A player, as the clients see them.
#[derive(Debug)]
pub struct Player {
    pub id: String,
    pub name: String,
    pub score: Option<u16>,
    pub is_ready_for_next: Option<bool>,
    pub did_answer_correctly: Option<bool>,
}

/// The phase that a game is in.
#[derive(Clone, Copy, Debug, PartialEq, Eq, Structural)]
pub enum GamePhase {
    WaitingForPlayer,
    QuestionActive,
    AnswerReveal,
    WaitingForNext,
    Results,
}

/// A question without its answer.
#[derive(Debug)]
pub struct Question {
    pub id: String,
    pub topic: String,
    pub prompt: String,
    pub options: Vec<QuestionOption>,
}

/// One of the answers that a question offers.
#[derive(Debug)]
pub struct QuestionOption {
    pub id: String,
    pub label: String,
    pub text: String,
}

/// That a player has answered. It does not say what.
#[derive(Debug)]
pub struct Answer {
    pub game_id: String,
    pub question_id: String,
    pub player_id: String,
    pub locked: Option<bool>,
}

/// Why the answer to a question was revealed.
#[derive(Clone, Copy, Debug, PartialEq, Eq, Structural)]
pub enum RevealReason {
    BothAnswered,
    TimeExpired,
}

/// Why a request was refused.
#[derive(Clone, Copy, Debug, PartialEq, Eq, Structural)]
pub enum ErrorCode {
    InvalidName,
    LobbyNotSubscribed,
    GameNotFound,
    GameFull,
    InvalidQuestionCount,
    InvalidGamePhase,
    InvalidSessionState,
    InvalidTopic,
    AnswerAlreadyLocked,
    QuestionTimeout,
    NotAGameMember,
}

/// A payload without fields.
#[derive(Clone, Debug)]
pub struct EmptyPayload {}

/// The model of a [`ServerMessage`].
pub struct ServerMessageView {
    pub request_id: Option<Seq<char>>,
    pub body: ServerBodyView,
}

/// The model of a [`ServerBody`].
pub enum ServerBodyView {
    SessionReady { player_id: Seq<char> },
    LobbySnapshot { games: Seq<GameView> },
    GameCreated { game: GameStateView },
    GameJoined { game: GameStateView },
    PlayerJoined { game_id: Seq<char>, player: PlayerView },
    QuestionStarted {
        game_id: Seq<char>,
        question_index: u16,
        question_count: u16,
        question_ends_at: Timestamp,
        question: QuestionView,
        players: Seq<PlayerView>,
    },
    AnswerAccepted(AnswerView),
    AnswerLocked(AnswerView),
    QuestionRevealed {
        game_id: Seq<char>,
        question_id: Seq<char>,
        correct_answer_id: Seq<char>,
        players: Seq<PlayerView>,
        reason: RevealReason,
    },
    NextWaiting { game_id: Seq<char>, question_id: Seq<char>, players: Seq<PlayerView> },
    GameResults {
        game_id: Seq<char>,
        players: Seq<PlayerView>,
        winner_player_id: Option<Seq<char>>,
        winner_label: Seq<char>,
    },
    Error { code: ErrorCode, message: Seq<char> },
}

/// The model of a [`Game`].
pub struct GameView {
    pub id: Seq<char>,
    pub host_name: Seq<char>,
    pub topic: Seq<char>,
    pub question_count: u16,
    pub created_at: Timestamp,
}

/// The model of a [`GameState`].
pub struct GameStateView {
    pub id: Seq<char>,
    pub topic: Seq<char>,
    pub question_count: u16,
    pub question_index: u16,
    pub phase: GamePhase,
    pub players: Seq<PlayerView>,
}

/// The model of a [`Player`].
pub struct PlayerView {
    pub id: Seq<char>,
    pub name: Seq<char>,
    pub score: Option<u16>,
    pub is_ready_for_next: Option<bool>,
    pub did_answer_correctly: Option<bool>,
}

/// The model of a [`Question`].
pub struct QuestionView {
    pub id: Seq<char>,
    pub topic: Seq<char>,
    pub prompt: Seq<char>,
    pub options: Seq<QuestionOptionView>,
}

/// The model of a [`QuestionOption`].
pub struct QuestionOptionView {
    pub id: Seq<char>,
    pub label: Seq<char>,
    pub text: Seq<char>,
}

/// The model of an [`Answer`].
pub struct AnswerView {
    pub game_id: Seq<char>,
    pub question_id: Seq<char>,
    pub player_id: Seq<char>,
    pub locked: Option<bool>,
}

impl View for ServerMessage {
    type V = ServerMessageView;

    open spec fn view(&self) -> ServerMessageView {
        ServerMessageView { request_id: self.request_id.deep_view(), body: self.body@ }
    }
}

impl View for ServerBody {
    type V = ServerBodyView;

    open spec fn view(&self) -> ServerBodyView {
        match self {
            ServerBody::SessionReady { player_id } => ServerBodyView::SessionReady {
                player_id: player_id@,
            },
            ServerBody::LobbySnapshot { games } => ServerBodyView::LobbySnapshot {
                games: games.deep_view(),
            },
            ServerBody::GameCreated { game } => ServerBodyView::GameCreated { game: game@ },
            ServerBody::GameJoined { game } => ServerBodyView::GameJoined { game: game@ },
            ServerBody::PlayerJoined { game_id, player } => ServerBodyView::PlayerJoined {
                game_id: game_id@,
                player: player@,
            },
            ServerBody::QuestionStarted {
                game_id,
                question_index,
                question_count,
                question_ends_at,
                question,
                players,
            } => ServerBodyView::QuestionStarted {
                game_id: game_id@,
                question_index: *question_index,
                question_count: *question_count,
                question_ends_at: *question_ends_at,
                question: question@,
                players: players.deep_view(),
            },
            ServerBody::AnswerAccepted(answer) => ServerBodyView::AnswerAccepted(answer@),
            ServerBody::AnswerLocked(answer) => ServerBodyView::AnswerLocked(answer@),
            ServerBody::QuestionRevealed {
                game_id,
                question_id,
                correct_answer_id,
                players,
                reason,
            } => ServerBodyView::QuestionRevealed {
                game_id: game_id@,
                question_id: question_id@,
                correct_answer_id: correct_answer_id@,
                players: players.deep_view(),
                reason: *reason,
            },
            ServerBody::NextWaiting { game_id, question_id, players } => {
                ServerBodyView::NextWaiting {
                    game_id: game_id@,
                    question_id: question_id@,
                    players: players.deep_view(),
                }
            },
            ServerBody::GameResults { game_id, players, winner_player_id, winner_label } => {
                ServerBodyView::GameResults {
                    game_id: game_id@,
                    players: players.deep_view(),
                    winner_player_id: winner_player_id.deep_view(),
                    winner_label: winner_label@,
                }
            },
            ServerBody::Error { code, message } => ServerBodyView::Error {
                code: *code,
                message: message@,
            },
        }
    }
}

impl View for Game {
    type V = GameView;

    open spec fn view(&self) -> GameView {
        GameView {
            id: self.id@,
            host_name: self.host_name@,
            topic: self.topic@,
            question_count: self.question_count,
            created_at: self.created_at,
        }
    }
}

impl DeepView for Game {
    type V = GameView;

    open spec fn deep_view(&self) -> GameView {
        self@
    }
}

impl View for GameState {
    type V = GameStateView;

    open spec fn view(&self) -> GameStateView {
        GameStateView {
            id: self.id@,
            topic: self.topic@,
            question_count: self.question_count,
            question_index: self.question_index,
            phase: self.phase,
            players: self.players.deep_view(),
        }
    }
}

impl View for Player {
    type V = PlayerView;

    open spec fn view(&self) -> PlayerView {
        PlayerView {
            id: self.id@,
            name: self.name@,
            score: self.score,
            is_ready_for_next: self.is_ready_for_next,
            did_answer_correctly: self.did_answer_correctly,
        }
    }
}

impl DeepView for Player {
    type V = PlayerView;

    open spec fn deep_view(&self) -> PlayerView {
        self@
    }
}

impl View for Question {
    type V = QuestionView;

    open spec fn view(&self) -> QuestionView {
        QuestionView {
            id: self.id@,
            topic: self.topic@,
            prompt: self.prompt@,
            options: self.options.deep_view(),
        }
    }
}

impl View for QuestionOption {
    type V = QuestionOptionView;

    open spec fn view(&self) -> QuestionOptionView {
        QuestionOptionView { id: self.id@, label: self.label@, text: self.text@ }
    }
}

impl DeepView for QuestionOption {
    type V = QuestionOptionView;

    open spec fn deep_view(&self) -> QuestionOptionView {
        self@
    }
}

impl View for Answer {
    type V = AnswerView;

    open spec fn view(&self) -> AnswerView {
        AnswerView {
            game_id: self.game_id@,
            question_id: self.question_id@,
            player_id: self.player_id@,
            locked: self.locked,
        }
    }
}

/// The model of a question has all that the question has: its text, and every option in order.
pub proof fn law_question_model(q: Question, i: int)
    ensures
        q@.id == q.id@,
        q@.topic == q.topic@,
        q@.prompt == q.prompt@,
        q@.options.len() == q.options.len(),
        0 <= i < q.options.len() ==> {
            &&& q@.options[i].id == q.options[i].id@
            &&& q@.options[i].label == q.options[i].label@
            &&& q@.options[i].text == q.options[i].text@
        },
{
}

/// The models of players, games, pictures of games and answers have all that these have.
pub proof fn law_record_models(player: Player, game: Game, state: GameState, answer: Answer, i: int)
    ensures
        player@ == (PlayerView {
            id: player.id@,
            name: player.name@,
            score: player.score,
            is_ready_for_next: player.is_ready_for_next,
            did_answer_correctly: player.did_answer_correctly,
        }),
        game@ == (GameView {
            id: game.id@,
            host_name: game.host_name@,
            topic: game.topic@,
            question_count: game.question_count,
            created_at: game.created_at,
        }),
        answer@ == (AnswerView {
            game_id: answer.game_id@,
            question_id: answer.question_id@,
            player_id: answer.player_id@,
            locked: answer.locked,
        }),
        state@.id == state.id@,
        state@.topic == state.topic@,
        state@.question_count == state.question_count,
        state@.question_index == state.question_index,
        state@.phase == state.phase,
        state@.players.len() == state.players.len(),
        0 <= i < state.players.len() ==> state@.players[i] == state.players[i]@,
{
}

/// Whether a list of models is that of the players, in order.
pub open spec fn models_players(models: Seq<PlayerView>, players: Vec<Player>) -> bool {
    &&& models.len() == players.len()
    &&& forall|i: int| 0 <= i < players.len() ==> #[trigger] models[i] == players[i]@
}

/// The model of a message answers the same request, is of the same kind, and has all that the
/// message has.
pub proof fn law_message_model(message: ServerMessage)
    ensures
        match message.request_id {
            Some(id) => message@.request_id == Some(id@),
            None => message@.request_id is None,
        },
        match message.body {
            ServerBody::SessionReady { player_id } => message@.body == (
            ServerBodyView::SessionReady { player_id: player_id@ }),
            ServerBody::LobbySnapshot { games } => {
                &&& message@.body is LobbySnapshot
                &&& message@.body->games.len() == games.len()
                &&& forall|i: int|
                    0 <= i < games.len() ==> #[trigger] message@.body->games[i] == games[i]@
            },
            ServerBody::GameCreated { game } => message@.body == (ServerBodyView::GameCreated {
                game: game@,
            }),
            ServerBody::GameJoined { game } => message@.body == (ServerBodyView::GameJoined {
                game: game@,
            }),
            ServerBody::PlayerJoined { game_id, player } => message@.body == (
            ServerBodyView::PlayerJoined { game_id: game_id@, player: player@ }),
            ServerBody::QuestionStarted {
                game_id,
                question_index,
                question_count,
                question_ends_at,
                question,
                players,
            } => {
                &&& message@.body is QuestionStarted
                &&& message@.body->QuestionStarted_game_id == game_id@
                &&& message@.body->QuestionStarted_question_index == question_index
                &&& message@.body->QuestionStarted_question_count == question_count
                &&& message@.body->QuestionStarted_question_ends_at == question_ends_at
                &&& message@.body->QuestionStarted_question == question@
                &&& models_players(message@.body->QuestionStarted_players, players)
            },
            ServerBody::AnswerAccepted(answer) => message@.body == (
            ServerBodyView::AnswerAccepted(answer@)),
            ServerBody::AnswerLocked(answer) => message@.body == (
            ServerBodyView::AnswerLocked(answer@)),
            ServerBody::QuestionRevealed {
                game_id,
                question_id,
                correct_answer_id,
                players,
                reason,
            } => {
                &&& message@.body is QuestionRevealed
                &&& message@.body->QuestionRevealed_game_id == game_id@
                &&& message@.body->QuestionRevealed_question_id == question_id@
                &&& message@.body->QuestionRevealed_correct_answer_id == correct_answer_id@
                &&& message@.body->QuestionRevealed_reason == reason
                &&& models_players(message@.body->QuestionRevealed_players, players)
            },
            ServerBody::NextWaiting { game_id, question_id, players } => {
                &&& message@.body is NextWaiting
                &&& message@.body->NextWaiting_game_id == game_id@
                &&& message@.body->NextWaiting_question_id == question_id@
                &&& models_players(message@.body->NextWaiting_players, players)
            },
            ServerBody::GameResults { game_id, players, winner_player_id, winner_label } => {
                &&& message@.body is GameResults
                &&& message@.body->GameResults_game_id == game_id@
                &&& message@.body->GameResults_winner_label == winner_label@
                &&& match winner_player_id {
                    Some(id) => message@.body->GameResults_winner_player_id == Some(id@),
                    None => message@.body->GameResults_winner_player_id is None,
                }
                &&& models_players(message@.body->GameResults_players, players)
            },
            ServerBody::Error { code, message: text } => message@.body == (
            ServerBodyView::Error { code, message: text@ }),
        },
{
}

impl Clone for Game {
    fn clone(&self) -> (r: Game)
        ensures
            r@ == self@,
    {
        Game {
            id: self.id.clone(),
            host_name: self.host_name.clone(),
            topic: self.topic.clone(),
            question_count: self.question_count,
            created_at: self.created_at,
        }
    }
}

impl Clone for Player {
    fn clone(&self) -> (r: Player)
        ensures
            r@ == self@,
    {
        Player {
            id: self.id.clone(),
            name: self.name.clone(),
            score: self.score,
            is_ready_for_next: self.is_ready_for_next,
            did_answer_correctly: self.did_answer_correctly,
        }
    }
}

impl Clone for QuestionOption {
    fn clone(&self) -> (r: QuestionOption)
        ensures
            r@ == self@,
    {
        QuestionOption {
            id: self.id.clone(),
            label: self.label.clone(),
            text: self.text.clone(),
        }
    }
}

impl Clone for Answer {
    fn clone(&self) -> (r: Answer)
        ensures
            r@ == self@,
    {
        Answer {
            game_id: self.game_id.clone(),
            question_id: self.question_id.clone(),
            player_id: self.player_id.clone(),
            locked: self.locked,
        }
    }
}

impl Clone for GameState {
    fn clone(&self) -> (r: GameState)
        ensures
            r@ == self@,
    {
        let r = GameState {
            id: self.id.clone(),
            topic: self.topic.clone(),
            question_count: self.question_count,
            question_index: self.question_index,
            phase: self.phase,
            players: self.players.clone(),
        };
        assert(r@.players =~= self@.players);
        r
    }
}

impl Clone for Question {
    fn clone(&self) -> (r: Question)
        ensures
            r@ == self@,
    {
        let r = Question {
            id: self.id.clone(),
            topic: self.topic.clone(),
            prompt: self.prompt.clone(),
            options: self.options.clone(),
        };
        assert(r@.options =~= self@.options);
        r
    }
}

impl Clone for ServerMessage {
    fn clone(&self) -> (r: ServerMessage)
        ensures
            r@ == self@,
    {
        ServerMessage { request_id: copy_opt(&self.request_id), body: self.body.clone() }
    }
}

/// A copy of a list of players.
pub fn copy_players(players: &Vec<Player>) -> (r: Vec<Player>)
    ensures
        r.deep_view() == players.deep_view(),
{
    let r = players.clone();
    assert(r.deep_view() =~= players.deep_view());
    r
}

/// A copy of a list of games.
pub fn copy_games(games: &Vec<Game>) -> (r: Vec<Game>)
    ensures
        r.deep_view() == games.deep_view(),
{
    let r = games.clone();
    assert(r.deep_view() =~= games.deep_view());
    r
}

impl Clone for ServerBody {
    fn clone(&self) -> (r: ServerBody)
        ensures
            r@ == self@,
    {
        match self {
            ServerBody::SessionReady { player_id } => ServerBody::SessionReady {
                player_id: player_id.clone(),
            },
            ServerBody::LobbySnapshot { games } => ServerBody::LobbySnapshot {
                games: copy_games(games),
            },
            ServerBody::GameCreated { game } => ServerBody::GameCreated { game: game.clone() },
            ServerBody::GameJoined { game } => ServerBody::GameJoined { game: game.clone() },
            ServerBody::PlayerJoined { game_id, player } => ServerBody::PlayerJoined {
                game_id: game_id.clone(),
                player: player.clone(),
            },
            ServerBody::QuestionStarted {
                game_id,
                question_index,
                question_count,
                question_ends_at,
                question,
                players,
            } => ServerBody::QuestionStarted {
                game_id: game_id.clone(),
                question_index: *question_index,
                question_count: *question_count,
                question_ends_at: *question_ends_at,
                question: question.clone(),
                players: copy_players(players),
            },
            ServerBody::AnswerAccepted(answer) => ServerBody::AnswerAccepted(answer.clone()),
            ServerBody::AnswerLocked(answer) => ServerBody::AnswerLocked(answer.clone()),
            ServerBody::QuestionRevealed {
                game_id,
                question_id,
                correct_answer_id,
                players,
                reason,
            } => ServerBody::QuestionRevealed {
                game_id: game_id.clone(),
                question_id: question_id.clone(),
                correct_answer_id: correct_answer_id.clone(),
                players: copy_players(players),
                reason: *reason,
            },
            ServerBody::NextWaiting { game_id, question_id, players } => ServerBody::NextWaiting {
                game_id: game_id.clone(),
                question_id: question_id.clone(),
                players: copy_players(players),
            },
            ServerBody::GameResults { game_id, players, winner_player_id, winner_label } => {
                ServerBody::GameResults {
                    game_id: game_id.clone(),
                    players: copy_players(players),
                    winner_player_id: copy_opt(winner_player_id),
                    winner_label: winner_label.clone(),
                }
            },
            ServerBody::Error { code, message } => ServerBody::Error {
                code: *code,
                message: message.clone(),
            },
        }
    }
}

} // verus!
