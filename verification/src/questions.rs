//! The question pools, by topic, and the random choice of questions for a game.
use vstd::prelude::*;
use vstd::hash_map::StringHashMap;
use crate::messages::{Question, QuestionOption, QuestionOptionView, QuestionView};

verus! {

/// A question together with its answer.
#[derive(Debug)]
pub struct StoredQuestion {
    pub question: Question,
    pub correct_answer_id: String,
}

/// The model of a [`StoredQuestion`].
pub struct StoredQuestionView {
    pub question: QuestionView,
    pub correct_answer_id: Seq<char>,
}

impl View for StoredQuestion {
    type V = StoredQuestionView;

    open spec fn view(&self) -> StoredQuestionView {
        StoredQuestionView {
            question: self.question@,
            correct_answer_id: self.correct_answer_id@,
        }
    }
}

impl DeepView for StoredQuestion {
    type V = StoredQuestionView;

    open spec fn deep_view(&self) -> StoredQuestionView {
        self@
    }
}

impl Clone for StoredQuestion {
    fn clone(&self) -> (r: StoredQuestion)
        ensures
            r@ == self@,
    {
        StoredQuestion {
            question: self.question.clone(),
            correct_answer_id: self.correct_answer_id.clone(),
        }
    }
}

/// The contents of one question file.
#[derive(Debug)]
pub struct RawFile {
    pub topic: String,
    pub questions: Vec<RawQuestion>,
}

/// A question as a file holds it.
#[derive(Debug)]
pub struct RawQuestion {
    pub id: String,
    pub topic: String,
    pub prompt: String,
    pub options: Vec<QuestionOption>,
    pub correct_answer_id: String,
}

/// The model of a [`RawFile`].
pub struct RawFileView {
    pub topic: Seq<char>,
    pub questions: Seq<RawQuestionView>,
}

/// The model of a [`RawQuestion`].
pub struct RawQuestionView {
    pub id: Seq<char>,
    pub topic: Seq<char>,
    pub prompt: Seq<char>,
    pub options: Seq<QuestionOptionView>,
    pub correct_answer_id: Seq<char>,
}

impl View for RawQuestion {
    type V = RawQuestionView;

    open spec fn view(&self) -> RawQuestionView {
        RawQuestionView {
            id: self.id@,
            topic: self.topic@,
            prompt: self.prompt@,
            options: self.options.deep_view(),
            correct_answer_id: self.correct_answer_id@,
        }
    }
}

impl DeepView for RawQuestion {
    type V = RawQuestionView;

    open spec fn deep_view(&self) -> RawQuestionView {
        self@
    }
}

impl View for RawFile {
    type V = RawFileView;

    open spec fn view(&self) -> RawFileView {
        RawFileView { topic: self.topic@, questions: self.questions.deep_view() }
    }
}

impl DeepView for RawFile {
    type V = RawFileView;

    open spec fn deep_view(&self) -> RawFileView {
        self@
    }
}

/// The models of questions, in files and in pools, have all that these have.
pub proof fn law_question_models(raw: RawQuestion, kept: StoredQuestion)
    ensures
        raw@.id == raw.id@,
        raw@.topic == raw.topic@,
        raw@.prompt == raw.prompt@,
        raw@.correct_answer_id == raw.correct_answer_id@,
        raw@.options.len() == raw.options.len(),
        forall|i: int|
            0 <= i < raw.options.len() ==> #[trigger] raw@.options[i] == raw.options[i]@,
        kept@.question == kept.question@,
        kept@.correct_answer_id == kept.correct_answer_id@,
{
}

/// What is stored for a question of a file.
pub open spec fn stored(raw: RawQuestionView) -> StoredQuestionView {
    StoredQuestionView {
        question: QuestionView {
            id: raw.id,
            topic: raw.topic,
            prompt: raw.prompt,
            options: raw.options,
        },
        correct_answer_id: raw.correct_answer_id,
    }
}

/// The pools that a list of files makes up: a file gives its topic the questions that it holds,
/// in place of those of an earlier file with the same topic.
pub open spec fn loaded(files: Seq<RawFileView>) -> Map<Seq<char>, Seq<StoredQuestionView>>
    decreases files.len(),
{
    if files.len() == 0 {
        Map::empty()
    } else {
        loaded(files.drop_last()).insert(
            files.last().topic,
            files.last().questions.map_values(|raw: RawQuestionView| stored(raw)),
        )
    }
}

/// Whether `positions` are `n` different positions in a list of `len` items.
pub open spec fn distinct_positions(positions: Seq<usize>, len: nat, n: nat) -> bool {
    &&& positions.len() == n
    &&& positions.no_duplicates()
    &&& forall|i: int| 0 <= i < positions.len() ==> #[trigger] positions[i] < len
}

/// The items of `pool` at `positions`.
pub open spec fn at_positions<T>(pool: Seq<T>, positions: Seq<usize>) -> Seq<T> {
    Seq::new(positions.len(), |i: int| pool[positions[i] as int])
}

/// Whether `chosen` are `n` items of `pool`, none of them taken twice.
pub open spec fn drawn<T>(pool: Seq<T>, chosen: Seq<T>, n: nat) -> bool {
    exists|positions: Seq<usize>|
        {
            &&& #[trigger] distinct_positions(positions, pool.len(), n)
            &&& chosen == at_positions(pool, positions)
        }
}

/// Whether the chosen items stand at these places of the pool, no two at the same.
pub open spec fn taken_at<T>(pool: Seq<T>, chosen: Seq<T>, places: Seq<int>) -> bool {
    &&& places.len() == chosen.len()
    &&& forall|i: int|
        0 <= i < places.len() ==> 0 <= #[trigger] places[i] < pool.len() && chosen[i]
            == pool[places[i]]
    &&& forall|i: int, j: int|
        0 <= i < j < places.len() ==> #[trigger] places[i] != #[trigger] places[j]
}

/// Whether the chosen items are `n` of the pool's, taken at different places.
pub open spec fn picked_from<T>(pool: Seq<T>, chosen: Seq<T>, n: nat) -> bool {
    &&& chosen.len() == n
    &&& exists|places: Seq<int>| #[trigger] taken_at(pool, chosen, places)
}

/// A draw takes as many items as it should, and none of them twice.
pub proof fn law_drawn<T>(pool: Seq<T>, chosen: Seq<T>, n: nat)
    requires
        drawn(pool, chosen, n),
    ensures
        picked_from(pool, chosen, n),
{
    let positions = choose|positions: Seq<usize>|
        {
            &&& #[trigger] distinct_positions(positions, pool.len(), n)
            &&& chosen == at_positions(pool, positions)
        };
    let places = Seq::new(n, |i: int| positions[i] as int);
    assert(taken_at(pool, chosen, places));
}

/// The questions at some positions are those, one for each position and in that order.
pub proof fn law_at_positions<T>(pool: Seq<T>, positions: Seq<usize>)
    ensures
        at_positions(pool, positions).len() == positions.len(),
        forall|i: int|
            0 <= i < positions.len() ==> #[trigger] at_positions(pool, positions)[i]
                == pool[positions[i] as int],
{
}

/// Questions are to be had on a topic that there is, from one up to as many as it has.
pub proof fn law_offers(pools: Map<Seq<char>, Seq<StoredQuestionView>>, topic: Seq<char>, n: nat)
    ensures
        offers(pools, topic, n) <==> pools.contains_key(topic) && 1 <= n && n
            <= pools[topic].len(),
{
}

/// There is a pool for every topic that a file has, and for no other.
pub proof fn law_known_topics(files: Seq<RawFileView>, topic: Seq<char>)
    ensures
        loaded(files).contains_key(topic) <==> exists|k: int|
            0 <= k < files.len() && (#[trigger] files[k]).topic == topic,
    decreases files.len(),
{
    if files.len() > 0 {
        let rest = files.drop_last();
        law_known_topics(rest, topic);
        assert(files.last() == files[files.len() - 1]);
        if exists|k: int| 0 <= k < rest.len() && (#[trigger] rest[k]).topic == topic {
            let k = choose|k: int| 0 <= k < rest.len() && (#[trigger] rest[k]).topic == topic;
            assert(files[k].topic == topic);
        }
        if exists|k: int| 0 <= k < files.len() && (#[trigger] files[k]).topic == topic {
            let k = choose|k: int| 0 <= k < files.len() && (#[trigger] files[k]).topic == topic;
            if k < rest.len() {
                assert(rest[k].topic == topic);
            }
        }
    }
}

/// The last file on a topic gives it all of its questions, in order, each as it is written and
/// with its answer.
pub proof fn law_last_file_counts(files: Seq<RawFileView>, k: int, i: int)
    requires
        0 <= k < files.len(),
        forall|later: int|
            k < later < files.len() ==> (#[trigger] files[later]).topic != files[k].topic,
    ensures
        loaded(files).contains_key(files[k].topic),
        loaded(files)[files[k].topic].len() == files[k].questions.len(),
        0 <= i < files[k].questions.len() ==> {
            let raw = files[k].questions[i];
            let kept = loaded(files)[files[k].topic][i];
            &&& kept.question.id == raw.id
            &&& kept.question.topic == raw.topic
            &&& kept.question.prompt == raw.prompt
            &&& kept.question.options == raw.options
            &&& kept.correct_answer_id == raw.correct_answer_id
        },
    decreases files.len(),
{
    let rest = files.drop_last();
    if k < rest.len() {
        assert(rest[k] == files[k]);
        assert(files[files.len() - 1].topic != files[k].topic);
        assert forall|later: int| k < later < rest.len() implies (#[trigger] rest[later]).topic
            != rest[k].topic by {
            assert(rest[later] == files[later]);
        }
        law_last_file_counts(rest, k, i);
    }
}

/// The question pools.
pub struct QuestionRegistry {
    pools: StringHashMap<Vec<StoredQuestion>>,
}

impl View for QuestionRegistry {
    type V = Map<Seq<char>, Seq<StoredQuestionView>>;

    closed spec fn view(&self) -> Map<Seq<char>, Seq<StoredQuestionView>> {
        self.pools@.map_values(|pool: Vec<StoredQuestion>| pool.deep_view())
    }
}

/// Whether a game can have `n` questions on `topic`.
pub open spec fn offers(
    pools: Map<Seq<char>, Seq<StoredQuestionView>>,
    topic: Seq<char>,
    n: nat,
) -> bool {
    &&& pools.contains_key(topic)
    &&& 0 < n <= pools[topic].len()
}

fn store(raw: &RawQuestion) -> (r: StoredQuestion)
    ensures
        r@ == stored(raw@),
{
    let options = raw.options.clone();
    assert(options.deep_view() =~= raw.options.deep_view());
    StoredQuestion {
        question: Question {
            id: raw.id.clone(),
            topic: raw.topic.clone(),
            prompt: raw.prompt.clone(),
            options,
        },
        correct_answer_id: raw.correct_answer_id.clone(),
    }
}

fn store_all(raw: &Vec<RawQuestion>) -> (r: Vec<StoredQuestion>)
    ensures
        r.deep_view() == raw.deep_view().map_values(|q: RawQuestionView| stored(q)),
{
    let mut r: Vec<StoredQuestion> = Vec::new();
    for i in 0..raw.len()
        invariant
            r.len() == i,
            forall|j: int| 0 <= j < i ==> (#[trigger] r[j])@ == stored(raw[j]@),
    {
        r.push(store(&raw[i]));
    }
    assert(r.deep_view() =~= raw.deep_view().map_values(|q: RawQuestionView| stored(q)));
    r
}

impl QuestionRegistry {
    /// Builds the pools from the contents of the question files, in the order in which they
    /// were read.
    pub fn from_files(files: &Vec<RawFile>) -> (r: QuestionRegistry)
        ensures
            r@ == loaded(files.deep_view()),
    {
        let mut pools: StringHashMap<Vec<StoredQuestion>> = StringHashMap::new();
        let ghost model = |p: Map<Seq<char>, Vec<StoredQuestion>>|
            p.map_values(|pool: Vec<StoredQuestion>| pool.deep_view());
        assert(model(pools@) =~= loaded(files.deep_view().take(0)));
        for i in 0..files.len()
            invariant
                model == (|p: Map<Seq<char>, Vec<StoredQuestion>>|
                    p.map_values(|pool: Vec<StoredQuestion>| pool.deep_view())),
                model(pools@) == loaded(files.deep_view().take(i as int)),
        {
            let ghost before = pools@;
            let questions = store_all(&files[i].questions);
            pools.insert(files[i].topic.clone(), questions);
            proof {
                let now = files.deep_view().take(i + 1);
                assert(now.drop_last() =~= files.deep_view().take(i as int));
                assert(now.last() == files[i as int]@);
                assert(model(pools@) =~= model(before).insert(
                    files[i as int]@.topic,
                    questions.deep_view(),
                ));
            }
        }
        assert(files.deep_view().take(files.len() as int) =~= files.deep_view());
        QuestionRegistry { pools }
    }

    /// How many questions there are on `topic`, if there is such a topic.
    pub fn pool_size(&self, topic: &str) -> (r: Option<usize>)
        ensures
            match r {
                Some(n) => self@.contains_key(topic@) && n == self@[topic@].len(),
                None => !self@.contains_key(topic@),
            },
    {
        match self.pools.get(topic) {
            Some(pool) => Some(pool.len()),
            None => None,
        }
    }

    /// Chooses `n` questions on `topic` at random, in random order. There are none to be had
    /// where the topic is unknown, where `n` is zero, and where the pool holds fewer.
    pub fn pick(&self, topic: &str, n: usize) -> (r: Option<Vec<StoredQuestion>>)
        ensures
            match r {
                Some(chosen) => offers(self@, topic@, n as nat) && drawn(
                    self@[topic@],
                    chosen.deep_view(),
                    n as nat,
                ),
                None => !offers(self@, topic@, n as nat),
            },
    {
        let pool = match self.pools.get(topic) {
            Some(pool) => pool,
            None => {
                return None;
            },
        };
        if n == 0 || n > pool.len() {
            return None;
        }
        let positions = random_positions(pool.len(), n);
        let chosen = select(pool, &positions);
        assert(self@[topic@] == pool.deep_view());
        assert(distinct_positions(positions@, self@[topic@].len(), n as nat));
        Some(chosen)
    }
}

/// The questions of `pool` at `positions`, in that order.
pub fn select(pool: &Vec<StoredQuestion>, positions: &Vec<usize>) -> (r: Vec<StoredQuestion>)
    requires
        forall|i: int| 0 <= i < positions.len() ==> #[trigger] positions[i] < pool.len(),
    ensures
        r.deep_view() == at_positions(pool.deep_view(), positions@),
{
    let mut r: Vec<StoredQuestion> = Vec::new();
    for i in 0..positions.len()
        invariant
            forall|i: int| 0 <= i < positions.len() ==> #[trigger] positions[i] < pool.len(),
            r.len() == i,
            forall|j: int| 0 <= j < i ==> (#[trigger] r[j])@ == pool[positions[j] as int]@,
    {
        r.push(pool[positions[i]].clone());
    }
    assert(r.deep_view() =~= at_positions(pool.deep_view(), positions@));
    r
}

/// `n` different positions below `len`, in random order.
fn random_positions(len: usize, n: usize) -> (r: Vec<usize>)
    requires
        n <= len,
    ensures
        distinct_positions(r@, len as nat, n as nat),
{
    let mut all: Vec<usize> = Vec::new();
    for i in 0..len
        invariant
            all.len() == i,
            forall|j: int| 0 <= j < i ==> #[trigger] all[j] == j,
    {
        all.push(i);
    }
    let mut r = sample(&all, n);
    proof {
        let p = choose|p: Seq<usize>|
            {
                &&& #[trigger] distinct_positions(p, all@.len(), n as nat)
                &&& r@ == at_positions(all@, p)
            };
        assert(r@ =~= p);
        r@.lemma_multiset_has_no_duplicates();
    }
    let ghost before = r@;
    shuffle(&mut r);
    proof {
        before.to_multiset_ensures();
        r@.to_multiset_ensures();
        r@.lemma_multiset_has_no_duplicates_conv();
        assert forall|i: int| 0 <= i < r.len() implies #[trigger] r@[i] < len by {
            assert(r@.to_multiset().contains(r@[i]));
            assert(before.to_multiset().contains(r@[i]));
            assert(before.contains(r@[i]));
        }
    }
    r
}

/// `rand::seq::IndexedRandom::sample` with `rand::rng`: as many items as asked for, or all of
/// them where there are fewer, no position being taken twice. Which ones, and in what order, is
/// random.
#[verifier::external_body]
fn sample(from: &Vec<usize>, amount: usize) -> (r: Vec<usize>)
    ensures
        drawn(
            from@,
            r@,
            if amount <= from.len() {
                amount as nat
            } else {
                from.len() as nat
            },
        ),
{
    rand::seq::IndexedRandom::sample(from.as_slice(), &mut rand::rng(), amount).cloned().collect()
}

/// `rand::seq::SliceRandom::shuffle` with `rand::rng`: the same items in random order.
#[verifier::external_body]
fn shuffle(items: &mut Vec<usize>)
    ensures
        final(items)@.to_multiset() == old(items)@.to_multiset(),
{
    rand::seq::SliceRandom::shuffle(items.as_mut_slice(), &mut rand::rng());
}

} // verus!
