use quizbackend::messages::QuestionOption;
use quizbackend::questions::{select, QuestionRegistry, RawFile, RawQuestion};

fn file(topic: &str, n: usize) -> RawFile {
    RawFile {
        topic: topic.into(),
        questions: (0..n)
            .map(|i| RawQuestion {
                id: format!("{}-{}", topic, i),
                topic: topic.into(),
                prompt: format!("Question {}?", i),
                options: vec![
                    QuestionOption { id: "a".into(), label: "A".into(), text: "Yes".into() },
                    QuestionOption { id: "b".into(), label: "B".into(), text: "No".into() },
                ],
                correct_answer_id: "b".into(),
            })
            .collect(),
    }
}

fn registry() -> QuestionRegistry {
    QuestionRegistry::from_files(&vec![
        file("Science", 12),
        file("Nerd Stuff", 4),
        file("Geography", 5),
    ])
}

#[test]
fn loads_known_topics() {
    let reg = registry();
    assert!(reg.pool_size("Science").unwrap_or(0) > 0);
    assert!(reg.pool_size("Nerd Stuff").unwrap_or(0) > 0);
    assert!(reg.pool_size("Geography").unwrap_or(0) > 0);
}

#[test]
fn pick_respects_bounds() {
    let reg = registry();
    let science_size = reg.pool_size("Science").unwrap();
    assert!(reg.pick("Science", 0).is_none());
    assert!(reg.pick("Science", science_size + 1).is_none());
    assert_eq!(reg.pick("Science", 3).unwrap().len(), 3);
    assert!(reg.pick("Unknown Topic", 1).is_none());
}

#[test]
fn picked_questions_are_whole_and_distinct() {
    let reg = registry();
    for n in 1..=12 {
        let picked = reg.pick("Science", n).unwrap();
        assert_eq!(picked.len(), n);
        let mut ids: Vec<String> = picked.iter().map(|q| q.question.id.clone()).collect();
        ids.sort();
        ids.dedup();
        assert_eq!(ids.len(), n);
        for q in &picked {
            assert!(q.question.id.starts_with("Science-"));
            assert_eq!(q.question.topic, "Science");
            assert!(q.question.prompt.ends_with("?"));
            assert_eq!(q.question.options.len(), 2);
            assert_eq!(q.question.options[1].text, "No");
            assert_eq!(q.correct_answer_id, "b");
        }
    }
}

#[test]
fn picking_is_random() {
    let reg = registry();
    let first: Vec<String> =
        (0..200).map(|_| reg.pick("Science", 1).unwrap()[0].question.id.clone()).collect();
    assert!(first.iter().any(|id| *id != first[0]));
    let order: Vec<Vec<String>> = (0..200)
        .map(|_| {
            reg.pick("Science", 12).unwrap().iter().map(|q| q.question.id.clone()).collect()
        })
        .collect();
    assert!(order.iter().any(|ids| *ids != order[0]));
}

#[test]
fn later_file_replaces_the_topic() {
    let reg = QuestionRegistry::from_files(&vec![file("Science", 3), file("Science", 7)]);
    assert_eq!(reg.pool_size("Science"), Some(7));
    assert_eq!(QuestionRegistry::from_files(&vec![]).pool_size("Science"), None);
}

#[test]
fn empty_pool_offers_nothing() {
    let reg = QuestionRegistry::from_files(&vec![file("Void", 0)]);
    assert_eq!(reg.pool_size("Void"), Some(0));
    assert!(reg.pick("Void", 0).is_none());
    assert!(reg.pick("Void", 1).is_none());
}

#[test]
fn selection_follows_positions() {
    let pool = registry().pick("Geography", 5).unwrap();
    let chosen = select(&pool, &vec![4, 0, 2]);
    let ids: Vec<&str> = chosen.iter().map(|q| q.question.id.as_str()).collect();
    let expected: Vec<&str> = [4, 0, 2].iter().map(|i| pool[*i].question.id.as_str()).collect();
    assert_eq!(ids, expected);
    assert!(select(&pool, &vec![]).is_empty());
}
