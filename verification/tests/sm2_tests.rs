use lang_tutor::sm2::{
    apply_correct_use, apply_correct_use_grammar, new_grammar_item, new_vocab_item,
    record_correct_use, record_correct_use_grammar, GrammarItem, VocabItem,
};

fn item(reps: u32, interval: u32, ease_milli: u32) -> VocabItem {
    VocabItem {
        word: String::from("hola"),
        ease_milli,
        interval_days: interval,
        repetitions: reps,
        next_review_day: 0,
    }
}

#[test]
fn first_correct_use_gives_one_day_interval() {
    let r = apply_correct_use(&item(0, 0, 2500), 100);
    assert_eq!(r.repetitions, 1);
    assert_eq!(r.interval_days, 1);
    assert_eq!(r.next_review_day, 101);
    assert_eq!(r.ease_milli, 2500);
    assert_eq!(r.word, "hola");
}

#[test]
fn second_correct_use_gives_six_day_interval() {
    let r = apply_correct_use(&item(1, 1, 2500), 100);
    assert_eq!(r.repetitions, 2);
    assert_eq!(r.interval_days, 6);
    assert_eq!(r.next_review_day, 106);
}

#[test]
fn third_correct_use_scales_by_ease() {
    let r = apply_correct_use(&item(2, 6, 2500), 100);
    assert_eq!(r.repetitions, 3);
    assert_eq!(r.interval_days, 15); // round(6 * 2.5)
    assert_eq!(r.next_review_day, 115);
}

#[test]
fn scaling_rounds_half_up() {
    // round(3 * 2.5) = round(7.5) = 8
    let r = apply_correct_use(&item(5, 3, 2500), 0);
    assert_eq!(r.interval_days, 8);
    // round(3 * 2.1) = round(6.3) = 6
    let r = apply_correct_use(&item(5, 3, 2100), 0);
    assert_eq!(r.interval_days, 6);
}

#[test]
fn ease_is_never_altered_by_correct_use() {
    let r = apply_correct_use(&item(7, 40, 2100), 100);
    assert_eq!(r.ease_milli, 2100);
}

#[test]
fn new_vocab_item_defaults() {
    let r = new_vocab_item(String::from("agua"), 200);
    assert_eq!(r.word, "agua");
    assert_eq!(r.ease_milli, 2500);
    assert_eq!(r.repetitions, 1);
    assert_eq!(r.interval_days, 1);
    assert_eq!(r.next_review_day, 201);
}

#[test]
fn new_grammar_item_defaults() {
    let r = new_grammar_item(String::from("ser vs estar"));
    assert_eq!(r.rule, "ser vs estar");
    assert_eq!(r.stars, 1);
    assert_eq!(r.correct_streak, 1);
}

#[test]
fn grammar_streak_upgrades_stars_at_threshold() {
    let g = GrammarItem { rule: String::from("particles"), stars: 1, correct_streak: 4 };
    let r = apply_correct_use_grammar(&g);
    assert_eq!(r.correct_streak, 5);
    assert_eq!(r.stars, 2);
}

#[test]
fn grammar_stars_never_downgrade() {
    let g = GrammarItem { rule: String::from("particles"), stars: 5, correct_streak: 1 };
    let r = apply_correct_use_grammar(&g);
    assert_eq!(r.correct_streak, 2);
    assert_eq!(r.stars, 5);
}

#[test]
fn grammar_stars_cap_at_five() {
    let g = GrammarItem { rule: String::from("particles"), stars: 1, correct_streak: 80 };
    let r = apply_correct_use_grammar(&g);
    assert_eq!(r.stars, 5);
}

#[test]
fn store_update_is_keyed_and_never_duplicates() {
    let mut store = vec![item(1, 1, 2500)];
    record_correct_use(&mut store, "hola", 100);
    assert_eq!(store.len(), 1);
    assert_eq!(store[0].repetitions, 2);
    assert_eq!(store[0].interval_days, 6);
    record_correct_use(&mut store, "agua", 100);
    assert_eq!(store.len(), 2);
    assert_eq!(store[1].word, "agua");
    assert_eq!(store[1].repetitions, 1);
    assert_eq!(store[1].interval_days, 1);
    assert_eq!(store[1].next_review_day, 101);
    // the untouched item keeps its state
    assert_eq!(store[0].repetitions, 2);
}

#[test]
fn grammar_store_update_is_keyed_and_never_duplicates() {
    let mut store: Vec<GrammarItem> = Vec::new();
    record_correct_use_grammar(&mut store, "particles");
    assert_eq!(store.len(), 1);
    assert_eq!(store[0].stars, 1);
    assert_eq!(store[0].correct_streak, 1);
    for _ in 0..4 {
        record_correct_use_grammar(&mut store, "particles");
    }
    assert_eq!(store.len(), 1);
    assert_eq!(store[0].correct_streak, 5);
    assert_eq!(store[0].stars, 2);
}
