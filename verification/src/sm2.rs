//! The spaced-repetition update policy for tracked items.
//!
//! Vocabulary items follow an SM-2-derived rule on each confirmed correct
//! use; grammar items follow a simpler monotonic star policy. Ease factors
//! are real numbers in the source algorithm; here they are held in
//! thousandths (2500 stands for 2.5), so `round(interval * ease)` becomes
//! `(interval * ease_milli + 500) / 1000`. Dates are day numbers counted
//! from an arbitrary fixed epoch.

use vstd::prelude::*;

use crate::text::str_eq;

verus! {

/// The default ease factor of a new vocabulary item: 2.5, in thousandths.
pub const DEFAULT_EASE_MILLI: u32 = 2500;

/// One tracked vocabulary word.
#[derive(Debug, PartialEq, Eq)]
pub struct VocabItem {
    /// The word or particle itself: the identifying key in its store.
    pub word: String,
    /// Ease factor in thousandths.
    pub ease_milli: u32,
    /// Current review interval in days.
    pub interval_days: u32,
    /// How many consecutive correct uses have been recorded.
    pub repetitions: u32,
    /// The day number the item is next due for review.
    pub next_review_day: u64,
}

/// One tracked grammar rule.
#[derive(Debug, PartialEq, Eq)]
pub struct GrammarItem {
    /// The rule text: the identifying key in its store.
    pub rule: String,
    /// Star rating, monotonic non-decreasing, capped at five.
    pub stars: u32,
    /// Consecutive correct uses.
    pub correct_streak: u32,
}

/// `round(interval * ease)` over thousandths, rounding half up.
pub open spec fn rounded_interval(interval: nat, ease_milli: nat) -> nat {
    (interval * ease_milli + 500) / 1000
}

/// The repetition count after one more correct use (saturating at the
/// machine bound).
pub open spec fn bumped_repetitions(reps: nat) -> nat {
    if reps < u32::MAX {
        reps + 1
    } else {
        reps
    }
}

/// The SM-2 interval for a repetition count reached after a correct use:
/// 1 day after the first, 6 after the second, then the previous interval
/// scaled by the ease factor (clipped to the machine bound).
pub open spec fn next_interval(reps_after: nat, prev_interval: nat, ease_milli: nat) -> nat {
    if reps_after == 1 {
        1
    } else if reps_after == 2 {
        6
    } else if rounded_interval(prev_interval, ease_milli) <= u32::MAX {
        rounded_interval(prev_interval, ease_milli)
    } else {
        u32::MAX as nat
    }
}

/// A brand-new vocabulary item on its first observed use: ease 2.5,
/// one repetition, one-day interval, due tomorrow.
pub fn new_vocab_item(word: String, today_day: u64) -> (r: VocabItem)
    requires
        today_day < u64::MAX,
    ensures
        r.word == word,
        r.ease_milli == DEFAULT_EASE_MILLI,
        r.repetitions == 1,
        r.interval_days == 1,
        r.next_review_day == today_day + 1,
{
    VocabItem {
        word,
        ease_milli: DEFAULT_EASE_MILLI,
        interval_days: 1,
        repetitions: 1,
        next_review_day: today_day + 1,
    }
}

/// One confirmed correct use of an existing vocabulary item: the
/// repetition count rises by one, the interval follows the SM-2 rule,
/// the next review is that many days from today, and the ease factor is
/// unchanged (no incorrect-use feedback is defined in this policy).
pub fn apply_correct_use(item: &VocabItem, today_day: u64) -> (r: VocabItem)
    requires
        today_day <= u64::MAX - u32::MAX,
    ensures
        r.word == item.word,
        r.ease_milli == item.ease_milli,
        r.repetitions == bumped_repetitions(item.repetitions as nat),
        r.interval_days == next_interval(
            r.repetitions as nat,
            item.interval_days as nat,
            item.ease_milli as nat,
        ),
        r.next_review_day == today_day + r.interval_days,
{
    let repetitions: u32 = if item.repetitions < u32::MAX {
        item.repetitions + 1
    } else {
        item.repetitions
    };
    let interval_days: u32 = if repetitions == 1 {
        1
    } else if repetitions == 2 {
        6
    } else {
        proof {
            assert((item.interval_days as int) * (item.ease_milli as int) <= 0xffff_ffff
                * 0xffff_ffff) by (nonlinear_arith)
                requires
                    item.interval_days <= 0xffff_ffffu32,
                    item.ease_milli <= 0xffff_ffffu32,
            ;
        }
        let prod: u64 = (item.interval_days as u64) * (item.ease_milli as u64) + 500;
        let rounded: u64 = prod / 1000;
        if rounded <= 0xffff_ffff {
            rounded as u32
        } else {
            u32::MAX
        }
    };
    VocabItem {
        word: item.word.clone(),
        ease_milli: item.ease_milli,
        interval_days,
        repetitions,
        next_review_day: today_day + (interval_days as u64),
    }
}

/// The star rating earned by a correct streak: one star per five
/// consecutive correct uses, capped at five stars. The policy only asks
/// for a rating monotonic non-decreasing in the streak; this is the
/// concrete threshold this library fixes.
pub open spec fn stars_for_streak(streak: nat) -> nat {
    if 1 + streak / 5 < 5 {
        1 + streak / 5
    } else {
        5
    }
}

/// A brand-new grammar item on its first observed use.
pub fn new_grammar_item(rule: String) -> (r: GrammarItem)
    ensures
        r.rule == rule,
        r.stars == 1,
        r.correct_streak == 1,
{
    GrammarItem { rule, stars: 1, correct_streak: 1 }
}

/// One confirmed correct use of an existing grammar item: the streak
/// rises by one and the star rating is upgraded when the streak crosses
/// the threshold, never downgraded.
pub fn apply_correct_use_grammar(item: &GrammarItem) -> (r: GrammarItem)
    ensures
        r.rule == item.rule,
        r.correct_streak == bumped_repetitions(item.correct_streak as nat),
        r.stars == if stars_for_streak(r.correct_streak as nat) > item.stars {
            stars_for_streak(r.correct_streak as nat)
        } else {
            item.stars as nat
        },
        r.stars >= item.stars,
{
    let correct_streak: u32 = if item.correct_streak < u32::MAX {
        item.correct_streak + 1
    } else {
        item.correct_streak
    };
    let earned: u32 = if 1 + correct_streak / 5 < 5 {
        1 + correct_streak / 5
    } else {
        5
    };
    let stars: u32 = if earned > item.stars {
        earned
    } else {
        item.stars
    };
    GrammarItem { rule: item.rule.clone(), stars, correct_streak }
}

/// The state `apply_correct_use` moves an item to, as one value.
pub open spec fn correct_use_model(item: VocabItem, today_day: u64) -> VocabItem {
    let reps = bumped_repetitions(item.repetitions as nat);
    let ivl = next_interval(reps, item.interval_days as nat, item.ease_milli as nat);
    VocabItem {
        word: item.word,
        ease_milli: item.ease_milli,
        repetitions: reps as u32,
        interval_days: ivl as u32,
        next_review_day: (today_day + ivl) as u64,
    }
}

/// A vocabulary store holds each word at most once.
pub open spec fn vocab_keys_unique(items: Seq<VocabItem>) -> bool {
    forall|i: int, j: int|
        0 <= i < j < items.len() ==> (#[trigger] items[i].word)@ != (#[trigger] items[j].word)@
}

/// The position of the item tracking `word`, or `-1` when none does.
pub open spec fn vocab_index_of(items: Seq<VocabItem>, word: Seq<char>) -> int
    decreases items.len(),
{
    if items.len() == 0 {
        -1
    } else if items[0].word@ == word {
        0
    } else if vocab_index_of(items.skip(1), word) == -1 {
        -1
    } else {
        vocab_index_of(items.skip(1), word) + 1
    }
}

proof fn lemma_vocab_index_found(items: Seq<VocabItem>, word: Seq<char>, i: int)
    requires
        0 <= i < items.len(),
        items[i].word@ == word,
        forall|j: int| 0 <= j < i ==> (#[trigger] items[j].word)@ != word,
    ensures
        vocab_index_of(items, word) == i,
    decreases i,
{
    if i > 0 {
        lemma_vocab_index_found(items.skip(1), word, i - 1);
    }
}

proof fn lemma_vocab_index_absent(items: Seq<VocabItem>, word: Seq<char>)
    requires
        forall|j: int| 0 <= j < items.len() ==> (#[trigger] items[j].word)@ != word,
    ensures
        vocab_index_of(items, word) == -1,
    decreases items.len(),
{
    if items.len() > 0 {
        lemma_vocab_index_absent(items.skip(1), word);
    }
}

/// One confirmed correct use of `word`, applied to a whole vocabulary
/// store: the tracking is keyed by the word, so an already-tracked word
/// is updated in place and a new word is appended once — a duplicate
/// record is never created, and uniqueness of keys is preserved.
pub fn record_correct_use(items: &mut Vec<VocabItem>, word: &str, today_day: u64)
    requires
        vocab_keys_unique(old(items)@),
        today_day <= u64::MAX - u32::MAX,
    ensures
        vocab_keys_unique(final(items)@),
        vocab_index_of(old(items)@, word@) >= 0 ==> {
            let k = vocab_index_of(old(items)@, word@);
            &&& final(items)@.len() == old(items)@.len()
            &&& final(items)@[k] == correct_use_model(old(items)@[k], today_day)
            &&& forall|j: int|
                0 <= j < old(items)@.len() && j != k ==> final(items)@[j] == old(items)@[j]
        },
        vocab_index_of(old(items)@, word@) == -1 ==> {
            &&& final(items)@.len() == old(items)@.len() + 1
            &&& forall|j: int|
                0 <= j < old(items)@.len() ==> final(items)@[j] == old(items)@[j]
            &&& final(items)@.last().word@ == word@
            &&& final(items)@.last().ease_milli == DEFAULT_EASE_MILLI
            &&& final(items)@.last().repetitions == 1
            &&& final(items)@.last().interval_days == 1
            &&& final(items)@.last().next_review_day == today_day + 1
        },
{
    let n = items.len();
    let mut i: usize = 0;
    while i < n
        invariant
            n == items@.len(),
            i <= n,
            items@ == old(items)@,
            vocab_keys_unique(items@),
            today_day <= u64::MAX - u32::MAX,
            forall|j: int| 0 <= j < i ==> (#[trigger] items@[j].word)@ != word@,
        decreases n - i,
    {
        if str_eq(items[i].word.as_str(), word) {
            proof {
                lemma_vocab_index_found(items@, word@, i as int);
            }
            let updated = apply_correct_use(&items[i], today_day);
            proof {
                assert(updated == correct_use_model(items@[i as int], today_day));
            }
            items[i] = updated;
            proof {
                assert(vocab_keys_unique(items@)) by {
                    assert forall|a: int, b: int|
                        0 <= a < b < items@.len() implies (#[trigger] items@[a].word)@
                        != (#[trigger] items@[b].word)@ by {
                        assert(items@[a].word@ == old(items)@[a].word@);
                        assert(items@[b].word@ == old(items)@[b].word@);
                    }
                }
            }
            return;
        }
        i = i + 1;
    }
    proof {
        lemma_vocab_index_absent(items@, word@);
    }
    let fresh = new_vocab_item(String::from_str(word), today_day);
    items.push(fresh);
    proof {
        assert(vocab_keys_unique(items@)) by {
            assert forall|a: int, b: int|
                0 <= a < b < items@.len() implies (#[trigger] items@[a].word)@
                != (#[trigger] items@[b].word)@ by {
                if b < items@.len() - 1 {
                    assert(items@[a].word@ == old(items)@[a].word@);
                    assert(items@[b].word@ == old(items)@[b].word@);
                } else {
                    assert(items@[a].word@ == old(items)@[a].word@);
                    assert(items@[b].word@ == word@);
                }
            }
        }
    }
}

/// The state `apply_correct_use_grammar` moves an item to, as one value.
pub open spec fn grammar_correct_use_model(item: GrammarItem) -> GrammarItem {
    let streak = bumped_repetitions(item.correct_streak as nat);
    let earned = stars_for_streak(streak);
    GrammarItem {
        rule: item.rule,
        stars: if earned > item.stars { earned as u32 } else { item.stars },
        correct_streak: streak as u32,
    }
}

/// A grammar store holds each rule at most once.
pub open spec fn grammar_keys_unique(items: Seq<GrammarItem>) -> bool {
    forall|i: int, j: int|
        0 <= i < j < items.len() ==> (#[trigger] items[i].rule)@ != (#[trigger] items[j].rule)@
}

/// The position of the item tracking `rule`, or `-1` when none does.
pub open spec fn grammar_index_of(items: Seq<GrammarItem>, rule: Seq<char>) -> int
    decreases items.len(),
{
    if items.len() == 0 {
        -1
    } else if items[0].rule@ == rule {
        0
    } else if grammar_index_of(items.skip(1), rule) == -1 {
        -1
    } else {
        grammar_index_of(items.skip(1), rule) + 1
    }
}

proof fn lemma_grammar_index_found(items: Seq<GrammarItem>, rule: Seq<char>, i: int)
    requires
        0 <= i < items.len(),
        items[i].rule@ == rule,
        forall|j: int| 0 <= j < i ==> (#[trigger] items[j].rule)@ != rule,
    ensures
        grammar_index_of(items, rule) == i,
    decreases i,
{
    if i > 0 {
        lemma_grammar_index_found(items.skip(1), rule, i - 1);
    }
}

proof fn lemma_grammar_index_absent(items: Seq<GrammarItem>, rule: Seq<char>)
    requires
        forall|j: int| 0 <= j < items.len() ==> (#[trigger] items[j].rule)@ != rule,
    ensures
        grammar_index_of(items, rule) == -1,
    decreases items.len(),
{
    if items.len() > 0 {
        lemma_grammar_index_absent(items.skip(1), rule);
    }
}

/// One confirmed correct use of `rule`, applied to a whole grammar
/// store, keyed by the rule text: updated in place when tracked, appended
/// once when new, never duplicated.
pub fn record_correct_use_grammar(items: &mut Vec<GrammarItem>, rule: &str)
    requires
        grammar_keys_unique(old(items)@),
    ensures
        grammar_keys_unique(final(items)@),
        grammar_index_of(old(items)@, rule@) >= 0 ==> {
            let k = grammar_index_of(old(items)@, rule@);
            &&& final(items)@.len() == old(items)@.len()
            &&& final(items)@[k] == grammar_correct_use_model(old(items)@[k])
            &&& forall|j: int|
                0 <= j < old(items)@.len() && j != k ==> final(items)@[j] == old(items)@[j]
        },
        grammar_index_of(old(items)@, rule@) == -1 ==> {
            &&& final(items)@.len() == old(items)@.len() + 1
            &&& forall|j: int|
                0 <= j < old(items)@.len() ==> final(items)@[j] == old(items)@[j]
            &&& final(items)@.last().rule@ == rule@
            &&& final(items)@.last().stars == 1
            &&& final(items)@.last().correct_streak == 1
        },
{
    let n = items.len();
    let mut i: usize = 0;
    while i < n
        invariant
            n == items@.len(),
            i <= n,
            items@ == old(items)@,
            grammar_keys_unique(items@),
            forall|j: int| 0 <= j < i ==> (#[trigger] items@[j].rule)@ != rule@,
        decreases n - i,
    {
        if str_eq(items[i].rule.as_str(), rule) {
            proof {
                lemma_grammar_index_found(items@, rule@, i as int);
            }
            let updated = apply_correct_use_grammar(&items[i]);
            proof {
                assert(updated == grammar_correct_use_model(items@[i as int]));
            }
            items[i] = updated;
            proof {
                assert(grammar_keys_unique(items@)) by {
                    assert forall|a: int, b: int|
                        0 <= a < b < items@.len() implies (#[trigger] items@[a].rule)@
                        != (#[trigger] items@[b].rule)@ by {
                        assert(items@[a].rule@ == old(items)@[a].rule@);
                        assert(items@[b].rule@ == old(items)@[b].rule@);
                    }
                }
            }
            return;
        }
        i = i + 1;
    }
    proof {
        lemma_grammar_index_absent(items@, rule@);
    }
    let fresh = new_grammar_item(String::from_str(rule));
    items.push(fresh);
    proof {
        assert(grammar_keys_unique(items@)) by {
            assert forall|a: int, b: int|
                0 <= a < b < items@.len() implies (#[trigger] items@[a].rule)@
                != (#[trigger] items@[b].rule)@ by {
                if b < items@.len() - 1 {
                    assert(items@[a].rule@ == old(items)@[a].rule@);
                    assert(items@[b].rule@ == old(items)@[b].rule@);
                } else {
                    assert(items@[a].rule@ == old(items)@[a].rule@);
                    assert(items@[b].rule@ == rule@);
                }
            }
        }
    }
}

/// The star rating is monotonic non-decreasing in the streak length.
pub proof fn lemma_stars_monotonic(a: nat, b: nat)
    requires
        a <= b,
    ensures
        stars_for_streak(a) <= stars_for_streak(b),
{
    assert(a / 5 <= b / 5) by (nonlinear_arith)
        requires
            a <= b,
    ;
}

} // verus!
