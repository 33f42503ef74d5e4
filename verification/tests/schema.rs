use pincher_core::schema::generalize_triggers;
use std::collections::BTreeSet;

fn strings(v: &[&str]) -> Vec<String> {
    v.iter().map(|s| s.to_string()).collect()
}

fn word_set(s: &str) -> BTreeSet<String> {
    s.split_whitespace().map(|w| w.to_string()).collect()
}

#[test]
fn common_words_are_kept() {
    let t = strings(&["organize downloads by type", "organize documents by date", "organize photos by size"]);
    let r = generalize_triggers(&t, &vec![1, 2, 3]);
    // A word must occur in at least two of the three triggers.
    assert_eq!(r, "organize by");
    assert_eq!(word_set(&r).len(), 2);
    let t = strings(&["open mail", "open files", "close files"]);
    let r = generalize_triggers(&t, &vec![0, 0, 0]);
    // "open" and "files" occur in two of three triggers, the rest in one.
    assert_eq!(r, "open files");
    let t = strings(&["organize downloads", "organize documents", "sort photos", "organize music"]);
    let r = generalize_triggers(&t, &vec![0, 0, 0, 0]);
    // Threshold 2: only "organize" (3 triggers).
    assert_eq!(r, "organize");
}

#[test]
fn words_count_once_per_trigger() {
    let t = strings(&["go go go", "stop", "halt", "wait"]);
    // "go" appears in one trigger only, below the threshold of 2.
    let r = generalize_triggers(&t, &vec![5, 9, 9, 1]);
    // No common word: the trigger of the last most-used reflex.
    assert_eq!(r, "halt");
}

#[test]
fn empty_group_gives_empty_trigger() {
    assert_eq!(generalize_triggers(&vec![], &vec![]), "");
    // One trigger: every word of it, in order.
    assert_eq!(generalize_triggers(&strings(&["  list   files "]), &vec![0]), "list files");
    // One blank trigger: no words, so the trigger itself.
    assert_eq!(generalize_triggers(&strings(&["   "]), &vec![0]), "   ");
}
