use stepson::completion::{CompletionTree, ReplCompletion};

fn leaf() -> CompletionTree {
    CompletionTree::lazy_empty()
}

fn sample_tree() -> CompletionTree {
    CompletionTree::new(vec![
        (
            "send".to_string(),
            CompletionTree::new(vec![
                ("Ack".to_string(), leaf()),
                ("DataMdr".to_string(), leaf()),
            ]),
        ),
        ("devices".to_string(), leaf()),
        ("disconnect".to_string(), leaf()),
        ("quit".to_string(), leaf()),
    ])
}

/// The words of a line, as the stack `traverse` expects: reversed, so the
/// first word of the line is popped first.
fn stack_of(line_words: &[&str]) -> Vec<String> {
    line_words.iter().rev().map(|w| w.to_string()).collect()
}

#[test]
fn empty_stack_offers_all_labels() {
    let offered = sample_tree().traverse(Vec::new());
    assert_eq!(offered, vec!["send", "devices", "disconnect", "quit"]);
}

#[test]
fn partial_word_filters_labels() {
    let offered = sample_tree().traverse(stack_of(&["d"]));
    assert_eq!(offered, vec!["devices", "disconnect"]);
}

#[test]
fn full_word_descends_into_subtree() {
    let offered = sample_tree().traverse(stack_of(&["send", ""]));
    assert_eq!(offered, vec!["Ack", "DataMdr"]);
}

#[test]
fn descent_then_partial_word() {
    let offered = sample_tree().traverse(stack_of(&["send", "Da"]));
    assert_eq!(offered, vec!["DataMdr"]);
}

#[test]
fn unknown_word_offers_nothing() {
    let offered = sample_tree().traverse(stack_of(&["connect", "x"]));
    assert!(offered.is_empty());
}

#[test]
fn empty_tree_offers_nothing() {
    let offered = CompletionTree::empty().traverse(stack_of(&["anything"]));
    assert!(offered.is_empty());
}

#[test]
fn byte_arguments_offer_nothing() {
    let tree = <u8 as ReplCompletion>::completion_tree();
    assert!(tree.branches.is_empty());
}
