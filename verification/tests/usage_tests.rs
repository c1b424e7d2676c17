use select_ir::usage::{CommandCount, ModelCount, UsagesCounts, count_command, count_model, count_models};

fn s(t: &str) -> String {
    String::from(t)
}

fn count_of(u: &UsagesCounts, model: &str) -> u64 {
    u.models_used
        .iter()
        .find(|e| e.model == s(model))
        .map(|e| e.count)
        .unwrap_or(0)
}

#[test]
fn three_references_count_three() {
    let mut u = UsagesCounts::new();
    count_model(&s("M"), &mut u);
    count_model(&s("M"), &mut u);
    count_model(&s("M"), &mut u);
    assert_eq!(u.models_used, vec![ModelCount { model: s("M"), count: 3 }]);
}

#[test]
fn counts_are_per_model() {
    let mut u = UsagesCounts::new();
    count_model(&s("M"), &mut u);
    count_model(&s("N"), &mut u);
    count_model(&s("M"), &mut u);
    assert_eq!(count_of(&u, "M"), 2);
    assert_eq!(count_of(&u, "N"), 1);
    assert_eq!(count_of(&u, "P"), 0);
}

#[test]
fn counting_is_order_independent() {
    let mut left = UsagesCounts::new();
    count_models(&vec![s("A"), s("B"), s("A")], &mut left);
    let mut right = UsagesCounts::new();
    count_models(&vec![s("B"), s("A"), s("A")], &mut right);
    for model in ["A", "B"] {
        assert_eq!(count_of(&left, model), count_of(&right, model));
    }
    assert_eq!(count_of(&left, "A"), 2);
    assert_eq!(count_of(&left, "B"), 1);
}

#[test]
fn commands_counted_separately() {
    let mut u = UsagesCounts::new();
    count_command(&s("C"), &mut u);
    count_command(&s("C"), &mut u);
    count_model(&s("C"), &mut u);
    assert_eq!(u.commands_used, vec![CommandCount { command: s("C"), count: 2 }]);
    assert_eq!(u.models_used, vec![ModelCount { model: s("C"), count: 1 }]);
}
