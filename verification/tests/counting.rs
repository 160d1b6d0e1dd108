use future_stream_any::count_stream::{Component, CountAction};

#[test]
fn counts_in_order() {
    let mut task = Component::get(4);
    let mut written = vec![];
    loop {
        match task.step(&vec![]) {
            CountAction::Write(items) => {
                assert_eq!(items.len(), 1);
                written.extend(items);
            }
            CountAction::Finish => break,
            CountAction::Fail => panic!("everything was taken"),
        }
    }
    assert_eq!(written, vec![0, 1, 2, 3]);
    assert!(matches!(task.step(&vec![]), CountAction::Finish));
}

#[test]
fn counts_nothing() {
    assert!(matches!(Component::get(0).step(&vec![]), CountAction::Finish));
}

#[test]
fn fails_where_an_item_was_not_taken() {
    let mut task = Component::get(2);
    assert!(matches!(task.step(&vec![]), CountAction::Write(_)));
    assert!(matches!(task.step(&vec![0]), CountAction::Fail));
    match task.step(&vec![]) {
        CountAction::Write(items) => assert_eq!(items, vec![1]),
        _ => panic!("one item is left"),
    }
}
