use randy_ng::viewport::{advance_backward, advance_forward};

#[test]
fn forward_scrolls_at_bottom_row() {
    assert_eq!(advance_forward(5, 0, 0, 3), (1, 0));
    assert_eq!(advance_forward(5, 1, 0, 3), (2, 0));
    assert_eq!(advance_forward(5, 2, 0, 3), (3, 1));
    assert_eq!(advance_forward(5, 3, 1, 3), (4, 2));
}

#[test]
fn forward_from_last_is_noop() {
    assert_eq!(advance_forward(5, 4, 2, 3), (4, 2));
    assert_eq!(advance_forward(1, 0, 0, 1), (0, 0));
}

#[test]
fn backward_scrolls_at_top_row() {
    assert_eq!(advance_backward(5, 4, 2, 3), (3, 2));
    assert_eq!(advance_backward(5, 2, 2, 3), (1, 1));
    assert_eq!(advance_backward(5, 1, 1, 3), (0, 0));
}

#[test]
fn backward_from_first_is_noop() {
    assert_eq!(advance_backward(5, 0, 0, 3), (0, 0));
}

#[test]
fn forward_walk_visits_every_item_once() {
    let len = 12;
    let capacity = 5;
    let (mut index, mut offset) = (0, 0);
    let mut visited = vec![index];
    for _ in 0..len - 1 {
        let next = advance_forward(len, index, offset, capacity);
        index = next.0;
        offset = next.1;
        assert!(offset <= index && index < offset + capacity);
        visited.push(index);
    }
    assert_eq!(visited, (0..len).collect::<Vec<_>>());
    assert_eq!(offset, len - capacity);
}

#[test]
fn single_row_window() {
    assert_eq!(advance_forward(3, 0, 0, 1), (1, 1));
    assert_eq!(advance_backward(3, 1, 1, 1), (0, 0));
}
