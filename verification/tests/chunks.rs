use deet::chunks::create_chunks;

fn numbered(items: &[&str]) -> Vec<(usize, String)> {
    items.iter().map(|item| item.to_string()).enumerate().collect()
}

#[test]
fn items_are_dealt_out_in_turn() {
    let chunks = create_chunks(numbered(&["a", "b", "c", "d", "e", "f", "g"]), 3);
    assert_eq!(
        chunks,
        vec![
            vec![(0, "a".to_string()), (3, "d".to_string()), (6, "g".to_string())],
            vec![(1, "b".to_string()), (4, "e".to_string())],
            vec![(2, "c".to_string()), (5, "f".to_string())],
        ]
    );
}

#[test]
fn workers_beyond_the_items_get_nothing() {
    let chunks = create_chunks(vec![(0, 10u32), (1, 20u32)], 4);
    assert_eq!(chunks, vec![vec![(0, 10)], vec![(1, 20)], vec![], vec![]]);
}

#[test]
fn one_worker_gets_everything_in_order() {
    let chunks = create_chunks(vec![(7, 'x'), (8, 'y'), (9, 'z')], 1);
    assert_eq!(chunks, vec![vec![(7, 'x'), (8, 'y'), (9, 'z')]]);
}

#[test]
fn as_many_workers_as_items_get_one_each() {
    let chunks = create_chunks(vec![(0, 1u8), (1, 2u8), (2, 3u8)], 3);
    assert_eq!(chunks, vec![vec![(0, 1)], vec![(1, 2)], vec![(2, 3)]]);
}

#[test]
fn nothing_to_deal_out() {
    let none: Vec<(usize, u64)> = vec![];
    assert_eq!(create_chunks(none.clone(), 3), vec![vec![], vec![], vec![]]);
    assert_eq!(create_chunks(none, 0), Vec::<Vec<(usize, u64)>>::new());
}

#[test]
fn every_item_lands_in_exactly_one_chunk() {
    let items: Vec<(usize, usize)> = (0..100).map(|i| (i, i * i)).collect();
    for workers in 1..12 {
        let chunks = create_chunks(items.clone(), workers);
        assert_eq!(chunks.len(), workers);
        let mut seen: Vec<(usize, usize)> = chunks.iter().flatten().cloned().collect();
        seen.sort();
        assert_eq!(seen, items);
        for (worker, chunk) in chunks.iter().enumerate() {
            for (turn, item) in chunk.iter().enumerate() {
                assert_eq!(item.0, worker + turn * workers);
            }
        }
    }
}
