use drink::record::{Event, EventBatch};

#[test]
fn contract_events_skip_runtime_events() {
    let batch = EventBatch::new(vec![
        Event::Runtime(vec![1]),
        Event::ContractEmitted { contract: [1u8; 20], topics: vec![], data: vec![7, 7] },
        Event::Runtime(vec![2]),
        Event::ContractEmitted { contract: [2u8; 20], topics: vec![[0u8; 32]], data: vec![8] },
    ]);
    assert_eq!(batch.all_events().len(), 4);
    assert_eq!(batch.contract_events(), vec![&[7u8, 7][..], &[8u8][..]]);
}

#[test]
fn signed_events_match_first_topic() {
    let known = [5u8; 32];
    let batch = EventBatch::new(vec![
        Event::ContractEmitted { contract: [1u8; 20], topics: vec![known], data: vec![1] },
        Event::ContractEmitted { contract: [1u8; 20], topics: vec![], data: vec![2] },
        Event::ContractEmitted { contract: [1u8; 20], topics: vec![[6u8; 32], known], data: vec![3] },
        Event::Runtime(vec![4]),
        Event::ContractEmitted { contract: [1u8; 20], topics: vec![known], data: vec![5] },
    ]);
    let signatures = vec![None, Some(vec![9u8; 32]), Some(known.to_vec())];
    assert_eq!(batch.signed_events(&signatures), vec![(2usize, &[1u8][..]), (2usize, &[5u8][..])]);
    assert!(batch.signed_events(&vec![None]).is_empty());
}

#[test]
fn empty_batch_has_no_events() {
    let batch = EventBatch::new(vec![]);
    assert!(batch.all_events().is_empty());
    assert!(batch.contract_events().is_empty());
}
