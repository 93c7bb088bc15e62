use mostrix::dm_batch::{received_dms_in_order, FetchedDm, ReceivedDm};

fn fetched(id: u8, created_at: Option<i64>) -> FetchedDm {
    FetchedDm { event_id: vec![id; 32], created_at }
}

#[test]
fn batch_reads_each_event_once_oldest_first() {
    let batch = vec![
        fetched(1, Some(30)),
        fetched(2, Some(10)),
        fetched(1, Some(5)),
        fetched(3, None),
        fetched(4, Some(10)),
        fetched(5, Some(7)),
    ];
    let read = received_dms_in_order(&batch, Some(8));
    assert_eq!(
        read,
        vec![
            ReceivedDm { index: 1, created_at: 10 },
            ReceivedDm { index: 4, created_at: 10 },
            ReceivedDm { index: 0, created_at: 30 },
        ]
    );
    let all = received_dms_in_order(&batch, None);
    assert_eq!(all.iter().map(|d| d.index).collect::<Vec<_>>(), vec![5, 1, 4, 0]);
    assert!(received_dms_in_order(&vec![], None).is_empty());
}

#[test]
fn duplicate_of_an_event_that_did_not_unwrap_is_skipped_too() {
    let batch = vec![fetched(9, None), fetched(9, Some(1))];
    assert!(received_dms_in_order(&batch, None).is_empty());
}
