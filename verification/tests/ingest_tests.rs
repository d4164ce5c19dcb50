use blob_fetcher::ingest::process_body;
use blob_fetcher::ingest::Fetcher;
use blob_fetcher::ingest::Phase;
use blob_fetcher::CycleError;

#[test]
fn empty_block_yields_no_records() {
    let body = br#"{"result":{"block":{"data":{"txs":[]}}}}"#.to_vec();
    let records = process_body(&body).unwrap();
    assert!(records.is_empty());
}

#[test]
fn body_without_txs_is_malformed() {
    let body = br#"{"result":{}}"#.to_vec();
    assert!(matches!(process_body(&body), Err(CycleError::MalformedResponse)));
}

#[test]
fn body_that_is_not_json_is_malformed() {
    let body = b"service unavailable".to_vec();
    assert!(matches!(process_body(&body), Err(CycleError::MalformedResponse)));
}

#[test]
fn txs_that_are_not_strings_are_malformed() {
    let body = br#"{"result":{"block":{"data":{"txs":[5]}}}}"#.to_vec();
    assert!(matches!(process_body(&body), Err(CycleError::MalformedResponse)));
}

#[test]
fn txs_under_wrong_path_is_malformed() {
    let body = br#"{"result":{"block":{"txs":[]}}}"#.to_vec();
    assert!(matches!(process_body(&body), Err(CycleError::MalformedResponse)));
}

#[test]
fn mixed_block_yields_only_the_valid_blob() {
    // Three transactions: a valid blob (gzip of "hello"), a transfer, and a
    // string that is not base64. Exactly one record comes out.
    let blob_raw = "eyJ0eXBlIjoiYmxvYiIsImJvZHkiOnsiZGF0YSI6IjFmOGIwODAwMDAwMDAwMDAwMjAzY2I0OGNkYzljOTA3MDA4NmE2MTAzNjA1MDAwMDAwIn19";
    let transfer_raw = "eyJ0eXBlIjoidHJhbnNmZXIifQ==";
    let body = format!(
        r#"{{"result":{{"block":{{"data":{{"txs":["{}","{}","%%%"]}}}}}}}}"#,
        blob_raw, transfer_raw
    )
    .into_bytes();
    let records = process_body(&body).unwrap();
    assert_eq!(records.len(), 1);
    assert_eq!(
        records[0].content_id,
        "239bb96273476d067ecc6ca721cbe724af924ff7b4311117d5461fe4ac988ac0"
    );
    assert_eq!(records[0].payload, b"hello".to_vec());
}

#[test]
fn records_keep_the_order_of_the_block() {
    let blob_raw = "eyJ0eXBlIjoiYmxvYiIsImJvZHkiOnsiZGF0YSI6IjFmOGIwODAwMDAwMDAwMDAwMjAzY2I0OGNkYzljOTA3MDA4NmE2MTAzNjA1MDAwMDAwIn19";
    let body = format!(
        r#"{{"result":{{"block":{{"data":{{"txs":["{}","{}"]}}}}}}}}"#,
        blob_raw, blob_raw
    )
    .into_bytes();
    let records = process_body(&body).unwrap();
    assert_eq!(records.len(), 2);
    assert_eq!(records[0].content_id, records[1].content_id);
}

#[test]
fn successful_cycles_advance_the_height_by_one_each() {
    let mut f = Fetcher::new(5);
    assert_eq!(f.height, 5);
    assert_eq!(f.phase, Phase::Fetching);
    f.on_cycle_success();
    assert_eq!(f.height, 6);
    f.on_cycle_success();
    f.on_cycle_success();
    assert_eq!(f.height, 8);
    assert_eq!(f.phase, Phase::Fetching);
}

#[test]
fn failed_cycle_keeps_the_height_and_backs_off() {
    let mut f = Fetcher::new(9);
    f.on_cycle_failure();
    assert_eq!(f.height, 9);
    assert_eq!(f.phase, Phase::Backoff);
    f.on_backoff_elapsed();
    assert_eq!(f.height, 9);
    assert_eq!(f.phase, Phase::Fetching);
}

#[test]
fn retried_height_after_failure_then_succeeds() {
    let mut f = Fetcher::new(42);
    f.on_cycle_failure();
    f.on_backoff_elapsed();
    assert_eq!(f.height, 42);
    f.on_cycle_success();
    assert_eq!(f.height, 43);
}
