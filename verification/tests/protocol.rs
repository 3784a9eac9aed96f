use sedna_rs::protocol::{
    c_string_error, collect_item, first_nul,
    classify_next, failure, host_url, last_error_text, succeeded, ChunkStatus, Failure, ItemBuffer,
    NextStatus, Request, READ_CHUNK_SIZE, SEDNA_BEGIN_TRANSACTION_SUCCEEDED,
    SEDNA_BULK_LOAD_SUCCEEDED, SEDNA_COMMIT_TRANSACTION_SUCCEEDED, SEDNA_DATA_CHUNK_LOADED,
    SEDNA_ERROR, SEDNA_NEXT_ITEM_SUCCEEDED, SEDNA_QUERY_FAILED, SEDNA_QUERY_SUCCEEDED,
    SEDNA_RESULT_END, SEDNA_ROLLBACK_TRANSACTION_SUCCEEDED, SEDNA_SESSION_OPEN,
    SEDNA_UPDATE_SUCCEEDED,
};
use sedna_rs::SednaError;

#[test]
fn success_codes() {
    assert!(succeeded(Request::Connect, SEDNA_SESSION_OPEN));
    assert!(!succeeded(Request::Connect, -3));
    assert!(succeeded(Request::Execute, SEDNA_QUERY_SUCCEEDED));
    assert!(succeeded(Request::Execute, SEDNA_UPDATE_SUCCEEDED));
    assert!(!succeeded(Request::Execute, SEDNA_QUERY_FAILED));
    assert!(succeeded(Request::BeginTransaction, SEDNA_BEGIN_TRANSACTION_SUCCEEDED));
    assert!(!succeeded(Request::BeginTransaction, SEDNA_COMMIT_TRANSACTION_SUCCEEDED));
    assert!(succeeded(Request::CommitTransaction, SEDNA_COMMIT_TRANSACTION_SUCCEEDED));
    assert!(succeeded(Request::RollbackTransaction, SEDNA_ROLLBACK_TRANSACTION_SUCCEEDED));
    assert!(succeeded(Request::LoadData, SEDNA_DATA_CHUNK_LOADED));
    assert!(succeeded(Request::LoadData, SEDNA_BULK_LOAD_SUCCEEDED));
    assert!(!succeeded(Request::EndLoadData, SEDNA_DATA_CHUNK_LOADED));
    assert!(succeeded(Request::EndLoadData, SEDNA_BULK_LOAD_SUCCEEDED));
    assert!(!succeeded(Request::RollbackTransaction, SEDNA_ERROR));
}

#[test]
fn failure_messages() {
    let m = || String::from("boom");
    assert_eq!(failure(Failure::Connect, m()), SednaError::ConnectionFailed("boom".into()));
    assert_eq!(failure(Failure::Execute, m()), SednaError::QueryFailed("boom".into()));
    assert_eq!(
        failure(Failure::BeginTransaction, m()),
        SednaError::TransactionFailed("Begin failed: boom".into())
    );
    assert_eq!(
        failure(Failure::CommitTransaction, m()),
        SednaError::TransactionFailed("Commit failed: boom".into())
    );
    assert_eq!(
        failure(Failure::RollbackTransaction, m()),
        SednaError::TransactionFailed("Rollback failed: boom".into())
    );
    assert_eq!(
        failure(Failure::LoadData { error_code: -24 }, m()),
        SednaError::QueryFailed("Load data failed (code -24): boom".into())
    );
    assert_eq!(
        failure(Failure::LoadData { error_code: 231 }, m()),
        SednaError::QueryFailed("Load data failed (code 231): boom".into())
    );
    assert_eq!(
        failure(Failure::EndLoadData, m()),
        SednaError::QueryFailed("End load data failed: boom".into())
    );
    assert_eq!(failure(Failure::NextItem, m()), SednaError::QueryFailed("boom".into()));
    assert_eq!(
        failure(Failure::GetData, m()),
        SednaError::QueryFailed("Failed to get data: boom".into())
    );
}

#[test]
fn last_error_texts() {
    assert_eq!(last_error_text(None), "Unknown error");
    assert_eq!(last_error_text(Some(b"SE3008: Query failed".to_vec())), "SE3008: Query failed");
    assert_eq!(last_error_text(Some(vec![0xc3, 0x28])), "\u{FFFD}(");
    assert_eq!(last_error_text(Some(Vec::new())), "");
}

#[test]
fn host_urls() {
    assert_eq!(host_url("localhost", 5050), "localhost");
    assert_eq!(host_url("localhost", 5060), "localhost:5060");
    assert_eq!(host_url("db.example", 0), "db.example:0");
    assert_eq!(host_url("h", 65535), "h:65535");
}

#[test]
fn next_item_codes() {
    assert_eq!(classify_next(SEDNA_RESULT_END), NextStatus::End);
    assert_eq!(classify_next(SEDNA_NEXT_ITEM_SUCCEEDED), NextStatus::Item);
    assert_eq!(classify_next(-19), NextStatus::Failed);
    assert_eq!(classify_next(0), NextStatus::Failed);
}

#[test]
fn item_assembled_from_chunks() {
    let mut item = ItemBuffer::new();
    let mut buffer = vec![0u8; 8];
    buffer[..5].copy_from_slice(b"<titl");
    assert_eq!(item.accept(5, &buffer), ChunkStatus::More);
    buffer[..3].copy_from_slice(b"e/>");
    assert_eq!(item.accept(3, &buffer), ChunkStatus::More);
    assert_eq!(item.accept(0, &buffer), ChunkStatus::Complete);
    assert_eq!(item.finish(), "<title/>");
}

#[test]
fn item_read_failure_keeps_data() {
    let mut item = ItemBuffer::new();
    assert_eq!(item.accept(2, b"ab"), ChunkStatus::More);
    assert_eq!(item.accept(-1, b"zz"), ChunkStatus::Failed);
    assert_eq!(item.finish(), "ab");
}

#[test]
fn item_with_invalid_utf8_is_decoded_leniently() {
    let mut item = ItemBuffer::new();
    assert_eq!(item.accept(3, &[b'x', 0xff, b'y']), ChunkStatus::More);
    assert_eq!(item.finish(), "x\u{FFFD}y");
}

#[test]
fn empty_item() {
    let mut item = ItemBuffer::new();
    assert_eq!(item.accept(0, &[]), ChunkStatus::Complete);
    assert_eq!(item.finish(), "");
    assert_eq!(READ_CHUNK_SIZE, 1024 * 1024);
}

#[test]
fn nul_bytes() {
    assert_eq!(first_nul(b"abc"), None);
    assert_eq!(first_nul(b""), None);
    assert_eq!(first_nul(b"a\0b\0"), Some(1));
    assert_eq!(first_nul(b"\0"), Some(0));
}

#[test]
fn c_string_errors() {
    assert_eq!(c_string_error("doc('test')//item"), None);
    assert_eq!(
        c_string_error("ab\0cd"),
        Some(SednaError::InvalidCString { nul_position: 2, bytes: b"ab\0cd".to_vec() })
    );
    assert_eq!(
        c_string_error("é\0"),
        Some(SednaError::InvalidCString { nul_position: 2, bytes: "é\0".as_bytes().to_vec() })
    );
}

#[test]
fn collecting_items() {
    let mut items = Vec::new();
    assert!(collect_item(&mut items, Some("Book 1".to_string())));
    assert!(collect_item(&mut items, Some("Book 2".to_string())));
    assert!(!collect_item(&mut items, None));
    assert_eq!(items, vec!["Book 1", "Book 2"]);
}
