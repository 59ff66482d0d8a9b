use polodb_python::config::DatabaseConfig;
use polodb_python::conversion::ConversionError;
use polodb_python::query::query_window;
use polodb_python::transaction::TransactionState;

#[test]
fn transaction_finishes_once() {
    let mut state = TransactionState::new();
    assert!(state.is_active());
    assert!(state.check_active().is_ok());
    assert!(state.finish().is_ok());
    assert!(!state.is_active());
    assert!(state.finish().is_err());
    assert!(state.check_active().is_err());
}

#[test]
fn inactive_transaction_message() {
    let mut state = TransactionState::new();
    let _ = state.finish();
    let error = state.finish().err().unwrap();
    assert_eq!(error.message(), "transaction is no longer active");
}

#[test]
fn zero_means_unset() {
    let window = query_window(0, 0);
    assert_eq!(window.skip, None);
    assert_eq!(window.limit, None);
    let window = query_window(5, 10);
    assert_eq!(window.skip, Some(5));
    assert_eq!(window.limit, Some(10));
}

#[test]
fn default_storage_settings() {
    let config = DatabaseConfig::default();
    assert_eq!(config.init_block_count, 16);
    assert_eq!(config.journal_full_size, 1000);
    assert_eq!(config.lsm_page_size, 4096);
    assert_eq!(config.lsm_block_size, 4 * 1024 * 1024);
    assert_eq!(config.sync_log_count, 1000);
}

#[test]
fn conversion_messages() {
    assert_eq!(ConversionError::NotAMapping.message(), "expected a mapping with string keys");
    assert_eq!(
        ConversionError::DecimalUnsupported.message(),
        "decimal.Decimal is not supported because PoloDB does not preserve Decimal128 values"
    );
    assert_eq!(ConversionError::DatetimeOutOfRange.message(), "datetime is outside BSON's range");
    let error = ConversionError::UnsupportedType { kind: "set".to_string() };
    assert_eq!(error.message(), "unsupported value of type 'set' for BSON conversion");
    assert!(!error.is_range_error());
    assert!(ConversionError::DatetimeOutOfRange.is_range_error());
}
