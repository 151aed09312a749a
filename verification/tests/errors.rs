use redis_browser::errors::{AppError, EngineError};
use redis_browser::json::{JsonNumber, JsonValue};

#[test]
fn test_app_error_serialize_redis_failed() {
    let error = AppError::RedisFailed;
    let serialized = error.to_json();
    assert_eq!(serialized, JsonValue::Number(JsonNumber::PosInt(910)));
}

#[test]
fn test_app_error_serialize_db_not_ready() {
    let error = AppError::DbNotReady;
    let serialized = error.to_json();
    assert_eq!(serialized, JsonValue::Number(JsonNumber::PosInt(900)));
}

#[test]
fn test_app_error_serialize_db_query_failed() {
    let error = AppError::DbQueryFailed;
    let serialized = error.to_json();
    assert_eq!(serialized, JsonValue::Number(JsonNumber::PosInt(901)));
}

#[test]
fn test_app_error_display_redis_failed() {
    let error = AppError::RedisFailed;
    assert_eq!(error.to_string(), "910");
}

#[test]
fn test_app_error_display_db_not_ready() {
    let error = AppError::DbNotReady;
    assert_eq!(error.to_string(), "900");
}

#[test]
fn test_app_error_display_db_query_failed() {
    let error = AppError::DbQueryFailed;
    assert_eq!(error.to_string(), "901");
}

#[test]
fn test_app_error_equality() {
    assert_eq!(AppError::RedisFailed, AppError::RedisFailed);
    assert_ne!(AppError::RedisFailed, AppError::DbNotReady);
}

#[test]
fn test_app_error_clone() {
    let error = AppError::RedisFailed;
    let cloned = error.clone();
    assert_eq!(error, cloned);
}

#[test]
fn test_app_error_copy() {
    let error = AppError::RedisFailed;
    let copied = error;
    assert_eq!(error, copied);
}

#[test]
fn test_app_error_debug() {
    let error = AppError::RedisFailed;
    let debug_str = format!("{:?}", error);
    assert!(debug_str.contains("RedisFailed"));
}

#[test]
fn every_engine_failure_is_reported_as_a_store_failure() {
    for error in [
        EngineError::ConnectionFailed,
        EngineError::SessionNotReady,
        EngineError::UnsupportedType,
        EngineError::NotFound,
    ] {
        assert_eq!(AppError::from_engine(error), AppError::RedisFailed);
    }
}
