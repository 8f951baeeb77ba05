use cloudflare_ddns::error::{ApiErrorType, AppError, DomainError, LogLevel, NetworkErrorType};
use cloudflare_ddns::transport::{FakeTransport, RetryDecision, RetryPolicy};

fn timeout() -> DomainError {
    DomainError::Network(NetworkErrorType::TimeoutError("timed out".to_string()))
}

#[test]
fn two_transient_failures_then_success_on_third_attempt() {
    let policy = RetryPolicy::new(3, 500);
    let fake = FakeTransport { failures: 2, error: timeout(), response: "ok".to_string() };
    let run = policy.run(fake.outcomes(4));
    assert_eq!(run.attempts, 3);
    assert_eq!(run.result.unwrap(), "ok");
    assert_eq!(run.delays_ms, vec![500, 500]);
}

#[test]
fn four_transient_failures_return_the_fourth_error() {
    let policy = RetryPolicy::default_policy();
    assert_eq!(policy.max_retries, 3);
    assert_eq!(policy.retry_delay_ms, 500);
    let fake = FakeTransport {
        failures: 4,
        error: DomainError::Network(NetworkErrorType::HttpError(503)),
        response: "ok".to_string(),
    };
    let run = policy.run(fake.outcomes(4));
    assert_eq!(run.attempts, 4);
    assert!(matches!(run.result, Err(DomainError::Network(NetworkErrorType::HttpError(503)))));
    assert_eq!(run.delays_ms, vec![500, 500, 500]);
}

#[test]
fn fatal_error_is_returned_after_one_attempt() {
    let policy = RetryPolicy::default_policy();
    let fake = FakeTransport {
        failures: 4,
        error: DomainError::Network(NetworkErrorType::HttpError(400)),
        response: "ok".to_string(),
    };
    let run = policy.run(fake.outcomes(4));
    assert_eq!(run.attempts, 1);
    assert!(run.delays_ms.is_empty());
    assert!(matches!(run.result, Err(DomainError::Network(NetworkErrorType::HttpError(400)))));
}

#[test]
fn logic_errors_are_not_retried() {
    let policy = RetryPolicy::default_policy();
    let outcome: Result<String, DomainError> = Err(DomainError::LogicError("rejected".to_string()));
    assert_eq!(policy.decide(0, &outcome), RetryDecision::Finish);
    let outcome: Result<String, DomainError> = Err(timeout());
    assert_eq!(policy.decide(0, &outcome), RetryDecision::RetryAfter(500));
    assert_eq!(policy.decide(3, &outcome), RetryDecision::Finish);
    let outcome: Result<String, DomainError> = Ok("body".to_string());
    assert_eq!(policy.decide(0, &outcome), RetryDecision::Finish);
}

#[test]
fn retryable_classification() {
    assert!(timeout().is_retryable());
    assert!(DomainError::Network(NetworkErrorType::ConnectionError("x".to_string())).is_retryable());
    assert!(DomainError::Network(NetworkErrorType::HttpError(500)).is_retryable());
    assert!(DomainError::Network(NetworkErrorType::HttpError(599)).is_retryable());
    assert!(!DomainError::Network(NetworkErrorType::HttpError(600)).is_retryable());
    assert!(!DomainError::Network(NetworkErrorType::HttpError(404)).is_retryable());
    assert!(DomainError::Api(ApiErrorType::RateLimitError("x".to_string())).is_retryable());
    assert!(DomainError::Api(ApiErrorType::ServerError("x".to_string())).is_retryable());
    assert!(!DomainError::Api(ApiErrorType::BadRequestError("x".to_string())).is_retryable());
    assert!(!DomainError::validation("x".to_string()).is_retryable());
    assert!(!DomainError::not_found("x".to_string()).is_retryable());
    assert!(!timeout().context("while updating".to_string()).is_retryable());
}

#[test]
fn transport_failures_map_to_network_errors() {
    let e = DomainError::from_transport_failure(true, true, Some(502), "t".to_string());
    assert!(matches!(e, DomainError::Network(NetworkErrorType::TimeoutError(_))));
    let e = DomainError::from_transport_failure(false, true, Some(502), "c".to_string());
    assert!(matches!(e, DomainError::Network(NetworkErrorType::ConnectionError(_))));
    let e = DomainError::from_transport_failure(false, false, Some(502), "s".to_string());
    assert!(matches!(e, DomainError::Network(NetworkErrorType::HttpError(502))));
    let e = DomainError::from_transport_failure(false, false, None, "u".to_string());
    match e {
        DomainError::Network(NetworkErrorType::Unknown(m)) => assert_eq!(m, "u"),
        _ => panic!("expected an unknown network error"),
    }
}

#[test]
fn messages_and_levels() {
    assert_eq!(
        DomainError::validation("bad name".to_string()).user_friendly_message(),
        "輸入資料無效: bad name"
    );
    assert_eq!(timeout().user_friendly_message(), "網絡超時，請檢查您的網絡連接並重試");
    assert_eq!(
        DomainError::unknown("x".to_string()).user_friendly_message(),
        "發生錯誤，請稍後重試"
    );
    assert_eq!(DomainError::validation("x".to_string()).log_level(), LogLevel::Warn);
    assert_eq!(timeout().log_level(), LogLevel::Error);
    assert_eq!(AppError::ExternalServiceError("x".to_string()).http_status(), 503);
    assert_eq!(AppError::ConfigError("x".to_string()).http_status(), 500);
    assert!(matches!(DomainError::network("x".to_string()), DomainError::Network(NetworkErrorType::Unknown(_))));
    assert!(matches!(DomainError::api("x".to_string()), DomainError::Api(ApiErrorType::UnknownError(_))));
    assert!(matches!(DomainError::config("x".to_string()), DomainError::Configuration(_)));
    assert!(matches!(DomainError::dns_service("x".to_string()), DomainError::DnsService(_)));
    assert!(matches!(DomainError::ip_service("x".to_string()), DomainError::IpService(_)));
    assert!(matches!(DomainError::retry_exhausted("x".to_string()), DomainError::RetryExhausted(_)));
    match DomainError::unknown("inner".to_string()).context("outer".to_string()) {
        DomainError::Context(c, inner) => {
            assert_eq!(c, "outer");
            assert!(matches!(*inner, DomainError::Unknown(_)));
        },
        _ => panic!("expected a context error"),
    }
}

#[test]
fn http_client_errors_map_into_the_taxonomy() {
    let err = reqwest::Client::new().get("not a url").build().unwrap_err();
    match DomainError::from_reqwest(&err) {
        DomainError::Network(NetworkErrorType::Unknown(m)) => assert!(!m.is_empty()),
        other => panic!("unexpected error: {:?}", other),
    }
}

#[test]
fn error_texts_statuses_and_codes() {
    assert_eq!(
        DomainError::Network(NetworkErrorType::HttpError(503)).message(),
        "網絡錯誤: HTTP錯誤: 狀態碼 503"
    );
    assert_eq!(DomainError::validation("bad".to_string()).message(), "驗證錯誤: bad");
    assert_eq!(
        DomainError::unknown("x".to_string()).context("while saving".to_string()).message(),
        "while saving"
    );
    assert_eq!(cloudflare_ddns::error::to_decimal(0), "0");
    assert_eq!(cloudflare_ddns::error::to_decimal(1200), "1200");
    assert_eq!(DomainError::Network(NetworkErrorType::HttpError(400)).http_status(), 503);
    assert_eq!(DomainError::validation("x".to_string()).http_status(), 400);
    assert_eq!(DomainError::not_found("x".to_string()).http_status(), 404);
    assert_eq!(DomainError::LogicError("x".to_string()).http_status(), 500);
    assert_eq!(DomainError::dns_service("x".to_string()).error_code(), "dns_service_error");
    assert_eq!(AppError::InternalError("boom".to_string()).message(), "Internal server error: boom");
}

#[test]
fn friendly_messages_keep_their_wording() {
    assert_eq!(
        DomainError::Api(ApiErrorType::RateLimitError("x".to_string())).user_friendly_message(),
        "請求太頻繁，請稍後再試"
    );
    assert_eq!(
        DomainError::Network(NetworkErrorType::ConnectionError("x".to_string())).user_friendly_message(),
        "網絡連接問題，請檢查您的網絡連接並重試"
    );
    assert_eq!(
        DomainError::Api(ApiErrorType::ServerError("x".to_string())).user_friendly_message(),
        "服務暫時不可用，請稍後再試"
    );
    assert_eq!(DomainError::Api(ApiErrorType::ServerError("x".to_string())).message(), "API錯誤: API內部錯誤: x");
}

#[test]
fn missing_status_code_counts_as_500() {
    assert_eq!(cloudflare_ddns::error::status_or_500(false, Some(404)), None);
    assert_eq!(cloudflare_ddns::error::status_or_500(true, Some(404)), Some(404));
    assert_eq!(cloudflare_ddns::error::status_or_500(true, None), Some(500));
}
