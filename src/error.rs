//! Error taxonomy shared by every component.
use vstd::prelude::*;
use vstd::string::StringExecFns;

verus! {

/// Failures of the network layer.
#[derive(Debug)]
pub enum NetworkErrorType {
    ConnectionError(String),
    TimeoutError(String),
    DnsError(String),
    TlsError(String),
    RequestError(String),
    ResponseError(String),
    HttpError(u16),
    Unknown(String),
}

/// Failures reported by the provider's API.
#[derive(Debug)]
pub enum ApiErrorType {
    AuthenticationError(String),
    AuthorizationError(String),
    ResourceNotFoundError(String),
    BadRequestError(String),
    RateLimitError(String),
    ServerError(String),
    UnknownError(String),
}

/// The error type of the update engine.
#[derive(Debug)]
pub enum DomainError {
    Network(NetworkErrorType),
    DnsService(String),
    IpService(String),
    Configuration(String),
    Api(ApiErrorType),
    Unknown(String),
    RetryExhausted(String),
    Validation(String),
    /// The provider's payload carried an explicit failure flag.
    LogicError(String),
    SerializationError(String),
    /// The record is missing at the provider.
    NotFound(String),
    Context(String, Box<DomainError>),
}

/// Configuration failures reported while loading monitored records.
#[derive(Debug)]
pub enum DdnsConfigError {
    ValidationError(String),
    LoadingError(String),
    MissingConfig(String),
}

/// Errors of the application layer.
#[derive(Debug)]
pub enum ApplicationError {
    DomainError(DomainError),
    ConfigError(DdnsConfigError),
    InfrastructureError(String),
    ApplicationError(String),
}

/// Errors reported to clients of the administrative surface.
#[derive(Debug)]
pub enum AppError {
    ConfigError(String),
    ExternalServiceError(String),
    InternalError(String),
}

impl DomainError {
    /// The HTTP status that answers the error: 503 for network, address
    /// lookup and exhausted retries; 502 for provider and DNS service errors;
    /// 400 for invalid input; 404 for a missing record; 500 otherwise.
    pub open spec fn spec_http_status(&self) -> u16 {
        match self {
            DomainError::Network(_) => 503,
            DomainError::Api(_) => 502,
            DomainError::DnsService(_) => 502,
            DomainError::IpService(_) => 503,
            DomainError::RetryExhausted(_) => 503,
            DomainError::Validation(_) => 400,
            DomainError::NotFound(_) => 404,
            _ => 500,
        }
    }

    /// The machine-readable code of the error in HTTP answers.
    pub open spec fn spec_error_code(&self) -> Seq<char> {
        match self {
            DomainError::Network(_) => "service_unavailable"@,
            DomainError::Api(_) => "bad_gateway"@,
            DomainError::DnsService(_) => "dns_service_error"@,
            DomainError::IpService(_) => "ip_service_error"@,
            DomainError::Configuration(_) => "configuration_error"@,
            DomainError::Unknown(_) => "unknown_error"@,
            DomainError::RetryExhausted(_) => "retry_exhausted"@,
            DomainError::Validation(_) => "validation_error"@,
            DomainError::LogicError(_) => "logic_error"@,
            DomainError::SerializationError(_) => "serialization_error"@,
            DomainError::NotFound(_) => "not_found"@,
            DomainError::Context(_, _) => "context_error"@,
        }
    }

    pub fn http_status(&self) -> (r: u16)
        ensures
            r == self.spec_http_status(),
    {
        match self {
            DomainError::Network(_) => 503,
            DomainError::Api(_) => 502,
            DomainError::DnsService(_) => 502,
            DomainError::IpService(_) => 503,
            DomainError::RetryExhausted(_) => 503,
            DomainError::Validation(_) => 400,
            DomainError::NotFound(_) => 404,
            _ => 500,
        }
    }

    pub fn error_code(&self) -> (r: String)
        ensures
            r@ == self.spec_error_code(),
    {
        match self {
            DomainError::Network(_) => "service_unavailable".to_string(),
            DomainError::Api(_) => "bad_gateway".to_string(),
            DomainError::DnsService(_) => "dns_service_error".to_string(),
            DomainError::IpService(_) => "ip_service_error".to_string(),
            DomainError::Configuration(_) => "configuration_error".to_string(),
            DomainError::Unknown(_) => "unknown_error".to_string(),
            DomainError::RetryExhausted(_) => "retry_exhausted".to_string(),
            DomainError::Validation(_) => "validation_error".to_string(),
            DomainError::LogicError(_) => "logic_error".to_string(),
            DomainError::SerializationError(_) => "serialization_error".to_string(),
            DomainError::NotFound(_) => "not_found".to_string(),
            DomainError::Context(_, _) => "context_error".to_string(),
        }
    }
}

impl ApplicationError {
    /// The HTTP status that answers the error: that of the wrapped domain
    /// error, 500 otherwise.
    pub fn http_status(&self) -> (r: u16)
        ensures
            self matches ApplicationError::DomainError(e) ==> r == e.spec_http_status(),
            !(self is DomainError) ==> r == 500,
    {
        match self {
            ApplicationError::DomainError(e) => e.http_status(),
            _ => 500,
        }
    }

    /// The machine-readable code of the error in HTTP answers.
    pub fn error_code(&self) -> (r: String)
        ensures
            self matches ApplicationError::DomainError(e) ==> r@ == e.spec_error_code(),
            self is ConfigError ==> r@ == "configuration_error"@,
            self is InfrastructureError ==> r@ == "infrastructure_error"@,
            self is ApplicationError ==> r@ == "application_error"@,
    {
        match self {
            ApplicationError::DomainError(e) => e.error_code(),
            ApplicationError::ConfigError(_) => "configuration_error".to_string(),
            ApplicationError::InfrastructureError(_) => "infrastructure_error".to_string(),
            ApplicationError::ApplicationError(_) => "application_error".to_string(),
        }
    }
}

impl AppError {
    /// The HTTP status that answers the error: 503 when an external service
    /// failed, 500 otherwise.
    pub fn http_status(&self) -> (r: u16)
        ensures
            self is ExternalServiceError ==> r == 503,
            !(self is ExternalServiceError) ==> r == 500,
    {
        match self {
            AppError::ConfigError(_) => 500,
            AppError::ExternalServiceError(_) => 503,
            AppError::InternalError(_) => 500,
        }
    }
}

/// Severity with which an error is logged.
#[derive(Clone, Copy, Debug, PartialEq, Eq, Structural)]
pub enum LogLevel {
    Error,
    Warn,
    Info,
    Debug,
    Trace,
}

impl NetworkErrorType {
    /// A copy of the value, equal to it.
    pub fn duplicate(&self) -> (r: NetworkErrorType)
        ensures
            r == *self,
    {
        match self {
            NetworkErrorType::ConnectionError(s) => NetworkErrorType::ConnectionError(s.clone()),
            NetworkErrorType::TimeoutError(s) => NetworkErrorType::TimeoutError(s.clone()),
            NetworkErrorType::DnsError(s) => NetworkErrorType::DnsError(s.clone()),
            NetworkErrorType::TlsError(s) => NetworkErrorType::TlsError(s.clone()),
            NetworkErrorType::RequestError(s) => NetworkErrorType::RequestError(s.clone()),
            NetworkErrorType::ResponseError(s) => NetworkErrorType::ResponseError(s.clone()),
            NetworkErrorType::HttpError(c) => NetworkErrorType::HttpError(*c),
            NetworkErrorType::Unknown(s) => NetworkErrorType::Unknown(s.clone()),
        }
    }
}

impl ApiErrorType {
    /// A copy of the value, equal to it.
    pub fn duplicate(&self) -> (r: ApiErrorType)
        ensures
            r == *self,
    {
        match self {
            ApiErrorType::AuthenticationError(s) => ApiErrorType::AuthenticationError(s.clone()),
            ApiErrorType::AuthorizationError(s) => ApiErrorType::AuthorizationError(s.clone()),
            ApiErrorType::ResourceNotFoundError(s) => ApiErrorType::ResourceNotFoundError(s.clone()),
            ApiErrorType::BadRequestError(s) => ApiErrorType::BadRequestError(s.clone()),
            ApiErrorType::RateLimitError(s) => ApiErrorType::RateLimitError(s.clone()),
            ApiErrorType::ServerError(s) => ApiErrorType::ServerError(s.clone()),
            ApiErrorType::UnknownError(s) => ApiErrorType::UnknownError(s.clone()),
        }
    }
}

impl DomainError {
    /// Whether a transport may retry after this error: connect failures,
    /// timeouts, 5xx statuses, rate limits and provider server errors.
    pub open spec fn retryable(&self) -> bool {
        match self {
            DomainError::Network(NetworkErrorType::ConnectionError(_)) => true,
            DomainError::Network(NetworkErrorType::TimeoutError(_)) => true,
            DomainError::Network(NetworkErrorType::HttpError(status)) => 500 <= *status < 600,
            DomainError::Api(ApiErrorType::RateLimitError(_)) => true,
            DomainError::Api(ApiErrorType::ServerError(_)) => true,
            _ => false,
        }
    }

    pub fn network(msg: String) -> (r: DomainError)
        ensures
            r == DomainError::Network(NetworkErrorType::Unknown(msg)),
    {
        DomainError::Network(NetworkErrorType::Unknown(msg))
    }

    pub fn dns_service(msg: String) -> (r: DomainError)
        ensures
            r == DomainError::DnsService(msg),
    {
        DomainError::DnsService(msg)
    }

    pub fn ip_service(msg: String) -> (r: DomainError)
        ensures
            r == DomainError::IpService(msg),
    {
        DomainError::IpService(msg)
    }

    pub fn config(msg: String) -> (r: DomainError)
        ensures
            r == DomainError::Configuration(msg),
    {
        DomainError::Configuration(msg)
    }

    pub fn api(msg: String) -> (r: DomainError)
        ensures
            r == DomainError::Api(ApiErrorType::UnknownError(msg)),
    {
        DomainError::Api(ApiErrorType::UnknownError(msg))
    }

    pub fn unknown(msg: String) -> (r: DomainError)
        ensures
            r == DomainError::Unknown(msg),
    {
        DomainError::Unknown(msg)
    }

    pub fn retry_exhausted(msg: String) -> (r: DomainError)
        ensures
            r == DomainError::RetryExhausted(msg),
    {
        DomainError::RetryExhausted(msg)
    }

    pub fn validation(msg: String) -> (r: DomainError)
        ensures
            r == DomainError::Validation(msg),
    {
        DomainError::Validation(msg)
    }

    pub fn not_found(msg: String) -> (r: DomainError)
        ensures
            r == DomainError::NotFound(msg),
    {
        DomainError::NotFound(msg)
    }

    /// Wraps the error under a context message.
    pub fn context(self, context: String) -> (r: DomainError)
        ensures
            r == DomainError::Context(context, Box::new(self)),
    {
        DomainError::Context(context, Box::new(self))
    }

    /// A copy of the error, equal to it.
    pub fn duplicate(&self) -> (r: DomainError)
        ensures
            r == *self,
        decreases self,
    {
        match self {
            DomainError::Network(e) => DomainError::Network(e.duplicate()),
            DomainError::DnsService(s) => DomainError::DnsService(s.clone()),
            DomainError::IpService(s) => DomainError::IpService(s.clone()),
            DomainError::Configuration(s) => DomainError::Configuration(s.clone()),
            DomainError::Api(e) => DomainError::Api(e.duplicate()),
            DomainError::Unknown(s) => DomainError::Unknown(s.clone()),
            DomainError::RetryExhausted(s) => DomainError::RetryExhausted(s.clone()),
            DomainError::Validation(s) => DomainError::Validation(s.clone()),
            DomainError::LogicError(s) => DomainError::LogicError(s.clone()),
            DomainError::SerializationError(s) => DomainError::SerializationError(s.clone()),
            DomainError::NotFound(s) => DomainError::NotFound(s.clone()),
            DomainError::Context(s, inner) => {
                let copied = (**inner).duplicate();
                DomainError::Context(s.clone(), Box::new(copied))
            },
        }
    }

    pub fn is_retryable(&self) -> (r: bool)
        ensures
            r == self.retryable(),
    {
        match self {
            DomainError::Network(net_err) => match net_err {
                NetworkErrorType::ConnectionError(_) => true,
                NetworkErrorType::TimeoutError(_) => true,
                NetworkErrorType::HttpError(status) => *status >= 500 && *status < 600,
                _ => false,
            },
            DomainError::Api(api_err) => match api_err {
                ApiErrorType::RateLimitError(_) => true,
                ApiErrorType::ServerError(_) => true,
                _ => false,
            },
            _ => false,
        }
    }

    /// The message shown to a user for this error.
    pub open spec fn friendly_message(&self) -> Seq<char> {
        match self {
            DomainError::Validation(msg) => "輸入資料無效: "@ + msg@,
            DomainError::Network(NetworkErrorType::ConnectionError(_)) =>
                "網絡連接問題，請檢查您的網絡連接並重試"@,
            DomainError::Network(NetworkErrorType::TimeoutError(_)) =>
                "網絡超時，請檢查您的網絡連接並重試"@,
            DomainError::Api(ApiErrorType::RateLimitError(_)) =>
                "請求太頻繁，請稍後再試"@,
            DomainError::Api(ApiErrorType::ServerError(_)) =>
                "服務暫時不可用，請稍後再試"@,
            _ => "發生錯誤，請稍後重試"@,
        }
    }

    /// The severity with which the error is logged.
    pub open spec fn spec_log_level(&self) -> LogLevel {
        match self {
            DomainError::Validation(_) => LogLevel::Warn,
            _ => LogLevel::Error,
        }
    }

    pub fn user_friendly_message(&self) -> (r: String)
        ensures
            r@ == self.friendly_message(),
    {
        match self {
            DomainError::Validation(msg) => {
                let mut r = "輸入資料無效: ".to_string();
                r.append(msg.as_str());
                r
            },
            DomainError::Network(NetworkErrorType::ConnectionError(_)) => {
                "網絡連接問題，請檢查您的網絡連接並重試".to_string()
            },
            DomainError::Network(NetworkErrorType::TimeoutError(_)) => {
                "網絡超時，請檢查您的網絡連接並重試".to_string()
            },
            DomainError::Api(ApiErrorType::RateLimitError(_)) => {
                "請求太頻繁，請稍後再試".to_string()
            },
            DomainError::Api(ApiErrorType::ServerError(_)) => {
                "服務暫時不可用，請稍後再試".to_string()
            },
            _ => "發生錯誤，請稍後重試".to_string(),
        }
    }

    pub fn log_level(&self) -> (r: LogLevel)
        ensures
            r == self.spec_log_level(),
    {
        match self {
            DomainError::Validation(_) => LogLevel::Warn,
            _ => LogLevel::Error,
        }
    }
}

/// The error type of the HTTP client.
#[verifier::external_type_specification]
#[verifier::external_body]
pub struct ExReqwestError(reqwest::Error);

/// What `reqwest::Error::is_timeout` returns for an error.
pub uninterp spec fn timed_out_of(e: reqwest::Error) -> bool;

/// What `reqwest::Error::is_connect` returns for an error.
pub uninterp spec fn connect_failed_of(e: reqwest::Error) -> bool;

/// What `reqwest::Error::is_status` returns for an error.
pub uninterp spec fn status_error_of(e: reqwest::Error) -> bool;

/// The numeric status that `reqwest::Error::status` gives for an error.
pub uninterp spec fn status_of(e: reqwest::Error) -> Option<u16>;

/// Relies on reqwest::Error::is_timeout: whether a timeout caused the error,
/// a function of the error alone.
pub assume_specification[ reqwest::Error::is_timeout ](e: &reqwest::Error) -> (r: bool)
    ensures
        r == timed_out_of(*e),
;

/// Relies on reqwest::Error::is_connect: whether connecting caused the error,
/// a function of the error alone.
pub assume_specification[ reqwest::Error::is_connect ](e: &reqwest::Error) -> (r: bool)
    ensures
        r == connect_failed_of(*e),
;

/// Relies on reqwest::Error::is_status: whether the error comes from a
/// response status, a function of the error alone.
pub assume_specification[ reqwest::Error::is_status ](e: &reqwest::Error) -> (r: bool)
    ensures
        r == status_error_of(*e),
;

/// Relies on reqwest::Error::status and StatusCode::as_u16: the numeric
/// status of the response that caused the error, if any.
#[verifier::external_body]
fn status_code(e: &reqwest::Error) -> (r: Option<u16>)
    ensures
        r == status_of(*e),
{
    e.status().map(|s| s.as_u16())
}

/// The status a transport failure reports: none unless it is a status
/// error, whose missing code counts as 500.
pub open spec fn spec_status_or_500(is_status: bool, status: Option<u16>) -> Option<u16> {
    if !is_status {
        None
    } else if status is Some {
        status
    } else {
        Some(500)
    }
}

pub fn status_or_500(is_status: bool, status: Option<u16>) -> (r: Option<u16>)
    ensures
        r == spec_status_or_500(is_status, status),
{
    if !is_status {
        None
    } else {
        match status {
            Some(code) => Some(code),
            None => Some(500u16),
        }
    }
}

impl DomainError {
    /// The error that a transport failure maps to: a timeout first, then a
    /// connect failure, then a response status, else an unknown network error.
    pub open spec fn spec_from_transport_failure(
        timed_out: bool,
        connect_failed: bool,
        status: Option<u16>,
        message: String,
    ) -> DomainError {
        if timed_out {
            DomainError::Network(NetworkErrorType::TimeoutError(message))
        } else if connect_failed {
            DomainError::Network(NetworkErrorType::ConnectionError(message))
        } else if status is Some {
            DomainError::Network(NetworkErrorType::HttpError(status->0))
        } else {
            DomainError::Network(NetworkErrorType::Unknown(message))
        }
    }

    pub fn from_transport_failure(
        timed_out: bool,
        connect_failed: bool,
        status: Option<u16>,
        message: String,
    ) -> (r: DomainError)
        ensures
            r == Self::spec_from_transport_failure(timed_out, connect_failed, status, message),
    {
        if timed_out {
            DomainError::Network(NetworkErrorType::TimeoutError(message))
        } else if connect_failed {
            DomainError::Network(NetworkErrorType::ConnectionError(message))
        } else {
            match status {
                Some(code) => DomainError::Network(NetworkErrorType::HttpError(code)),
                None => DomainError::Network(NetworkErrorType::Unknown(message)),
            }
        }
    }

    /// Maps an HTTP client error into the taxonomy: a timeout first, then a
    /// connect failure, then a response status, else an unknown network
    /// error; the message is the error's text.
    pub fn from_reqwest(e: &reqwest::Error) -> (r: DomainError)
        ensures
            exists|m: String|
                r == Self::spec_from_transport_failure(
                    timed_out_of(*e),
                    connect_failed_of(*e),
                    spec_status_or_500(status_error_of(*e), status_of(*e)),
                    m,
                ),
    {
        let timed_out = e.is_timeout();
        let connect_failed = e.is_connect();
        let status = status_or_500(e.is_status(), status_code(e));
        let message = e.to_string();
        Self::from_transport_failure(timed_out, connect_failed, status, message)
    }
}

/// The digit that stands for `d`.
pub open spec fn digit_char(d: nat) -> char {
    if d == 0 {
        '0'
    } else if d == 1 {
        '1'
    } else if d == 2 {
        '2'
    } else if d == 3 {
        '3'
    } else if d == 4 {
        '4'
    } else if d == 5 {
        '5'
    } else if d == 6 {
        '6'
    } else if d == 7 {
        '7'
    } else if d == 8 {
        '8'
    } else {
        '9'
    }
}

/// The decimal digits of `n`, without leading zeros.
pub open spec fn decimal(n: nat) -> Seq<char>
    decreases n,
{
    if n < 10 {
        seq![digit_char(n)]
    } else {
        decimal(n / 10).push(digit_char(n % 10))
    }
}

fn digit_str(d: u64) -> (r: &'static str)
    requires
        d < 10,
    ensures
        r@ == seq![digit_char(d as nat)],
{
    proof {
        reveal_strlit("0");
        reveal_strlit("1");
        reveal_strlit("2");
        reveal_strlit("3");
        reveal_strlit("4");
        reveal_strlit("5");
        reveal_strlit("6");
        reveal_strlit("7");
        reveal_strlit("8");
        reveal_strlit("9");
    }
    let r = if d == 0 {
        "0"
    } else if d == 1 {
        "1"
    } else if d == 2 {
        "2"
    } else if d == 3 {
        "3"
    } else if d == 4 {
        "4"
    } else if d == 5 {
        "5"
    } else if d == 6 {
        "6"
    } else if d == 7 {
        "7"
    } else if d == 8 {
        "8"
    } else {
        "9"
    };
    assert(r@ =~= seq![digit_char(d as nat)]);
    r
}

/// Writes `n` in decimal.
pub fn to_decimal(n: u64) -> (r: String)
    ensures
        r@ == decimal(n as nat),
    decreases n,
{
    if n < 10 {
        digit_str(n).to_string()
    } else {
        let mut r = to_decimal(n / 10);
        r.append(digit_str(n % 10));
        r
    }
}

/// `prefix` followed by `text`.
fn prefixed(prefix: &str, text: &str) -> (r: String)
    ensures
        r@ == prefix@ + text@,
{
    let mut r = prefix.to_string();
    r.append(text);
    r
}

impl NetworkErrorType {
    /// The text of the error.
    pub open spec fn spec_message(&self) -> Seq<char> {
        match self {
            NetworkErrorType::ConnectionError(s) => "連接錯誤: "@ + s@,
            NetworkErrorType::TimeoutError(s) => "超時錯誤: "@ + s@,
            NetworkErrorType::DnsError(s) => "DNS解析錯誤: "@ + s@,
            NetworkErrorType::TlsError(s) => "TLS/SSL錯誤: "@ + s@,
            NetworkErrorType::RequestError(s) => "請求錯誤: "@ + s@,
            NetworkErrorType::ResponseError(s) => "響應錯誤: "@ + s@,
            NetworkErrorType::HttpError(code) => "HTTP錯誤: 狀態碼 "@ + decimal(*code as nat),
            NetworkErrorType::Unknown(s) => "未知網絡錯誤: "@ + s@,
        }
    }

    pub fn message(&self) -> (r: String)
        ensures
            r@ == self.spec_message(),
    {
        match self {
            NetworkErrorType::ConnectionError(s) => prefixed("連接錯誤: ", s.as_str()),
            NetworkErrorType::TimeoutError(s) => prefixed("超時錯誤: ", s.as_str()),
            NetworkErrorType::DnsError(s) => prefixed("DNS解析錯誤: ", s.as_str()),
            NetworkErrorType::TlsError(s) => prefixed("TLS/SSL錯誤: ", s.as_str()),
            NetworkErrorType::RequestError(s) => prefixed("請求錯誤: ", s.as_str()),
            NetworkErrorType::ResponseError(s) => prefixed("響應錯誤: ", s.as_str()),
            NetworkErrorType::HttpError(code) => {
                let digits = to_decimal(*code as u64);
                prefixed("HTTP錯誤: 狀態碼 ", digits.as_str())
            },
            NetworkErrorType::Unknown(s) => prefixed("未知網絡錯誤: ", s.as_str()),
        }
    }
}

impl ApiErrorType {
    /// The text of the error.
    pub open spec fn spec_message(&self) -> Seq<char> {
        match self {
            ApiErrorType::AuthenticationError(s) => "API認證錯誤: "@ + s@,
            ApiErrorType::AuthorizationError(s) => "API授權錯誤: "@ + s@,
            ApiErrorType::ResourceNotFoundError(s) => "API資源不存在: "@ + s@,
            ApiErrorType::BadRequestError(s) => "API無效請求: "@ + s@,
            ApiErrorType::RateLimitError(s) => "API請求頻率限制: "@ + s@,
            ApiErrorType::ServerError(s) => "API內部錯誤: "@ + s@,
            ApiErrorType::UnknownError(s) => "API未知錯誤: "@ + s@,
        }
    }

    pub fn message(&self) -> (r: String)
        ensures
            r@ == self.spec_message(),
    {
        match self {
            ApiErrorType::AuthenticationError(s) => prefixed("API認證錯誤: ", s.as_str()),
            ApiErrorType::AuthorizationError(s) => prefixed("API授權錯誤: ", s.as_str()),
            ApiErrorType::ResourceNotFoundError(s) => prefixed("API資源不存在: ", s.as_str()),
            ApiErrorType::BadRequestError(s) => prefixed("API無效請求: ", s.as_str()),
            ApiErrorType::RateLimitError(s) => prefixed("API請求頻率限制: ", s.as_str()),
            ApiErrorType::ServerError(s) => prefixed("API內部錯誤: ", s.as_str()),
            ApiErrorType::UnknownError(s) => prefixed("API未知錯誤: ", s.as_str()),
        }
    }
}

impl DomainError {
    /// The text of the error; a context error reads as its context.
    pub open spec fn spec_message(&self) -> Seq<char> {
        match self {
            DomainError::Network(e) => "網絡錯誤: "@ + e.spec_message(),
            DomainError::DnsService(s) => "DNS服務錯誤: "@ + s@,
            DomainError::IpService(s) => "IP服務錯誤: "@ + s@,
            DomainError::Configuration(s) => "配置錯誤: "@ + s@,
            DomainError::Api(e) => "API錯誤: "@ + e.spec_message(),
            DomainError::Unknown(s) => "未知錯誤: "@ + s@,
            DomainError::RetryExhausted(s) => "超過最大重試次數: "@ + s@,
            DomainError::Validation(s) => "驗證錯誤: "@ + s@,
            DomainError::LogicError(s) => "邏輯錯誤: "@ + s@,
            DomainError::SerializationError(s) => "序列化錯誤: "@ + s@,
            DomainError::NotFound(s) => "資源不存在: "@ + s@,
            DomainError::Context(c, _) => c@,
        }
    }

    pub fn message(&self) -> (r: String)
        ensures
            r@ == self.spec_message(),
    {
        match self {
            DomainError::Network(e) => {
                let m = e.message();
                prefixed("網絡錯誤: ", m.as_str())
            },
            DomainError::DnsService(s) => prefixed("DNS服務錯誤: ", s.as_str()),
            DomainError::IpService(s) => prefixed("IP服務錯誤: ", s.as_str()),
            DomainError::Configuration(s) => prefixed("配置錯誤: ", s.as_str()),
            DomainError::Api(e) => {
                let m = e.message();
                prefixed("API錯誤: ", m.as_str())
            },
            DomainError::Unknown(s) => prefixed("未知錯誤: ", s.as_str()),
            DomainError::RetryExhausted(s) => prefixed("超過最大重試次數: ", s.as_str()),
            DomainError::Validation(s) => prefixed("驗證錯誤: ", s.as_str()),
            DomainError::LogicError(s) => prefixed("邏輯錯誤: ", s.as_str()),
            DomainError::SerializationError(s) => prefixed("序列化錯誤: ", s.as_str()),
            DomainError::NotFound(s) => prefixed("資源不存在: ", s.as_str()),
            DomainError::Context(c, _) => c.clone(),
        }
    }
}

impl AppError {
    /// The text of the error.
    pub fn message(&self) -> (r: String)
        ensures
            self matches AppError::ConfigError(m) ==> r@ == "Configuration error: "@ + m@,
            self matches AppError::ExternalServiceError(m) ==> r@ == "External service error: "@ + m@,
            self matches AppError::InternalError(m) ==> r@ == "Internal server error: "@ + m@,
    {
        match self {
            AppError::ConfigError(m) => prefixed("Configuration error: ", m.as_str()),
            AppError::ExternalServiceError(m) => prefixed("External service error: ", m.as_str()),
            AppError::InternalError(m) => prefixed("Internal server error: ", m.as_str()),
        }
    }
}

} // verus!
