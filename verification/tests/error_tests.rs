use ollama_bench::error::{
    is_model_missing_response, transport_error, u64_to_dec_string, validate_model_name,
    BenchmarkError,
};

#[test]
fn test_error_display() {
    let err = BenchmarkError::OllamaNotRunning;
    assert!(err.message().contains("ollama serve"));

    let err = BenchmarkError::ModelNotFound("llama2:7b".to_string());
    assert!(err.message().contains("ollama pull llama2:7b"));

    let err = BenchmarkError::NetworkTimeout(60);
    assert!(err.message().contains("60s"));
}

#[test]
fn test_validate_model_name() {
    assert!(validate_model_name("llama2:7b").is_ok());
    assert!(validate_model_name("mistral:latest").is_ok());
    assert!(validate_model_name("phi-2").is_ok());
    assert!(validate_model_name("").is_err());
    assert!(validate_model_name("model with spaces").is_err());
    assert!(validate_model_name("model@invalid").is_err());
}

#[test]
fn test_validate_model_name_error_detail() {
    match validate_model_name("") {
        Err(BenchmarkError::InvalidModel(m)) => assert_eq!(m, "empty model name"),
        _ => panic!("empty name must be rejected as InvalidModel"),
    }
    match validate_model_name("model@invalid") {
        Err(BenchmarkError::InvalidModel(m)) => assert_eq!(m, "model@invalid"),
        _ => panic!("bad character must be rejected as InvalidModel"),
    }
}

#[test]
fn test_u64_to_dec_string() {
    assert_eq!(u64_to_dec_string(0), "0");
    assert_eq!(u64_to_dec_string(7), "7");
    assert_eq!(u64_to_dec_string(60), "60");
    assert_eq!(u64_to_dec_string(12345), "12345");
    assert_eq!(u64_to_dec_string(u64::MAX), "18446744073709551615");
}

#[test]
fn test_transport_error_mapping() {
    assert!(matches!(
        transport_error(true, false, "x".to_string()),
        BenchmarkError::OllamaNotRunning
    ));
    assert!(matches!(
        transport_error(false, true, "x".to_string()),
        BenchmarkError::NetworkTimeout(30)
    ));
    match transport_error(false, false, "boom".to_string()) {
        BenchmarkError::ConnectionFailed(d) => assert_eq!(d, "boom"),
        _ => panic!("other transport failures map to ConnectionFailed"),
    }
}

#[test]
fn test_is_model_missing_response() {
    assert!(is_model_missing_response(404, false));
    assert!(is_model_missing_response(500, true));
    assert!(!is_model_missing_response(500, false));
}

#[test]
fn test_error_messages_per_variant() {
    assert!(BenchmarkError::InvalidModel("x y".to_string())
        .message()
        .contains("Invalid model name: 'x y'"));
    assert!(BenchmarkError::ConnectionFailed("http://h:1".to_string())
        .message()
        .contains("Failed to connect to Ollama at http://h:1"));
    assert!(BenchmarkError::ParseError("bad json".to_string())
        .message()
        .contains("Failed to parse response: bad json"));
    assert!(BenchmarkError::IoError("denied".to_string())
        .message()
        .contains("I/O error: denied"));
    assert!(BenchmarkError::ConfigError("zero".to_string())
        .message()
        .contains("Configuration error: zero"));
}
