use ollama_bench::config::{
    get_default_headers, get_user_agent, table_column_widths, APP_NAME, DEFAULT_ITERATIONS,
    DEFAULT_OLLAMA_BASE_URL, DEFAULT_TIMEOUT_SECONDS,
};

#[test]
fn test_constants() {
    assert_eq!(DEFAULT_ITERATIONS, 5);
    assert_eq!(DEFAULT_TIMEOUT_SECONDS, 120);
    assert_eq!(DEFAULT_OLLAMA_BASE_URL, "http://localhost:11434");
}

#[test]
fn test_user_agent() {
    let ua = get_user_agent();
    assert!(ua.starts_with(APP_NAME));
    assert!(ua.contains('/'));
}

#[test]
fn test_default_headers() {
    let headers = get_default_headers();
    assert_eq!(headers.len(), 2);
    assert!(headers.iter().any(|(k, _)| *k == "Accept"));
    assert!(headers.iter().any(|(k, _)| *k == "Content-Type"));
}

#[test]
fn test_user_agent_exact() {
    assert_eq!(get_user_agent(), "ollama-bench/0.1.0");
}

#[test]
fn test_table_column_widths() {
    let w = table_column_widths();
    assert_eq!(w.model, 13);
    assert_eq!(w.avg_speed, 13);
    assert_eq!(w.ttft, 13);
    assert_eq!(w.success_rate, 14);
}
