use ollama_bench::cli::{Cli, OutputFormat};
use ollama_bench::config::DEFAULT_PROMPT;

fn base_cli() -> Cli {
    Cli {
        models: vec!["llama2:7b".to_string()],
        iterations: 5,
        output: OutputFormat::Table,
        prompt: None,
        max_tokens: 100,
        temperature_milli: 700,
        timeout: 120,
        ollama_url: "http://localhost:11434".to_string(),
        quiet: false,
        verbose: false,
        export: None,
    }
}

#[test]
fn test_cli_validation_valid() {
    let cli = base_cli();
    assert!(cli.validate().is_ok());
}

#[test]
fn test_cli_validation_invalid_iterations() {
    let mut cli = base_cli();
    cli.iterations = 0;
    assert!(cli.validate().is_err());

    cli.iterations = 1001;
    assert!(cli.validate().is_err());
}

#[test]
fn test_cli_validation_invalid_temperature() {
    let mut cli = base_cli();
    cli.temperature_milli = -100;
    assert!(cli.validate().is_err());

    cli.temperature_milli = 2100;
    assert!(cli.validate().is_err());
}

#[test]
fn test_get_prompt() {
    let mut cli = base_cli();
    assert_eq!(cli.get_prompt(), DEFAULT_PROMPT);

    cli.prompt = Some("Custom prompt".to_string());
    assert_eq!(cli.get_prompt(), "Custom prompt");
}

#[test]
fn test_cli_validation_messages() {
    let mut cli = base_cli();
    cli.iterations = 0;
    assert_eq!(cli.validate().unwrap_err(), "Iterations must be greater than 0");

    let mut cli = base_cli();
    cli.max_tokens = 0;
    assert_eq!(cli.validate().unwrap_err(), "Max tokens must be greater than 0");

    let mut cli = base_cli();
    cli.max_tokens = 5000;
    assert_eq!(cli.validate().unwrap_err(), "Max tokens must be 4096 or less");

    let mut cli = base_cli();
    cli.timeout = 0;
    assert_eq!(cli.validate().unwrap_err(), "Timeout must be greater than 0");

    let mut cli = base_cli();
    cli.models = vec![];
    assert_eq!(cli.validate().unwrap_err(), "At least one model must be specified");

    let mut cli = base_cli();
    cli.ollama_url = "localhost:11434".to_string();
    assert_eq!(
        cli.validate().unwrap_err(),
        "Ollama URL must start with http:// or https://"
    );

    let mut cli = base_cli();
    cli.ollama_url = "https://remote:11434".to_string();
    assert!(cli.validate().is_ok());
}
