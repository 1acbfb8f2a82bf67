use argus::config::{Args, Cli, IndexerConfig};

fn config() -> IndexerConfig {
    IndexerConfig { dolos_endpoint: "http://node".to_string(), database_url: "mysql://env".to_string() }
}

#[test]
fn command_line_url_takes_priority() {
    let a = Args { database_url: Some("mysql://cli".to_string()) };
    assert_eq!(a.resolve_database_url(&config()), "mysql://cli");
}

#[test]
fn configured_url_is_the_fallback() {
    let cli = Cli::Start(Args { database_url: None });
    let Cli::Start(a) = cli;
    assert_eq!(a.resolve_database_url(&config()), "mysql://env");
}
