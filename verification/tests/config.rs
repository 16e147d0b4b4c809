use shortlink::config::{Cli, Db, Error, Ip, Net, DEFAULT_CONFIG, DEFAULT_DB, DEFAULT_PORT};

#[test]
fn cli_names_its_settings_file() {
    let cli = Cli::new(String::from("/etc/links/config.toml"));
    assert_eq!(cli.conf_path(), "/etc/links/config.toml");
    assert_eq!(Cli::new(String::from(DEFAULT_CONFIG)).conf_path(), "config.toml");
}

#[test]
fn db_path_falls_back_to_the_default() {
    assert_eq!(Db::new(None).path(), "db.sqlite");
    assert_eq!(Db::default().path(), DEFAULT_DB);
    assert_eq!(Db::new(Some(String::from("links.db"))).path(), "links.db");
    assert_eq!(Db::new(Some(String::new())).path(), "");
}

#[test]
fn error_messages() {
    let read = Error::Read(String::from("config.toml"));
    assert_eq!(read.message(), "failed to read config.toml file");
    let parse = Error::Parse(String::from("config.toml"), String::from("unknown field `x`"));
    assert_eq!(parse.message(), "failed to parse config config.toml: unknown field `x`");
}

#[test]
fn server_listens_on_loopback_by_default() {
    let net = Net::default();
    assert_eq!(net.port, 3000);
    assert_eq!(net.port, DEFAULT_PORT);
    assert_eq!(net.ip, Ip::V4(u32::from_be_bytes([127, 0, 0, 1])));
    assert_ne!(net.ip, Ip::V6(1));
}
