use jerry_client::configuration::get_session_info;
use jerry_client::configuration::provider::{
    create_default_config, ClientInfo, Config, ConfigError, ConfigProvider, Connection,
    ServerConfig, HIGHEST_DEFAULT_PORT, LOWEST_PORT, SHORTEST_PASSWORD,
};
use jerry_client::configuration::{ScreenResolution, SessionParams};
use jerry_client::{DisplayMode, DEFAULT_PORT};

fn server(name: &str, last_octet: u8, guid: Option<&str>) -> ServerConfig {
    ServerConfig {
        name: String::from(name),
        ip: [192, 168, 1, last_octet],
        port: 8888,
        password: String::from("2002"),
        guid: guid.map(String::from),
    }
}

fn config(servers: Option<Vec<ServerConfig>>, previous: Option<&str>) -> Config {
    Config {
        client: ClientInfo { name: String::from("desk"), default_guid: String::from("own") },
        connection: Connection { port: 8888, previous: previous.map(String::from), confirm: true },
        servers,
    }
}

fn provider(servers: Option<Vec<ServerConfig>>, previous: Option<&str>) -> ConfigProvider {
    ConfigProvider::new(config(servers, previous)).unwrap()
}

#[test]
fn default_configuration_knows_no_server_and_asks() {
    let made = create_default_config(String::from("host"), String::from("guid"));
    assert_eq!(
        made,
        Config {
            client: ClientInfo { name: String::from("host"), default_guid: String::from("guid") },
            connection: Connection { port: DEFAULT_PORT, previous: None, confirm: true },
            servers: Some(Vec::new()),
        }
    );
    assert!(made.validate());
    let provider = ConfigProvider::new(made).unwrap();
    assert_eq!(provider.get_default_port(), 8888);
    assert!(!provider.connect_without_confirmation());
    assert_eq!(provider.get_servers(), Vec::<String>::new());
    assert_eq!(provider.get_last_connection_info(), None);
    assert_eq!(provider.preselected(), 0);
}

#[test]
fn limits_are_those_of_the_file_format() {
    assert_eq!(LOWEST_PORT, 1024);
    assert_eq!(HIGHEST_DEFAULT_PORT, 49151);
    assert_eq!(SHORTEST_PASSWORD, 4);
    assert_eq!(DEFAULT_PORT, 8888);
}

#[test]
fn configuration_is_checked_when_it_is_taken() {
    assert!(config(None, None).validate());
    assert!(config(Some(vec![server("a", 1, None)]), None).validate());

    let mut nameless = config(None, None);
    nameless.client.name = String::new();
    assert!(!nameless.validate());
    assert_eq!(ConfigProvider::new(nameless).err(), Some(ConfigError::Invalid));

    for (port, valid) in [(1023u16, false), (1024, true), (49151, true), (49152, false)] {
        let mut with_port = config(None, None);
        with_port.connection.port = port;
        assert_eq!(with_port.validate(), valid);
    }

    let mut unnamed_server = server("", 1, None);
    assert!(!config(Some(vec![server("a", 1, None), unnamed_server.clone()]), None).validate());
    unnamed_server.name = String::from("b");
    assert!(config(Some(vec![server("a", 1, None), unnamed_server]), None).validate());

    for (port, valid) in [(1023u16, false), (1024, true), (65535, true)] {
        let mut low = server("a", 1, None);
        low.port = port;
        assert_eq!(config(Some(vec![low]), None).validate(), valid);
    }

    for (password, valid) in [("", false), ("abc", false), ("abcd", true), ("äöü", false), ("äöüß", true)]
    {
        let mut weak = server("a", 1, None);
        weak.password = String::from(password);
        assert_eq!(config(Some(vec![weak]), None).validate(), valid);
    }
}

#[test]
fn servers_are_found_by_name() {
    let provider = provider(
        Some(vec![server("a", 1, None), server("b", 2, Some("x")), server("a", 3, None)]),
        None,
    );
    assert_eq!(provider.get_servers(), vec!["a", "b", "a"]);
    assert_eq!(provider.get_server("a"), Some(&server("a", 1, None)));
    assert_eq!(provider.get_server("b"), Some(&server("b", 2, Some("x"))));
    assert_eq!(provider.get_server("c"), None);
    assert_eq!(provider.get_server(""), None);
    assert_eq!(self::provider(None, None).get_server("a"), None);
    assert_eq!(provider.config().servers.as_ref().map(|s| s.len()), Some(3));
}

#[test]
fn last_connection_goes_by_the_client_s_identifier_unless_the_server_has_one() {
    let servers = vec![server("a", 1, None), server("b", 2, Some("x"))];
    let with_own = provider(Some(servers.clone()), Some("a"));
    assert_eq!(with_own.get_last_connection_info(), Some(server("a", 1, Some("own"))));
    assert_eq!(
        with_own.get_init_info_for_last_server(),
        Some(ClientInfo { name: String::from("desk"), default_guid: String::from("own") })
    );
    assert_eq!(with_own.preselected(), 0);

    let with_given = provider(Some(servers.clone()), Some("b"));
    assert_eq!(with_given.get_last_connection_info(), Some(server("b", 2, Some("x"))));
    assert_eq!(
        with_given.get_init_info_for_last_server(),
        Some(ClientInfo { name: String::from("desk"), default_guid: String::from("x") })
    );
    assert_eq!(with_given.preselected(), 1);

    let forgotten = provider(Some(servers), Some("c"));
    assert_eq!(forgotten.get_last_connection_info(), None);
    assert_eq!(forgotten.get_init_info_for_last_server(), None);
    assert_eq!(forgotten.preselected(), 0);
}

#[test]
fn added_server_goes_last_and_is_connected_to_first() {
    let mut provider = provider(Some(vec![server("a", 1, None)]), Some("a"));
    assert_eq!(provider.add_server(&server("b", 2, Some("x"))), Ok(()));
    assert_eq!(provider.get_servers(), vec!["a", "b"]);
    assert_eq!(provider.get_server("b"), Some(&server("b", 2, Some("x"))));
    assert_eq!(provider.get_last_connection_info(), Some(server("b", 2, Some("x"))));
    assert_eq!(provider.preselected(), 1);

    let mut empty = self::provider(None, None);
    assert_eq!(empty.add_server(&server("a", 1, None)), Ok(()));
    assert_eq!(empty.config().servers, Some(vec![server("a", 1, None)]));
    assert_eq!(empty.config().connection.previous, Some(String::from("a")));
}

#[test]
fn name_that_is_taken_is_refused() {
    let mut provider = provider(Some(vec![server("a", 1, None)]), None);
    let before = config(Some(vec![server("a", 1, None)]), None);
    assert_eq!(
        provider.add_server(&server("a", 9, None)),
        Err(ConfigError::NameTaken(String::from("a")))
    );
    assert_eq!(provider.config(), &before);
    assert_eq!(
        provider.check_if_unique_ex("a"),
        Err(ConfigError::NameTaken(String::from("a")))
    );
    assert_eq!(provider.check_if_unique_ex("b"), Ok(()));
    assert_eq!(self::provider(None, None).check_if_unique_ex("a"), Ok(()));
}

#[test]
fn identifier_of_a_server_can_be_changed() {
    let mut provider = provider(
        Some(vec![server("a", 1, None), server("b", 2, Some("x")), server("a", 3, None)]),
        None,
    );
    assert_eq!(provider.update_server("a", Some("y")), Ok(()));
    assert_eq!(
        provider.config().servers,
        Some(vec![server("a", 1, Some("y")), server("b", 2, Some("x")), server("a", 3, None)])
    );
    assert_eq!(provider.update_server("b", None), Ok(()));
    assert_eq!(provider.get_server("b"), Some(&server("b", 2, Some("x"))));
    assert_eq!(
        provider.update_server("c", Some("z")),
        Err(ConfigError::UnknownServer(String::from("c")))
    );
    let mut empty = self::provider(None, None);
    assert_eq!(empty.update_server("a", Some("z")), Err(ConfigError::NoServers));
    assert_eq!(empty.config().servers, None);
    let mut listless = self::provider(Some(Vec::new()), None);
    assert_eq!(
        listless.update_server("a", None),
        Err(ConfigError::UnknownServer(String::from("a")))
    );
}

#[test]
fn last_server_can_be_set() {
    let mut provider = provider(Some(vec![server("a", 1, None), server("b", 2, None)]), None);
    provider.update_last("b");
    assert_eq!(provider.config().connection.previous, Some(String::from("b")));
    assert_eq!(provider.preselected(), 1);
    provider.update_last("nobody");
    assert_eq!(provider.get_last_connection_info(), None);
}

#[test]
fn errors_have_their_texts() {
    assert_eq!(ConfigError::Invalid.to_string(), "Configuration file is not valid!");
    assert_eq!(
        ConfigError::NameTaken(String::from("a")).to_string(),
        "There is already a server with name 'a' in the configuration"
    );
    assert_eq!(ConfigError::NoServers.to_string(), "There are no server in the configuration");
    assert_eq!(
        ConfigError::UnknownServer(String::from("a")).to_string(),
        "There is no server with specified name 'a' in the configuration"
    );
}

#[test]
fn session_is_made_of_the_last_server() {
    let provider = provider(
        Some(vec![server("a", 1, None), server("b", 2, Some("x"))]),
        Some("b"),
    );
    assert_eq!(
        get_session_info(&provider, true, false),
        Some(SessionParams {
            client_name: String::from("desk"),
            client_guid: String::from("x"),
            server_password: String::from("2002"),
            monitor: ScreenResolution::Dynamic,
            ip: [192, 168, 1, 2],
            port: 8888,
            display_mode: DisplayMode::CurrentState,
            emulate_events: true,
        })
    );
    let unknown = self::provider(Some(vec![server("a", 1, None)]), Some("b"));
    assert_eq!(get_session_info(&unknown, true, false), None);
    assert_eq!(get_session_info(&self::provider(None, None), false, true), None);
}

#[test]
fn input_is_injected_unless_the_server_is_on_this_machine() {
    let mut local = server("a", 1, None);
    local.ip = [127, 0, 0, 1];
    let provider = provider(Some(vec![local]), Some("a"));
    let quiet = get_session_info(&provider, false, false).unwrap();
    assert!(!quiet.emulate_events);
    assert_eq!(quiet.display_mode, DisplayMode::Logging);
    assert_eq!(quiet.client_guid, "own");
    assert!(get_session_info(&provider, false, true).unwrap().emulate_events);
}
