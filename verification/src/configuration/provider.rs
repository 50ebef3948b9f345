//! The configuration: who the client is and which servers it knows.
//!
//! Reading and writing the file is the caller's part. `ConfigProvider`
//! takes a configuration that was read, or made up, and answers for it.

use vstd::prelude::*;
use vstd::string::{StrSliceExecFns, StringExecFns};
use crate::DEFAULT_PORT;

verus! {

/// The lowest port a connection or a server may be configured with.
pub const LOWEST_PORT: u16 = 1024;

/// The highest port that new server records may be offered.
pub const HIGHEST_DEFAULT_PORT: u16 = 49151;

/// The number of characters a password has at least.
pub const SHORTEST_PASSWORD: usize = 4;

/// Who the client is.
#[derive(Debug, PartialEq, Eq)]
pub struct ClientInfo {
    pub name: String,
    pub default_guid: String,
}

/// How servers are connected to.
#[derive(Debug, PartialEq, Eq)]
pub struct Connection {
    /// The port offered for a new server record.
    pub port: u16,
    /// The name of the server that was connected to last.
    pub previous: Option<String>,
    /// Whether the user is asked before connecting.
    pub confirm: bool,
}

/// One server the client knows.
#[derive(Debug, PartialEq, Eq)]
pub struct ServerConfig {
    pub name: String,
    /// The four octets of the server's IPv4 address, first octet first.
    pub ip: [u8; 4],
    pub port: u16,
    pub password: String,
    /// The identifier the client uses towards this server, where it is not
    /// the client's own.
    pub guid: Option<String>,
}

/// Everything that is configured.
#[derive(Debug, PartialEq, Eq)]
pub struct Config {
    pub client: ClientInfo,
    pub connection: Connection,
    pub servers: Option<Vec<ServerConfig>>,
}

/// Why the configuration was not taken or not changed.
#[derive(Debug, PartialEq, Eq)]
pub enum ConfigError {
    /// A name is empty, a port is too low or too high, or a password is too
    /// short.
    Invalid,
    /// There is already a server with this name.
    NameTaken(String),
    /// There are no servers at all.
    NoServers,
    /// There is no server with this name.
    UnknownServer(String),
}

pub struct ClientInfoView {
    pub name: Seq<char>,
    pub default_guid: Seq<char>,
}

pub struct ConnectionView {
    pub port: u16,
    pub previous: Option<Seq<char>>,
    pub confirm: bool,
}

pub struct ServerConfigView {
    pub name: Seq<char>,
    pub ip: Seq<u8>,
    pub port: u16,
    pub password: Seq<char>,
    pub guid: Option<Seq<char>>,
}

pub struct ConfigView {
    pub client: ClientInfoView,
    pub connection: ConnectionView,
    pub servers: Option<Seq<ServerConfigView>>,
}

pub enum ConfigErrorView {
    Invalid,
    NameTaken(Seq<char>),
    NoServers,
    UnknownServer(Seq<char>),
}

impl View for ClientInfo {
    type V = ClientInfoView;

    open spec fn view(&self) -> ClientInfoView {
        ClientInfoView { name: self.name@, default_guid: self.default_guid@ }
    }
}

impl DeepView for ClientInfo {
    type V = ClientInfoView;

    open spec fn deep_view(&self) -> ClientInfoView {
        self.view()
    }
}

impl View for Connection {
    type V = ConnectionView;

    open spec fn view(&self) -> ConnectionView {
        ConnectionView {
            port: self.port,
            previous: self.previous.deep_view(),
            confirm: self.confirm,
        }
    }
}

impl View for ServerConfig {
    type V = ServerConfigView;

    open spec fn view(&self) -> ServerConfigView {
        ServerConfigView {
            name: self.name@,
            ip: self.ip@,
            port: self.port,
            password: self.password@,
            guid: self.guid.deep_view(),
        }
    }
}

impl DeepView for ServerConfig {
    type V = ServerConfigView;

    open spec fn deep_view(&self) -> ServerConfigView {
        self.view()
    }
}

impl View for Config {
    type V = ConfigView;

    open spec fn view(&self) -> ConfigView {
        ConfigView {
            client: self.client@,
            connection: self.connection@,
            servers: self.servers.deep_view(),
        }
    }
}

impl View for ConfigError {
    type V = ConfigErrorView;

    open spec fn view(&self) -> ConfigErrorView {
        match self {
            ConfigError::Invalid => ConfigErrorView::Invalid,
            ConfigError::NameTaken(name) => ConfigErrorView::NameTaken(name@),
            ConfigError::NoServers => ConfigErrorView::NoServers,
            ConfigError::UnknownServer(name) => ConfigErrorView::UnknownServer(name@),
        }
    }
}

impl ConfigErrorView {
    /// What the user is told.
    pub open spec fn text(self) -> Seq<char> {
        match self {
            ConfigErrorView::Invalid => "Configuration file is not valid!"@,
            ConfigErrorView::NameTaken(name) => "There is already a server with name '"@ + name
                + "' in the configuration"@,
            ConfigErrorView::NoServers => "There are no server in the configuration"@,
            ConfigErrorView::UnknownServer(name) => "There is no server with specified name '"@
                + name + "' in the configuration"@,
        }
    }
}

impl ConfigError {
    /// Renders the error as `ConfigErrorView::text` describes it.
    pub fn to_string(&self) -> (shown: String)
        ensures
            shown@ == self@.text(),
    {
        match self {
            ConfigError::Invalid => String::from_str("Configuration file is not valid!"),
            ConfigError::NameTaken(name) => {
                let mut shown = String::from_str("There is already a server with name '");
                shown.append(name.as_str());
                shown.append("' in the configuration");
                shown
            },
            ConfigError::NoServers => String::from_str("There are no server in the configuration"),
            ConfigError::UnknownServer(name) => {
                let mut shown = String::from_str("There is no server with specified name '");
                shown.append(name.as_str());
                shown.append("' in the configuration");
                shown
            },
        }
    }
}

/// How a change went, as a plain value.
pub open spec fn changed(result: Result<(), ConfigError>) -> Result<(), ConfigErrorView> {
    match result {
        Ok(_) => Ok(()),
        Err(error) => Err(error@),
    }
}

impl Clone for ClientInfo {
    fn clone(&self) -> (copy: ClientInfo)
        ensures
            copy@ == self@,
    {
        ClientInfo { name: self.name.clone(), default_guid: self.default_guid.clone() }
    }
}

impl Clone for ServerConfig {
    fn clone(&self) -> (copy: ServerConfig)
        ensures
            copy@ == self@,
    {
        ServerConfig {
            name: self.name.clone(),
            ip: self.ip,
            port: self.port,
            password: self.password.clone(),
            guid: match &self.guid {
                Some(guid) => Some(guid.clone()),
                None => None,
            },
        }
    }
}

impl ServerConfigView {
    /// A server has a name, a port that is not reserved, and a password of
    /// some length.
    pub open spec fn valid(self) -> bool {
        &&& self.name.len() >= 1
        &&& self.port >= LOWEST_PORT
        &&& self.password.len() >= SHORTEST_PASSWORD
    }
}

/// Whether `i` is the place of the first server of that name.
pub open spec fn is_first_named(servers: Seq<ServerConfigView>, name: Seq<char>, i: int) -> bool {
    &&& 0 <= i < servers.len()
    &&& servers[i].name == name
    &&& forall|j: int| 0 <= j < i ==> servers[j].name != name
}

/// Whether no two servers have the same name.
pub open spec fn names_differ(servers: Seq<ServerConfigView>) -> bool {
    forall|i: int, j: int|
        0 <= i < j < servers.len() ==> servers[i].name != servers[j].name
}

impl ConfigView {
    /// The client has a name, new records are offered a registered port,
    /// and every server is valid.
    pub open spec fn valid(self) -> bool {
        &&& self.client.name.len() >= 1
        &&& LOWEST_PORT <= self.connection.port <= HIGHEST_DEFAULT_PORT
        &&& forall|i: int| 0 <= i < self.list().len() ==> (#[trigger] self.list()[i]).valid()
    }

    /// The servers, in the order of the file.
    pub open spec fn list(self) -> Seq<ServerConfigView> {
        match self.servers {
            Some(servers) => servers,
            None => Seq::empty(),
        }
    }

    /// Whether there is a server of that name.
    pub open spec fn knows(self, name: Seq<char>) -> bool {
        exists|i: int| 0 <= i < self.list().len() && (#[trigger] self.list()[i]).name == name
    }

    /// The place of the first server of that name.
    pub open spec fn place(self, name: Seq<char>) -> int {
        choose|i: int| is_first_named(self.list(), name, i)
    }

    /// The first server of that name, where there is one.
    pub open spec fn server(self, name: Seq<char>) -> Option<ServerConfigView> {
        if self.knows(name) {
            Some(self.list()[self.place(name)])
        } else {
            None
        }
    }

    /// The server that was connected to last, with the client's own
    /// identifier where the server has none.
    pub open spec fn last_connection(self) -> Option<ServerConfigView> {
        match self.connection.previous {
            Some(name) => match self.server(name) {
                Some(server) => Some(
                    ServerConfigView {
                        guid: match server.guid {
                            Some(guid) => Some(guid),
                            None => Some(self.client.default_guid),
                        },
                        ..server
                    },
                ),
                None => None,
            },
            None => None,
        }
    }

    /// The client as the server of that name knows it: under the
    /// identifier of that server, where it has one.
    pub open spec fn client_for(self, name: Seq<char>) -> Option<ClientInfoView> {
        match self.server(name) {
            Some(server) => Some(
                ClientInfoView {
                    default_guid: match server.guid {
                        Some(guid) => guid,
                        None => self.client.default_guid,
                    },
                    ..self.client
                },
            ),
            None => None,
        }
    }

    /// The configuration with another server to connect to first.
    pub open spec fn with_last(self, name: Seq<char>) -> ConfigView {
        ConfigView {
            connection: ConnectionView { previous: Some(name), ..self.connection },
            ..self
        }
    }

    /// The configuration with one more server at the end, which is also the
    /// one to connect to first.
    pub open spec fn with_server(self, server: ServerConfigView) -> ConfigView {
        ConfigView { servers: Some(self.list().push(server)), ..self.with_last(server.name) }
    }

    /// The configuration with another identifier for the first server of
    /// that name.
    pub open spec fn with_guid(self, name: Seq<char>, guid: Seq<char>) -> ConfigView {
        ConfigView {
            servers: Some(
                self.list().update(
                    self.place(name),
                    ServerConfigView { guid: Some(guid), ..self.list()[self.place(name)] },
                ),
            ),
            ..self
        }
    }
}

/// Answers for a configuration.
pub struct ConfigProvider {
    config: Config,
}

impl View for ConfigProvider {
    type V = ConfigView;

    closed spec fn view(&self) -> ConfigView {
        self.config@
    }
}

/// The place of the first server of that name.
fn find_server(servers: &Vec<ServerConfig>, name: &str) -> (found: Option<usize>)
    ensures
        match found {
            Some(i) => is_first_named(servers.deep_view(), name@, i as int),
            None => forall|i: int|
                0 <= i < servers.len() ==> (#[trigger] servers.deep_view()[i]).name != name@,
        },
{
    let wanted = name.to_owned();
    let mut i: usize = 0;
    while i < servers.len()
        invariant
            i <= servers.len(),
            wanted@ == name@,
            forall|j: int| 0 <= j < i ==> (#[trigger] servers.deep_view()[j]).name != name@,
        decreases servers.len() - i,
    {
        if servers[i].name == wanted {
            return Some(i);
        }
        i += 1;
    }
    None
}

/// Whether a server is valid.
fn server_is_valid(server: &ServerConfig) -> (valid: bool)
    ensures
        valid == server@.valid(),
{
    server.name.as_str().unicode_len() >= 1 && server.port >= LOWEST_PORT
        && server.password.as_str().unicode_len() >= SHORTEST_PASSWORD
}

impl Config {
    /// Whether the configuration is valid.
    pub fn validate(&self) -> (valid: bool)
        ensures
            valid == self@.valid(),
    {
        if self.client.name.as_str().unicode_len() < 1 {
            return false;
        }
        if self.connection.port < LOWEST_PORT || self.connection.port > HIGHEST_DEFAULT_PORT {
            return false;
        }
        match &self.servers {
            Some(servers) => {
                let mut i: usize = 0;
                while i < servers.len()
                    invariant
                        i <= servers.len(),
                        self@.list() == servers.deep_view(),
                        forall|j: int| 0 <= j < i ==> (#[trigger] self@.list()[j]).valid(),
                    decreases servers.len() - i,
                {
                    if !server_is_valid(&servers[i]) {
                        assert(!self@.list()[i as int].valid());
                        return false;
                    }
                    i += 1;
                }
                true
            },
            None => true,
        }
    }
}

impl ConfigView {
    /// The place in the list of names that a choice of servers starts at:
    /// that of the server connected to last, or the first.
    pub open spec fn preselected(self) -> int {
        match self.connection.previous {
            Some(name) => if self.knows(name) {
                self.place(name)
            } else {
                0
            },
            None => 0,
        }
    }
}

/// The configuration of a client that knows no server yet: the user is
/// asked before connecting, and new records are offered `DEFAULT_PORT`.
pub fn create_default_config(host_name: String, guid: String) -> (config: Config)
    ensures
        config@ == (ConfigView {
            client: ClientInfoView { name: host_name@, default_guid: guid@ },
            connection: ConnectionView { port: DEFAULT_PORT, previous: None, confirm: true },
            servers: Some(Seq::empty()),
        }),
{
    let ss: Vec<ServerConfig> = Vec::new();
    assert(ss.deep_view() =~= Seq::<ServerConfigView>::empty());
    Config {
        client: ClientInfo { name: host_name, default_guid: guid },
        connection: Connection { port: DEFAULT_PORT, previous: None, confirm: true },
        servers: Some(ss),
    }
}

impl ConfigProvider {
    /// The place in `get_servers` that a choice of servers starts at.
    pub fn preselected(&self) -> (index: usize)
        ensures
            index == self@.preselected(),
    {
        match &self.config.connection.previous {
            Some(last) => match &self.config.servers {
                Some(servers) => match find_server(servers, last.as_str()) {
                    Some(i) => {
                        proof {
                            lemma_first_is_place(self@, last@, i as int);
                        }
                        i
                    },
                    None => 0,
                },
                None => 0,
            },
            None => 0,
        }
    }

    /// Takes a configuration that is valid, and no other.
    pub fn new(config: Config) -> (provider: Result<ConfigProvider, ConfigError>)
        ensures
            match provider {
                Ok(provider) => config@.valid() && provider@ == config@,
                Err(error) => !config@.valid() && error@ == ConfigErrorView::Invalid,
            },
    {
        if config.validate() {
            Ok(ConfigProvider { config })
        } else {
            Err(ConfigError::Invalid)
        }
    }

    /// The configuration as it stands, to be written to the file.
    pub fn config(&self) -> (config: &Config)
        ensures
            config@ == self@,
    {
        &self.config
    }

    pub fn get_default_port(&self) -> (port: u16)
        ensures
            port == self@.connection.port,
    {
        self.config.connection.port
    }

    /// The client as the server that was connected to last knows it.
    pub fn get_init_info_for_last_server(&self) -> (info: Option<ClientInfo>)
        requires
            self@.connection.previous is Some,
        ensures
            info.deep_view() == self@.client_for(self@.connection.previous->0),
    {
        let previous = match &self.config.connection.previous {
            Some(previous) => previous,
            None => return None,
        };
        match self.get_server(previous.as_str()) {
            None => None,
            Some(server) => {
                let mut info = self.config.client.clone();
                match &server.guid {
                    Some(guid) => {
                        info.default_guid = guid.clone();
                    },
                    None => {},
                }
                Some(info)
            },
        }
    }

    /// The server that was connected to last, where it is still known.
    pub fn get_last_connection_info(&self) -> (last: Option<ServerConfig>)
        ensures
            last.deep_view() == self@.last_connection(),
    {
        match &self.config.connection.previous {
            Some(ls) => match self.get_server(ls.as_str()) {
                Some(s) => {
                    let mut s_clone = s.clone();
                    if s_clone.guid.is_none() {
                        s_clone.guid = Some(self.config.client.default_guid.clone());
                    }
                    Some(s_clone)
                },
                None => None,
            },
            None => None,
        }
    }

    /// The first server of that name.
    pub fn get_server(&self, name: &str) -> (server: Option<&ServerConfig>)
        ensures
            server.deep_view() == self@.server(name@),
    {
        match &self.config.servers {
            Some(servers) => match find_server(servers, name) {
                Some(i) => {
                    proof {
                        lemma_first_is_place(self@, name@, i as int);
                    }
                    Some(&servers[i])
                },
                None => None,
            },
            None => None,
        }
    }

    /// The names of all servers, in the order of the file.
    pub fn get_servers(&self) -> (names: Vec<String>)
        ensures
            names.deep_view() == self@.list().map_values(|s: ServerConfigView| s.name),
    {
        let mut names: Vec<String> = Vec::new();
        match &self.config.servers {
            None => {},
            Some(servers_c) => {
                let mut i: usize = 0;
                while i < servers_c.len()
                    invariant
                        i <= servers_c.len(),
                        self@.list() == servers_c.deep_view(),
                        names.len() == i,
                        forall|j: int|
                            0 <= j < i ==> (#[trigger] names.deep_view()[j]) == self@.list()[j].name,
                    decreases servers_c.len() - i,
                {
                    let ghost before = names.deep_view();
                    names.push(servers_c[i].name.clone());
                    assert(names.deep_view() =~= before.push(self@.list()[i as int].name));
                    i += 1;
                }
            },
        }
        assert(names.deep_view() =~= self@.list().map_values(|s: ServerConfigView| s.name));
        names
    }

    /// Whether the last server is connected to without asking.
    pub fn connect_without_confirmation(&self) -> (unasked: bool)
        ensures
            unasked == !self@.connection.confirm,
    {
        !self.config.connection.confirm
    }

    /// Makes the server of that name the one to connect to first.
    pub fn update_last(&mut self, name: &str)
        ensures
            final(self)@ == old(self)@.with_last(name@),
    {
        self.config.connection.previous = Some(name.to_owned());
    }

    /// Adds a server under a name that is not taken yet, and makes it the
    /// one to connect to first.
    pub fn add_server(&mut self, server: &ServerConfig) -> (added: Result<(), ConfigError>)
        ensures
            match added {
                Ok(_) => !old(self)@.knows(server@.name) && final(self)@ == old(self)@.with_server(
                    server@,
                ),
                Err(error) => old(self)@.knows(server@.name) && error@
                    == ConfigErrorView::NameTaken(server@.name) && final(self)@ == old(self)@,
            },
    {
        match self.check_if_unique_ex(server.name.as_str()) {
            Err(error) => return Err(error),
            Ok(_) => {},
        }
        let new_server = server.clone();
        let name = server.name.clone();
        let mut servers = match self.config.servers.take() {
            Some(servers) => servers,
            None => Vec::new(),
        };
        assert(servers.deep_view() =~= old(self)@.list());
        servers.push(new_server);
        assert(servers.deep_view() =~= old(self)@.list().push(server@));
        self.config.servers = Some(servers);
        self.config.connection.previous = Some(name);
        Ok(())
    }

    /// Gives the first server of that name another identifier, where one is
    /// given.
    pub fn update_server(&mut self, name: &str, guid: Option<&str>) -> (updated: Result<
        (),
        ConfigError,
    >)
        ensures
            match updated {
                Ok(_) => old(self)@.knows(name@) && final(self)@ == (match guid {
                    Some(new_value) => old(self)@.with_guid(name@, new_value@),
                    None => old(self)@,
                }),
                Err(error) => !old(self)@.knows(name@) && final(self)@ == old(self)@ && error@ == (
                if old(self)@.servers is None {
                    ConfigErrorView::NoServers
                } else {
                    ConfigErrorView::UnknownServer(name@)
                }),
            },
    {
        let mut servers = match self.config.servers.take() {
            Some(servers) => servers,
            None => return Err(ConfigError::NoServers),
        };
        assert(servers.deep_view() =~= old(self)@.list());
        match find_server(&servers, name) {
            Some(i) => {
                proof {
                    lemma_first_is_place(old(self)@, name@, i as int);
                }
                match guid {
                    Some(new_value) => {
                        let mut changed = servers[i].clone();
                        changed.guid = Some(new_value.to_owned());
                        servers.set(i, changed);
                        assert(servers.deep_view() =~= old(self)@.list().update(
                            i as int,
                            ServerConfigView { guid: Some(new_value@), ..old(self)@.list()[i as int] },
                        ));
                    },
                    None => {},
                }
                self.config.servers = Some(servers);
                Ok(())
            },
            None => {
                self.config.servers = Some(servers);
                Err(ConfigError::UnknownServer(name.to_owned()))
            },
        }
    }

    /// Whether the name is still free.
    pub fn check_if_unique_ex(&self, name: &str) -> (free: Result<(), ConfigError>)
        ensures
            match free {
                Ok(_) => !self@.knows(name@),
                Err(error) => self@.knows(name@) && error@ == ConfigErrorView::NameTaken(name@),
            },
    {
        match &self.config.servers {
            None => Ok(()),
            Some(servers) => match find_server(servers, name) {
                Some(i) => {
                    assert(self@.list()[i as int].name == name@);
                    Err(ConfigError::NameTaken(name.to_owned()))
                },
                None => Ok(()),
            },
        }
    }
}

/// The place of the first server of a name is the one place that is.
pub proof fn lemma_first_is_place(config: ConfigView, name: Seq<char>, i: int)
    requires
        is_first_named(config.list(), name, i),
    ensures
        config.knows(name),
        config.place(name) == i,
        config.server(name) == Some(config.list()[i]),
{
    assert(config.list()[i].name == name);
    let chosen = config.place(name);
    assert(is_first_named(config.list(), name, chosen));
    if chosen < i {
        assert(config.list()[chosen].name != name);
    } else if i < chosen {
        assert(config.list()[i].name != name);
    }
}

/// Adding servers keeps their names apart: a configuration in which no two
/// servers share a name stays one when a server is added, and an added
/// server is the one that is found under its name.
pub proof fn lemma_added_server_is_found(config: ConfigView, server: ServerConfigView)
    requires
        names_differ(config.list()),
        !config.knows(server.name),
    ensures
        names_differ(config.with_server(server).list()),
        config.with_server(server).server(server.name) == Some(server),
        config.with_server(server).connection.previous == Some(server.name),
        forall|name: Seq<char>|
            name != server.name ==> config.with_server(server).server(name) == config.server(name),
{
    let after = config.with_server(server);
    let n = config.list().len() as int;
    assert(after.list() =~= config.list().push(server));
    assert forall|i: int, j: int| 0 <= i < j < after.list().len() implies after.list()[i].name
        != after.list()[j].name by {
        if j == n {
            assert(config.list()[i].name != server.name);
        }
    }
    assert(is_first_named(after.list(), server.name, n)) by {
        assert forall|j: int| 0 <= j < n implies after.list()[j].name != server.name by {
            assert(config.list()[j].name != server.name);
        }
    }
    lemma_first_is_place(after, server.name, n);
    assert forall|name: Seq<char>| name != server.name implies after.server(name) == config.server(
        name,
    ) by {
        if config.knows(name) {
            let i = config.place(name);
            assert(is_first_named(config.list(), name, i)) by {
                let w = choose|w: int|
                    0 <= w < config.list().len() && (#[trigger] config.list()[w]).name == name;
                lemma_some_first_exists(config.list(), name, w);
            }
            assert(is_first_named(after.list(), name, i)) by {
                assert forall|j: int| 0 <= j < i implies after.list()[j].name != name by {
                    assert(config.list()[j].name != name);
                }
            }
            lemma_first_is_place(after, name, i);
        } else {
            if after.knows(name) {
                let w = choose|w: int|
                    0 <= w < after.list().len() && (#[trigger] after.list()[w]).name == name;
                if w < n {
                    assert(config.list()[w].name == name);
                }
            }
        }
    }
}

/// Among the servers of a name there is a first.
pub proof fn lemma_some_first_exists(servers: Seq<ServerConfigView>, name: Seq<char>, w: int)
    requires
        0 <= w < servers.len(),
        servers[w].name == name,
    ensures
        exists|i: int| is_first_named(servers, name, i),
    decreases w,
{
    if forall|j: int| 0 <= j < w ==> servers[j].name != name {
        assert(is_first_named(servers, name, w));
    } else {
        let j = choose|j: int| 0 <= j < w && servers[j].name == name;
        lemma_some_first_exists(servers, name, j);
    }
}

} // verus!
