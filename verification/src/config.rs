//! The daemon's configuration: identity, network addresses and where the
//! message database lives. Paths are held as text.
use vstd::prelude::*;

verus! {

/// The path that `std::path::Path::join` makes of `base` and `part`.
pub uninterp spec fn path_join_of(base: Seq<char>, part: Seq<char>) -> Seq<char>;

/// The parent that `std::path::Path::parent` gives of `path`.
pub uninterp spec fn path_parent_of(path: Seq<char>) -> Option<Seq<char>>;

/// Whether `part` is a single relative path component: not empty, no separator.
pub open spec fn is_plain_component(part: Seq<char>) -> bool {
    part.len() > 0 && !part.contains('/')
}

/// A base whose last component is a plain name: not empty, and ending neither in
/// a separator nor in a dot.
pub open spec fn ends_in_name(base: Seq<char>) -> bool {
    base.len() > 0 && base.last() != '/' && base.last() != '.'
}

/// `std::path::Path::new(base).join(part)`, read back as text; trusted to be a
/// function of the two texts alone and, as the documentation of `join` and
/// `parent` shows on POSIX targets, to append a single relative component after
/// a separator, adding one where a non-empty base does not end in one; the parent
/// of such a path, where the base ends in a name and the component is not `.`,
/// is the base again. Other bases (empty) and parts (absolute, several
/// components) are left to the names.
#[verifier::external_body]
fn path_join(base: &str, part: &str) -> (joined: String)
    ensures
        joined@ == path_join_of(base@, part@),
        is_plain_component(part@) && base@.len() > 0 && base@.last() != '/' ==> joined@ == base@
            + seq!['/'] + part@,
        is_plain_component(part@) && base@.len() > 0 && base@.last() == '/' ==> joined@ == base@
            + part@,
        is_plain_component(part@) && part@ != seq!['.'] && ends_in_name(base@) ==> path_parent_of(
            joined@,
        ) == Some(base@),
{
    std::path::Path::new(base).join(part).to_string_lossy().into_owned()
}

/// `std::path::Path::new(path).parent()`, read back as text; trusted to be a
/// function of the text alone and, as its documentation says, to be `None` for
/// the empty path.
#[verifier::external_body]
fn path_parent(path: &str) -> (parent: Option<String>)
    ensures
        match parent {
            Some(p) => path_parent_of(path@) == Some(p@),
            None => path_parent_of(path@) is None,
        },
        path@.len() == 0 ==> parent is None,
{
    match std::path::Path::new(path).parent() {
        Some(p) => Some(p.to_string_lossy().into_owned()),
        None => None,
    }
}

/// Who this node is.
#[derive(Clone, Debug)]
pub struct IdentityConfig {
    pub username: String,
}

/// Where this node listens and which peers it starts from.
#[derive(Clone, Debug)]
pub struct NetworkConfig {
    pub listen_on: Vec<String>,
    pub relay_peers: Vec<String>,
    pub bootstrap_peers: Vec<String>,
}

/// Where the message database lives.
#[derive(Clone, Debug)]
pub struct DbConfig {
    pub path: String,
}

/// The daemon's configuration.
#[derive(Clone, Debug)]
pub struct Config {
    pub identity: IdentityConfig,
    pub network: NetworkConfig,
    pub db: DbConfig,
}

/// The directory that holds the database at `path`: the parent of the path, or
/// the current directory where the path has none.
pub open spec fn data_dir_of(path: Seq<char>) -> Seq<char> {
    match path_parent_of(path) {
        Some(p) => p,
        None => "."@,
    }
}

/// The data directory of a database path is the path's parent whenever it has
/// one, whatever the file's name, and the current directory only where it has none.
pub proof fn lemma_data_dir_is_parent(path: Seq<char>)
    ensures
        path_parent_of(path) matches Some(p) ==> data_dir_of(path) == p,
        path_parent_of(path) is None ==> data_dir_of(path) == "."@,
{
}

/// The application's directory under `dir`, or under the current directory
/// where `dir` is unknown.
pub open spec fn app_dir_of(dir: Option<Seq<char>>) -> Seq<char> {
    path_join_of(
        match dir {
            Some(d) => d,
            None => "."@,
        },
        "chatpeer"@,
    )
}

/// The application's directory is the given directory, or the current one, with
/// `chatpeer` joined to it.
pub proof fn lemma_app_dir_is_joined(dir: Option<Seq<char>>)
    ensures
        dir matches Some(d) ==> app_dir_of(dir) == path_join_of(d, "chatpeer"@),
        dir is None ==> app_dir_of(dir) == path_join_of("."@, "chatpeer"@),
{
}

/// `dir` joined with the application's directory name.
fn app_dir(dir: Option<String>) -> (d: String)
    ensures
        d@ == app_dir_of(
            match dir {
                Some(s) => Some(s@),
                None => None,
            },
        ),
        dir is None ==> d@ == "./chatpeer"@,
        dir matches Some(s) ==> (s@.len() > 0 && s@.last() != '/' ==> d@ == s@ + "/chatpeer"@),
        dir matches Some(s) ==> (s@.len() > 0 ==> ends_in_name(d@)),
        dir is None ==> ends_in_name(d@),
{
    proof {
        reveal_strlit("chatpeer");
        reveal_strlit("./chatpeer");
        reveal_strlit("/chatpeer");
        reveal_strlit(".");
        assert(!"chatpeer"@.contains('/'));
    }
    match dir {
        Some(base) => {
            let d = path_join(base.as_str(), "chatpeer");
            assert(base@.len() > 0 && base@.last() != '/' ==> d@ =~= base@ + "/chatpeer"@);
            assert(base@.len() > 0 ==> d@.last() == 'r');
            d
        },
        None => {
            let d = path_join(".", "chatpeer");
            assert(d@ =~= "./chatpeer"@);
            d
        },
    }
}

impl Config {
    /// The default configuration, given the platform's local data directory and
    /// the login name (`USER`) where they are known: the username is the login
    /// name, or `user`; the node listens on every IPv4 and IPv6 address on an
    /// ephemeral TCP port, with no relay or bootstrap peers; the database is
    /// `messages.db` in the application's data directory.
    pub fn default_with(data_local_dir: Option<String>, user: Option<String>) -> (c: Config)
        ensures
            c.identity.username@ == match user {
                Some(u) => u@,
                None => "user"@,
            },
            c.network.listen_on@.len() == 2,
            c.network.listen_on@[0]@ == "/ip4/0.0.0.0/tcp/0"@,
            c.network.listen_on@[1]@ == "/ip6/::/tcp/0"@,
            c.network.relay_peers@.len() == 0,
            c.network.bootstrap_peers@.len() == 0,
            c.db.path@ == path_join_of(
                app_dir_of(
                    match data_local_dir {
                        Some(d) => Some(d@),
                        None => None,
                    },
                ),
                "messages.db"@,
            ),
            data_local_dir is None ==> c.db.path@ == "./chatpeer/messages.db"@,
            data_local_dir matches Some(d) ==> (d@.len() > 0 && d@.last() != '/' ==> c.db.path@
                == d@ + "/chatpeer/messages.db"@),
            data_local_dir matches Some(d) ==> d@.len() > 0 ==> data_dir_of(c.db.path@)
                == app_dir_of(Some(d@)),
            data_local_dir is None ==> data_dir_of(c.db.path@) == app_dir_of(None),
            data_local_dir is None ==> path_parent_of(c.db.path@) == Some(app_dir_of(None)),
            data_local_dir matches Some(d) ==> d@.len() > 0 ==> path_parent_of(c.db.path@) == Some(
                app_dir_of(Some(d@)),
            ),
    {
        proof {
            reveal_strlit("./chatpeer/messages.db");
            reveal_strlit("/chatpeer/messages.db");
            reveal_strlit("./chatpeer");
            reveal_strlit("/chatpeer");
            reveal_strlit("messages.db");
        }
        let ghost given = data_local_dir;
        let data_dir = app_dir(data_local_dir);
        let username = match user {
            Some(u) => u,
            None => "user".to_owned(),
        };
        let mut listen_on: Vec<String> = Vec::new();
        listen_on.push("/ip4/0.0.0.0/tcp/0".to_owned());
        listen_on.push("/ip6/::/tcp/0".to_owned());
        let path = path_join(data_dir.as_str(), "messages.db");
        proof {
            assert(!"messages.db"@.contains('/'));
            assert(!("messages.db"@ =~= seq!['.']));
            if given is None {
                assert(data_dir@.last() == 'r');
                assert(path@ =~= "./chatpeer/messages.db"@);
            }
            if let Some(d) = given {
                if d@.len() > 0 && d@.last() != '/' {
                    assert(data_dir@.last() == 'r');
                    assert(path@ =~= d@ + "/chatpeer/messages.db"@);
                }
            }
        }
        Config {
            identity: IdentityConfig { username },
            network: NetworkConfig { listen_on, relay_peers: Vec::new(), bootstrap_peers: Vec::new() },
            db: DbConfig { path },
        }
    }

    /// Where the configuration file lives, given the platform's configuration
    /// directory where it is known: `config.toml` in the application's
    /// configuration directory.
    pub fn config_path_in(config_dir: Option<String>) -> (p: String)
        ensures
            p@ == path_join_of(
                app_dir_of(
                    match config_dir {
                        Some(d) => Some(d@),
                        None => None,
                    },
                ),
                "config.toml"@,
            ),
            config_dir is None ==> p@ == "./chatpeer/config.toml"@,
            config_dir matches Some(d) ==> (d@.len() > 0 && d@.last() != '/' ==> p@ == d@
                + "/chatpeer/config.toml"@),
    {
        proof {
            reveal_strlit("./chatpeer/config.toml");
            reveal_strlit("/chatpeer/config.toml");
            reveal_strlit("./chatpeer");
            reveal_strlit("/chatpeer");
            reveal_strlit("config.toml");
        }
        let ghost given = config_dir;
        let dir = app_dir(config_dir);
        let p = path_join(dir.as_str(), "config.toml");
        proof {
            assert(!"config.toml"@.contains('/'));
            if given is None {
                assert(dir@.last() == 'r');
                assert(p@ =~= "./chatpeer/config.toml"@);
            }
            if let Some(d) = given {
                if d@.len() > 0 && d@.last() != '/' {
                    assert(dir@.last() == 'r');
                    assert(p@ =~= d@ + "/chatpeer/config.toml"@);
                }
            }
        }
        p
    }

    /// The directory that holds the database: the parent of its path, or the
    /// current directory where the path has none.
    pub fn data_dir(&self) -> (dir: String)
        ensures
            dir@ == data_dir_of(self.db.path@),
            path_parent_of(self.db.path@) matches Some(p) ==> dir@ == p,
            path_parent_of(self.db.path@) is None ==> dir@ == "."@,
            self.db.path@.len() == 0 ==> dir@ == "."@,
    {
        match path_parent(self.db.path.as_str()) {
            Some(p) => p,
            None => ".".to_owned(),
        }
    }
}

} // verus!
