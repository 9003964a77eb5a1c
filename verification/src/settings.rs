//! Runtime settings: sensible constants, each overridable through a `BSDEV_*`
//! environment variable, merged with the persisted config.

use vstd::prelude::*;
use crate::config::{Config, ConfigView, opt_view, copy_opt};
use crate::paths::{ends_with, join_result, plain_name, sep_joined, sibling, simple_split, two_sep_start};
use crate::text::{decimal, parse_unsigned};

verus! {

/// The image pulled and run when `BSDEV_IMAGE` is not set.
pub const DEFAULT_IMAGE: &'static str = "ghcr.io/brownserve-uk/bsdev:latest";

/// Runtime configuration of one launcher run.
pub struct Settings {
    /// Image reference to pull and run.
    pub image: String,
    /// Container (and hostname) name.
    pub container: String,
    /// Named volume mounted at the container's home directory.
    pub volume: String,
    /// Optional host directory bind-mounted at `~/host-repos`.
    pub repos_dir: Option<String>,
    /// Host port forwarded to the container's sshd (on 127.0.0.1).
    pub port: u16,
    /// Login user inside the container.
    pub user: String,
    /// Private key used to reach the container.
    pub key_path: String,
    /// Host name of the machine the launcher runs on.
    pub host_hostname: String,
    /// Host adb server port reverse-forwarded into the container, if any.
    pub adb_port: Option<u16>,
}

/// `Settings` with its strings as character sequences.
pub struct SettingsView {
    pub image: Seq<char>,
    pub container: Seq<char>,
    pub volume: Seq<char>,
    pub repos_dir: Option<Seq<char>>,
    pub port: u16,
    pub user: Seq<char>,
    pub key_path: Seq<char>,
    pub host_hostname: Seq<char>,
    pub adb_port: Option<u16>,
}

impl View for Settings {
    type V = SettingsView;

    open spec fn view(&self) -> SettingsView {
        SettingsView {
            image: self.image@,
            container: self.container@,
            volume: self.volume@,
            repos_dir: opt_view(self.repos_dir),
            port: self.port,
            user: self.user@,
            key_path: self.key_path@,
            host_hostname: self.host_hostname@,
            adb_port: self.adb_port,
        }
    }
}

/// The `BSDEV_*` environment variables that were set (as Unicode).
pub struct Environment {
    /// `BSDEV_IMAGE`
    pub image: Option<String>,
    /// `BSDEV_CONTAINER`
    pub container: Option<String>,
    /// `BSDEV_REPOS`
    pub repos: Option<String>,
    /// `BSDEV_PORT`
    pub port: Option<String>,
    /// `BSDEV_USER`
    pub user: Option<String>,
    /// `BSDEV_HOST_HOSTNAME`
    pub host_hostname: Option<String>,
    /// `BSDEV_ADB_PORT`
    pub adb_port: Option<String>,
}

/// The value of a variable, or `default` when it is not set.
pub open spec fn or_default(v: Option<String>, default: Seq<char>) -> Seq<char> {
    match v {
        Some(s) => s@,
        None => default,
    }
}

/// A port read from a variable: `from_str` of its text (or of `2222` when it
/// is not set), and 2222 when that does not read as a port.
pub open spec fn resolved_port(v: Option<String>) -> u16 {
    match parse_unsigned(or_default(v, "2222"@), 65535) {
        Some(p) => p as u16,
        None => 2222,
    }
}

/// The adb port: the variable when it reads as a port, else the persisted one.
pub open spec fn resolved_adb_port(v: Option<String>, persisted: Option<u16>) -> Option<u16> {
    match v {
        Some(s) => match parse_unsigned(s@, 65535) {
            Some(p) => Some(p as u16),
            None => persisted,
        },
        None => persisted,
    }
}

/// The repos directory: the variable when set, else the persisted one.
pub open spec fn resolved_repos(v: Option<String>, persisted: Option<Seq<char>>) -> Option<Seq<char>> {
    match v {
        Some(s) => Some(s@),
        None => persisted,
    }
}

/// The host name: the variable when set, else the machine's, else `unknown`.
pub open spec fn resolved_hostname(v: Option<String>, machine: Option<String>) -> Seq<char> {
    match v {
        Some(s) => s@,
        None => match machine {
            Some(m) => m@,
            None => "unknown"@,
        },
    }
}

/// The container's home directory.
pub open spec fn container_home(user: Seq<char>) -> Seq<char> {
    "/home/"@ + user
}

/// The `-v` spec of the home volume mount.
pub open spec fn home_mount(s: SettingsView) -> Seq<char> {
    s.volume + ":"@ + container_home(s.user)
}

/// The `-v` spec of the repos bind mount, when a repos directory is set.
pub open spec fn repos_mount(s: SettingsView) -> Option<Seq<char>> {
    match s.repos_dir {
        Some(d) => Some(d + ":"@ + container_home(s.user) + "/host-repos"@),
        None => None,
    }
}

/// `c` with `dir` as the repos directory.
pub open spec fn with_repos_dir(c: ConfigView, dir: Seq<char>) -> ConfigView {
    ConfigView { repos_dir: Some(dir), ..c }
}

/// `c` without a repos directory.
pub open spec fn without_repos_dir(c: ConfigView) -> ConfigView {
    ConfigView { repos_dir: None, ..c }
}

/// `c` with `port` as the adb port.
pub open spec fn with_adb_port(c: ConfigView, port: u16) -> ConfigView {
    ConfigView { adb_port: Some(port), ..c }
}

/// `c` without an adb port.
pub open spec fn without_adb_port(c: ConfigView) -> ConfigView {
    ConfigView { adb_port: None, ..c }
}

fn choose_or(v: &Option<String>, default: &str) -> (r: String)
    ensures
        r@ == or_default(*v, default@),
{
    match v {
        Some(s) => s.clone(),
        None => String::from_str(default),
    }
}

fn read_port(text: &str) -> (r: Option<u16>)
    ensures
        r matches Some(p) ==> parse_unsigned(text@, 65535) == Some(p as nat),
        r is None ==> parse_unsigned(text@, 65535) is None,
{
    match crate::text::parse_unsigned_str(text, 65535) {
        Some(p) => Some(p as u16),
        None => None,
    }
}

/// `r` is the public half of the key at `key`: wherever `key` is a
/// directory, a `/` and a file name, `r` is that directory, a separator and
/// the file name with `.pub` added.
pub open spec fn public_half(key: Seq<char>, r: Seq<char>) -> bool {
    forall|d: Seq<char>, f: Seq<char>| #[trigger]
        simple_split(key, d, f) ==> sep_joined(d, f + ".pub"@, r)
}

/// The file name of the pid file tracking the forward of `port`.
pub open spec fn forward_pid_name(port: u16) -> Seq<char> {
    "forward-"@ + decimal(port as nat) + ".pid"@
}

proof fn lemma_pub_name_plain(f: Seq<char>)
    requires
        plain_name(f),
    ensures
        plain_name(f + ".pub"@),
{
    reveal_strlit(".pub");
    let n = f + ".pub"@;
    assert forall|i: int| 0 <= i < n.len() implies #[trigger] n[i] != '/' && n[i] != '\\' && n[i]
        != ':' by {
        if i < f.len() {
            assert(n[i] == f[i]);
        }
    }
    assert(n.len() > 2);
}

impl Settings {
    /// Resolve the settings of a run from the state directory, the persisted
    /// config, the `BSDEV_*` variables that are set and the machine's host name
    /// (when it could be read). A variable overrides the persisted value.
    pub fn load(state_dir: &str, config: &Config, env: &Environment, machine_hostname: Option<
        String,
    >) -> (r: Settings)
        ensures
            r@.image == or_default(env.image, DEFAULT_IMAGE@),
            r@.container == or_default(env.container, "bsdev"@),
            r@.volume == "bsdev-home"@,
            r@.repos_dir == resolved_repos(env.repos, config@.repos_dir),
            r@.port == resolved_port(env.port),
            r@.user == or_default(env.user, "bsdev"@),
            !two_sep_start(state_dir@) ==> join_result(state_dir@, "id_ed25519"@, r@.key_path),
            r@.host_hostname == resolved_hostname(env.host_hostname, machine_hostname),
            r@.adb_port == resolved_adb_port(env.adb_port, config@.adb_port),
    {
        let port_text = choose_or(&env.port, "2222");
        let port = match read_port(port_text.as_str()) {
            Some(p) => p,
            None => 2222,
        };
        let adb_port = match &env.adb_port {
            Some(s) => match read_port(s.as_str()) {
                Some(p) => Some(p),
                None => config.adb_port,
            },
            None => config.adb_port,
        };
        let repos_dir = match &env.repos {
            Some(s) => Some(s.clone()),
            None => copy_opt(&config.repos_dir),
        };
        let host_hostname = match &env.host_hostname {
            Some(s) => s.clone(),
            None => match machine_hostname {
                Some(m) => m,
                None => String::from_str("unknown"),
            },
        };
        proof {
            reveal_strlit("id_ed25519");
            assert("id_ed25519"@.len() == 10);
            assert(plain_name("id_ed25519"@));
        }
        Settings {
            image: choose_or(&env.image, DEFAULT_IMAGE),
            container: choose_or(&env.container, "bsdev"),
            volume: String::from_str("bsdev-home"),
            repos_dir,
            port,
            user: choose_or(&env.user, "bsdev"),
            key_path: crate::paths::join(state_dir, "id_ed25519"),
            host_hostname,
            adb_port,
        }
    }

    /// A copy of these settings.
    pub fn duplicate(&self) -> (r: Settings)
        ensures
            r@ == self@,
    {
        Settings {
            image: self.image.clone(),
            container: self.container.clone(),
            volume: self.volume.clone(),
            repos_dir: copy_opt(&self.repos_dir),
            port: self.port,
            user: self.user.clone(),
            key_path: self.key_path.clone(),
            host_hostname: self.host_hostname.clone(),
            adb_port: self.adb_port,
        }
    }

    /// The container's home directory (where the host bind mount is mounted).
    pub fn container_home(&self) -> (r: String)
        ensures
            r@ == container_home(self.user@),
    {
        crate::text::cat("/home/", self.user.as_str())
    }

    /// The `-v` "source:target" spec for the home volume mount.
    pub fn home_mount(&self) -> (r: String)
        ensures
            r@ == home_mount(self@),
    {
        let home = self.container_home();
        crate::text::cat3(self.volume.as_str(), ":", home.as_str())
    }

    /// The `-v` "source:target" spec for the repos bind mount, if a repos
    /// directory is set.
    pub fn repos_mount(&self) -> (r: Option<String>)
        ensures
            opt_view(r) == repos_mount(self@),
    {
        match &self.repos_dir {
            Some(d) => {
                let home = self.container_home();
                let m = crate::text::cat3(d.as_str(), ":", home.as_str());
                Some(m.concat("/host-repos"))
            },
            None => None,
        }
    }

    /// Path to the public half of `key_path`: its file name with `.pub`
    /// added (`id_ed25519.pub` where it has no file name), in the same
    /// directory.
    pub fn pubkey_path(&self) -> (r: String)
        ensures
            public_half(self.key_path@, r@),
            !two_sep_start(self.key_path@) ==> exists|name: Seq<char>|
                #[trigger] ends_with(r@, name + ".pub"@) && name.len() > 0 && (name == "id_ed25519"@
                    || crate::text::contains(self.key_path@, name)),
    {
        let name = match crate::paths::file_name(self.key_path.as_str()) {
            Some(n) => n,
            None => String::from_str("id_ed25519"),
        };
        proof {
            reveal_strlit("id_ed25519");
        }
        let file = name.concat(".pub");
        let r = crate::paths::with_file_name(self.key_path.as_str(), file.as_str());
        proof {
            assert(!two_sep_start(self.key_path@) ==> ends_with(r@, name@ + ".pub"@));
            assert forall|d: Seq<char>, f: Seq<char>| #[trigger]
                simple_split(self.key_path@, d, f) implies sep_joined(d, f + ".pub"@, r@) by {
                assert(name@ == f);
                lemma_pub_name_plain(f);
                assert(file@ == f + ".pub"@);
            }
        }
        r
    }

    /// Path of the file tracking the background adb tunnel process, beside
    /// the ssh key.
    pub fn adb_tunnel_pid_path(&self) -> (r: String)
        ensures
            sibling(self.key_path@, "adb-tunnel.pid"@, r@),
            !two_sep_start(self.key_path@) ==> ends_with(r@, "adb-tunnel.pid"@),
    {
        proof {
            reveal_strlit("adb-tunnel.pid");
            let n = "adb-tunnel.pid"@;
            assert(n =~= seq!['a', 'd', 'b', '-', 't', 'u', 'n', 'n', 'e', 'l', '.', 'p', 'i', 'd']);
            assert(plain_name(n));
        }
        crate::paths::with_file_name(self.key_path.as_str(), "adb-tunnel.pid")
    }

    /// Path of the file tracking the forward of `port`, beside the ssh key.
    pub fn forward_pid_path(&self, port: u16) -> (r: String)
        ensures
            sibling(self.key_path@, forward_pid_name(port), r@),
            !two_sep_start(self.key_path@) ==> ends_with(r@, forward_pid_name(port)),
    {
        let digits = crate::text::decimal_string(port as u128);
        let name = crate::text::cat3("forward-", digits.as_str(), ".pid");
        proof {
            reveal_strlit("forward-");
            reveal_strlit(".pid");
            crate::text::lemma_decimal_shape(port as nat);
            let n = name@;
            let d = decimal(port as nat);
            assert forall|i: int| 0 <= i < n.len() implies #[trigger] n[i] != '/' && n[i] != '\\'
                && n[i] != ':' by {
                if 8 <= i < 8 + d.len() {
                    assert(n[i] == d[i - 8]);
                    assert(crate::text::is_digit(d[i - 8]));
                }
            }
            assert(n.len() > 2);
        }
        crate::paths::with_file_name(self.key_path.as_str(), name.as_str())
    }

    /// `config` with `dir` persisted as the repos directory.
    pub fn persist_repos_dir(config: Config, dir: &str) -> (r: Config)
        ensures
            r@ == with_repos_dir(config@, dir@),
    {
        Config { repos_dir: Some(String::from_str(dir)), ..config }
    }

    /// The repos directory persisted in `config`, if any.
    pub fn persisted_repos_dir(config: &Config) -> (r: Option<String>)
        ensures
            opt_view(r) == config@.repos_dir,
    {
        copy_opt(&config.repos_dir)
    }

    /// `config` without a persisted repos directory.
    pub fn clear_persisted_repos_dir(config: Config) -> (r: Config)
        ensures
            r@ == without_repos_dir(config@),
    {
        Config { repos_dir: None, ..config }
    }

    /// `config` with `port` persisted as the adb tunnel port.
    pub fn persist_adb_port(config: Config, port: u16) -> (r: Config)
        ensures
            r@ == with_adb_port(config@, port),
    {
        Config { adb_port: Some(port), ..config }
    }

    /// The adb tunnel port persisted in `config`, if any.
    pub fn persisted_adb_port(config: &Config) -> (r: Option<u16>)
        ensures
            r == config@.adb_port,
    {
        config.adb_port
    }

    /// `config` without a persisted adb tunnel port.
    pub fn clear_persisted_adb_port(config: Config) -> (r: Config)
        ensures
            r@ == without_adb_port(config@),
    {
        Config { adb_port: None, ..config }
    }
}

} // verus!
