use bsdev::config::Config;
use bsdev::settings::{Environment, Settings};

fn no_env() -> Environment {
    Environment {
        image: None,
        container: None,
        repos: None,
        port: None,
        user: None,
        host_hostname: None,
        adb_port: None,
    }
}

#[test]
fn defaults_without_overrides() {
    let s = Settings::load("/state", &Config::default(), &no_env(), Some("laptop".to_string()));
    assert_eq!(s.image, "ghcr.io/brownserve-uk/bsdev:latest");
    assert_eq!(s.container, "bsdev");
    assert_eq!(s.volume, "bsdev-home");
    assert_eq!(s.repos_dir, None);
    assert_eq!(s.port, 2222);
    assert_eq!(s.user, "bsdev");
    assert!(s.key_path == "/state/id_ed25519" || s.key_path == "/state\\id_ed25519");
    assert_eq!(s.host_hostname, "laptop");
    assert_eq!(s.adb_port, None);
    let s = Settings::load("/state", &Config::default(), &no_env(), None);
    assert_eq!(s.host_hostname, "unknown");
}

#[test]
fn variables_override_the_persisted_config() {
    let config = Config { repos_dir: Some("/persisted".to_string()), adb_port: Some(5037) };
    let s = Settings::load("/state", &config, &no_env(), None);
    assert_eq!(s.repos_dir.as_deref(), Some("/persisted"));
    assert_eq!(s.adb_port, Some(5037));
    let env = Environment {
        image: Some("img".to_string()),
        container: Some("c".to_string()),
        repos: Some("/env".to_string()),
        port: Some("2200".to_string()),
        user: Some("u".to_string()),
        host_hostname: Some("h".to_string()),
        adb_port: Some("6000".to_string()),
    };
    let s = Settings::load("/state", &config, &env, Some("laptop".to_string()));
    assert_eq!(s.image, "img");
    assert_eq!(s.container, "c");
    assert_eq!(s.repos_dir.as_deref(), Some("/env"));
    assert_eq!(s.port, 2200);
    assert_eq!(s.user, "u");
    assert_eq!(s.host_hostname, "h");
    assert_eq!(s.adb_port, Some(6000));
}

#[test]
fn unreadable_ports_fall_back() {
    let mut env = no_env();
    env.port = Some("not-a-port".to_string());
    env.adb_port = Some("70000".to_string());
    let config = Config { repos_dir: None, adb_port: Some(5555) };
    let s = Settings::load("/state", &config, &env, None);
    assert_eq!(s.port, 2222);
    assert_eq!(s.adb_port, Some(5555));
}

#[test]
fn mounts_and_sibling_paths() {
    let mut s = Settings::load("/state", &Config::default(), &no_env(), None);
    s.key_path = "/state/bsdev/id_ed25519".to_string();
    assert_eq!(s.container_home(), "/home/bsdev");
    assert_eq!(s.home_mount(), "bsdev-home:/home/bsdev");
    assert_eq!(s.repos_mount(), None);
    s.repos_dir = Some("/host/repos".to_string());
    assert_eq!(s.repos_mount().as_deref(), Some("/host/repos:/home/bsdev/host-repos"));
    assert_eq!(s.pubkey_path(), "/state/bsdev/id_ed25519.pub");
    assert_eq!(s.adb_tunnel_pid_path(), "/state/bsdev/adb-tunnel.pid");
    assert_eq!(s.forward_pid_path(8080), "/state/bsdev/forward-8080.pid");
    s.key_path = "relative/dir/key".to_string();
    assert_eq!(s.pubkey_path(), "relative/dir/key.pub");
    assert_eq!(s.adb_tunnel_pid_path(), "relative/dir/adb-tunnel.pid");
    assert_eq!(s.forward_pid_path(9), "relative/dir/forward-9.pid");
    s.key_path = "key".to_string();
    assert_eq!(s.pubkey_path(), "key.pub");
    assert_eq!(s.adb_tunnel_pid_path(), "adb-tunnel.pid");
}

#[test]
fn persisted_settings_read_back() {
    let c = Settings::persist_repos_dir(Config { repos_dir: None, adb_port: Some(1) }, "/some/host/path");
    assert_eq!(Settings::persisted_repos_dir(&c).as_deref(), Some("/some/host/path"));
    assert_eq!(Settings::persisted_adb_port(&c), Some(1));
    let c = Settings::clear_persisted_repos_dir(c);
    assert_eq!(Settings::persisted_repos_dir(&c), None);
    assert_eq!(Settings::persisted_adb_port(&c), Some(1));
    let c = Settings::persist_adb_port(c, 5037);
    assert_eq!(Settings::persisted_adb_port(&c), Some(5037));
    let c = Settings::clear_persisted_adb_port(c);
    assert_eq!(Settings::persisted_adb_port(&c), None);
}

#[test]
fn the_key_lives_in_the_state_directory() {
    let s = Settings::load("/state/bsdev", &Config::default(), &no_env(), None);
    assert_eq!(s.key_path, "/state/bsdev/id_ed25519");
    let s = Settings::load("/state/bsdev/", &Config::default(), &no_env(), None);
    assert_eq!(s.key_path, "/state/bsdev/id_ed25519");
    let s = Settings::load("", &Config::default(), &no_env(), None);
    assert_eq!(s.key_path, "id_ed25519");
}

#[test]
fn pid_files_differ_per_port_and_from_the_adb_one() {
    let s = Settings::load("/state/bsdev", &Config::default(), &no_env(), None);
    let adb = s.adb_tunnel_pid_path();
    assert_ne!(s.forward_pid_path(1), s.forward_pid_path(11));
    assert_ne!(s.forward_pid_path(22), s.forward_pid_path(2222));
    assert_ne!(s.forward_pid_path(5037), adb);
    assert_eq!(s.forward_pid_path(0), "/state/bsdev/forward-0.pid");
    assert_eq!(s.forward_pid_path(65535), "/state/bsdev/forward-65535.pid");
}
