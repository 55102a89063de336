use dorisctl::config::{Config, ConfigError, EnvOverrides, Profile, ProfileSet, default_http_port, default_mysql_port};
use dorisctl::connection::{Connection, connect_failed};
use dorisctl::profile::{profile_list_text, added_message, default_set_message, removed_message, remove_prompt, testing_message, profile_from_args};

fn profile(host: &str) -> Profile {
    let mut p = Profile::default();
    p.fe_host = host.to_string();
    p
}

#[test]
fn profile_urls() {
    let p = Profile::default();
    assert_eq!(p.mysql_url(), "mysql://root:@localhost:9030/");
    assert_eq!(p.http_base(), "http://localhost:8030");
    let q = Profile {
        fe_host: "fe".into(),
        mysql_port: 1,
        http_port: 2,
        user: "u".into(),
        password: Some("p".into()),
        database: Some("d".into()),
    };
    assert_eq!(q.mysql_url(), "mysql://u:p@fe:1/d");
    assert_eq!(q.http_base(), "http://fe:2");
    assert_eq!(default_mysql_port(), 9030);
    assert_eq!(default_http_port(), 8030);
}

#[test]
fn added_profile_is_found() {
    let mut cfg = Config::default();
    let o = cfg.add_profile("local".into(), profile("h1"));
    assert!(!o.updated);
    assert!(o.became_default);
    assert_eq!(cfg.defaults.profile.as_deref(), Some("local"));
    let o = cfg.add_profile("b".into(), profile("h2"));
    assert!(!o.became_default);
    assert_eq!(cfg.defaults.profile.as_deref(), Some("local"));
    let o = cfg.add_profile("local".into(), profile("h3"));
    assert!(o.updated);
    assert_eq!(added_message(&o, "local"), "Updated profile 'local'.");
    let env = EnvOverrides::none();
    assert_eq!(cfg.get_profile("local", &env).ok().unwrap().fe_host, "h3");
    assert_eq!(cfg.get_profile("b", &env).ok().unwrap().fe_host, "h2");
}

#[test]
fn missing_profile_message() {
    let cfg = Config::default();
    match cfg.get_profile("x", &EnvOverrides::none()) {
        Err(e @ ConfigError::ProfileNotFound(_)) => assert_eq!(
            e.message(),
            "Profile 'x' not found. Run `dorisctl profile add x` to create it."
        ),
        _ => panic!("expected an error"),
    }
}

#[test]
fn environment_overrides_profiles() {
    let mut cfg = Config::default();
    cfg.add_profile("local".into(), profile("stored"));
    let mut env = EnvOverrides::none();
    env.host = Some("envhost".into());
    env.mysql_port = Some("notaport".into());
    env.http_port = Some("+18030".into());
    env.password = Some("pw".into());
    let p = cfg.get_profile("local", &env).ok().unwrap();
    assert_eq!(p.fe_host, "envhost");
    assert_eq!(p.mysql_port, 9030);
    assert_eq!(p.http_port, 18030);
    assert_eq!(p.user, "root");
    assert_eq!(p.password.as_deref(), Some("pw"));
    assert_eq!(p.database, None);
}

#[test]
fn password_variable_applies_to_stored_profiles() {
    let mut cfg = Config::default();
    let mut stored = profile("stored");
    stored.user = "admin".into();
    cfg.add_profile("local".into(), stored);
    let mut with_secret = profile("other");
    with_secret.password = Some("kept".into());
    cfg.add_profile("secret".into(), with_secret);
    let mut env = EnvOverrides::none();
    env.password = Some("pw".into());
    let p = cfg.get_profile("local", &env).ok().unwrap();
    assert_eq!(p.fe_host, "stored");
    assert_eq!(p.user, "admin");
    assert_eq!(p.password.as_deref(), Some("pw"));
    assert_eq!(cfg.get_profile("secret", &env).ok().unwrap().password.as_deref(), Some("pw"));
    let none = EnvOverrides::none();
    assert_eq!(cfg.get_profile("local", &none).ok().unwrap().password, None);
    assert_eq!(cfg.get_profile("secret", &none).ok().unwrap().password.as_deref(), Some("kept"));
}

#[test]
fn use_and_remove_profiles() {
    let mut cfg = Config::default();
    cfg.add_profile("a".into(), profile("h"));
    cfg.add_profile("b".into(), profile("h"));
    match cfg.use_profile("zz") {
        Err(e) => assert_eq!(e.message(), "Profile 'zz' does not exist."),
        Ok(()) => panic!("expected an error"),
    }
    assert!(cfg.use_profile("b").is_ok());
    assert_eq!(cfg.effective_profile_name(None), "b");
    assert_eq!(cfg.effective_profile_name(Some("a")), "a");
    assert!(cfg.remove_profile("b").is_ok());
    assert!(!cfg.profiles.contains_key("b"));
    assert_eq!(cfg.defaults.profile, None);
    assert_eq!(cfg.effective_profile_name(None), "default");
    assert!(cfg.remove_profile("b").is_err());
    assert!(cfg.require_profile("a").is_ok());
}

#[test]
fn profile_set_keeps_names_sorted() {
    let mut s = ProfileSet::new();
    assert!(s.is_empty());
    for name in ["m", "c", "x", "a", "c"] {
        s.insert(name.to_string(), profile(name));
    }
    let names: Vec<String> = s.sorted_entries().into_iter().map(|(n, _)| n).collect();
    assert_eq!(names, vec!["a", "c", "m", "x"]);
    assert!(s.remove("m"));
    assert!(!s.remove("m"));
    assert_eq!(s.get("x").unwrap().fe_host, "x");
    assert!(s.get("m").is_none());
}

#[test]
fn profile_listing() {
    let mut cfg = Config::default();
    assert_eq!(
        profile_list_text(&cfg),
        "No profiles configured. Run `dorisctl profile add <name>` to create one."
    );
    cfg.add_profile("zeta".into(), profile("hz"));
    cfg.add_profile("alpha".into(), profile("ha"));
    let t = profile_list_text(&cfg);
    let a = t.find("alpha").unwrap();
    let z = t.find("zeta").unwrap();
    assert!(a < z);
    assert!(t.contains("MySQL Port"));
    assert!(t.contains("✓"));
    assert!(t.contains("—"));
}

#[test]
fn profile_messages() {
    assert_eq!(default_set_message("a"), "Default profile → 'a'.");
    assert_eq!(removed_message("a"), "Profile 'a' removed.");
    assert_eq!(remove_prompt("a"), "Remove profile 'a'?");
    assert_eq!(testing_message("MySQL", "h", 9030), "Testing MySQL connection to h:9030 … ");
    let p = profile_from_args("h".into(), 1, 2, "u".into(), None, Some("d".into()));
    assert_eq!(p.mysql_url(), "mysql://u:@h:1/d");
}

#[test]
fn connection_pieces() {
    let c = Connection::new(Profile::default());
    assert_eq!(c.use_db("sales"), "USE `sales`");
    assert_eq!(c.http().base_url, "http://localhost:8030");
    assert_eq!(
        connect_failed("h", 9030, "refused"),
        "Failed to connect to Doris at h:9030 — refused\nHint: check your profile with `dorisctl profile list`"
    );
}
