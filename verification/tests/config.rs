use mukduk::config::Config;
use mukduk::config::Executable;
use mukduk::config::Process;
use mukduk::config::config_file_path;
use mukduk::config::default_config_text;
use mukduk::config::ends_with_toml;
use mukduk::config::revision_matches;

#[test]
fn extension_detection() {
    assert!(ends_with_toml("config.toml"));
    assert!(ends_with_toml(".toml"));
    assert!(!ends_with_toml("config"));
    assert!(!ends_with_toml("toml"));
    assert!(!ends_with_toml(""));
    assert!(!ends_with_toml("config.tom"));
}

#[test]
fn path_gets_extension_appended() {
    assert_eq!(config_file_path("config"), "config.toml");
    assert_eq!(config_file_path("mukduk"), "mukduk.toml");
}

#[test]
fn path_with_extension_is_kept() {
    assert_eq!(config_file_path("config.toml"), "config.toml");
    assert_eq!(config_file_path("a/b/c.toml"), "a/b/c.toml");
}

fn sample_config(revision: &str) -> Config {
    Config {
        revision: revision.to_string(),
        bind: "127.0.0.1:8080".to_string(),
        executable: Executable {
            command: "server".to_string(),
            args: vec!["--port 8081".to_string()],
            path: ".".to_string(),
        },
        process: Process { inactivity: 600, load: 10, pipe: true, port: 8081 },
    }
}

#[test]
fn revision_check() {
    assert!(revision_matches(&sample_config("A")));
    assert!(!revision_matches(&sample_config("B")));
    assert!(!revision_matches(&sample_config("")));
}

/// The generated default configuration is a well-formed document holding the
/// documented defaults, decoded here with the same decoder the program uses.
#[test]
fn default_text_is_valid_toml() {
    let text = default_config_text();
    let doc: toml::Value = toml::from_str(&text).expect("default config must parse");
    assert_eq!(doc.get("revision").unwrap().as_str(), Some("A"));
    assert_eq!(doc.get("bind").unwrap().as_str(), Some("127.0.0.1:8080"));
    let exe = doc.get("executable").unwrap();
    assert_eq!(exe.get("command").unwrap().as_str(), Some("server"));
    assert_eq!(exe.get("path").unwrap().as_str(), Some("."));
    let args = exe.get("args").unwrap().as_array().unwrap();
    assert_eq!(args.len(), 1);
    assert_eq!(args[0].as_str(), Some("--port 8081"));
    let process = doc.get("process").unwrap();
    assert_eq!(process.get("inactivity").unwrap().as_integer(), Some(600));
    assert_eq!(process.get("load").unwrap().as_integer(), Some(10));
    assert_eq!(process.get("pipe").unwrap().as_bool(), Some(true));
    assert_eq!(process.get("port").unwrap().as_integer(), Some(8081));
}

#[test]
fn default_text_starts_with_header() {
    let text = default_config_text();
    assert!(text.starts_with("# Mukduk Config File\n"));
    assert!(text.contains("revision = \"A\"\n"));
}
