use greenmail::environment::DEFAULT_GREENMAIL_OPTS;
use greenmail::environment::DEFAULT_JAVA_OPTS;
use greenmail::environment::GREENMAIL_OPTS;
use greenmail::environment::JAVA_OPTS;
use greenmail::Greenmail;

fn value_of(entries: &[(String, String)], name: &str) -> String {
    let mut found: Vec<String> = Vec::new();
    for (key, value) in entries {
        if key == name {
            found.push(value.clone());
        }
    }
    assert_eq!(found.len(), 1, "{} must occur exactly once", name);
    found.remove(0)
}

#[test]
fn constants_have_the_documented_values() {
    assert_eq!(GREENMAIL_OPTS, "GREENMAIL_OPTS");
    assert_eq!(JAVA_OPTS, "JAVA_OPTS");
    assert_eq!(
        DEFAULT_GREENMAIL_OPTS,
        "-Dgreenmail.setup.test.all -Dgreenmail.hostname=0.0.0.0 -Dgreenmail.auth.disabled"
    );
    assert_eq!(DEFAULT_JAVA_OPTS, "-Djava.net.preferIPv4Stack=true");
}

#[test]
fn default_environment_holds_exactly_the_two_defaults() {
    let entries = Greenmail::default().environment();
    assert_eq!(
        entries,
        vec![
            (
                "GREENMAIL_OPTS".to_string(),
                "-Dgreenmail.setup.test.all -Dgreenmail.hostname=0.0.0.0 -Dgreenmail.auth.disabled"
                    .to_string()
            ),
            (
                "JAVA_OPTS".to_string(),
                "-Djava.net.preferIPv4Stack=true".to_string()
            ),
        ]
    );
}

#[test]
fn default_environment_looked_up_by_name() {
    let entries = Greenmail::default().environment();
    assert_eq!(
        value_of(&entries, "GREENMAIL_OPTS"),
        "-Dgreenmail.setup.test.all -Dgreenmail.hostname=0.0.0.0 -Dgreenmail.auth.disabled"
    );
    assert_eq!(
        value_of(&entries, "JAVA_OPTS"),
        "-Djava.net.preferIPv4Stack=true"
    );
}

#[test]
fn with_java_opts_replaces_only_the_java_opts() {
    let entries = Greenmail::default()
        .with_java_opts("-Xmx256m".to_string())
        .environment();
    assert_eq!(entries.len(), 2);
    assert_eq!(value_of(&entries, "JAVA_OPTS"), "-Xmx256m");
    assert_eq!(
        value_of(&entries, "GREENMAIL_OPTS"),
        "-Dgreenmail.setup.test.all -Dgreenmail.hostname=0.0.0.0 -Dgreenmail.auth.disabled"
    );
}

#[test]
fn with_greenmail_opts_replaces_only_the_greenmail_opts() {
    let entries = Greenmail::default()
        .with_greenmail_opts("-Dgreenmail.setup.test.smtp".to_string())
        .environment();
    assert_eq!(entries.len(), 2);
    assert_eq!(
        value_of(&entries, "GREENMAIL_OPTS"),
        "-Dgreenmail.setup.test.smtp"
    );
    assert_eq!(
        value_of(&entries, "JAVA_OPTS"),
        "-Djava.net.preferIPv4Stack=true"
    );
}

#[test]
fn with_greenmail_opts_leaves_customised_java_opts_alone() {
    let entries = Greenmail::default()
        .with_java_opts("-Xms64m".to_string())
        .with_greenmail_opts("-Dgreenmail.verbose".to_string())
        .environment();
    assert_eq!(value_of(&entries, "JAVA_OPTS"), "-Xms64m");
    assert_eq!(value_of(&entries, "GREENMAIL_OPTS"), "-Dgreenmail.verbose");
}

#[test]
fn overrides_take_any_string() {
    let odd = [
        "",
        " ",
        "not an option at all",
        "GREENMAIL_OPTS",
        "JAVA_OPTS=1",
        "-Dgreenmail.users=user:p\u{e4}ssword@example.org",
        "line one\nline two",
    ];
    for text in odd {
        let entries = Greenmail::default()
            .with_greenmail_opts(text.to_string())
            .environment();
        assert_eq!(
            entries,
            vec![
                ("GREENMAIL_OPTS".to_string(), text.to_string()),
                (
                    "JAVA_OPTS".to_string(),
                    "-Djava.net.preferIPv4Stack=true".to_string()
                ),
            ]
        );
        let entries = Greenmail::default()
            .with_java_opts(text.to_string())
            .environment();
        assert_eq!(
            entries,
            vec![
                (
                    "GREENMAIL_OPTS".to_string(),
                    "-Dgreenmail.setup.test.all -Dgreenmail.hostname=0.0.0.0 -Dgreenmail.auth.disabled"
                        .to_string()
                ),
                ("JAVA_OPTS".to_string(), text.to_string()),
            ]
        );
    }
}

#[test]
fn the_last_override_counts() {
    let entries = Greenmail::default()
        .with_greenmail_opts("first".to_string())
        .with_greenmail_opts("second".to_string())
        .with_java_opts("-Xmx1g".to_string())
        .with_java_opts("-Xmx2g".to_string())
        .environment();
    assert_eq!(
        entries,
        vec![
            ("GREENMAIL_OPTS".to_string(), "second".to_string()),
            ("JAVA_OPTS".to_string(), "-Xmx2g".to_string()),
        ]
    );
}

#[test]
fn repeating_an_override_changes_nothing() {
    let once = Greenmail::default().with_greenmail_opts("-Dgreenmail.verbose".to_string());
    let twice = once
        .clone()
        .with_greenmail_opts("-Dgreenmail.verbose".to_string());
    assert_eq!(once.environment(), twice.environment());
    let once = Greenmail::default().with_java_opts("-Xmx256m".to_string());
    let twice = once.clone().with_java_opts("-Xmx256m".to_string());
    assert_eq!(once.environment(), twice.environment());
}

#[test]
fn overrides_commute() {
    let greenmail_first = Greenmail::default()
        .with_greenmail_opts("-Dgreenmail.setup.test.imap".to_string())
        .with_java_opts("-Xmx256m".to_string());
    let java_first = Greenmail::default()
        .with_java_opts("-Xmx256m".to_string())
        .with_greenmail_opts("-Dgreenmail.setup.test.imap".to_string());
    assert_eq!(greenmail_first.environment(), java_first.environment());
    assert_eq!(
        greenmail_first.environment(),
        vec![
            (
                "GREENMAIL_OPTS".to_string(),
                "-Dgreenmail.setup.test.imap".to_string()
            ),
            ("JAVA_OPTS".to_string(), "-Xmx256m".to_string()),
        ]
    );
}

#[test]
fn environment_lists_greenmail_opts_first() {
    let entries = Greenmail::default()
        .with_java_opts("j".to_string())
        .with_greenmail_opts("g".to_string())
        .environment();
    assert_eq!(entries[0], ("GREENMAIL_OPTS".to_string(), "g".to_string()));
    assert_eq!(entries[1], ("JAVA_OPTS".to_string(), "j".to_string()));
}

#[test]
fn a_clone_has_the_same_environment_and_a_life_of_its_own() {
    let first = Greenmail::default().with_java_opts("-Xmx256m".to_string());
    let copy = first.clone();
    assert_eq!(copy.environment(), first.environment());
    let changed = copy.with_java_opts("-Xmx512m".to_string());
    assert_eq!(value_of(&changed.environment(), "JAVA_OPTS"), "-Xmx512m");
    assert_eq!(value_of(&first.environment(), "JAVA_OPTS"), "-Xmx256m");
}
