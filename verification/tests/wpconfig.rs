use wpressforge::agent::ops::wpconfig::parse_db_config;

const TYPICAL: &str = r#"<?php
// ** Database settings ** //
/** The name of the database for WordPress */
define( 'DB_NAME', 'wp_example_com' );

/** Database username */
define( 'DB_USER', 'wp_example_com' );

/** Database password */
define( 'DB_PASSWORD', 'sup3r-s3cret!' );

/** Database hostname */
define( 'DB_HOST', '127.0.0.1:3307' );

$table_prefix = 'wp_abc123_';
"#;

#[test]
fn parses_a_typical_wp_config() {
    let parsed = parse_db_config(TYPICAL).expect("parsed");

    assert_eq!(parsed.name, "wp_example_com");
    assert_eq!(parsed.user, "wp_example_com");
    assert_eq!(parsed.password, "sup3r-s3cret!");
    assert_eq!(parsed.host, "127.0.0.1:3307");
    assert_eq!(parsed.host_only(), "127.0.0.1");
    assert_eq!(parsed.port().as_deref(), Some("3307"));
    assert_eq!(parsed.prefix, "wp_abc123_");
}

#[test]
fn handles_double_quotes_and_tight_spacing() {
    let config = r#"<?php
define("DB_NAME","tight");
define("DB_USER","user2");
define("DB_PASSWORD","pw2");
$table_prefix="x_";
"#;
    let parsed = parse_db_config(config).expect("parsed");

    assert_eq!(parsed.name, "tight");
    assert_eq!(parsed.user, "user2");
    assert_eq!(parsed.password, "pw2");
    assert_eq!(parsed.prefix, "x_");
    // No DB_HOST given: WordPress's own default.
    assert_eq!(parsed.host, "localhost");
}

#[test]
fn keeps_escaped_quotes_in_passwords() {
    let config = r#"<?php
define('DB_NAME', 'db');
define('DB_USER', 'u');
define('DB_PASSWORD', 'it\'s a "quote"');
"#;
    let parsed = parse_db_config(config).expect("parsed");
    assert_eq!(parsed.password, "it's a \"quote\"");
}

#[test]
fn ignores_commented_out_values() {
    let config = r#"<?php
// define('DB_NAME', 'old_database');
# define('DB_USER', 'old_user');
define('DB_NAME', 'real_database');
define('DB_USER', 'real_user');
define('DB_PASSWORD', 'pw');
"#;
    let parsed = parse_db_config(config).expect("parsed");
    assert_eq!(parsed.name, "real_database");
    assert_eq!(parsed.user, "real_user");
}

#[test]
fn returns_none_without_the_required_constants() {
    assert!(parse_db_config("<?php // nothing here").is_none());
    assert!(parse_db_config("<?php define('DB_NAME', 'only_name');").is_none());
}

#[test]
fn ignores_block_comments() {
    let parsed = parse_db_config(
        "/* define('DB_NAME', 'old'); */\ndefine('DB_NAME', 'live');\ndefine('DB_USER', 'u');",
    )
    .expect("parsed");
    assert_eq!(parsed.name, "live");
    let config = r#"<?php
/* an example:
define('DB_NAME', 'old');
   define('DB_USER', 'old');
$table_prefix = 'old_';
*/ define('DB_NAME', 'live');
/* here */ define('DB_USER', 'u'); /* and on
define('DB_PASSWORD', 'old');
*/
define('AUTH_KEY', 'a/*b\'#//c');
define('DB_PASSWORD', 'p#w//x/*y'); // define('DB_HOST', 'old');
$table_prefix = 'live_';
"#;
    let parsed = parse_db_config(config).expect("parsed");
    assert_eq!(parsed.name, "live");
    assert_eq!(parsed.user, "u");
    assert_eq!(parsed.password, "p#w//x/*y");
    assert_eq!(parsed.host, "localhost");
    assert_eq!(parsed.prefix, "live_");
}

#[test]
fn defined_values_are_read_back() {
    for value in ["", "plain", "it's", "back\\slash", "// no comment", "/* nor */ this #", "\"'\\'\""] {
        let escaped = value.replace('\\', "\\\\").replace('\'', "\\'");
        let contents = format!(
            "<?php\ndefine('DB_NAME', 'wp');\ndefine('DB_USER', 'wp');\ndefine('DB_PASSWORD', '{escaped}');\n"
        );
        let config = parse_db_config(&contents).expect("config");
        assert_eq!(config.password, value);
    }
}

#[test]
fn host_and_port_are_the_whole() {
    for host in ["localhost", "db:3306", "db:", ":3306", "a:b:c"] {
        let contents = format!(
            "define('DB_NAME', 'wp');\ndefine('DB_USER', 'wp');\ndefine('DB_HOST', '{host}');\n"
        );
        let config = parse_db_config(&contents).expect("config");
        let whole = match config.port() {
            Some(port) => format!("{}:{port}", config.host_only()),
            None => config.host_only(),
        };
        assert_eq!(whole, host);
    }
}
