use wpressforge::agent::ops::mu_plugin::mu_plugin_php;

#[test]
fn mu_plugin_contains_required_hooks() {
    let php = mu_plugin_php("example.com");
    assert!(php.contains("add_action('save_post'"));
    assert!(php.contains("add_action('delete_post'"));
    assert!(php.contains("add_action('comment_post'"));
    assert!(php.contains("add_action('wp_set_comment_status'"));
    assert!(php.contains("add_action('edited_term'"));
    assert!(php.contains("add_action('switch_theme'"));
}

#[test]
fn mu_plugin_has_correct_purge_url() {
    let php = mu_plugin_php("example.com");
    assert!(php.contains("http://127.0.0.1/wp-panel-purge"));
}

#[test]
fn mu_plugin_has_plugin_header() {
    let php = mu_plugin_php("example.com");
    assert!(php.contains("Plugin Name: WP Panel Cache"));
    assert!(php.contains("Version: 1.0.0"));
}
