//! Must-use plugin that hooks into WordPress to automatically purge the Nginx
//! FastCGI cache when content changes. The plugin is written to
//! `wp-content/mu-plugins/wp-panel-cache.php` during site creation and
//! whenever cache settings change.
//!
//! Requires `ngx_cache_purge` in Nginx. When absent, the purge location is not
//! emitted and WordPress still works — the hooks simply have no effect.

use vstd::prelude::*;
use crate::agent::config::Config;
use crate::agent::ops::nginx;
use crate::agent::path;
use crate::agent::plan;
use crate::agent::plan::{Task, TaskView};
use crate::agent::store::{RecordView, SiteRecord};

verus! {

/// The text of the plugin, the same for every site.
pub const PLUGIN: &'static str = r#"<?php
/**
 * Plugin Name: WP Panel Cache
 * Description: Automatically purges the Nginx FastCGI cache when content changes.
 * Version: 1.0.0
 * Author: WP Panel
 *
 * This is a must-use plugin managed by wp-panel. Do not edit or remove.
 * It hooks into WordPress save/delete events and purges the Nginx cache
 * via the /wp-panel-purge location (requires ngx_cache_purge module).
 */

if (!defined('ABSPATH')) {
    exit;
}

/**
 * Purge a single URL from the Nginx FastCGI cache.
 *
 * @param string $url The full URL to purge.
 */
function wp_panel_purge_url($url) {
    $path = wp_parse_url($url, PHP_URL_PATH);
    if (empty($path)) {
        return;
    }

    $host = wp_parse_url($url, PHP_URL_HOST);
    if (empty($host)) {
        return;
    }

    $purge_url = 'http://127.0.0.1/wp-panel-purge' . $path;

    // Use a short timeout so WordPress doesn't slow down.
    $args = array(
        'timeout' => 2,
        'blocking' => false,
        'headers' => array('Host' => $host),
    );

    wp_remote_get($purge_url, $args);
}

/**
 * Purge a post and its related URLs (archives, feeds, home page).
 *
 * @param int $post_id The post ID.
 */
function wp_panel_purge_post($post_id) {
    // Skip revisions and auto-drafts.
    if (wp_is_post_revision($post_id) || wp_is_post_autosave($post_id)) {
        return;
    }

    $post = get_post($post_id);
    if (!$post || $post->post_status !== 'publish') {
        return;
    }

    $home_url = home_url('/');
    wp_panel_purge_url($home_url);

    // Permalink of the post.
    $permalink = get_permalink($post_id);
    if ($permalink) {
        wp_panel_purge_url($permalink);
    }

    // Post type archives.
    $post_type = get_post_type($post_id);
    $archive_url = get_post_type_archive_link($post_type);
    if ($archive_url) {
        wp_panel_purge_url($archive_url);
    }

    // Category and tag archives.
    $categories = get_the_category($post_id);
    if (!is_wp_error($categories)) {
        foreach ($categories as $cat) {
            $cat_url = get_category_link($cat->term_id);
            if ($cat_url) {
                wp_panel_purge_url($cat_url);
            }
        }
    }

    $tags = get_the_tags($post_id);
    if ($tags) {
        foreach ($tags as $tag) {
            $tag_url = get_tag_link($tag->term_id);
            if ($tag_url) {
                wp_panel_purge_url($tag_url);
            }
        }
    }

    // Feed URLs.
    $feed_url = get_post_comments_feed_link($post_id);
    if ($feed_url) {
        wp_panel_purge_url($feed_url);
    }

    // REST and sitemap entries.
    $rest_url = rest_url('wp/v2/posts/' . $post_id);
    if ($rest_url) {
        wp_panel_purge_url($rest_url);
    }

    $sitemap_url = home_url('/wp-sitemap.xml');
    wp_panel_purge_url($sitemap_url);
}

/**
 * Purge all term-related URLs when a term is edited.
 *
 * @param int $term_id The term ID.
 * @param string $taxonomy The taxonomy slug.
 */
function wp_panel_purge_term($term_id, $taxonomy) {
    $term_url = get_term_link($term_id, $taxonomy);
    if (!is_wp_error($term_url)) {
        wp_panel_purge_url($term_url);
    }

    $home_url = home_url('/');
    wp_panel_purge_url($home_url);

    $sitemap_url = home_url('/wp-sitemap.xml');
    wp_panel_purge_url($sitemap_url);
}

/**
 * Purge the home page on theme switch.
 */
function wp_panel_purge_theme_switch() {
    $home_url = home_url('/');
    wp_panel_purge_url($home_url);

    $sitemap_url = home_url('/wp-sitemap.xml');
    wp_panel_purge_url($sitemap_url);
}

// --- Hooks ----------------------------------------------------------------

// Post operations.
add_action('save_post', 'wp_panel_purge_post', 20, 3);
add_action('delete_post', function ($post_id) {
    wp_panel_purge_post($post_id);
});

// Comment operations — purge the parent post.
add_action('comment_post', function ($comment_id, $comment_approved, $commentdata) {
    if (!empty($commentdata['comment_post_ID'])) {
        wp_panel_purge_post($commentdata['comment_post_ID']);
    }
}, 20, 3);

add_action('wp_set_comment_status', function ($comment_id, $status) {
    $comment = get_comment($comment_id);
    if ($comment && !empty($comment->comment_post_ID)) {
        wp_panel_purge_post($comment->comment_post_ID);
    }
}, 20, 2);

// Term operations.
add_action('edited_term', 'wp_panel_purge_term', 20, 2);
add_action('create_term', 'wp_panel_purge_term', 20, 2);
add_action('delete_term', 'wp_panel_purge_term', 20, 2);

// Theme switch.
add_action('switch_theme', 'wp_panel_purge_theme_switch');
"#;

/// Content of the must-use plugin.
pub fn mu_plugin_php(_domain: &str) -> (s: String)
    ensures
        s@ == PLUGIN@,
{
    PLUGIN.to_owned()
}

/// Where the plugin of a site goes.
pub open spec fn plugin_path(config: Config, domain: Seq<char>) -> Seq<char> {
    path::join(
        path::join(
            path::join(config.spec_in_site(domain, "public_html"@), "wp-content"@),
            "mu-plugins"@,
        ),
        "wp-panel-cache.php"@,
    )
}

/// Writes the plugin of a site.
pub open spec fn spec_write_mu_plugin(config: Config, site: RecordView) -> Seq<TaskView> {
    nginx::write_tasks(plugin_path(config, site.domain), PLUGIN@)
}

/// Writes the plugin to the site's `wp-content/mu-plugins/` directory.
pub fn write_mu_plugin(config: &Config, site: &SiteRecord) -> (v: Vec<Task>)
    ensures
        plan::tasks(v@) == spec_write_mu_plugin(*config, site@),
{
    let public = config.in_site(site.domain.as_str(), "public_html");
    let content = path::joined(public.as_str(), "wp-content");
    let plugins = path::joined(content.as_str(), "mu-plugins");
    let file = path::joined(plugins.as_str(), "wp-panel-cache.php");
    let mut v = plan::no_tasks();
    nginx::push_write(&mut v, file, mu_plugin_php(site.domain.as_str()));
    assert(plan::tasks(v@) =~= spec_write_mu_plugin(*config, site@));
    v
}

} // verus!
