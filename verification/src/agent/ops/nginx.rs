//! Nginx vhost generation. Nginx stays on the host and proxies to the site's
//! PHP-FPM socket; the cache is WordPress-aware.
//!
//! Everything rendered here is gated on [`NginxCapabilities`], probed once at
//! startup. Generating a directive the installed binary does not understand
//! makes `nginx -t` fail, which fails the reload, which fails the job.

use vstd::prelude::*;
use crate::agent::capabilities::NginxCapabilities;
use crate::agent::config::Config;
use crate::agent::ops::docker;
use crate::agent::ops::effects;
use crate::agent::path;
use crate::agent::plan;
use crate::agent::exec::OutputView;
use crate::agent::plan::{
    Action, ActionView, RunnerView, Task, TaskView, Verdict, VerdictView,
};
use crate::agent::store::{RecordView, SiteRecord};
use crate::common::error::ErrorView;
use crate::common::models::PhpVersion;
use crate::digits;
use crate::text;

verus! {

// ---------------------------------------------------------------------------
// Text of a vhost
// ---------------------------------------------------------------------------

/// The first lines of a vhost, up to the version.
pub const HEAD: &'static str = r#"# Managed by wp-panel. Manual edits are overwritten.
# Rendered for nginx "#;

/// What follows the version.
pub const DETECTED: &'static str = r#" as detected on this host.
"#;

/// The plain-HTTP server of a site with TLS, up to its names.
pub const REDIRECT_NAMES: &'static str = r#"server {
    listen 80;
    listen [::]:80;
    server_name "#;

/// The rest of that server: it answers ACME challenges and redirects.
pub const REDIRECT_TAIL: &'static str = r#";
    location /.well-known/acme-challenge/ { root /var/www/acme; }
    location / { return 301 https://$host$request_uri; }
}

"#;

/// The start of the server proper.
pub const SERVER: &'static str = r#"server {
"#;

/// Listening without TLS.
pub const LISTEN_PLAIN: &'static str = r#"    listen 80;
    listen [::]:80;
"#;

/// TLS listeners with HTTP/2 as a parameter, the only form before 1.25.1.
pub const LISTEN_LEGACY: &'static str = r#"    listen 443 ssl http2;
    listen [::]:443 ssl http2;
"#;

/// TLS listeners with HTTP/2 as a directive of its own.
pub const LISTEN_HTTP2: &'static str = r#"    listen 443 ssl;
    listen [::]:443 ssl;
    http2 on;
"#;

/// HTTP/3 listeners. `reuseport` may appear only once per address and port, and
/// every site has its own server, so it is left out.
pub const LISTEN_QUIC: &'static str = r#"    listen 443 quic;
    listen [::]:443 quic;
    http3 on;
    add_header Alt-Svc 'h3=":443"; ma=86400' always;
"#;

/// The certificate, up to the domain.
pub const CERTIFICATE: &'static str = r#"    ssl_certificate     /etc/letsencrypt/live/"#;

/// The private key, up to the domain.
pub const CERTIFICATE_KEY: &'static str = r#"/fullchain.pem;
    ssl_certificate_key /etc/letsencrypt/live/"#;

/// The rest of the TLS settings.
pub const TLS_TAIL: &'static str = r#"/privkey.pem;
    ssl_protocols TLSv1.2 TLSv1.3;
    ssl_prefer_server_ciphers off;
    ssl_session_cache shared:SSL:10m;
    ssl_stapling on;
    add_header Strict-Transport-Security "max-age=31536000" always;
"#;

/// Up to the names that the server answers to.
pub const SERVER_NAMES: &'static str = r#"    server_name "#;

/// Up to the document root.
pub const ROOT: &'static str = r#";
    root "#;

/// Up to the directory of the access log.
pub const ACCESS_LOG: &'static str = r#";
    index index.php index.html;

    access_log "#;

/// Up to the directory of the error log.
pub const ERROR_LOG: &'static str = r#"/nginx-access.log;
    error_log  "#;

/// Limits, headers and compression that every host understands.
pub const HEADERS: &'static str = r#"/nginx-error.log warn;

    client_max_body_size 128m;
    server_tokens off;

    add_header X-Content-Type-Options nosniff always;
    add_header X-Frame-Options SAMEORIGIN always;
    add_header Referrer-Policy strict-origin-when-cross-origin always;

    gzip on;
    gzip_vary on;
    gzip_types text/plain text/css application/javascript application/json image/svg+xml;
"#;

/// Compression with ngx_brotli.
pub const BROTLI: &'static str = r#"    brotli on;
    brotli_comp_level 5;
    brotli_static on;
    brotli_types text/plain text/css application/javascript application/json image/svg+xml;
"#;

/// Compression without ngx_brotli.
pub const GZIP_STATIC: &'static str = r#"    gzip_static on;
"#;

/// Static files, hardening and the login form, up to the PHP socket.
pub const LOCATIONS: &'static str = r#"
    # Static assets are served straight off disk.
    location ~* \.(?:css|js|jpg|jpeg|png|gif|webp|avif|svg|woff2?|ttf|ico|mp4)$ {
        expires 30d;
        add_header Cache-Control "public, immutable";
        access_log off;
        try_files $uri =404;
    }

    location = /favicon.ico { access_log off; log_not_found off; }
    location = /robots.txt  { access_log off; log_not_found off; }

    # Hardening: no PHP execution in uploads, no dotfiles.
    location ~* /(?:uploads|files)/.*\.php$ { deny all; }
    location ~ /\.(?!well-known) { deny all; }

    # Rate limit the login form.
    location = /wp-login.php {
        limit_req zone=wp_login burst=5 nodelay;
        include fastcgi_params;
        fastcgi_pass unix:"#;

/// The rest of the login form.
pub const LOGIN_TAIL: &'static str = r#";
        fastcgi_param SCRIPT_FILENAME $document_root$fastcgi_script_name;
    }
"#;

/// The full-page cache, up to its zone.
pub const CACHE_ZONE: &'static str = r#"
    # ---- FastCGI cache (WordPress aware) --------------------------------
    set $skip_cache 0;
    if ($request_method = POST) { set $skip_cache 1; }
    if ($query_string != "") { set $skip_cache 1; }
    if ($request_uri ~* "/wp-admin/|/wp-json/|/xmlrpc.php|wp-.*\.php|/feed/|sitemap(_index)?\.xml") { set $skip_cache 1; }
    if ($http_cookie ~* "comment_author|wordpress_[a-f0-9]+|wp-postpass|wordpress_logged_in|woocommerce_items_in_cart|woocommerce_cart_hash") { set $skip_cache 1; }

    fastcgi_cache "#;

/// Up to the lifetime of what is cached.
pub const CACHE_TTL: &'static str = r#";
    fastcgi_cache_valid 200 301 302 "#;

/// The rest of the full-page cache.
pub const CACHE_TAIL: &'static str = r#"s;
    fastcgi_cache_bypass $skip_cache;
    fastcgi_no_cache $skip_cache;
    fastcgi_cache_use_stale error timeout updating http_500 http_503;
    fastcgi_cache_background_update on;
    fastcgi_cache_lock on;
    add_header X-Cache $upstream_cache_status;
"#;

/// No full-page cache.
pub const NO_CACHE: &'static str = r#"    set $skip_cache 1;
"#;

/// Targeted purging, up to the zone.
pub const PURGE_ZONE: &'static str = r#"
    # ---- Targeted cache purge (ngx_cache_purge) ---------------------------
    location ~ /wp-panel-purge(/.*) {
        allow 127.0.0.1;
        allow ::1;
        deny all;
        fastcgi_cache_purge "#;

/// The rest of targeted purging.
pub const PURGE_TAIL: &'static str = r#" "$scheme$request_method$host$1";
    }
"#;

/// Front controller and PHP, up to the socket.
pub const PHP: &'static str = r#"
    location / {
        try_files $uri $uri/ /index.php?$args;
    }

    location ~ \.php$ {
        try_files $uri =404;
        include fastcgi_params;
        fastcgi_pass unix:"#;

/// The end of the vhost.
pub const PHP_TAIL: &'static str = r#";
        fastcgi_index index.php;
        fastcgi_param SCRIPT_FILENAME $document_root$fastcgi_script_name;
        fastcgi_read_timeout 120s;
        fastcgi_buffers 16 16k;
        fastcgi_buffer_size 32k;
    }
}
"#;

/// The declaration of a cache zone, up to its directory.
pub const ZONE_DIR: &'static str = r#"# Managed by wp-panel.
fastcgi_cache_path "#;

/// Up to its name.
pub const ZONE_NAME: &'static str = r#" levels=1:2 keys_zone="#;

/// The rest of the declaration.
pub const ZONE_TAIL: &'static str = r#":32m inactive=1h max_size=512m use_temp_path=off;
fastcgi_cache_key "$scheme$request_method$host$request_uri";
"#;

// ---------------------------------------------------------------------------
// Blocks
// ---------------------------------------------------------------------------

/// What a binary may or may not understand.
#[derive(Debug, Clone, Copy, PartialEq, Eq, Structural)]
pub enum Feature {
    Http2Directive,
    Http3,
    Brotli,
    CachePurge,
}

impl Feature {
    /// The binary has the feature.
    pub open spec fn spec_in(self, caps: NginxCapabilities) -> bool {
        match self {
            Feature::Http2Directive => caps.http2_directive,
            Feature::Http3 => caps.http3,
            Feature::Brotli => caps.brotli,
            Feature::CachePurge => caps.cache_purge,
        }
    }
}

/// A part of a vhost, and the feature without which it must not be there.
#[derive(Debug)]
pub struct Block {
    pub needs: Option<Feature>,
    pub text: String,
}

/// [`Block`] with its text as a sequence of characters.
pub struct BlockView {
    pub needs: Option<Feature>,
    pub text: Seq<char>,
}

impl View for Block {
    type V = BlockView;

    open spec fn view(&self) -> BlockView {
        BlockView { needs: self.needs, text: self.text@ }
    }
}

/// The views of a list of blocks.
pub open spec fn blocks(v: Seq<Block>) -> Seq<BlockView> {
    v.map_values(|b: Block| b@)
}

/// The texts of blocks one after another.
pub open spec fn flatten(v: Seq<BlockView>) -> Seq<char>
    decreases v.len(),
{
    if v.len() == 0 {
        Seq::empty()
    } else {
        flatten(v.drop_last()) + v.last().text
    }
}

/// A block that every binary understands.
pub open spec fn always(text: Seq<char>) -> BlockView {
    BlockView { needs: None, text }
}

/// A block for binaries with a feature.
pub open spec fn with(feature: Feature, text: Seq<char>) -> BlockView {
    BlockView { needs: Some(feature), text }
}

/// The names that a site answers to.
pub open spec fn server_names(site: RecordView) -> Seq<char> {
    if site.domains.len() == 0 {
        site.domain
    } else {
        text::join(site.domains, " "@)
    }
}

/// The cache zone of a site.
pub open spec fn zone(site: RecordView) -> Seq<char> {
    text::swap(site.domain, '.', '_')
}

/// The optional features that a site's vhost makes use of, by name.
pub open spec fn enabled(caps: NginxCapabilities, site: RecordView) -> Seq<Seq<char>> {
    (if caps.http2_directive {
        seq!["http2-directive"@]
    } else {
        Seq::empty()
    }) + (if caps.http3 {
        seq!["http3"@]
    } else {
        Seq::empty()
    }) + (if caps.brotli {
        seq!["brotli"@]
    } else {
        Seq::empty()
    }) + (if caps.cache_purge && site.cache.fastcgi_cache {
        seq!["cache_purge"@]
    } else {
        Seq::empty()
    })
}

/// The line that lists the optional features.
pub open spec fn feature_line(names: Seq<Seq<char>>) -> Seq<char> {
    if names.len() == 0 {
        ""@
    } else {
        "# optional features: "@ + text::join(names, ", "@) + "\n"@
    }
}

/// Where the site listens, and with what certificate.
pub open spec fn listen_blocks(
    caps: NginxCapabilities,
    site: RecordView,
    ssl: bool,
) -> Seq<BlockView> {
    if ssl {
        seq![
            if caps.http2_directive {
                with(Feature::Http2Directive, LISTEN_HTTP2@)
            } else {
                always(LISTEN_LEGACY@)
            },
        ] + (if caps.http3 {
            seq![with(Feature::Http3, LISTEN_QUIC@)]
        } else {
            Seq::empty()
        }) + seq![
            always(CERTIFICATE@ + site.domain + CERTIFICATE_KEY@ + site.domain + TLS_TAIL@),
        ]
    } else {
        seq![always(LISTEN_PLAIN@)]
    }
}

/// The full-page cache of a site, and targeted purging of it.
pub open spec fn cache_blocks(caps: NginxCapabilities, site: RecordView) -> Seq<BlockView> {
    if site.cache.fastcgi_cache {
        seq![
            always(
                CACHE_ZONE@ + zone(site) + CACHE_TTL@ + digits::dec(
                    site.cache.ttl_seconds as nat,
                ) + CACHE_TAIL@,
            ),
        ] + (if caps.cache_purge {
            seq![with(Feature::CachePurge, PURGE_ZONE@ + zone(site) + PURGE_TAIL@)]
        } else {
            Seq::empty()
        })
    } else {
        seq![always(NO_CACHE@)]
    }
}

/// What goes before the server of a site.
pub open spec fn head_blocks(caps: NginxCapabilities, site: RecordView, ssl: bool) -> Seq<
    BlockView,
> {
    let head = seq![
        always(HEAD@ + caps.spec_version_label() + DETECTED@),
        always(feature_line(enabled(caps, site))),
    ];
    if ssl {
        head.push(always(REDIRECT_NAMES@ + server_names(site) + REDIRECT_TAIL@))
    } else {
        head
    }
}

/// Files, headers and compression of a site.
pub open spec fn file_blocks(config: Config, caps: NginxCapabilities, site: RecordView) -> Seq<
    BlockView,
> {
    let public = config.spec_in_site(site.domain, "public_html"@);
    let logs = config.spec_in_site(site.domain, "logs"@);
    let socket = config.spec_in_site(site.domain, "tmp/php-fpm.sock"@);
    seq![
        always(
            SERVER_NAMES@ + server_names(site) + ROOT@ + public + ACCESS_LOG@ + logs + ERROR_LOG@
                + logs + HEADERS@,
        ),
        if caps.brotli {
            with(Feature::Brotli, BROTLI@)
        } else {
            always(GZIP_STATIC@)
        },
        always(LOCATIONS@ + socket + LOGIN_TAIL@),
    ]
}

/// The parts of a site's vhost.
pub open spec fn vhost_blocks(
    config: Config,
    caps: NginxCapabilities,
    site: RecordView,
    ssl: bool,
) -> Seq<BlockView> {
    let socket = config.spec_in_site(site.domain, "tmp/php-fpm.sock"@);
    (head_blocks(caps, site, ssl).push(always(SERVER@)) + listen_blocks(caps, site, ssl)
        + file_blocks(config, caps, site) + cache_blocks(caps, site)).push(
        always(PHP@ + socket + PHP_TAIL@),
    )
}

/// The vhost of a site.
pub open spec fn spec_render_vhost(
    config: Config,
    caps: NginxCapabilities,
    site: RecordView,
    ssl: bool,
) -> Seq<char> {
    flatten(vhost_blocks(config, caps, site, ssl))
}

/// Appends a block.
fn push_block(v: &mut Vec<Block>, needs: Option<Feature>, text: String)
    ensures
        blocks(final(v)@) == blocks(old(v)@).push(BlockView { needs, text: text@ }),
{
    let b = Block { needs, text };
    v.push(b);
    assert(blocks(v@) =~= blocks(old(v)@).push(b@));
}

/// Appends the blocks of [`listen_blocks`].
fn push_listen(v: &mut Vec<Block>, caps: &NginxCapabilities, site: &SiteRecord, ssl: bool)
    ensures
        blocks(final(v)@) == blocks(old(v)@) + listen_blocks(*caps, site@, ssl),
{
    let ghost before = blocks(v@);
    if ssl {
        if caps.http2_directive {
            push_block(v, Some(Feature::Http2Directive), LISTEN_HTTP2.to_owned());
        } else {
            push_block(v, None, LISTEN_LEGACY.to_owned());
        }
        if caps.http3 {
            push_block(v, Some(Feature::Http3), LISTEN_QUIC.to_owned());
        }
        let domain = site.domain.as_str();
        push_block(v, None, text::cat5(CERTIFICATE, domain, CERTIFICATE_KEY, domain, TLS_TAIL));
    } else {
        push_block(v, None, LISTEN_PLAIN.to_owned());
    }
    assert(blocks(v@) =~= before + listen_blocks(*caps, site@, ssl));
}

/// Appends the blocks of [`cache_blocks`].
fn push_cache(v: &mut Vec<Block>, caps: &NginxCapabilities, site: &SiteRecord)
    ensures
        blocks(final(v)@) == blocks(old(v)@) + cache_blocks(*caps, site@),
{
    let ghost before = blocks(v@);
    if site.cache.fastcgi_cache {
        let zone = text::swapped(site.domain.as_str(), '.', '_');
        let ttl = digits::dec_u64(site.cache.ttl_seconds as u64);
        push_block(
            v,
            None,
            text::cat5(CACHE_ZONE, zone.as_str(), CACHE_TTL, ttl.as_str(), CACHE_TAIL),
        );
        if caps.cache_purge {
            push_block(
                v,
                Some(Feature::CachePurge),
                text::cat3(PURGE_ZONE, zone.as_str(), PURGE_TAIL),
            );
        }
    } else {
        push_block(v, None, NO_CACHE.to_owned());
    }
    assert(blocks(v@) =~= before + cache_blocks(*caps, site@));
}

/// Executable form of [`enabled`] and [`feature_line`].
fn write_features(caps: &NginxCapabilities, site: &SiteRecord) -> (s: String)
    ensures
        s@ == feature_line(enabled(*caps, site@)),
{
    let mut names = text::no_texts();
    if caps.http2_directive {
        text::push_str(&mut names, "http2-directive");
    }
    if caps.http3 {
        text::push_str(&mut names, "http3");
    }
    if caps.brotli {
        text::push_str(&mut names, "brotli");
    }
    if caps.cache_purge && site.cache.fastcgi_cache {
        text::push_str(&mut names, "cache_purge");
    }
    assert(text::texts(names@) =~= enabled(*caps, site@));
    if names.len() == 0 {
        "".to_owned()
    } else {
        let list = text::joined(&names, ", ");
        text::cat3("# optional features: ", list.as_str(), "\n")
    }
}

/// Executable form of [`server_names`].
fn write_names(site: &SiteRecord) -> (s: String)
    ensures
        s@ == server_names(site@),
{
    if site.domains.len() == 0 {
        site.domain.clone()
    } else {
        text::joined(&site.domains, " ")
    }
}

/// Executable form of [`head_blocks`].
fn build_head(caps: &NginxCapabilities, site: &SiteRecord, ssl: bool) -> (v: Vec<Block>)
    ensures
        blocks(v@) == head_blocks(*caps, site@, ssl),
{
    let mut v: Vec<Block> = Vec::new();
    assert(blocks(v@) =~= Seq::empty());
    let version = caps.version_label();
    push_block(&mut v, None, text::cat3(HEAD, version.as_str(), DETECTED));
    push_block(&mut v, None, write_features(caps, site));
    if ssl {
        let names = write_names(site);
        push_block(&mut v, None, text::cat3(REDIRECT_NAMES, names.as_str(), REDIRECT_TAIL));
    }
    v
}

/// Appends the blocks of [`file_blocks`].
fn push_files(v: &mut Vec<Block>, config: &Config, caps: &NginxCapabilities, site: &SiteRecord)
    ensures
        blocks(final(v)@) == blocks(old(v)@) + file_blocks(*config, *caps, site@),
{
    let ghost before = blocks(v@);
    let domain = site.domain.as_str();
    let public = config.in_site(domain, "public_html");
    let logs = config.in_site(domain, "logs");
    let socket = config.in_site(domain, "tmp/php-fpm.sock");
    let names = write_names(site);
    let mut body = text::cat5(SERVER_NAMES, names.as_str(), ROOT, public.as_str(), ACCESS_LOG);
    body.append(logs.as_str());
    body.append(ERROR_LOG);
    body.append(logs.as_str());
    body.append(HEADERS);
    push_block(v, None, body);
    if caps.brotli {
        push_block(v, Some(Feature::Brotli), BROTLI.to_owned());
    } else {
        push_block(v, None, GZIP_STATIC.to_owned());
    }
    push_block(v, None, text::cat3(LOCATIONS, socket.as_str(), LOGIN_TAIL));
    assert(blocks(v@) =~= before + file_blocks(*config, *caps, site@));
}

/// Executable form of [`vhost_blocks`].
fn build_blocks(config: &Config, caps: &NginxCapabilities, site: &SiteRecord, ssl: bool) -> (v: Vec<
    Block,
>)
    ensures
        blocks(v@) == vhost_blocks(*config, *caps, site@, ssl),
{
    let socket = config.in_site(site.domain.as_str(), "tmp/php-fpm.sock");
    let mut v = build_head(caps, site, ssl);
    push_block(&mut v, None, SERVER.to_owned());
    push_listen(&mut v, caps, site, ssl);
    push_files(&mut v, config, caps, site);
    push_cache(&mut v, caps, site);
    push_block(&mut v, None, text::cat3(PHP, socket.as_str(), PHP_TAIL));
    v
}

/// Renders the vhost for a site. Pure function: diffable before anything is
/// written.
pub fn render_vhost(config: &Config, caps: &NginxCapabilities, site: &SiteRecord, ssl: bool) -> (s:
    String)
    ensures
        s@ == spec_render_vhost(*config, *caps, site@, ssl),
{
    let v = build_blocks(config, caps, site, ssl);
    let mut s = String::new();
    let mut i: usize = 0;
    while i < v.len()
        invariant
            i <= v@.len(),
            s@ == flatten(blocks(v@).take(i as int)),
        decreases v@.len() - i,
    {
        s.append(v[i].text.as_str());
        assert(blocks(v@).take(i + 1).drop_last() =~= blocks(v@).take(i as int));
        i += 1;
    }
    assert(blocks(v@).take(i as int) =~= blocks(v@));
    s
}

/// The declaration of a site's cache zone.
pub open spec fn spec_render_cache_zone(config: Config, site: RecordView) -> Seq<char> {
    ZONE_DIR@ + config.spec_cache_dir(site.domain) + ZONE_NAME@ + zone(site) + ZONE_TAIL@
}

/// `fastcgi_cache_path` must live in the http context, so each site gets a small
/// file next to its vhost declaring its own cache zone.
pub fn render_cache_zone(config: &Config, site: &SiteRecord) -> (s: String)
    ensures
        s@ == spec_render_cache_zone(*config, site@),
{
    let zone = text::swapped(site.domain.as_str(), '.', '_');
    let dir = config.cache_dir(site.domain.as_str());
    text::cat5(ZONE_DIR, dir.as_str(), ZONE_NAME, zone.as_str(), ZONE_TAIL)
}

// ---------------------------------------------------------------------------
// Laws
// ---------------------------------------------------------------------------

/// A vhost holds a part that needs a feature only where the binary has the feature.
pub proof fn law_blocks_match_the_host(
    config: Config,
    caps: NginxCapabilities,
    site: RecordView,
    ssl: bool,
)
    ensures
        forall|i: int|
            0 <= i < vhost_blocks(config, caps, site, ssl).len() ==> ((
            #[trigger] vhost_blocks(config, caps, site, ssl)[i]).needs matches Some(f)
                ==> f.spec_in(caps)),
{
}

/// A vhost that was rendered for a host without optional features is the same as
/// one where nothing at all is known of the host but its version.
pub proof fn law_unknown_hosts_get_the_conservative_vhost(
    config: Config,
    caps: NginxCapabilities,
    site: RecordView,
    ssl: bool,
)
    requires
        !caps.http2_directive,
        !caps.http3,
        !caps.brotli,
        !caps.cache_purge,
        caps.version == NginxCapabilities::spec_conservative().version,
    ensures
        spec_render_vhost(config, caps, site, ssl) == spec_render_vhost(
            config,
            NginxCapabilities::spec_conservative(),
            site,
            ssl,
        ),
{
    assert(enabled(caps, site) =~= enabled(NginxCapabilities::spec_conservative(), site));
    assert(vhost_blocks(config, caps, site, ssl) =~= vhost_blocks(
        config,
        NginxCapabilities::spec_conservative(),
        site,
        ssl,
    ));
}

/// Where a site is cached, its vhost caches into the zone that is declared for it.
pub proof fn law_zone_is_declared(
    config: Config,
    caps: NginxCapabilities,
    site: RecordView,
    ssl: bool,
)
    requires
        site.cache.fastcgi_cache,
    ensures
        text::has(
            spec_render_vhost(config, caps, site, ssl),
            CACHE_ZONE@ + zone(site) + CACHE_TTL@,
        ),
        text::has(spec_render_cache_zone(config, site), ZONE_NAME@ + zone(site) + ZONE_TAIL@),
{
    let v = vhost_blocks(config, caps, site, ssl);
    let inner = CACHE_ZONE@ + zone(site) + CACHE_TTL@;
    let at = v.len() - 1 - cache_blocks(caps, site).len();
    assert(v[at] == cache_blocks(caps, site)[0]);
    lemma_flatten_has(v, at);
    let text = v[at].text;
    assert(text::occurs_at(text, inner, 0)) by {
        assert(text.subrange(0, inner.len() as int) =~= inner);
    }
    let whole = flatten(v);
    let i = choose|i: int| #[trigger] text::occurs_at(whole, text, i);
    assert(text::occurs_at(whole, inner, i)) by {
        assert(whole.subrange(i, i + inner.len()) =~= whole.subrange(i, i + text.len()).subrange(
            0,
            inner.len() as int,
        ));
    }
    let declared = spec_render_cache_zone(config, site);
    let part = ZONE_NAME@ + zone(site) + ZONE_TAIL@;
    let from = (ZONE_DIR@ + config.spec_cache_dir(site.domain)).len() as int;
    assert(text::occurs_at(declared, part, from)) by {
        assert(declared.subrange(from, from + part.len()) =~= part);
    }
}

/// What stands in a block of a vhost stands in the vhost.
proof fn lemma_vhost_has(
    config: Config,
    caps: NginxCapabilities,
    site: RecordView,
    ssl: bool,
    at: int,
    part: Seq<char>,
)
    requires
        0 <= at < vhost_blocks(config, caps, site, ssl).len(),
        text::has(vhost_blocks(config, caps, site, ssl)[at].text, part),
    ensures
        text::has(spec_render_vhost(config, caps, site, ssl), part),
{
    let v = vhost_blocks(config, caps, site, ssl);
    lemma_flatten_has(v, at);
    effects::lemma_has_part(flatten(v), v[at].text, part);
}

/// Where the blocks of [`file_blocks`] start.
spec fn files_at(caps: NginxCapabilities, site: RecordView, ssl: bool) -> int {
    head_blocks(caps, site, ssl).len() + 1int + listen_blocks(caps, site, ssl).len()
}

/// The vhost of a site answers to the site's names, serves the directory that the
/// container of the site has as its document root, hands PHP over to the socket in the
/// directory that the container has as `/run/php`, and logs into the site's own
/// directory.
pub proof fn law_vhost_serves_what_the_container_runs(
    config: Config,
    caps: NginxCapabilities,
    site: RecordView,
    version: PhpVersion,
    ssl: bool,
)
    ensures
        ({
            let vhost = spec_render_vhost(config, caps, site, ssl);
            let args = docker::start_args(config, site, version);
            let public = config.spec_in_site(site.domain, "public_html"@);
            let run = config.spec_in_site(site.domain, "tmp"@);
            let socket = config.spec_in_site(site.domain, "tmp/php-fpm.sock"@);
            let logs = config.spec_in_site(site.domain, "logs"@);
            &&& text::has(
                vhost,
                "    server_name "@ + server_names(site) + ";\n    root "@ + public
                    + ";\n    index index.php index.html;"@,
            )
            &&& docker::has_pair(args, "--volume"@, public + ":/var/www/html"@)
            &&& text::has(vhost, "fastcgi_pass unix:"@ + socket + ";"@)
            &&& docker::has_pair(args, "--volume"@, run + ":/run/php"@)
            &&& text::has(vhost, "access_log "@ + logs + "/nginx-access.log;"@)
            &&& docker::has_pair(args, "--volume"@, logs + ":/var/log/php"@)
        }),
{
    reveal_strlit(r#"    server_name "#);
    reveal_strlit("    server_name ");
    reveal_strlit(r#";
    root "#);
    reveal_strlit(";\n    root ");
    reveal_strlit(r#";
    index index.php index.html;

    access_log "#);
    reveal_strlit(";\n    index index.php index.html;");
    reveal_strlit("access_log ");
    reveal_strlit(r#"/nginx-access.log;
    error_log  "#);
    reveal_strlit("/nginx-access.log;");
    reveal_strlit("fastcgi_pass unix:");
    reveal_strlit(";");
    reveal_strlit(r#"
    location / {
        try_files $uri $uri/ /index.php?$args;
    }

    location ~ \.php$ {
        try_files $uri =404;
        include fastcgi_params;
        fastcgi_pass unix:"#);
    reveal_strlit(r#";
        fastcgi_index index.php;
        fastcgi_param SCRIPT_FILENAME $document_root$fastcgi_script_name;
        fastcgi_read_timeout 120s;
        fastcgi_buffers 16 16k;
        fastcgi_buffer_size 32k;
    }
}
"#);
    let v = vhost_blocks(config, caps, site, ssl);
    let args = docker::start_args(config, site, version);
    let public = config.spec_in_site(site.domain, "public_html"@);
    let socket = config.spec_in_site(site.domain, "tmp/php-fpm.sock"@);
    let logs = config.spec_in_site(site.domain, "logs"@);
    assert(args[23] == "--volume"@ && args[24] == public + ":/var/www/html"@);
    assert(args[25] == "--volume"@ && args[26] == logs + ":/var/log/php"@);
    assert(args[27] == "--volume"@);
    let at = files_at(caps, site, ssl);
    assert(v[at] == file_blocks(config, caps, site)[0]);
    let whole = v[at].text;
    let index = ";\n    index index.php index.html;"@;
    let first = "    server_name "@ + server_names(site) + ";\n    root "@ + public + index;
    let n = ACCESS_LOG@.len() as int;
    let m = index.len() as int;
    assert(ACCESS_LOG@.take(m) =~= index);
    assert(SERVER_NAMES@ =~= "    server_name "@);
    assert(ROOT@ =~= ";\n    root "@);
    let rest = ACCESS_LOG@.skip(m) + logs + ERROR_LOG@ + logs + HEADERS@;
    assert(whole =~= Seq::<char>::empty() + first + rest);
    effects::lemma_has_middle(Seq::empty(), first, rest);
    lemma_vhost_has(config, caps, site, ssl, at, first);
    let log = "access_log "@ + logs + "/nginx-access.log;"@;
    let k = "/nginx-access.log;"@.len() as int;
    assert(ACCESS_LOG@.skip(n - 11) =~= "access_log "@);
    assert(ERROR_LOG@.take(k) =~= "/nginx-access.log;"@);
    let front = SERVER_NAMES@ + server_names(site) + ROOT@ + public + ACCESS_LOG@.take(n - 11);
    let back = ERROR_LOG@.skip(k) + logs + HEADERS@;
    assert(whole =~= front + log + back);
    effects::lemma_has_middle(front, log, back);
    lemma_vhost_has(config, caps, site, ssl, at, log);
    let last = v.len() - 1;
    let pass = "fastcgi_pass unix:"@ + socket + ";"@;
    let p = PHP@.len() as int;
    assert(PHP@.skip(p - 18) =~= "fastcgi_pass unix:"@);
    assert(PHP_TAIL@.take(1) =~= ";"@);
    assert(v[last].text =~= PHP@.take(p - 18) + pass + PHP_TAIL@.skip(1));
    effects::lemma_has_middle(PHP@.take(p - 18), pass, PHP_TAIL@.skip(1));
    lemma_vhost_has(config, caps, site, ssl, last, pass);
}

/// A block is about TLS: it listens on its port or names a certificate.
pub open spec fn is_tls_block(b: BlockView) -> bool {
    text::starts_with(b.text, "    listen 443"@) || text::starts_with(
        b.text,
        "    ssl_certificate"@,
    )
}

/// With TLS a vhost listens on port 443, under the certificate that is kept under the
/// site's domain, and sends plain requests there. Without, it listens on port 80 and has
/// no part that is about TLS.
pub proof fn law_vhost_has_tls_where_asked(
    config: Config,
    caps: NginxCapabilities,
    site: RecordView,
    ssl: bool,
)
    ensures
        ({
            let vhost = spec_render_vhost(config, caps, site, ssl);
            let v = vhost_blocks(config, caps, site, ssl);
            if ssl {
                &&& text::has(vhost, "    listen 443 ssl"@)
                &&& text::has(
                    vhost,
                    "ssl_certificate     /etc/letsencrypt/live/"@ + site.domain
                        + "/fullchain.pem;"@,
                )
                &&& text::has(
                    vhost,
                    "ssl_certificate_key /etc/letsencrypt/live/"@ + site.domain
                        + "/privkey.pem;"@,
                )
                &&& text::has(vhost, "return 301 https://$host$request_uri;"@)
            } else {
                &&& text::has(vhost, "server {\n    listen 80;\n    listen [::]:80;\n"@)
                &&& forall|i: int| 0 <= i < v.len() ==> !is_tls_block(#[trigger] v[i])
            }
        }),
{
    let v = vhost_blocks(config, caps, site, ssl);
    if ssl {
        lemma_tls_texts(caps, site);
        let at = head_blocks(caps, site, ssl).len() + 1int;
        let listen = listen_blocks(caps, site, ssl);
        assert(v[at] == listen[0]);
        lemma_vhost_has(config, caps, site, ssl, at, "    listen 443 ssl"@);
        let c = at + listen.len() - 1;
        assert(v[c] == listen[listen.len() - 1]);
        lemma_vhost_has(
            config,
            caps,
            site,
            ssl,
            c,
            "ssl_certificate     /etc/letsencrypt/live/"@ + site.domain + "/fullchain.pem;"@,
        );
        lemma_vhost_has(
            config,
            caps,
            site,
            ssl,
            c,
            "ssl_certificate_key /etc/letsencrypt/live/"@ + site.domain + "/privkey.pem;"@,
        );
        assert(v[2] == head_blocks(caps, site, ssl)[2]);
        lemma_vhost_has(config, caps, site, ssl, 2, "return 301 https://$host$request_uri;"@);
    } else {
        lemma_plain_texts(config, caps, site);
        let head = head_blocks(caps, site, ssl).push(always(SERVER@));
        assert(head.len() == 3 && v[0] == head[0] && v[1] == head[1]);
        assert(v[2].text == SERVER@ && v[3].text == LISTEN_PLAIN@);
        let pair = SERVER@ + LISTEN_PLAIN@;
        lemma_flatten_joins(v, 2);
        effects::lemma_has_part(
            flatten(v),
            pair,
            "server {\n    listen 80;\n    listen [::]:80;\n"@,
        );
    }
}

/// The texts put together begin with the texts of the first blocks.
proof fn lemma_flatten_front(v: Seq<BlockView>, k: int)
    requires
        0 <= k <= v.len(),
    ensures
        flatten(v.take(k)).len() <= flatten(v).len(),
        forall|i: int|
            0 <= i < flatten(v.take(k)).len() ==> #[trigger] flatten(v)[i] == flatten(v.take(k))[i],
    decreases v.len(),
{
    if k == v.len() {
        assert(v.take(k) =~= v);
    } else {
        lemma_flatten_front(v.drop_last(), k);
        assert(v.drop_last().take(k) =~= v.take(k));
        assert forall|i: int| 0 <= i < flatten(v.take(k)).len() implies #[trigger] flatten(v)[i]
            == flatten(v.take(k))[i] by {
            assert(flatten(v)[i] == flatten(v.drop_last())[i]);
        }
    }
}

/// The vhost of a site with TLS is another one than that without, and neither is the
/// declaration of a cache zone.
pub proof fn law_tls_makes_another_vhost(config: Config, caps: NginxCapabilities, site: RecordView)
    ensures
        spec_render_vhost(config, caps, site, false) != spec_render_vhost(
            config,
            caps,
            site,
            true,
        ),
        spec_render_cache_zone(config, site) != spec_render_vhost(config, caps, site, true),
        spec_render_vhost(config, caps, site, true).len() > 0,
        spec_render_vhost(config, caps, site, true)[0] == '#',
{
    reveal_strlit(r#"server {
"#);
    reveal_strlit(r#"    listen 80;
    listen [::]:80;
"#);
    reveal_strlit(r#"server {
    listen 80;
    listen [::]:80;
    server_name "#);
    reveal_strlit(r#"    server_name "#);
    reveal_strlit(r#";
    root "#);
    reveal_strlit(r#";
    location /.well-known/acme-challenge/ { root /var/www/acme; }
    location / { return 301 https://$host$request_uri; }
}

"#);
    reveal_strlit(r#"# Managed by wp-panel. Manual edits are overwritten.
# Rendered for nginx "#);
    reveal_strlit(r#"# Managed by wp-panel.
fastcgi_cache_path "#);
    let v = vhost_blocks(config, caps, site, false);
    let w = vhost_blocks(config, caps, site, true);
    let x = v.take(5);
    let y = w.take(3);
    let head = v[0].text + v[1].text;
    let names = server_names(site);
    assert(v[2].text == SERVER@ && v[3].text == LISTEN_PLAIN@);
    assert(v[4] == file_blocks(config, caps, site)[0]);
    assert(w[2].text == REDIRECT_NAMES@ + names + REDIRECT_TAIL@);
    assert(x.drop_last().drop_last().drop_last().drop_last().drop_last() =~= Seq::empty());
    assert(y.drop_last().drop_last().drop_last() =~= Seq::empty());
    reveal_with_fuel(flatten, 6);
    let s = flatten(x);
    let t = flatten(y);
    assert(s =~= head + SERVER@ + LISTEN_PLAIN@ + v[4].text);
    assert(t =~= head + w[2].text);
    lemma_flatten_front(v, 5);
    lemma_flatten_front(w, 3);
    let n = head.len() + REDIRECT_NAMES@.len() + names.len() + 6;
    assert(s[n as int] == ROOT@[6]);
    assert(t[n as int] == REDIRECT_TAIL@[6]);
    assert(flatten(v)[n as int] == s[n as int]);
    assert(flatten(w)[n as int] == t[n as int]);
    let zone = spec_render_cache_zone(config, site);
    assert(zone[22] == ZONE_DIR@[22]);
    assert(t[22] == HEAD@[22]);
    assert(flatten(w)[22] == t[22]);
    assert(flatten(w)[0] == t[0]);
}

/// Where a site is cached, its vhost caches into the zone of the site for as long as the
/// site's settings say, and that zone is declared in the directory of the site's cache;
/// where it is not, its vhost turns the cache off.
pub proof fn law_cache_follows_the_settings(
    config: Config,
    caps: NginxCapabilities,
    site: RecordView,
    ssl: bool,
)
    ensures
        ({
            let vhost = spec_render_vhost(config, caps, site, ssl);
            let zone = text::swap(site.domain, '.', '_');
            if site.cache.fastcgi_cache {
                &&& text::has(
                    vhost,
                    "    fastcgi_cache "@ + zone + ";\n    fastcgi_cache_valid 200 301 302 "@
                        + digits::dec(site.cache.ttl_seconds as nat) + "s;"@,
                )
                &&& text::has(
                    spec_render_cache_zone(config, site),
                    "fastcgi_cache_path "@ + config.spec_cache_dir(site.domain)
                        + " levels=1:2 keys_zone="@ + zone + ":32m "@,
                )
            } else {
                text::has(vhost, "    set $skip_cache 1;\n"@)
            }
        }),
{
    let v = vhost_blocks(config, caps, site, ssl);
    let at = v.len() - 1 - cache_blocks(caps, site).len();
    assert(v[at] == cache_blocks(caps, site)[0]);
    let text = v[at].text;
    if site.cache.fastcgi_cache {
        reveal_strlit("    fastcgi_cache ");
        reveal_strlit(r#"
    # ---- FastCGI cache (WordPress aware) --------------------------------
    set $skip_cache 0;
    if ($request_method = POST) { set $skip_cache 1; }
    if ($query_string != "") { set $skip_cache 1; }
    if ($request_uri ~* "/wp-admin/|/wp-json/|/xmlrpc.php|wp-.*\.php|/feed/|sitemap(_index)?\.xml") { set $skip_cache 1; }
    if ($http_cookie ~* "comment_author|wordpress_[a-f0-9]+|wp-postpass|wordpress_logged_in|woocommerce_items_in_cart|woocommerce_cart_hash") { set $skip_cache 1; }

    fastcgi_cache "#);
        reveal_strlit(r#";
    fastcgi_cache_valid 200 301 302 "#);
        reveal_strlit(";\n    fastcgi_cache_valid 200 301 302 ");
        reveal_strlit(r#"s;
    fastcgi_cache_bypass $skip_cache;
    fastcgi_no_cache $skip_cache;
    fastcgi_cache_use_stale error timeout updating http_500 http_503;
    fastcgi_cache_background_update on;
    fastcgi_cache_lock on;
    add_header X-Cache $upstream_cache_status;
"#);
        reveal_strlit("s;");
        reveal_strlit(r#"# Managed by wp-panel.
fastcgi_cache_path "#);
        reveal_strlit("fastcgi_cache_path ");
        reveal_strlit(r#" levels=1:2 keys_zone="#);
        reveal_strlit(" levels=1:2 keys_zone=");
        reveal_strlit(r#":32m inactive=1h max_size=512m use_temp_path=off;
fastcgi_cache_key "$scheme$request_method$host$request_uri";
"#);
        reveal_strlit(":32m ");
        let ttl = digits::dec(site.cache.ttl_seconds as nat);
        let n = CACHE_ZONE@.len() as int;
        assert(CACHE_ZONE@.skip(n - 18) =~= "    fastcgi_cache "@);
        assert(CACHE_TTL@ =~= ";\n    fastcgi_cache_valid 200 301 302 "@);
        assert(CACHE_TAIL@.take(2) =~= "s;"@);
        let part = "    fastcgi_cache "@ + zone(site) + ";\n    fastcgi_cache_valid 200 301 302 "@
            + ttl + "s;"@;
        assert(text =~= CACHE_ZONE@.take(n - 18) + part + CACHE_TAIL@.skip(2));
        effects::lemma_has_middle(CACHE_ZONE@.take(n - 18), part, CACHE_TAIL@.skip(2));
        lemma_vhost_has(config, caps, site, ssl, at, part);
        let declared = spec_render_cache_zone(config, site);
        let m = ZONE_DIR@.len() as int;
        assert(ZONE_DIR@.skip(m - 19) =~= "fastcgi_cache_path "@);
        assert(ZONE_NAME@ =~= " levels=1:2 keys_zone="@);
        assert(ZONE_TAIL@.take(5) =~= ":32m "@);
        let line = "fastcgi_cache_path "@ + config.spec_cache_dir(site.domain)
            + " levels=1:2 keys_zone="@ + zone(site) + ":32m "@;
        assert(declared =~= ZONE_DIR@.take(m - 19) + line + ZONE_TAIL@.skip(5));
        effects::lemma_has_middle(ZONE_DIR@.take(m - 19), line, ZONE_TAIL@.skip(5));
    } else {
        reveal_strlit(r#"    set $skip_cache 1;
"#);
        reveal_strlit("    set $skip_cache 1;\n");
        assert(text =~= "    set $skip_cache 1;\n"@);
        let none = Seq::<char>::empty();
        assert(none + text + none =~= text);
        effects::lemma_has_middle(none, text, none);
        lemma_vhost_has(config, caps, site, ssl, at, "    set $skip_cache 1;\n"@);
    }
}

/// What stands in the middle of a text at some place stands in the text.
proof fn lemma_has_slice(front: Seq<char>, middle: Seq<char>, back: Seq<char>, at: int, part: Seq<char>)
    requires
        0 <= at,
        at + part.len() <= middle.len(),
        middle.subrange(at, at + part.len()) =~= part,
    ensures
        text::has(front + middle + back, part),
{
    assert(text::occurs_at(middle, part, at));
    effects::lemma_has_middle(front, middle, back);
    effects::lemma_has_part(front + middle + back, middle, part);
}

/// Pages of visitors who have signed in, commented or filled a cart, of the back office, of
/// forms and of searches are neither cached nor served from the cache.
pub proof fn law_private_pages_are_never_cached(
    config: Config,
    caps: NginxCapabilities,
    site: RecordView,
    ssl: bool,
)
    requires
        site.cache.fastcgi_cache,
    ensures
        text::has(
            spec_render_vhost(config, caps, site, ssl),
            "if ($request_method = POST) { set $skip_cache 1; }"@,
        ),
        text::has(
            spec_render_vhost(config, caps, site, ssl),
            "if ($query_string != \"\") { set $skip_cache 1; }"@,
        ),
        text::has(
            spec_render_vhost(config, caps, site, ssl),
            "if ($request_uri ~* \"/wp-admin/|/wp-json/|/xmlrpc.php|wp-.*\\.php|/feed/|sitemap(_index)?\\.xml\") { set $skip_cache 1; }"@,
        ),
        text::has(
            spec_render_vhost(config, caps, site, ssl),
            "if ($http_cookie ~* \"comment_author|wordpress_[a-f0-9]+|wp-postpass|wordpress_logged_in|woocommerce_items_in_cart|woocommerce_cart_hash\") { set $skip_cache 1; }"@,
        ),
        text::has(
            spec_render_vhost(config, caps, site, ssl),
            "fastcgi_cache_bypass $skip_cache;"@,
        ),
        text::has(
            spec_render_vhost(config, caps, site, ssl),
            "fastcgi_no_cache $skip_cache;"@,
        ),
{
    let v = vhost_blocks(config, caps, site, ssl);
    reveal_strlit(r#"
    # ---- FastCGI cache (WordPress aware) --------------------------------
    set $skip_cache 0;
    if ($request_method = POST) { set $skip_cache 1; }
    if ($query_string != "") { set $skip_cache 1; }
    if ($request_uri ~* "/wp-admin/|/wp-json/|/xmlrpc.php|wp-.*\.php|/feed/|sitemap(_index)?\.xml") { set $skip_cache 1; }
    if ($http_cookie ~* "comment_author|wordpress_[a-f0-9]+|wp-postpass|wordpress_logged_in|woocommerce_items_in_cart|woocommerce_cart_hash") { set $skip_cache 1; }

    fastcgi_cache "#);
    reveal_strlit(r#"s;
    fastcgi_cache_bypass $skip_cache;
    fastcgi_no_cache $skip_cache;
    fastcgi_cache_use_stale error timeout updating http_500 http_503;
    fastcgi_cache_background_update on;
    fastcgi_cache_lock on;
    add_header X-Cache $upstream_cache_status;
"#);
    reveal_strlit("if ($request_method = POST) { set $skip_cache 1; }");
    reveal_strlit("if ($query_string != \"\") { set $skip_cache 1; }");
    reveal_strlit("if ($request_uri ~* \"/wp-admin/|/wp-json/|/xmlrpc.php|wp-.*\\.php|/feed/|sitemap(_index)?\\.xml\") { set $skip_cache 1; }");
    reveal_strlit("if ($http_cookie ~* \"comment_author|wordpress_[a-f0-9]+|wp-postpass|wordpress_logged_in|woocommerce_items_in_cart|woocommerce_cart_hash\") { set $skip_cache 1; }");
    reveal_strlit("fastcgi_cache_bypass $skip_cache;");
    reveal_strlit("fastcgi_no_cache $skip_cache;");
    let at = v.len() - 1 - cache_blocks(caps, site).len();
    assert(v[at] == cache_blocks(caps, site)[0]);
    let ttl = digits::dec(site.cache.ttl_seconds as nat);
    let front = Seq::<char>::empty();
    let back = zone(site) + CACHE_TTL@ + ttl + CACHE_TAIL@;
    assert(v[at].text =~= front + CACHE_ZONE@ + back);
    lemma_has_slice(front, CACHE_ZONE@, back, 104, "if ($request_method = POST) { set $skip_cache 1; }"@);
    lemma_vhost_has(config, caps, site, ssl, at, "if ($request_method = POST) { set $skip_cache 1; }"@);
    lemma_has_slice(front, CACHE_ZONE@, back, 159, "if ($query_string != \"\") { set $skip_cache 1; }"@);
    lemma_vhost_has(config, caps, site, ssl, at, "if ($query_string != \"\") { set $skip_cache 1; }"@);
    lemma_has_slice(front, CACHE_ZONE@, back, 211, "if ($request_uri ~* \"/wp-admin/|/wp-json/|/xmlrpc.php|wp-.*\\.php|/feed/|sitemap(_index)?\\.xml\") { set $skip_cache 1; }"@);
    lemma_vhost_has(config, caps, site, ssl, at, "if ($request_uri ~* \"/wp-admin/|/wp-json/|/xmlrpc.php|wp-.*\\.php|/feed/|sitemap(_index)?\\.xml\") { set $skip_cache 1; }"@);
    lemma_has_slice(front, CACHE_ZONE@, back, 334, "if ($http_cookie ~* \"comment_author|wordpress_[a-f0-9]+|wp-postpass|wordpress_logged_in|woocommerce_items_in_cart|woocommerce_cart_hash\") { set $skip_cache 1; }"@);
    lemma_vhost_has(config, caps, site, ssl, at, "if ($http_cookie ~* \"comment_author|wordpress_[a-f0-9]+|wp-postpass|wordpress_logged_in|woocommerce_items_in_cart|woocommerce_cart_hash\") { set $skip_cache 1; }"@);
    let front = CACHE_ZONE@ + zone(site) + CACHE_TTL@ + ttl;
    let back = Seq::<char>::empty();
    assert(v[at].text =~= front + CACHE_TAIL@ + back);
    lemma_has_slice(front, CACHE_TAIL@, back, 7, "fastcgi_cache_bypass $skip_cache;"@);
    lemma_vhost_has(config, caps, site, ssl, at, "fastcgi_cache_bypass $skip_cache;"@);
    lemma_has_slice(front, CACHE_TAIL@, back, 45, "fastcgi_no_cache $skip_cache;"@);
    lemma_vhost_has(config, caps, site, ssl, at, "fastcgi_no_cache $skip_cache;"@);
}

/// Every vhost refuses to run PHP from uploads and to serve hidden files, limits the rate
/// of logins, and keeps browsers from guessing types and from framing pages.
pub proof fn law_vhost_is_hardened(
    config: Config,
    caps: NginxCapabilities,
    site: RecordView,
    ssl: bool,
)
    ensures
        text::has(
            spec_render_vhost(config, caps, site, ssl),
            "location ~* /(?:uploads|files)/.*\\.php$ { deny all; }"@,
        ),
        text::has(
            spec_render_vhost(config, caps, site, ssl),
            "location ~ /\\.(?!well-known) { deny all; }"@,
        ),
        text::has(
            spec_render_vhost(config, caps, site, ssl),
            "limit_req zone=wp_login burst=5 nodelay;"@,
        ),
        text::has(
            spec_render_vhost(config, caps, site, ssl),
            "add_header X-Content-Type-Options nosniff always;"@,
        ),
        text::has(
            spec_render_vhost(config, caps, site, ssl),
            "add_header X-Frame-Options SAMEORIGIN always;"@,
        ),
        text::has(
            spec_render_vhost(config, caps, site, ssl),
            "server_tokens off;"@,
        ),
{
    let v = vhost_blocks(config, caps, site, ssl);
    reveal_strlit(r#"
    # Static assets are served straight off disk.
    location ~* \.(?:css|js|jpg|jpeg|png|gif|webp|avif|svg|woff2?|ttf|ico|mp4)$ {
        expires 30d;
        add_header Cache-Control "public, immutable";
        access_log off;
        try_files $uri =404;
    }

    location = /favicon.ico { access_log off; log_not_found off; }
    location = /robots.txt  { access_log off; log_not_found off; }

    # Hardening: no PHP execution in uploads, no dotfiles.
    location ~* /(?:uploads|files)/.*\.php$ { deny all; }
    location ~ /\.(?!well-known) { deny all; }

    # Rate limit the login form.
    location = /wp-login.php {
        limit_req zone=wp_login burst=5 nodelay;
        include fastcgi_params;
        fastcgi_pass unix:"#);
    reveal_strlit(r#"/nginx-error.log warn;

    client_max_body_size 128m;
    server_tokens off;

    add_header X-Content-Type-Options nosniff always;
    add_header X-Frame-Options SAMEORIGIN always;
    add_header Referrer-Policy strict-origin-when-cross-origin always;

    gzip on;
    gzip_vary on;
    gzip_types text/plain text/css application/javascript application/json image/svg+xml;
"#);
    reveal_strlit("location ~* /(?:uploads|files)/.*\\.php$ { deny all; }");
    reveal_strlit("location ~ /\\.(?!well-known) { deny all; }");
    reveal_strlit("limit_req zone=wp_login burst=5 nodelay;");
    reveal_strlit("add_header X-Content-Type-Options nosniff always;");
    reveal_strlit("add_header X-Frame-Options SAMEORIGIN always;");
    reveal_strlit("server_tokens off;");
    let at = files_at(caps, site, ssl);
    let files = file_blocks(config, caps, site);
    assert(v[at] == files[0] && v[at + 2] == files[2]);
    let public = config.spec_in_site(site.domain, "public_html"@);
    let logs = config.spec_in_site(site.domain, "logs"@);
    let socket = config.spec_in_site(site.domain, "tmp/php-fpm.sock"@);
    let front = Seq::<char>::empty();
    let back = socket + LOGIN_TAIL@;
    assert(v[at + 2].text =~= front + LOCATIONS@ + back);
    lemma_has_slice(front, LOCATIONS@, back, 466, "location ~* /(?:uploads|files)/.*\\.php$ { deny all; }"@);
    lemma_vhost_has(config, caps, site, ssl, at + 2, "location ~* /(?:uploads|files)/.*\\.php$ { deny all; }"@);
    lemma_has_slice(front, LOCATIONS@, back, 524, "location ~ /\\.(?!well-known) { deny all; }"@);
    lemma_vhost_has(config, caps, site, ssl, at + 2, "location ~ /\\.(?!well-known) { deny all; }"@);
    lemma_has_slice(front, LOCATIONS@, back, 640, "limit_req zone=wp_login burst=5 nodelay;"@);
    lemma_vhost_has(config, caps, site, ssl, at + 2, "limit_req zone=wp_login burst=5 nodelay;"@);
    let front = SERVER_NAMES@ + server_names(site) + ROOT@ + public + ACCESS_LOG@ + logs + ERROR_LOG@ + logs;
    let back = Seq::<char>::empty();
    assert(v[at].text =~= front + HEADERS@ + back);
    lemma_has_slice(front, HEADERS@, back, 83, "add_header X-Content-Type-Options nosniff always;"@);
    lemma_vhost_has(config, caps, site, ssl, at, "add_header X-Content-Type-Options nosniff always;"@);
    lemma_has_slice(front, HEADERS@, back, 137, "add_header X-Frame-Options SAMEORIGIN always;"@);
    lemma_vhost_has(config, caps, site, ssl, at, "add_header X-Frame-Options SAMEORIGIN always;"@);
    lemma_has_slice(front, HEADERS@, back, 59, "server_tokens off;"@);
    lemma_vhost_has(config, caps, site, ssl, at, "server_tokens off;"@);
}

/// With TLS, nothing older than version 1.2 is spoken, and browsers are told to stay with
/// it for a year.
pub proof fn law_tls_is_modern(
    config: Config,
    caps: NginxCapabilities,
    site: RecordView,
    ssl: bool,
)
    requires
        ssl,
    ensures
        text::has(
            spec_render_vhost(config, caps, site, ssl),
            "ssl_protocols TLSv1.2 TLSv1.3;"@,
        ),
        text::has(
            spec_render_vhost(config, caps, site, ssl),
            "add_header Strict-Transport-Security \"max-age=31536000\" always;"@,
        ),
{
    let v = vhost_blocks(config, caps, site, ssl);
    reveal_strlit(r#"/privkey.pem;
    ssl_protocols TLSv1.2 TLSv1.3;
    ssl_prefer_server_ciphers off;
    ssl_session_cache shared:SSL:10m;
    ssl_stapling on;
    add_header Strict-Transport-Security "max-age=31536000" always;
"#);
    reveal_strlit("ssl_protocols TLSv1.2 TLSv1.3;");
    reveal_strlit("add_header Strict-Transport-Security \"max-age=31536000\" always;");
    let listen = listen_blocks(caps, site, ssl);
    let at = head_blocks(caps, site, ssl).len() + listen.len() as int;
    assert(v[at] == listen[listen.len() - 1]);
    let front = CERTIFICATE@ + site.domain + CERTIFICATE_KEY@ + site.domain;
    let back = Seq::<char>::empty();
    assert(v[at].text =~= front + TLS_TAIL@ + back);
    lemma_has_slice(front, TLS_TAIL@, back, 18, "ssl_protocols TLSv1.2 TLSv1.3;"@);
    lemma_vhost_has(config, caps, site, ssl, at, "ssl_protocols TLSv1.2 TLSv1.3;"@);
    lemma_has_slice(front, TLS_TAIL@, back, 147, "add_header Strict-Transport-Security \"max-age=31536000\" always;"@);
    lemma_vhost_has(config, caps, site, ssl, at, "add_header Strict-Transport-Security \"max-age=31536000\" always;"@);
}

/// Neighbouring blocks stand next to each other in the texts put together.
proof fn lemma_flatten_joins(v: Seq<BlockView>, at: int)
    requires
        0 <= at,
        at + 1 < v.len(),
    ensures
        text::has(flatten(v), v[at].text + v[at + 1].text),
    decreases v.len(),
{
    let t = v[at].text + v[at + 1].text;
    let front = flatten(v.drop_last());
    if at + 1 == v.len() - 1 {
        let w = v.drop_last();
        let s = flatten(w.drop_last());
        assert(flatten(v) =~= s + t);
        effects::lemma_has_middle(s, t, Seq::empty());
        assert(s + t + Seq::<char>::empty() =~= s + t);
    } else {
        lemma_flatten_joins(v.drop_last(), at);
        effects::lemma_has_middle(Seq::empty(), front, v.last().text);
        assert(Seq::<char>::empty() + front + v.last().text =~= flatten(v));
        effects::lemma_has_part(flatten(v), front, t);
    }
}

/// What the blocks that are about TLS hold.
proof fn lemma_tls_texts(caps: NginxCapabilities, site: RecordView)
    ensures
        ({
            let listen = listen_blocks(caps, site, true);
            let certificate = listen[listen.len() - 1].text;
            &&& text::has(listen[0].text, "    listen 443 ssl"@)
            &&& text::has(
                certificate,
                "ssl_certificate     /etc/letsencrypt/live/"@ + site.domain + "/fullchain.pem;"@,
            )
            &&& text::has(
                certificate,
                "ssl_certificate_key /etc/letsencrypt/live/"@ + site.domain + "/privkey.pem;"@,
            )
            &&& text::has(
                head_blocks(caps, site, true)[2].text,
                "return 301 https://$host$request_uri;"@,
            )
        }),
{
    reveal_strlit("    listen 443 ssl");
    reveal_strlit(r#"    listen 443 ssl http2;
    listen [::]:443 ssl http2;
"#);
    reveal_strlit(r#"    listen 443 ssl;
    listen [::]:443 ssl;
    http2 on;
"#);
    reveal_strlit("ssl_certificate     /etc/letsencrypt/live/");
    reveal_strlit("ssl_certificate_key /etc/letsencrypt/live/");
    reveal_strlit("/fullchain.pem;");
    reveal_strlit("/privkey.pem;");
    reveal_strlit(r#"    ssl_certificate     /etc/letsencrypt/live/"#);
    reveal_strlit(r#"/fullchain.pem;
    ssl_certificate_key /etc/letsencrypt/live/"#);
    reveal_strlit(r#"/privkey.pem;
    ssl_protocols TLSv1.2 TLSv1.3;
    ssl_prefer_server_ciphers off;
    ssl_session_cache shared:SSL:10m;
    ssl_stapling on;
    add_header Strict-Transport-Security "max-age=31536000" always;
"#);
    reveal_strlit(r#";
    location /.well-known/acme-challenge/ { root /var/www/acme; }
    location / { return 301 https://$host$request_uri; }
}

"#);
    reveal_strlit("return 301 https://$host$request_uri;");
    let listen = listen_blocks(caps, site, true);
    let l = listen[0].text;
    let pat = "    listen 443 ssl"@;
    assert(l.subrange(0, pat.len() as int) =~= pat);
    assert(text::occurs_at(l, pat, 0));
    let d = site.domain;
    let c = listen[listen.len() - 1].text;
    let cert = "ssl_certificate     /etc/letsencrypt/live/"@ + d + "/fullchain.pem;"@;
    let key = "ssl_certificate_key /etc/letsencrypt/live/"@ + d + "/privkey.pem;"@;
    let k = "/fullchain.pem;"@.len() as int;
    let n = "/privkey.pem;"@.len() as int;
    assert(CERTIFICATE@.skip(4) =~= "ssl_certificate     /etc/letsencrypt/live/"@);
    assert(CERTIFICATE_KEY@.take(k) =~= "/fullchain.pem;"@);
    assert(CERTIFICATE_KEY@.skip(k + 5) =~= "ssl_certificate_key /etc/letsencrypt/live/"@);
    assert(TLS_TAIL@.take(n) =~= "/privkey.pem;"@);
    let rest = CERTIFICATE_KEY@.skip(k) + d + TLS_TAIL@;
    assert(c =~= CERTIFICATE@.take(4) + cert + rest);
    effects::lemma_has_middle(CERTIFICATE@.take(4), cert, rest);
    let front = CERTIFICATE@ + d + CERTIFICATE_KEY@.take(k + 5);
    assert(c =~= front + key + TLS_TAIL@.skip(n));
    effects::lemma_has_middle(front, key, TLS_TAIL@.skip(n));
    let moved = "return 301 https://$host$request_uri;"@;
    let h = head_blocks(caps, site, true)[2].text;
    let m = moved.len() as int;
    let at = 85int;
    assert(REDIRECT_TAIL@.subrange(at, at + m) =~= moved);
    let a = REDIRECT_NAMES@ + server_names(site) + REDIRECT_TAIL@.take(at);
    assert(h =~= a + moved + REDIRECT_TAIL@.skip(at + m));
    effects::lemma_has_middle(a, moved, REDIRECT_TAIL@.skip(at + m));
}

/// What the blocks of a vhost without TLS hold, or begin with.
#[verifier::rlimit(40)]
proof fn lemma_plain_texts(config: Config, caps: NginxCapabilities, site: RecordView)
    ensures
        text::has(SERVER@ + LISTEN_PLAIN@, "server {\n    listen 80;\n    listen [::]:80;\n"@),
        forall|i: int|
            0 <= i < vhost_blocks(config, caps, site, false).len() ==> !is_tls_block(
                #[trigger] vhost_blocks(config, caps, site, false)[i],
            ),
{
    reveal_strlit(r#"server {
"#);
    reveal_strlit(r#"    listen 80;
    listen [::]:80;
"#);
    reveal_strlit("server {\n    listen 80;\n    listen [::]:80;\n");
    let pair = SERVER@ + LISTEN_PLAIN@;
    let pat = "server {\n    listen 80;\n    listen [::]:80;\n"@;
    assert(pair =~= pat);
    assert(pair.subrange(0, pat.len() as int) =~= pat);
    assert(text::occurs_at(pair, pat, 0));
    let v = vhost_blocks(config, caps, site, false);
    let files = file_blocks(config, caps, site);
    let cache = cache_blocks(caps, site);
    let n = v.len() as int;
    lemma_first_signs(config, caps, site);
    assert forall|i: int| 0 <= i < n implies !is_tls_block(#[trigger] v[i]) by {
        if i < 2 {
            assert(v[i] == head_blocks(caps, site, false)[i]);
        } else if i == 2 {
            assert(v[i].text == SERVER@);
        } else if i == 3 {
            assert(v[i] == listen_blocks(caps, site, false)[0]);
        } else if i < 7 {
            assert(v[i] == files[i - 4]);
        } else if i < n - 1 {
            assert(v[i] == cache[i - 7]);
        } else {
            assert(v[i].text[0] == '\n');
        }
        lemma_tls_signs(v[i]);
    }
}

/// A block that is about TLS is told by its first signs.
proof fn lemma_tls_signs(b: BlockView)
    ensures
        is_tls_block(b) ==> b.text.len() >= 14 && b.text[0] == ' ' && ((b.text[4] == 'l'
            && b.text[11] == '4') || (b.text[4] == 's' && b.text[5] == 's')),
{
    reveal_strlit("    listen 443");
    reveal_strlit("    ssl_certificate");
    let p = "    listen 443"@;
    let q = "    ssl_certificate"@;
    if text::starts_with(b.text, p) {
        let s = b.text.subrange(0, p.len() as int);
        assert(s[0] == b.text[0] && s[4] == b.text[4] && s[11] == b.text[11]);
    }
    if text::starts_with(b.text, q) {
        let s = b.text.subrange(0, q.len() as int);
        assert(s[0] == b.text[0] && s[4] == b.text[4] && s[5] == b.text[5]);
    }
}

/// The first signs of the blocks of a vhost without TLS.
proof fn lemma_first_signs(config: Config, caps: NginxCapabilities, site: RecordView)
    ensures
        head_blocks(caps, site, false)[0].text[0] == '#',
        head_blocks(caps, site, false)[1].text.len() == 0 || head_blocks(caps, site, false)[1].text[0]
            == '#',
        file_blocks(config, caps, site)[0].text[4] == 's',
        file_blocks(config, caps, site)[0].text[5] == 'e',
        file_blocks(config, caps, site)[1].text[4] == 'b' || file_blocks(
            config,
            caps,
            site,
        )[1].text[4] == 'g',
        file_blocks(config, caps, site)[2].text[0] == '\n',
        forall|i: int|
            0 <= i < cache_blocks(caps, site).len() ==> (#[trigger] cache_blocks(caps, site)[i]).text[0]
                == '\n' || (cache_blocks(caps, site)[i].text[4] == 's' && cache_blocks(
                caps,
                site,
            )[i].text[5] == 'e'),
        PHP@.len() > 0,
        PHP@[0] == '\n',
{
    reveal_strlit(r#"# Managed by wp-panel. Manual edits are overwritten.
# Rendered for nginx "#);
    reveal_strlit("# optional features: ");
    reveal_strlit("");
    reveal_strlit(r#"    server_name "#);
    reveal_strlit(r#"    brotli on;
    brotli_comp_level 5;
    brotli_static on;
    brotli_types text/plain text/css application/javascript application/json image/svg+xml;
"#);
    reveal_strlit(r#"    gzip_static on;
"#);
    reveal_strlit(r#"    set $skip_cache 1;
"#);
    reveal_strlit(r#"
    # Static assets are served straight off disk.
    location ~* \.(?:css|js|jpg|jpeg|png|gif|webp|avif|svg|woff2?|ttf|ico|mp4)$ {
        expires 30d;
        add_header Cache-Control "public, immutable";
        access_log off;
        try_files $uri =404;
    }

    location = /favicon.ico { access_log off; log_not_found off; }
    location = /robots.txt  { access_log off; log_not_found off; }

    # Hardening: no PHP execution in uploads, no dotfiles.
    location ~* /(?:uploads|files)/.*\.php$ { deny all; }
    location ~ /\.(?!well-known) { deny all; }

    # Rate limit the login form.
    location = /wp-login.php {
        limit_req zone=wp_login burst=5 nodelay;
        include fastcgi_params;
        fastcgi_pass unix:"#);
    reveal_strlit(r#"
    # ---- FastCGI cache (WordPress aware) --------------------------------
    set $skip_cache 0;
    if ($request_method = POST) { set $skip_cache 1; }
    if ($query_string != "") { set $skip_cache 1; }
    if ($request_uri ~* "/wp-admin/|/wp-json/|/xmlrpc.php|wp-.*\.php|/feed/|sitemap(_index)?\.xml") { set $skip_cache 1; }
    if ($http_cookie ~* "comment_author|wordpress_[a-f0-9]+|wp-postpass|wordpress_logged_in|woocommerce_items_in_cart|woocommerce_cart_hash") { set $skip_cache 1; }

    fastcgi_cache "#);
    reveal_strlit(r#"
    # ---- Targeted cache purge (ngx_cache_purge) ---------------------------
    location ~ /wp-panel-purge(/.*) {
        allow 127.0.0.1;
        allow ::1;
        deny all;
        fastcgi_cache_purge "#);
    reveal_strlit(r#"
    location / {
        try_files $uri $uri/ /index.php?$args;
    }

    location ~ \.php$ {
        try_files $uri =404;
        include fastcgi_params;
        fastcgi_pass unix:"#);
}

/// The text of a block stands in the texts of the blocks put together.
proof fn lemma_flatten_has(v: Seq<BlockView>, at: int)
    requires
        0 <= at < v.len(),
    ensures
        text::has(flatten(v), v[at].text),
    decreases v.len(),
{
    let t = v[at].text;
    let front = flatten(v.drop_last());
    if at == v.len() - 1 {
        assert(text::occurs_at(flatten(v), t, front.len() as int)) by {
            assert(flatten(v).subrange(front.len() as int, (front.len() + t.len()) as int) =~= t);
        }
    } else {
        lemma_flatten_has(v.drop_last(), at);
        let i = choose|i: int| #[trigger] text::occurs_at(front, t, i);
        assert(text::occurs_at(flatten(v), t, i)) by {
            assert(flatten(v).subrange(i, i + t.len()) =~= front.subrange(i, i + t.len()));
        }
    }
}

// ---------------------------------------------------------------------------
// The server
// ---------------------------------------------------------------------------

/// Nginx as a web server backend. Holds the host's capabilities so callers do
/// not have to thread them through every call.
#[derive(Debug)]
pub struct NginxServer {
    pub config: Config,
    pub caps: NginxCapabilities,
}

/// Writes a file whose directory may not be there yet.
pub open spec fn write_tasks(file: Seq<char>, contents: Seq<char>) -> Seq<TaskView> {
    (match path::path_parent(file) {
        Some(dir) => seq![plan::plain(ActionView::MakeDir(dir))],
        None => Seq::empty(),
    }) + seq![
        plan::plain(ActionView::WriteFile { path: file, contents, context: ""@ }),
    ]
}

/// Executable form of [`write_tasks`].
pub fn push_write(v: &mut Vec<Task>, file: String, contents: String)
    ensures
        plan::tasks(final(v)@) == plan::tasks(old(v)@) + write_tasks(file@, contents@),
{
    let ghost before = plan::tasks(v@);
    if let Some(dir) = path::parent(file.as_str()) {
        plan::push_action(v, Action::MakeDir(dir));
    }
    let ghost f = file@;
    let ghost c = contents@;
    plan::push_action(v, Action::WriteFile { path: file, contents, context: "".to_owned() });
    assert(plan::tasks(v@) =~= before + write_tasks(f, c));
}

impl NginxServer {
    pub fn new(config: Config, caps: NginxCapabilities) -> (s: Self)
        ensures
            s.config == config,
            s.caps == caps,
    {
        NginxServer { config, caps }
    }

    /// The file that declares a site's cache zone.
    pub open spec fn spec_cache_zone_path(self, domain: Seq<char>) -> Seq<char> {
        path::join(
            path::join(
                match path::path_parent(self.config.nginx_dir@) {
                    Some(dir) => dir,
                    None => self.config.nginx_dir@,
                },
                "conf.d"@,
            ),
            "wp-cache-"@ + domain + ".conf"@,
        )
    }

    /// Executable form of [`NginxServer::spec_cache_zone_path`].
    pub fn cache_zone_path(&self, domain: &str) -> (s: String)
        ensures
            s@ == self.spec_cache_zone_path(domain@),
    {
        let base = match path::parent(self.config.nginx_dir.as_str()) {
            Some(dir) => dir,
            None => self.config.nginx_dir.clone(),
        };
        let dir = path::joined(base.as_str(), "conf.d");
        let file = text::cat3("wp-cache-", domain, ".conf");
        path::joined(dir.as_str(), file.as_str())
    }

    /// Writes the cache zone when caching is on, then the vhost.
    pub open spec fn spec_write_site(self, site: RecordView, ssl: bool) -> Seq<TaskView> {
        (if site.cache.fastcgi_cache {
            write_tasks(
                self.spec_cache_zone_path(site.domain),
                spec_render_cache_zone(self.config, site),
            )
        } else {
            Seq::empty()
        }) + write_tasks(
            self.config.spec_vhost_path(site.domain),
            spec_render_vhost(self.config, self.caps, site, ssl),
        )
    }

    /// Writes the vhost (and the site's cache zone when caching is on).
    pub fn write_site(&self, site: &SiteRecord, ssl: bool) -> (v: Vec<Task>)
        ensures
            plan::tasks(v@) == self.spec_write_site(site@, ssl),
    {
        let mut v = plan::no_tasks();
        let domain = site.domain.as_str();
        if site.cache.fastcgi_cache {
            let file = self.cache_zone_path(domain);
            push_write(&mut v, file, render_cache_zone(&self.config, site));
        }
        let file = self.config.vhost_path(domain);
        push_write(&mut v, file, render_vhost(&self.config, &self.caps, site, ssl));
        assert(plan::tasks(v@) =~= self.spec_write_site(site@, ssl));
        v
    }

    /// Removes the vhost and the cache zone, as far as they are there.
    pub open spec fn spec_remove_site(self, domain: Seq<char>) -> Seq<TaskView> {
        seq![
            TaskView {
                action: ActionView::RemoveFile(self.config.spec_vhost_path(domain)),
                verdict: VerdictView::Ignored,
            },
            TaskView {
                action: ActionView::RemoveFile(self.spec_cache_zone_path(domain)),
                verdict: VerdictView::Ignored,
            },
        ]
    }

    pub fn remove_site(&self, domain: &str) -> (v: Vec<Task>)
        ensures
            plan::tasks(v@) == self.spec_remove_site(domain@),
    {
        let mut v = plan::no_tasks();
        plan::push_task(
            &mut v,
            Task {
                action: Action::RemoveFile(self.config.vhost_path(domain)),
                verdict: Verdict::Ignored,
            },
        );
        plan::push_task(
            &mut v,
            Task {
                action: Action::RemoveFile(self.cache_zone_path(domain)),
                verdict: Verdict::Ignored,
            },
        );
        v
    }

    /// `nginx -t` before every reload: a bad config never reaches production.
    pub open spec fn spec_test() -> TaskView {
        plan::plain(plan::command("nginx"@, seq!["-t"@]))
    }

    /// Validates, then applies.
    pub open spec fn spec_reload() -> Seq<TaskView> {
        seq![
            Self::spec_test(),
            plan::plain(plan::command("systemctl"@, seq!["reload"@, "nginx"@])),
        ]
    }

    /// `nginx -t` before every reload: a bad config never reaches production.
    pub fn test(&self) -> (t: Task)
        ensures
            t@ == Self::spec_test(),
    {
        plan::plain_task(plan::run("nginx", text::list1("-t")))
    }

    pub fn reload(&self) -> (v: Vec<Task>)
        ensures
            plan::tasks(v@) == Self::spec_reload(),
    {
        let mut v = plan::no_tasks();
        plan::push_task(&mut v, self.test());
        plan::push_action(&mut v, plan::run("systemctl", text::list2("reload", "nginx")));
        v
    }

    /// Empties the cache directory of one site.
    pub open spec fn spec_purge(self, domain: Seq<char>) -> Seq<TaskView> {
        seq![
            plan::plain(
                plan::command(
                    "find"@,
                    seq![self.config.spec_cache_dir(domain), "-type"@, "f"@, "-delete"@],
                ),
            ),
        ]
    }

    /// Purges the FastCGI cache directory for one site.
    pub fn purge(&self, domain: &str) -> (v: Vec<Task>)
        ensures
            plan::tasks(v@) == self.spec_purge(domain@),
    {
        let dir = self.config.cache_dir(domain);
        plan::only(plan::run("find", text::list4(dir.as_str(), "-type", "f", "-delete")))
    }
}

/// A configuration that does not pass its test is not applied: where a stage tests and
/// then reloads, a failed test ends the stage before the reload is asked for.
pub proof fn law_invalid_configuration_is_not_applied(
    r: RunnerView,
    at: int,
    outcome: Result<OutputView, ErrorView>,
    ms: u64,
)
    requires
        r.wf(),
        !r.done(),
        0 <= at,
        at + NginxServer::spec_reload().len() <= r.plan[r.stage].tasks.len(),
        r.plan[r.stage].tasks.subrange(at, at + NginxServer::spec_reload().len())
            == NginxServer::spec_reload(),
        r.task == at,
        plan::judge(NginxServer::spec_test().verdict, r.said, outcome) is Err,
    ensures
        r.advance(outcome, ms).done() || r.stage < r.advance(outcome, ms).stage,
{
    let list = r.plan[r.stage].tasks;
    assert(list.subrange(at, at + NginxServer::spec_reload().len())[0] == list[at]);
    plan::law_failed_task_ends_its_stage(r, outcome, ms);
}

} // verus!
