//! What actions do to a host, read off their command lines: which paths they write,
//! which containers they start, which databases they read and fill.

use vstd::prelude::*;
use crate::agent::config::Config;
use crate::agent::ops::docker::has_pair;
use crate::agent::plan::{ActionView, StageView};
use crate::text;

verus! {

// ---------------------------------------------------------------------------
// Commands
// ---------------------------------------------------------------------------

/// The action runs a program.
pub open spec fn runs(a: ActionView, program: Seq<char>) -> bool {
    a matches ActionView::Run(c) && c.program == program
}

/// The arguments of a command.
pub open spec fn args_of(a: ActionView) -> Seq<Seq<char>> {
    match a {
        ActionView::Run(c) => c.args,
        _ => Seq::empty(),
    }
}

/// The argument that is `n` places before the last one.
pub open spec fn from_end(a: ActionView, n: int) -> Seq<char> {
    args_of(a)[args_of(a).len() - 1 - n]
}

/// A docker command with a verb, on a container that is named last.
pub open spec fn docker_does(a: ActionView, verb: Seq<char>, container: Seq<char>) -> bool {
    &&& runs(a, "docker"@)
    &&& args_of(a).len() >= 2
    &&& args_of(a)[0] == verb
    &&& from_end(a, 0) == container
}

/// A container is started from an image, under a name.
pub open spec fn starts(a: ActionView, name: Seq<char>, image: Seq<char>) -> bool {
    docker_does(a, "run"@, image) && has_pair(args_of(a), "--name"@, name)
}

/// WP-CLI runs in a container with these arguments.
pub open spec fn wp_runs(a: ActionView, container: Seq<char>, args: Seq<Seq<char>>) -> bool {
    &&& runs(a, "docker"@)
    &&& args_of(a) == seq![
        "exec"@,
        "--workdir"@,
        "/var/www/html"@,
        container,
        "wp"@,
        "--path=/var/www/html"@,
    ] + args
}

/// The script that a shell runs.
pub open spec fn script_of(a: ActionView) -> Option<Seq<char>> {
    if runs(a, "sh"@) && args_of(a).len() == 2 && args_of(a)[0] == "-c"@ {
        Some(args_of(a)[1])
    } else {
        None
    }
}

/// A script dumps a database of the host into a file.
pub open spec fn dumps(a: ActionView, name: Seq<char>, file: Seq<char>) -> bool {
    script_of(a) matches Some(s) && text::starts_with(s, "mysqldump "@) && text::has(
        s,
        " '"@ + name + "' > '"@ + file + "'"@,
    )
}

/// A script ends by loading a file into a database of the host.
pub open spec fn loads(a: ActionView, name: Seq<char>, file: Seq<char>) -> bool {
    script_of(a) matches Some(s) && ends_with(
        s,
        "mysql --protocol=socket '"@ + name + "' < '"@ + file + "'"@,
    )
}

/// `s` ends with `pat`.
pub open spec fn ends_with(s: Seq<char>, pat: Seq<char>) -> bool {
    text::occurs_at(s, pat, s.len() - pat.len())
}

/// Files are copied from one place to another.
pub open spec fn copies(a: ActionView, from: Seq<char>, to: Seq<char>) -> bool {
    runs(a, "rsync"@) && args_of(a).len() >= 2 && from_end(a, 1) == from && from_end(a, 0) == to
}

/// The path that an action makes, fills, changes or removes.
pub open spec fn writes(a: ActionView) -> Option<Seq<char>> {
    match a {
        ActionView::MakeDir(p) => Some(p),
        ActionView::WriteFile { path, .. } => Some(path),
        ActionView::Restrict(p) => Some(p),
        ActionView::RemoveFile(p) => Some(p),
        ActionView::Run(c) => if c.args.len() > 0 && (c.program == "rsync"@ || c.program
            == "chown"@ || c.program == "chmod"@ || c.program == "rm"@) {
            Some(c.args.last())
        } else if c.args.len() > 0 && c.program == "find"@ {
            Some(c.args[0])
        } else {
            None
        },
        _ => None,
    }
}

/// A tree is removed.
pub open spec fn removes(a: ActionView, dir: Seq<char>) -> bool {
    runs(a, "rm"@) && args_of(a).len() > 0 && args_of(a).last() == dir
}

/// Some action of a plan is such.
pub open spec fn some(list: Seq<StageView>, p: spec_fn(ActionView) -> bool) -> bool {
    exists|i: int, j: int|
        0 <= i < list.len() && 0 <= j < list[i].tasks.len() && p(
            (#[trigger] list[i].tasks[j]).action,
        )
}

/// Every action of a plan is such.
pub open spec fn every(list: Seq<StageView>, p: spec_fn(ActionView) -> bool) -> bool {
    forall|i: int, j: int|
        0 <= i < list.len() && 0 <= j < list[i].tasks.len() ==> p(
            (#[trigger] list[i].tasks[j]).action,
        )
}

/// Some action of a plan is such, and in a later stage one is such as well.
pub open spec fn first_then(
    list: Seq<StageView>,
    p: spec_fn(ActionView) -> bool,
    q: spec_fn(ActionView) -> bool,
) -> bool {
    exists|i: int, j: int, k: int, l: int|
        0 <= i < k < list.len() && 0 <= j < list[i].tasks.len() && 0 <= l < list[k].tasks.len()
            && p((#[trigger] list[i].tasks[j]).action) && q((#[trigger] list[k].tasks[l]).action)
}

/// An action of a plan, where it is such, is one that shows it.
pub proof fn show(list: Seq<StageView>, p: spec_fn(ActionView) -> bool, i: int, j: int)
    requires
        0 <= i < list.len(),
        0 <= j < list[i].tasks.len(),
        p(list[i].tasks[j].action),
    ensures
        some(list, p),
{
    assert(p((list[i].tasks[j]).action));
}

/// Two actions of a plan, where they are such, are ones that show it.
pub proof fn show_order(
    list: Seq<StageView>,
    p: spec_fn(ActionView) -> bool,
    q: spec_fn(ActionView) -> bool,
    i: int,
    j: int,
    k: int,
    l: int,
)
    requires
        0 <= i < k < list.len(),
        0 <= j < list[i].tasks.len(),
        0 <= l < list[k].tasks.len(),
        p(list[i].tasks[j].action),
        q(list[k].tasks[l].action),
    ensures
        first_then(list, p, q),
{
    assert(p((list[i].tasks[j]).action) && q((list[k].tasks[l]).action));
}

// ---------------------------------------------------------------------------
// Paths
// ---------------------------------------------------------------------------

/// A path is a directory or lies in it.
pub open spec fn below(path: Seq<char>, dir: Seq<char>) -> bool {
    path == dir || text::starts_with(path, dir + "/"@)
}

/// A text can be the name of a directory.
pub open spec fn is_name(s: Seq<char>) -> bool {
    s.len() > 0 && forall|i: int| 0 <= i < s.len() ==> #[trigger] s[i] != '/'
}

/// A part of a site's directory lies in it.
pub proof fn lemma_in_site(config: Config, domain: Seq<char>, part: Seq<char>)
    requires
        is_name(domain),
        part.len() > 0,
        part[0] != '/',
    ensures
        config.spec_in_site(domain, part) == config.spec_site_root(domain) + "/"@ + part,
        below(config.spec_in_site(domain, part), config.spec_site_root(domain)),
        below(config.spec_in_site(domain, part) + "/"@, config.spec_site_root(domain)),
{
    reveal_strlit("/");
    let root = config.spec_site_root(domain);
    assert(domain[0] != '/');
    assert(domain[domain.len() - 1] != '/');
    assert(root.last() == domain.last());
    let p = config.spec_in_site(domain, part);
    let front = root + "/"@;
    assert(p.subrange(0, front.len() as int) =~= front);
    let q = p + "/"@;
    assert(q.subrange(0, front.len() as int) =~= front);
}

/// The directories of different sites have nothing in common.
pub proof fn lemma_trees_apart(config: Config, a: Seq<char>, b: Seq<char>, p: Seq<char>)
    requires
        is_name(a),
        is_name(b),
        a != b,
        below(p, config.spec_site_root(a)),
    ensures
        !below(p, config.spec_site_root(b)),
{
    reveal_strlit("/");
    let base = config.sites_root@;
    let front = if base.len() == 0 || base.last() == '/' {
        base
    } else {
        base + "/"@
    };
    assert(a[0] != '/' && b[0] != '/');
    let x = config.spec_site_root(a);
    let y = config.spec_site_root(b);
    assert(x =~= front + a);
    assert(y =~= front + b);
    if below(p, y) {
        let n = front.len() as int;
        lemma_begins(p, x);
        lemma_begins(p, y);
        if a.len() < b.len() {
            assert(p[n + a.len()] == y[n + a.len()]);
            assert(y[n + a.len()] == b[a.len() as int]);
        } else if b.len() < a.len() {
            assert(p[n + b.len()] == x[n + b.len()]);
            assert(x[n + b.len()] == a[b.len() as int]);
        } else {
            assert forall|i: int| 0 <= i < a.len() implies a[i] == b[i] by {
                assert(p[n + i] == x[n + i]);
                assert(p[n + i] == y[n + i]);
            }
            assert(a =~= b);
        }
    }
}

/// A path in a directory begins with it; then it ends, or a separator follows.
pub proof fn lemma_begins(p: Seq<char>, dir: Seq<char>)
    requires
        below(p, dir),
    ensures
        dir.len() <= p.len(),
        forall|i: int| 0 <= i < dir.len() ==> #[trigger] p[i] == dir[i],
        dir.len() < p.len() ==> p[dir.len() as int] == '/',
{
    reveal_strlit("/");
    if p != dir {
        let front = dir + "/"@;
        let s = p.subrange(0, front.len() as int);
        assert(s == front);
        assert forall|i: int| 0 <= i < dir.len() implies #[trigger] p[i] == dir[i] by {
            assert(s[i] == front[i]);
        }
        assert(s[dir.len() as int] == front[dir.len() as int]);
    }
}

/// Every directory of a site lies where its sites are kept, under its domain, and what
/// lies in one site's directory lies in no other's.
pub proof fn law_sites_have_trees_of_their_own(
    config: Config,
    a: Seq<char>,
    b: Seq<char>,
    part: Seq<char>,
    path: Seq<char>,
)
    requires
        is_name(a),
        is_name(b),
        config.sites_root@.len() > 0,
        config.sites_root@.last() != '/',
        part.len() > 0,
        part[0] != '/',
    ensures
        config.spec_site_root(a) == config.sites_root@ + "/"@ + a,
        config.spec_in_site(a, part) == config.sites_root@ + "/"@ + a + "/"@ + part,
        a != b && below(path, config.spec_site_root(a)) ==> !below(
            path,
            config.spec_site_root(b),
        ),
{
    assert(a[0] != '/');
    lemma_in_site(config, a, part);
    if a != b && below(path, config.spec_site_root(a)) {
        lemma_trees_apart(config, a, b, path);
    }
}

// ---------------------------------------------------------------------------
// Texts
// ---------------------------------------------------------------------------

/// What stands in a part of a text stands in the text.
pub proof fn lemma_has_part(s: Seq<char>, t: Seq<char>, u: Seq<char>)
    requires
        text::has(s, t),
        text::has(t, u),
    ensures
        text::has(s, u),
{
    let i = choose|i: int| #[trigger] text::occurs_at(s, t, i);
    let j = choose|j: int| #[trigger] text::occurs_at(t, u, j);
    assert(s.subrange(i + j, i + j + u.len()) =~= s.subrange(i, i + t.len()).subrange(
        j,
        j + u.len(),
    ));
    assert(text::occurs_at(s, u, i + j));
}

/// A text stands between what is put before and after it.
pub proof fn lemma_has_middle(a: Seq<char>, t: Seq<char>, b: Seq<char>)
    ensures
        text::has(a + t + b, t),
{
    let s = a + t + b;
    assert(s.subrange(a.len() as int, (a.len() + t.len()) as int) =~= t);
    assert(text::occurs_at(s, t, a.len() as int));
}

/// What tells the names of programs and their verbs apart.
pub proof fn lemma_programs()
    ensures
        "docker"@.len() == 6,
        "docker"@[0] == 'd',
        "useradd"@.len() == 7,
        "useradd"@[0] == 'u',
        "userdel"@.len() == 7,
        "userdel"@[0] == 'u',
        "chown"@.len() == 5,
        "chown"@[0] == 'c',
        "chmod"@.len() == 5,
        "chmod"@[0] == 'c',
        "rm"@.len() == 2,
        "rm"@[0] == 'r',
        "du"@.len() == 2,
        "du"@[0] == 'd',
        "mysql"@.len() == 5,
        "mysql"@[0] == 'm',
        "sh"@.len() == 2,
        "sh"@[0] == 's',
        "rsync"@.len() == 5,
        "rsync"@[0] == 'r',
        "find"@.len() == 4,
        "find"@[0] == 'f',
        "nginx"@.len() == 5,
        "nginx"@[0] == 'n',
        "systemctl"@.len() == 9,
        "systemctl"@[0] == 's',
        "curl"@.len() == 4,
        "curl"@[0] == 'c',
        "certbot"@.len() == 7,
        "certbot"@[0] == 'c',
        "getent"@.len() == 6,
        "getent"@[0] == 'g',
        "restic"@.len() == 6,
        "restic"@[0] == 'r',
        "tail"@.len() == 4,
        "tail"@[0] == 't',
        "ssh"@.len() == 3,
        "ssh"@[0] == 's',
        "run"@.len() == 3,
        "run"@[0] == 'r',
        "stop"@.len() == 4,
        "stop"@[0] == 's',
        "restart"@.len() == 7,
        "restart"@[0] == 'r',
        "update"@.len() == 6,
        "update"@[0] == 'u',
        "inspect"@.len() == 7,
        "inspect"@[0] == 'i',
        "exec"@.len() == 4,
        "exec"@[0] == 'e',
        "pull"@.len() == 4,
        "pull"@[0] == 'p',
        "chown"@[2] == 'o',
        "chmod"@[2] == 'm',
        "useradd"@[4] == 'a',
        "userdel"@[4] == 'd',
        "restart"@[1] == 'e',
{
    reveal_strlit("docker");
    reveal_strlit("useradd");
    reveal_strlit("userdel");
    reveal_strlit("chown");
    reveal_strlit("chmod");
    reveal_strlit("rm");
    reveal_strlit("du");
    reveal_strlit("mysql");
    reveal_strlit("sh");
    reveal_strlit("rsync");
    reveal_strlit("find");
    reveal_strlit("nginx");
    reveal_strlit("systemctl");
    reveal_strlit("curl");
    reveal_strlit("certbot");
    reveal_strlit("getent");
    reveal_strlit("restic");
    reveal_strlit("tail");
    reveal_strlit("ssh");
    reveal_strlit("run");
    reveal_strlit("stop");
    reveal_strlit("restart");
    reveal_strlit("update");
    reveal_strlit("inspect");
    reveal_strlit("exec");
    reveal_strlit("pull");
}

} // verus!
