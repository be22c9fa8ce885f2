//! Commands on the host: what is logged of them, what dry-run does to them, and
//! what their outcomes mean.

use vstd::prelude::*;
use vstd::slice::slice_subrange;
use crate::common::error::{Error, ErrorView};
use crate::common::protocol;
use crate::common::protocol::{StepReport, StepReportView};
use crate::text;

verus! {

// ---------------------------------------------------------------------------
// Output
// ---------------------------------------------------------------------------

#[derive(Debug)]
pub struct CommandOutput {
    pub stdout: String,
    pub stderr: String,
    pub exit_code: i32,
    pub skipped: bool,
}

/// [`CommandOutput`] with its texts as sequences of characters.
pub struct OutputView {
    pub stdout: Seq<char>,
    pub stderr: Seq<char>,
    pub exit_code: i32,
    pub skipped: bool,
}

impl View for CommandOutput {
    type V = OutputView;

    open spec fn view(&self) -> OutputView {
        OutputView {
            stdout: self.stdout@,
            stderr: self.stderr@,
            exit_code: self.exit_code,
            skipped: self.skipped,
        }
    }
}

impl OutputView {
    /// The standard output without white space at either end.
    pub open spec fn trimmed(self) -> Seq<char> {
        text::trim(self.stdout, text::Class::White)
    }

    /// The output of a command that printed nothing and succeeded.
    pub open spec fn silent() -> OutputView {
        OutputView { stdout: Seq::empty(), stderr: Seq::empty(), exit_code: 0, skipped: false }
    }

    /// The output of a command that dry-run kept from running.
    pub open spec fn skip() -> OutputView {
        OutputView { stdout: Seq::empty(), stderr: Seq::empty(), exit_code: 0, skipped: true }
    }
}

impl Default for CommandOutput {
    fn default() -> (o: Self)
        ensures
            o@ == OutputView::silent(),
    {
        CommandOutput {
            stdout: String::new(),
            stderr: String::new(),
            exit_code: 0,
            skipped: false,
        }
    }
}

impl Clone for CommandOutput {
    fn clone(&self) -> (o: Self)
        ensures
            o == *self,
    {
        CommandOutput {
            stdout: self.stdout.clone(),
            stderr: self.stderr.clone(),
            exit_code: self.exit_code,
            skipped: self.skipped,
        }
    }
}

impl CommandOutput {
    pub fn trimmed_stdout(&self) -> (s: String)
        ensures
            s@ == self@.trimmed(),
    {
        text::trimmed_text(self.stdout.as_str())
    }

    /// The output of a command that dry-run kept from running.
    pub fn skip() -> (o: CommandOutput)
        ensures
            o@ == OutputView::skip(),
    {
        CommandOutput {
            stdout: String::new(),
            stderr: String::new(),
            exit_code: 0,
            skipped: true,
        }
    }
}

// ---------------------------------------------------------------------------
// What is logged of a command
// ---------------------------------------------------------------------------

/// Argument names whose *value* is a secret, in `--name=value` or
/// `--name value` form.
pub open spec fn secret_flag(s: Seq<char>) -> bool {
    ||| s == "--password"@
    ||| s == "--admin_password"@
    ||| s == "--dbpass"@
    ||| s == "--user_pass"@
    ||| s == "--secret"@
    ||| s == "--token"@
    ||| s == "-p"@
    ||| s == "--restic-password"@
}

/// Executable form of [`secret_flag`].
fn is_secret_flag(s: &str) -> (r: bool)
    ensures
        r == secret_flag(s@),
{
    text::same(s, "--password") || text::same(s, "--admin_password") || text::same(s, "--dbpass")
        || text::same(s, "--user_pass") || text::same(s, "--secret") || text::same(s, "--token")
        || text::same(s, "-p") || text::same(s, "--restic-password")
}

/// The earlier of two places, the first one where they are the same.
pub open spec fn earlier(a: Option<(int, int)>, b: Option<(int, int)>) -> Option<(int, int)> {
    match (a, b) {
        (Some((i, _)), Some((j, _))) => if j < i {
            b
        } else {
            a
        },
        (Some(_), None) => a,
        (None, _) => b,
    }
}

/// Where a marker starts and how long it is.
pub open spec fn marker_at(s: Seq<char>, marker: Seq<char>) -> Option<(int, int)> {
    match text::find(s, marker) {
        Some(i) => Some((i, marker.len() as int)),
        None => None,
    }
}

/// The first place in `s` after which a quoted secret stands.
pub open spec fn first_marker(s: Seq<char>) -> Option<(int, int)> {
    earlier(
        earlier(
            earlier(marker_at(s, "-p'"@), marker_at(s, "--password='"@)),
            marker_at(s, "--dbpass='"@),
        ),
        marker_at(s, "IDENTIFIED BY '"@),
    )
}

/// What stands after a closing quote goes on with the secret: an escaped quote and an
/// opening one, as [`quoted`] writes a quote inside a value.
pub open spec fn goes_on(after: Seq<char>) -> bool {
    after.len() >= 3 && after[0] == '\\' && after[1] == '\'' && after[2] == '\''
}

/// What stands after a secret and its closing quote, given what stands after its opening
/// quote.
pub open spec fn after_secret(s: Seq<char>) -> Option<Seq<char>>
    decreases s.len(),
{
    let n = text::prefix_len(s, text::Class::IsNot('\''));
    if 0 <= n < s.len() {
        let after = s.skip(n + 1);
        if goes_on(after) {
            after_secret(after.skip(3))
        } else {
            Some(after)
        }
    } else {
        None
    }
}

/// `s` with the quoted secrets in it masked: `-p'secret'`,
/// `--password='secret'`, `--dbpass='secret'` and `IDENTIFIED BY 'secret'`, with the
/// quotes inside a secret that [`quoted`] has escaped. Of an unterminated quote nothing
/// is kept.
pub open spec fn mask_inline(s: Seq<char>) -> Seq<char>
    decreases s.len(),
{
    match first_marker(s) {
        None => s,
        Some((at, len)) => if 0 <= at && 0 < len && at + len <= s.len() {
            let rest = s.skip(at + len);
            match after_secret(rest) {
                Some(after) => if after.len() < s.len() {
                    s.take(at + len) + "***'"@ + mask_inline(after)
                } else {
                    s
                },
                None => s.take(at + len) + "***"@,
            }
        } else {
            s
        },
    }
}

/// Executable form of [`marker_at`].
fn find_marker(s: &[char], marker: &str) -> (r: Option<(usize, usize)>)
    ensures
        match r {
            Some((i, n)) => marker_at(s@, marker@) == Some((i as int, n as int)) && i + n
                <= s@.len() && n == marker@.len(),
            None => marker_at(s@, marker@) is None,
        },
{
    let m = text::chars_of(marker);
    match text::find_at(s, m.as_slice()) {
        Some(i) => Some((i, m.len())),
        None => None,
    }
}

/// Executable form of [`earlier`].
fn pick_earlier(a: Option<(usize, usize)>, b: Option<(usize, usize)>) -> (r: Option<(usize, usize)>)
    ensures
        place(r) == earlier(place(a), place(b)),
        r == a || r == b,
{
    match (a, b) {
        (Some((i, _)), Some((j, _))) => if j < i {
            b
        } else {
            a
        },
        (Some(_), None) => a,
        (None, _) => b,
    }
}

/// A place, in mathematical integers.
pub open spec fn place(p: Option<(usize, usize)>) -> Option<(int, int)> {
    match p {
        Some((i, n)) => Some((i as int, n as int)),
        None => None,
    }
}

/// Where a secret and its closing quote end, given what stands after its opening quote.
fn secret_end(s: &[char]) -> (r: Option<usize>)
    ensures
        match r {
            Some(k) => k <= s@.len() && after_secret(s@) == Some(s@.skip(k as int)),
            None => after_secret(s@) is None,
        },
{
    let mut from: usize = 0;
    assert(s@.skip(0) =~= s@);
    loop
        invariant
            from <= s@.len(),
            after_secret(s@) == after_secret(s@.skip(from as int)),
        decreases s@.len() - from,
    {
        let rest = slice_subrange(s, from, s.len());
        assert(rest@ =~= s@.skip(from as int));
        let n = text::prefix(rest, text::Class::IsNot('\''));
        if n >= rest.len() {
            return None;
        }
        let k: usize = from + n + 1;
        let ghost after = s@.skip(k as int);
        assert(rest@.skip(n + 1) =~= after);
        if s.len() - k >= 3 && s[k] == '\\' && s[k + 1] == '\'' && s[k + 2] == '\'' {
            assert(goes_on(after));
            assert(after.skip(3) =~= s@.skip(k + 3));
            from = k + 3;
        } else {
            assert(!goes_on(after));
            return Some(k);
        }
    }
}

/// Masks quoted secrets inside a single string. Used for the `sh -c` fragments
/// and inline SQL the agent builds.
pub fn mask_inline_secrets(input: &str) -> (r: String)
    ensures
        r@ == mask_inline(input@),
{
    let cs = text::chars_of(input);
    let mut out = String::new();
    let mut from: usize = 0;
    assert(cs@.skip(0) =~= input@);
    assert(Seq::<char>::empty() + mask_inline(input@) =~= mask_inline(input@));
    loop
        invariant
            from <= cs@.len(),
            cs@ == input@,
            mask_inline(input@) == out@ + mask_inline(cs@.skip(from as int)),
        decreases cs@.len() - from,
    {
        let rest = slice_subrange(cs.as_slice(), from, cs.len());
        assert(rest@ =~= cs@.skip(from as int));
        proof {
            reveal_strlit("-p'");
            reveal_strlit("--password='");
            reveal_strlit("--dbpass='");
            reveal_strlit("IDENTIFIED BY '");
        }
        let a = find_marker(rest, "-p'");
        let b = find_marker(rest, "--password='");
        let c = find_marker(rest, "--dbpass='");
        let d = find_marker(rest, "IDENTIFIED BY '");
        let first = pick_earlier(pick_earlier(pick_earlier(a, b), c), d);
        assert(place(first) == first_marker(rest@));
        match first {
            None => {
                let tail = text::string_of(rest);
                out.append(tail.as_str());
                return out;
            },
            Some((at, len)) => {
                let ghost before = out@;
                let head = text::string_of(slice_subrange(rest, 0, at + len));
                out.append(head.as_str());
                let tail = slice_subrange(rest, at + len, rest.len());
                assert(tail@ =~= rest@.skip(at + len));
                match secret_end(tail) {
                    Some(n) => {
                        out.append("***'");
                        assert(tail@.skip(n as int) =~= cs@.skip(from + at + len + n));
                        assert(out@ + mask_inline(tail@.skip(n as int)) =~= before + (rest@.take(
                            at + len,
                        ) + "***'"@ + mask_inline(tail@.skip(n as int))));
                        from = from + at + len + n;
                    },
                    None => {
                        out.append("***");
                        assert(out@ =~= before + (rest@.take(at + len) + "***"@));
                        return out;
                    },
                }
            },
        }
    }
}

/// How `Debug` writes a string: between quotation marks, with escapes.
pub uninterp spec fn debug_quoted(s: Seq<char>) -> Seq<char>;

/// Every character is printable ASCII that needs no escape between quotation marks.
pub open spec fn prints_as_is(s: Seq<char>) -> bool {
    forall|i: int|
        0 <= i < s.len() ==> ' ' <= #[trigger] s[i] <= '~' && s[i] != '"' && s[i] != '\\'
}

/// How a string is shown in a log: between quotation marks, with escapes where it needs
/// them.
pub open spec fn shown(s: Seq<char>) -> Seq<char> {
    if prints_as_is(s) {
        seq!['"'] + s + seq!['"']
    } else {
        debug_quoted(s)
    }
}

/// Writes a string as `<str as std::fmt::Debug>` does. The result depends on the
/// string alone and is named [`debug_quoted`]; printable ASCII without
/// quotation marks and backslashes comes out as it is, between quotation marks.
#[verifier::external_body]
fn quote_for_log(s: &str) -> (r: String)
    ensures
        r@ == debug_quoted(s@),
        prints_as_is(s@) ==> r@ == seq!['"'] + s@ + seq!['"'],
{
    format!("{:?}", s)
}

/// The name in front of the first `=`, where its value is a secret.
pub open spec fn assigned(arg: Seq<char>) -> Option<Seq<char>> {
    match text::split_once(arg, '=') {
        Some((name, _)) => if secret_flag(name) {
            Some(name)
        } else {
            None
        },
        None => None,
    }
}

/// What is logged of the arguments. With `masked` the first of them is a secret.
pub open spec fn redact_args(args: Seq<Seq<char>>, masked: bool) -> Seq<Seq<char>>
    decreases args.len(),
{
    if args.len() == 0 {
        Seq::empty()
    } else {
        let arg = args[0];
        let rest = args.drop_first();
        if masked {
            seq!["\"***\""@] + redact_args(rest, false)
        } else if let Some(name) = assigned(arg) {
            seq![name + "=***"@] + redact_args(rest, false)
        } else if secret_flag(arg) {
            seq![shown(arg)] + redact_args(rest, true)
        } else {
            seq![shown(mask_inline(arg))] + redact_args(rest, false)
        }
    }
}

/// What is logged of a command.
pub open spec fn redacted(program: Seq<char>, args: Seq<Seq<char>>) -> Seq<char> {
    program + " ["@ + text::join(redact_args(args, false), ", "@) + "]"@
}

/// Builds the loggable form of a command with secret values masked.
pub fn redact_command(program: &str, args: &Vec<String>) -> (s: String)
    ensures
        s@ == redacted(program@, text::texts(args@)),
{
    let mut out = text::no_texts();
    let mut mask_next = false;
    let mut i: usize = 0;
    let ghost all = text::texts(args@);
    assert(all.skip(0) =~= all);
    while i < args.len()
        invariant
            i <= args@.len(),
            all == text::texts(args@),
            redact_args(all, false) == text::texts(out@) + redact_args(
                all.skip(i as int),
                mask_next,
            ),
        decreases args@.len() - i,
    {
        let ghost before = text::texts(out@);
        let ghost rest = all.skip(i as int);
        assert(rest[0] == args@[i as int]@);
        assert(rest.drop_first() =~= all.skip(i + 1));
        let arg = args[i].as_str();
        i += 1;
        if mask_next {
            text::push_str(&mut out, "\"***\"");
            mask_next = false;
            assert(text::texts(out@) + redact_args(all.skip(i as int), mask_next) =~= before
                + redact_args(rest, true));
        } else {
            let cs = text::chars_of(arg);
            let named = match text::cut(cs.as_slice(), '=') {
                Some((name, _)) => {
                    let name = text::string_of(name);
                    if is_secret_flag(name.as_str()) {
                        Some(text::cat2(name.as_str(), "=***"))
                    } else {
                        None
                    }
                },
                None => None,
            };
            if let Some(shown) = named {
                text::push_text(&mut out, shown);
            } else if is_secret_flag(arg) {
                mask_next = true;
                text::push_text(&mut out, quote_for_log(arg));
            } else {
                let masked = mask_inline_secrets(arg);
                text::push_text(&mut out, quote_for_log(masked.as_str()));
            }
            assert(text::texts(out@) + redact_args(all.skip(i as int), mask_next) =~= before
                + redact_args(rest, false));
        }
    }
    assert(text::texts(out@) + redact_args(all.skip(i as int), mask_next) =~= text::texts(out@));
    let listed = text::joined(&out, ", ");
    text::cat4(program, " [", listed.as_str(), "]")
}

// ---------------------------------------------------------------------------
// Shell words
// ---------------------------------------------------------------------------

/// A value as one word of a shell command.
pub open spec fn quoted(value: Seq<char>) -> Seq<char> {
    seq!['\''] + text::replace(value, '\'', "'\\''"@) + seq!['\'']
}

/// Quotes a value for safe inclusion in a `sh -c` fragment.
///
/// Wraps in single quotes and escapes embedded single quotes the POSIX way
/// (`'\''`).
pub fn shell_quote(value: &str) -> (s: String)
    ensures
        s@ == quoted(value@),
{
    let inner = text::replaced(value, '\'', "'\\''");
    let mut s = String::new();
    s.push('\'');
    assert(s@ =~= seq!['\'']);
    s.append(inner.as_str());
    s.push('\'');
    assert(s@ =~= quoted(value@));
    s
}

/// What a POSIX shell reads a word as that is made of single-quoted runs and
/// escaped characters: inside single quotes everything stands for itself up to
/// the next single quote, and outside them a backslash makes the next character
/// stand for itself. Anything else has a meaning of its own to the shell.
pub open spec fn shell_reads(word: Seq<char>, inside: bool) -> Option<Seq<char>>
    decreases word.len(),
{
    if word.len() == 0 {
        if inside {
            None
        } else {
            Some(Seq::empty())
        }
    } else if inside {
        if word[0] == '\'' {
            shell_reads(word.drop_first(), false)
        } else {
            match shell_reads(word.drop_first(), true) {
                Some(rest) => Some(seq![word[0]] + rest),
                None => None,
            }
        }
    } else if word[0] == '\'' {
        shell_reads(word.drop_first(), true)
    } else if word[0] == '\\' && word.len() > 1 {
        match shell_reads(word.skip(2), false) {
            Some(rest) => Some(seq![word[1]] + rest),
            None => None,
        }
    } else {
        None
    }
}

/// A quoted value reaches the command as it is, whatever it holds.
pub proof fn law_quoting_survives_the_shell(value: Seq<char>)
    ensures
        shell_reads(quoted(value), false) == Some(value),
{
    let body = text::replace(value, '\'', "'\\''"@) + seq!['\''];
    lemma_quoted_run(value);
    assert(quoted(value).drop_first() =~= body);
}

/// The shell reads the inside of a quoted value back as the value.
proof fn lemma_quoted_run(value: Seq<char>)
    ensures
        shell_reads(text::replace(value, '\'', "'\\''"@) + seq!['\''], true) == Some(value),
    decreases value.len(),
{
    reveal_strlit("'\\''");
    let with = "'\\''"@;
    let close = seq!['\''];
    if value.len() == 0 {
        let word = text::replace(value, '\'', with) + close;
        assert(word =~= close);
        assert(word.drop_first() =~= Seq::<char>::empty());
        assert(shell_reads(word.drop_first(), false) == Some(Seq::<char>::empty()));
        assert(value =~= Seq::<char>::empty());
    } else {
        let c = value[0];
        let tail = value.drop_first();
        lemma_quoted_run(tail);
        text::lemma_replace_front(value, '\'', with);
        let rest = text::replace(tail, '\'', with) + close;
        let word = text::replace(value, '\'', with) + close;
        if c == '\'' {
            assert(word =~= with + rest);
            let w1 = word.drop_first();
            assert(w1[0] == '\\');
            assert(w1[1] == '\'');
            let w3 = w1.skip(2);
            assert(w3[0] == '\'');
            assert(w3.drop_first() =~= rest);
            assert(shell_reads(w3, false) == shell_reads(rest, true));
            assert(shell_reads(w1, false) == Some(seq!['\''] + tail));
        } else {
            assert(word =~= seq![c] + rest);
            assert(word.drop_first() =~= rest);
        }
        assert(seq![c] + tail =~= value);
    }
}

// ---------------------------------------------------------------------------
// What the log does not tell
// ---------------------------------------------------------------------------

/// Whether the argument after `args` is the value of a secret flag.
pub open spec fn pending(args: Seq<Seq<char>>, masked: bool) -> bool
    decreases args.len(),
{
    if args.len() == 0 {
        masked
    } else if masked {
        pending(args.drop_first(), false)
    } else {
        pending(args.drop_first(), assigned(args[0]) is None && secret_flag(args[0]))
    }
}

/// Arguments are logged one after another.
proof fn lemma_redact_append(a: Seq<Seq<char>>, b: Seq<Seq<char>>, masked: bool)
    ensures
        redact_args(a + b, masked) == redact_args(a, masked) + redact_args(b, pending(a, masked)),
    decreases a.len(),
{
    if a.len() == 0 {
        assert(a + b =~= b);
        assert(redact_args(a, masked) + redact_args(b, masked) =~= redact_args(b, masked));
    } else {
        let t = a.drop_first();
        assert((a + b).drop_first() =~= t + b);
        assert((a + b)[0] == a[0]);
        lemma_redact_append(t, b, false);
        lemma_redact_append(t, b, true);
        assert(redact_args(a + b, masked) =~= redact_args(a, masked) + redact_args(
            b,
            pending(a, masked),
        ));
    }
}

/// The log of a command is the same whatever the value that follows a secret flag.
pub proof fn law_flag_value_is_not_logged(
    program: Seq<char>,
    before: Seq<Seq<char>>,
    flag: Seq<char>,
    one: Seq<char>,
    other: Seq<char>,
    after: Seq<Seq<char>>,
)
    requires
        secret_flag(flag),
        !pending(before, false),
    ensures
        redacted(program, before + seq![flag, one] + after) == redacted(
            program,
            before + seq![flag, other] + after,
        ),
{
    lemma_redact_append(before + seq![flag, one], after, false);
    lemma_redact_append(before + seq![flag, other], after, false);
    lemma_redact_append(before, seq![flag, one], false);
    lemma_redact_append(before, seq![flag, other], false);
    lemma_flag_then_value(flag, one);
    lemma_flag_then_value(flag, other);
    lemma_pending_append(before, seq![flag, one], false);
    lemma_pending_append(before, seq![flag, other], false);
}

/// The flags that take a secret wherever the agent uses them are known as such.
pub proof fn law_secrets_have_their_flags()
    ensures
        secret_flag("--password"@),
        secret_flag("--admin_password"@),
        secret_flag("--dbpass"@),
        secret_flag("--user_pass"@),
        secret_flag("--secret"@),
        secret_flag("--token"@),
        secret_flag("-p"@),
        secret_flag("--restic-password"@),
{
}

/// Pending values carry over from one run of arguments to the next.
proof fn lemma_pending_append(a: Seq<Seq<char>>, b: Seq<Seq<char>>, masked: bool)
    ensures
        pending(a + b, masked) == pending(b, pending(a, masked)),
    decreases a.len(),
{
    if a.len() == 0 {
        assert(a + b =~= b);
    } else {
        assert((a + b).drop_first() =~= a.drop_first() + b);
        assert((a + b)[0] == a[0]);
        lemma_pending_append(a.drop_first(), b, false);
        lemma_pending_append(a.drop_first(), b, true);
    }
}

/// A secret flag has no `=` in it.
proof fn lemma_flag_is_no_assignment(flag: Seq<char>)
    requires
        secret_flag(flag),
    ensures
        assigned(flag) is None,
        text::split_once(flag, '=') is None,
{
    reveal_strlit("--password");
    reveal_strlit("--admin_password");
    reveal_strlit("--dbpass");
    reveal_strlit("--user_pass");
    reveal_strlit("--secret");
    reveal_strlit("--token");
    reveal_strlit("-p");
    reveal_strlit("--restic-password");
    text::lemma_prefix_len_is(flag, text::Class::IsNot('='), flag.len() as int);
}

/// What is logged of a secret flag and the value after it.
proof fn lemma_flag_then_value(flag: Seq<char>, value: Seq<char>)
    requires
        secret_flag(flag),
    ensures
        redact_args(seq![flag, value], false) == seq![shown(flag), "\"***\""@],
        !pending(seq![flag, value], false),
{
    lemma_flag_is_no_assignment(flag);
    let both = seq![flag, value];
    let last = both.drop_first();
    assert(last =~= seq![value]);
    assert(last.drop_first() =~= Seq::<Seq<char>>::empty());
    assert(redact_args(last.drop_first(), false) =~= Seq::empty());
    assert(redact_args(last, true) =~= seq!["\"***\""@]);
    assert(redact_args(both, false) =~= seq![shown(flag), "\"***\""@]);
    assert(!pending(last.drop_first(), false));
    assert(!pending(last, true));
}

/// The log of a command is the same whatever stands behind a secret name and `=`.
pub proof fn law_assigned_value_is_not_logged(
    program: Seq<char>,
    before: Seq<Seq<char>>,
    name: Seq<char>,
    one: Seq<char>,
    other: Seq<char>,
    after: Seq<Seq<char>>,
)
    requires
        secret_flag(name),
        !pending(before, false),
    ensures
        redacted(program, before + seq![name + "="@ + one] + after) == redacted(
            program,
            before + seq![name + "="@ + other] + after,
        ),
{
    let a = name + "="@ + one;
    let b = name + "="@ + other;
    lemma_redact_append(before + seq![a], after, false);
    lemma_redact_append(before + seq![b], after, false);
    lemma_redact_append(before, seq![a], false);
    lemma_redact_append(before, seq![b], false);
    lemma_assignment(name, one);
    lemma_assignment(name, other);
    lemma_pending_append(before, seq![a], false);
    lemma_pending_append(before, seq![b], false);
}

/// What is logged of a secret name, `=` and its value.
proof fn lemma_assignment(name: Seq<char>, value: Seq<char>)
    requires
        secret_flag(name),
    ensures
        redact_args(seq![name + "="@ + value], false) == seq![name + "=***"@],
        !pending(seq![name + "="@ + value], false),
{
    reveal_strlit("=");
    let arg = name + "="@ + value;
    lemma_flag_is_no_assignment(name);
    text::lemma_prefix_len(name, text::Class::IsNot('='));
    assert forall|i: int| 0 <= i < name.len() implies text::Class::IsNot('=').spec_has(
        #[trigger] arg[i],
    ) by {
        assert(arg[i] == name[i]);
        assert(text::Class::IsNot('=').spec_has(name[i]));
    }
    assert(arg[name.len() as int] == '=');
    text::lemma_prefix_len_is(arg, text::Class::IsNot('='), name.len() as int);
    assert(arg.take(name.len() as int) =~= name);
    let only = seq![arg];
    assert(only.drop_first() =~= Seq::<Seq<char>>::empty());
    assert(redact_args(only.drop_first(), false) =~= Seq::empty());
    assert(redact_args(only, false) =~= seq![name + "=***"@]);
    assert(!pending(only.drop_first(), false));
}

/// After a quoted value comes what stands after it.
proof fn lemma_end_of_quoted(value: Seq<char>, after: Seq<char>)
    requires
        !goes_on(after),
    ensures
        after_secret(text::replace(value, '\'', "'\\''"@) + seq!['\''] + after) == Some(after),
    decreases value.len(),
{
    reveal_strlit("'\\''");
    let with = "'\\''"@;
    let class = text::Class::IsNot('\'');
    let s = text::replace(value, '\'', with) + seq!['\''] + after;
    if value.len() == 0 {
        assert(s =~= seq!['\''] + after);
        assert(text::prefix_len(s, class) == 0);
        assert(s.skip(1) =~= after);
    } else {
        let c = value[0];
        let tail = value.drop_first();
        lemma_end_of_quoted(tail, after);
        text::lemma_replace_front(value, '\'', with);
        let rest = text::replace(tail, '\'', with) + seq!['\''] + after;
        if c == '\'' {
            assert(s =~= with + rest);
            assert(text::prefix_len(s, class) == 0);
            assert(goes_on(s.skip(1)));
            assert(s.skip(1).skip(3) =~= rest);
        } else {
            assert(s =~= seq![c] + rest);
            assert(s.drop_first() =~= rest);
            let n = text::prefix_len(rest, class);
            assert(text::prefix_len(s, class) == 1 + n);
            text::lemma_prefix_len(rest, class);
            assert(s.skip(n + 2) =~= rest.skip(n + 1));
        }
    }
}

/// A quoted secret inside an argument leaves no trace in the log, whatever it holds: the
/// text in front of it, with its marker, and the text after it come out, the secret
/// itself does not.
pub proof fn law_quoted_secret_is_not_logged(
    head: Seq<char>,
    len: int,
    secret: Seq<char>,
    after: Seq<char>,
)
    requires
        0 < len <= head.len() + 1,
        first_marker(head + quoted(secret) + after) == Some((head.len() + 1 - len, len)),
        !goes_on(after),
    ensures
        mask_inline(head + quoted(secret) + after) == head + "'***'"@ + mask_inline(after),
{
    reveal_strlit("'***'");
    reveal_strlit("***'");
    let s = head + quoted(secret) + after;
    let from = head.len() as int + 1;
    let rest = s.skip(from);
    assert(rest =~= text::replace(secret, '\'', "'\\''"@) + seq!['\''] + after);
    lemma_end_of_quoted(secret, after);
    assert(s.take(from) =~= head + seq!['\'']);
    assert(seq!['\''] + "***'"@ =~= "'***'"@);
    assert(s.take(from) + "***'"@ + mask_inline(after) =~= head + "'***'"@ + mask_inline(after));
}

// ---------------------------------------------------------------------------
// Steps
// ---------------------------------------------------------------------------

/// Collects step reports so the panel can render a timeline.
#[derive(Debug)]
pub struct Steps {
    reports: Vec<StepReport>,
}

impl View for Steps {
    type V = Seq<StepReportView>;

    closed spec fn view(&self) -> Seq<StepReportView> {
        protocol::reports(self.reports@)
    }
}

impl Default for Steps {
    fn default() -> (s: Self)
        ensures
            s@ == Seq::<StepReportView>::empty(),
    {
        let reports: Vec<StepReport> = Vec::new();
        assert(protocol::reports(reports@) =~= Seq::empty());
        Steps { reports }
    }
}

/// The report on a step that took `duration_ms`.
pub open spec fn step_report(
    name: Seq<char>,
    error: Option<ErrorView>,
    duration_ms: u64,
) -> StepReportView {
    StepReportView {
        name,
        ok: error is None,
        duration_ms,
        detail: match error {
            Some(e) => Some(e.message()),
            None => None,
        },
    }
}

/// A remark in the timeline.
pub open spec fn note_report(name: Seq<char>, detail: Seq<char>) -> StepReportView {
    StepReportView { name, ok: true, duration_ms: 0, detail: Some(detail) }
}

impl Steps {
    pub fn new() -> (s: Self)
        ensures
            s@ == Seq::<StepReportView>::empty(),
    {
        Steps::default()
    }

    /// A timeline that goes on from earlier reports.
    pub fn after(earlier: Vec<StepReport>) -> (s: Self)
        ensures
            s@ == protocol::reports(earlier@),
    {
        Steps { reports: earlier }
    }

    /// Records how a step went: its error, if it failed.
    pub fn step(&mut self, name: &str, error: Option<&Error>, duration_ms: u64)
        ensures
            final(self)@ == old(self)@.push(
                step_report(
                    name@,
                    match error {
                        Some(e) => Some(e@),
                        None => None,
                    },
                    duration_ms,
                ),
            ),
    {
        let report = match error {
            None => StepReport { name: name.to_owned(), ok: true, duration_ms, detail: None },
            Some(e) => StepReport {
                name: name.to_owned(),
                ok: false,
                duration_ms,
                detail: Some(e.message()),
            },
        };
        self.reports.push(report);
        assert(protocol::reports(self.reports@) =~= protocol::reports(old(self).reports@).push(
            report@,
        ));
    }

    pub fn note(&mut self, name: &str, detail: &str)
        ensures
            final(self)@ == old(self)@.push(note_report(name@, detail@)),
    {
        let report = StepReport {
            name: name.to_owned(),
            ok: true,
            duration_ms: 0,
            detail: Some(detail.to_owned()),
        };
        self.reports.push(report);
        assert(protocol::reports(self.reports@) =~= protocol::reports(old(self).reports@).push(
            report@,
        ));
    }

    pub fn into_reports(self) -> (r: Vec<StepReport>)
        ensures
            protocol::reports(r@) == self@,
    {
        self.reports
    }
}

} // verus!
