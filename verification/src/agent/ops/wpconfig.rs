//! Reading database credentials out of a site's `wp-config.php`.
//!
//! Clone, staging and migration all need the *source* site's credentials, which
//! only exist in its `wp-config.php`. The file is parsed textually and never
//! executed: it is PHP, and evaluating it would run whatever a site owner put
//! there.

use vstd::prelude::*;
use vstd::slice::slice_subrange;
use crate::agent::config::Config;
use crate::agent::exec::{CommandOutput, OutputView};
use crate::agent::ops::filesystem::system_user;
use crate::agent::plan;
use crate::agent::plan::{Action, ActionView, OnError, OnErrorView, Stage, StageView};
use crate::agent::store::{RecordView, SiteRecord};
use crate::common::error::{Error, ErrorView};
use crate::common::models;
use crate::text;
use crate::text::Class;

verus! {

#[derive(Debug)]
pub struct DbConfig {
    pub name: String,
    pub user: String,
    pub password: String,
    pub host: String,
    pub prefix: String,
}

/// [`DbConfig`] with its texts as sequences of characters.
pub struct DbConfigView {
    pub name: Seq<char>,
    pub user: Seq<char>,
    pub password: Seq<char>,
    pub host: Seq<char>,
    pub prefix: Seq<char>,
}

impl View for DbConfig {
    type V = DbConfigView;

    open spec fn view(&self) -> DbConfigView {
        DbConfigView {
            name: self.name@,
            user: self.user@,
            password: self.password@,
            host: self.host@,
            prefix: self.prefix@,
        }
    }
}

/// A host without the `:port` suffix WordPress allows.
pub open spec fn host_part(host: Seq<char>) -> Seq<char> {
    match text::split_once(host, ':') {
        Some((name, _)) => name,
        None => host,
    }
}

/// The port of `host:port`, if one is given.
pub open spec fn port_part(host: Seq<char>) -> Option<Seq<char>> {
    match text::split_once(host, ':') {
        Some((_, port)) => Some(port),
        None => None,
    }
}

/// A host and its port, put together again, are what was given.
pub proof fn law_host_and_port_are_the_whole(host: Seq<char>)
    ensures
        host == match port_part(host) {
            Some(port) => host_part(host) + seq![':'] + port,
            None => host_part(host),
        },
        forall|i: int| 0 <= i < host_part(host).len() ==> #[trigger] host_part(host)[i] != ':',
{
    let n = text::prefix_len(host, Class::IsNot(':'));
    text::lemma_prefix_len(host, Class::IsNot(':'));
    if n < host.len() {
        assert(host =~= host.take(n) + seq![':'] + host.skip(n + 1));
    }
}

impl DbConfig {
    /// Host without the `:port` suffix WordPress allows.
    pub fn host_only(&self) -> (s: String)
        ensures
            s@ == host_part(self@.host),
    {
        let cs = text::chars_of(self.host.as_str());
        match text::cut(cs.as_slice(), ':') {
            Some((host, _)) => text::string_of(host),
            None => self.host.clone(),
        }
    }

    /// Port from `host:port`, if one was given.
    pub fn port(&self) -> (r: Option<String>)
        ensures
            text::text_opt(r) == port_part(self@.host),
    {
        let cs = text::chars_of(self.host.as_str());
        match text::cut(cs.as_slice(), ':') {
            Some((_, port)) => Some(text::string_of(port)),
            None => None,
        }
    }
}

// ---------------------------------------------------------------------------
// Quoted strings
// ---------------------------------------------------------------------------

/// What stands before the closing quote, with escapes undone: after a backslash
/// every character stands for itself. Nothing without a closing quote.
pub open spec fn unquoted(s: Seq<char>, quote: char) -> Option<Seq<char>>
    decreases s.len(),
{
    if s.len() == 0 {
        None
    } else if s[0] == '\\' {
        if s.len() > 1 {
            match unquoted(s.skip(2), quote) {
                Some(rest) => Some(seq![s[1]] + rest),
                None => None,
            }
        } else {
            None
        }
    } else if s[0] == quote {
        Some(Seq::empty())
    } else {
        match unquoted(s.drop_first(), quote) {
            Some(rest) => Some(seq![s[0]] + rest),
            None => None,
        }
    }
}

/// The first single- or double-quoted string.
pub open spec fn first_quoted_in(s: Seq<char>) -> Option<Seq<char>> {
    let n = text::prefix_len(s, Class::NotQuote);
    if n < s.len() {
        unquoted(s.skip(n + 1), s[n])
    } else {
        None
    }
}

/// Reads the first single- or double-quoted string, honouring `\'` escapes.
pub fn first_quoted(s: &[char]) -> (r: Option<String>)
    ensures
        text::text_opt(r) == first_quoted_in(s@),
{
    let n = text::prefix(s, Class::NotQuote);
    if n >= s.len() {
        return None;
    }
    let quote = s[n];
    let mut value = String::new();
    let mut i: usize = n + 1;
    let ghost target = unquoted(s@.skip(n + 1), quote);
    assert(match target {
        Some(t) => Some(value@ + t),
        None => None,
    } == target) by {
        if let Some(t) = target {
            assert(value@ + t =~= t);
        }
    }
    while i < s.len()
        invariant
            i <= s@.len(),
            target == first_quoted_in(s@),
            target == match unquoted(s@.skip(i as int), quote) {
                Some(t) => Some(value@ + t),
                None => None,
            },
        decreases s@.len() - i,
    {
        let c = s[i];
        let ghost rest = s@.skip(i as int);
        let ghost before = value@;
        if c == '\\' {
            if i + 1 < s.len() {
                value.push(s[i + 1]);
                assert(rest.skip(2) =~= s@.skip(i + 2));
                proof {
                    if let Some(t) = unquoted(rest.skip(2), quote) {
                        assert(before + (seq![rest[1]] + t) =~= value@ + t);
                    }
                }
                i += 2;
            } else {
                return None;
            }
        } else if c == quote {
            assert(before + Seq::<char>::empty() =~= before);
            return Some(value);
        } else {
            value.push(c);
            assert(rest.drop_first() =~= s@.skip(i + 1));
            proof {
                if let Some(t) = unquoted(rest.drop_first(), quote) {
                    assert(before + (seq![rest[0]] + t) =~= value@ + t);
                }
            }
            i += 1;
        }
    }
    None
}

/// A value with a backslash before each backslash and each quote.
pub open spec fn escaped(value: Seq<char>, quote: char) -> Seq<char>
    decreases value.len(),
{
    if value.len() == 0 {
        Seq::empty()
    } else {
        (if value[0] == '\\' || value[0] == quote {
            seq!['\\', value[0]]
        } else {
            seq![value[0]]
        }) + escaped(value.drop_first(), quote)
    }
}

/// An escaped value is read back as it was, whatever it holds.
pub proof fn law_escaped_values_are_read_back(value: Seq<char>, quote: char, after: Seq<char>)
    requires
        quote != '\\',
    ensures
        unquoted(escaped(value, quote) + seq![quote] + after, quote) == Some(value),
    decreases value.len(),
{
    let s = escaped(value, quote) + seq![quote] + after;
    if value.len() == 0 {
        assert(s[0] == quote);
        assert(value =~= Seq::empty());
    } else {
        let t = value.drop_first();
        law_escaped_values_are_read_back(t, quote, after);
        let rest = escaped(t, quote) + seq![quote] + after;
        if value[0] == '\\' || value[0] == quote {
            assert(s =~= seq!['\\', value[0]] + rest);
            assert(s.skip(2) =~= rest);
        } else {
            assert(s =~= seq![value[0]] + rest);
            assert(s.drop_first() =~= rest);
        }
        assert(seq![value[0]] + t =~= value);
    }
}

// ---------------------------------------------------------------------------
// Comments
// ---------------------------------------------------------------------------

/// Where in a line of PHP a character stands.
#[derive(Clone, Copy, PartialEq, Eq, Structural)]
pub enum Place {
    Code,
    /// In a string with this quote around it. A string ends with its line.
    Quoted(char),
    /// In a block comment.
    Comment,
}

/// A line without its comments, read from a place on.
pub open spec fn code_of(s: Seq<char>, place: Place) -> Seq<char>
    decreases s.len(),
{
    if s.len() == 0 {
        Seq::empty()
    } else {
        match place {
            Place::Comment => if s.len() > 1 && s[0] == '*' && s[1] == '/' {
                code_of(s.skip(2), Place::Code)
            } else {
                code_of(s.drop_first(), Place::Comment)
            },
            Place::Quoted(quote) => if s.len() > 1 && s[0] == '\\' {
                s.take(2) + code_of(s.skip(2), place)
            } else if s[0] == quote {
                seq![s[0]] + code_of(s.drop_first(), Place::Code)
            } else {
                seq![s[0]] + code_of(s.drop_first(), place)
            },
            Place::Code => if s[0] == '#' || s.len() > 1 && s[0] == '/' && s[1] == '/' {
                Seq::empty()
            } else if s.len() > 1 && s[0] == '/' && s[1] == '*' {
                code_of(s.skip(2), Place::Comment)
            } else if s[0] == '\'' || s[0] == '"' {
                seq![s[0]] + code_of(s.drop_first(), Place::Quoted(s[0]))
            } else {
                seq![s[0]] + code_of(s.drop_first(), Place::Code)
            },
        }
    }
}

/// A block comment is open at the end of a line, read from a place on.
pub open spec fn stays_open(s: Seq<char>, place: Place) -> bool
    decreases s.len(),
{
    if s.len() == 0 {
        place is Comment
    } else {
        match place {
            Place::Comment => if s.len() > 1 && s[0] == '*' && s[1] == '/' {
                stays_open(s.skip(2), Place::Code)
            } else {
                stays_open(s.drop_first(), Place::Comment)
            },
            Place::Quoted(quote) => if s.len() > 1 && s[0] == '\\' {
                stays_open(s.skip(2), place)
            } else if s[0] == quote {
                stays_open(s.drop_first(), Place::Code)
            } else {
                stays_open(s.drop_first(), place)
            },
            Place::Code => if s[0] == '#' || s.len() > 1 && s[0] == '/' && s[1] == '/' {
                false
            } else if s.len() > 1 && s[0] == '/' && s[1] == '*' {
                stays_open(s.skip(2), Place::Comment)
            } else if s[0] == '\'' || s[0] == '"' {
                stays_open(s.drop_first(), Place::Quoted(s[0]))
            } else {
                stays_open(s.drop_first(), Place::Code)
            },
        }
    }
}

/// The place at the start of a line.
pub open spec fn start_of_line(open: bool) -> Place {
    if open {
        Place::Comment
    } else {
        Place::Code
    }
}

/// The lines without their comments; with `open` they start in a block comment.
pub open spec fn code_lines(lines: Seq<Seq<char>>, open: bool) -> Seq<Seq<char>>
    decreases lines.len(),
{
    if lines.len() == 0 {
        Seq::empty()
    } else {
        let place = start_of_line(open);
        seq![code_of(lines[0], place)] + code_lines(
            lines.drop_first(),
            stays_open(lines[0], place),
        )
    }
}

/// Executable form of [`code_of`] and [`stays_open`].
fn strip(line: &[char], open: bool) -> (r: (Vec<char>, bool))
    ensures
        r.0@ == code_of(line@, start_of_line(open)),
        r.1 == stays_open(line@, start_of_line(open)),
{
    let mut out: Vec<char> = Vec::new();
    let mut place = if open {
        Place::Comment
    } else {
        Place::Code
    };
    let ghost all = code_of(line@, place);
    let ghost end = stays_open(line@, place);
    assert(line@.skip(0) =~= line@);
    assert(out@ + all =~= all);
    let mut i: usize = 0;
    while i < line.len()
        invariant
            i <= line@.len(),
            all == code_of(line@, start_of_line(open)),
            end == stays_open(line@, start_of_line(open)),
            out@ + code_of(line@.skip(i as int), place) == all,
            stays_open(line@.skip(i as int), place) == end,
        decreases line@.len() - i,
    {
        let ghost rest = line@.skip(i as int);
        let ghost before = out@;
        let ghost was = place;
        let c = line[i];
        let two = i + 1 < line.len();
        assert(rest.drop_first() =~= line@.skip(i + 1));
        assert(two ==> rest.skip(2) =~= line@.skip(i + 2));
        match place {
            Place::Comment => {
                if two && c == '*' && line[i + 1] == '/' {
                    place = Place::Code;
                    i += 2;
                } else {
                    i += 1;
                }
            },
            Place::Quoted(quote) => {
                out.push(c);
                if two && c == '\\' {
                    out.push(line[i + 1]);
                    assert(out@ =~= before + rest.take(2));
                    assert(out@ + code_of(rest.skip(2), was) =~= before + (rest.take(2) + code_of(
                        rest.skip(2),
                        was,
                    )));
                    i += 2;
                } else {
                    if c == quote {
                        place = Place::Code;
                    }
                    assert(out@ + code_of(rest.drop_first(), place) =~= before + (seq![c] + code_of(
                        rest.drop_first(),
                        place,
                    )));
                    i += 1;
                }
            },
            Place::Code => {
                if c == '#' || two && c == '/' && line[i + 1] == '/' {
                    assert(before + Seq::<char>::empty() =~= before);
                    return (out, false);
                } else if two && c == '/' && line[i + 1] == '*' {
                    place = Place::Comment;
                    i += 2;
                } else {
                    out.push(c);
                    if c == '\'' || c == '"' {
                        place = Place::Quoted(c);
                    }
                    assert(out@ + code_of(rest.drop_first(), place) =~= before + (seq![c] + code_of(
                        rest.drop_first(),
                        place,
                    )));
                    i += 1;
                }
            },
        }
    }
    assert(line@.skip(i as int) =~= Seq::<char>::empty());
    assert(out@ + Seq::<char>::empty() =~= out@);
    match place {
        Place::Comment => (out, true),
        _ => (out, false),
    }
}

/// Executable form of [`code_lines`], for lines that start outside a comment.
fn strip_lines(lines: &Vec<Vec<char>>) -> (v: Vec<Vec<char>>)
    ensures
        text::rows(v@) == code_lines(text::rows(lines@), false),
{
    let ghost all = text::rows(lines@);
    let mut v: Vec<Vec<char>> = Vec::new();
    let mut open = false;
    let mut i: usize = 0;
    assert(all.skip(0) =~= all);
    assert(text::rows(v@) + code_lines(all, false) =~= code_lines(all, false));
    while i < lines.len()
        invariant
            i <= lines@.len(),
            all == text::rows(lines@),
            text::rows(v@) + code_lines(all.skip(i as int), open) == code_lines(all, false),
        decreases lines@.len() - i,
    {
        let ghost rest = all.skip(i as int);
        let ghost before = text::rows(v@);
        assert(rest[0] == lines@[i as int]@);
        assert(rest.drop_first() =~= all.skip(i + 1));
        let (code, after) = strip(lines[i].as_slice(), open);
        let ghost tail = code_lines(rest.drop_first(), after);
        v.push(code);
        assert(text::rows(v@) =~= before.push(code@));
        assert(text::rows(v@) + tail =~= before + (seq![code@] + tail));
        open = after;
        i += 1;
    }
    assert(all.skip(i as int) =~= Seq::<Seq<char>>::empty());
    assert(text::rows(v@) + Seq::<Seq<char>>::empty() =~= text::rows(v@));
    v
}

/// A block comment in front of code on its line changes nothing, whatever it holds.
pub proof fn law_block_comments_are_skipped(comment: Seq<char>, code: Seq<char>)
    requires
        forall|i: int|
            0 <= i < comment.len() ==> !(#[trigger] comment[i] == '*' && (comment + seq!['*', '/'])[i
                + 1] == '/'),
    ensures
        code_of(seq!['/', '*'] + comment + seq!['*', '/'] + code, Place::Code) == code_of(
            code,
            Place::Code,
        ),
{
    let inside = comment + seq!['*', '/'] + code;
    let s = seq!['/', '*'] + comment + seq!['*', '/'] + code;
    assert(s.skip(2) =~= inside);
    lemma_to_the_end_of_a_comment(comment, code);
}

/// A comment goes on to the first end mark.
proof fn lemma_to_the_end_of_a_comment(comment: Seq<char>, code: Seq<char>)
    requires
        forall|i: int|
            0 <= i < comment.len() ==> !(#[trigger] comment[i] == '*' && (comment + seq!['*', '/'])[i
                + 1] == '/'),
    ensures
        code_of(comment + seq!['*', '/'] + code, Place::Comment) == code_of(code, Place::Code),
    decreases comment.len(),
{
    let s = comment + seq!['*', '/'] + code;
    if comment.len() == 0 {
        assert(s.skip(2) =~= code);
    } else {
        let rest = comment.drop_first();
        assert(!(comment[0] == '*' && (comment + seq!['*', '/'])[1] == '/'));
        assert(s[0] == comment[0]);
        assert(s[1] == (comment + seq!['*', '/'])[1]);
        assert(s.drop_first() =~= rest + seq!['*', '/'] + code);
        assert forall|i: int| 0 <= i < rest.len() implies !(#[trigger] rest[i] == '*' && (rest
            + seq!['*', '/'])[i + 1] == '/') by {
            assert(rest[i] == comment[i + 1]);
            assert((rest + seq!['*', '/'])[i + 1] == (comment + seq!['*', '/'])[i + 2]);
        }
        lemma_to_the_end_of_a_comment(rest, code);
    }
}

// ---------------------------------------------------------------------------
// Constants
// ---------------------------------------------------------------------------

/// The value that a line without comments defines a constant to: on a line that does
/// not start with an asterisk and holds `define` and the constant's name, the next
/// quoted string after the name.
pub open spec fn defined_on(line: Seq<char>, constant: Seq<char>) -> Option<Seq<char>> {
    let t = text::trim_start(line, Class::White);
    if text::starts_with(t, "*"@) {
        None
    } else if !text::has(t, "define"@) {
        None
    } else {
        match text::find(t, constant) {
            None => None,
            Some(at) => {
                let after = t.skip(at + constant.len());
                let past = text::trim_start(text::trim_start(after, Class::White), Class::CloseOrQuote);
                let value = text::trim_start(
                    text::trim_start(text::trim_start(past, Class::White), Class::Is(',')),
                    Class::White,
                );
                first_quoted_in(value)
            },
        }
    }
}

/// The value of the first line that defines a constant.
pub open spec fn defined_in(lines: Seq<Seq<char>>, constant: Seq<char>) -> Option<Seq<char>>
    decreases lines.len(),
{
    if lines.len() == 0 {
        None
    } else {
        match defined_on(lines[0], constant) {
            Some(v) => Some(v),
            None => defined_in(lines.drop_first(), constant),
        }
    }
}

/// A text is a name of capital letters and underscores.
pub open spec fn is_constant(s: Seq<char>) -> bool {
    s.len() > 0 && forall|i: int|
        0 <= i < s.len() ==> 'A' <= #[trigger] s[i] <= 'Z' || s[i] == '_'
}

/// The line that defines a constant to a value.
pub open spec fn definition(constant: Seq<char>, value: Seq<char>) -> Seq<char> {
    "define('"@ + constant + "', '"@ + escaped(value, '\'') + "');"@
}

/// Code without quotes and comment marks stays as it is.
proof fn lemma_code_stays(code: Seq<char>, rest: Seq<char>)
    requires
        forall|i: int|
            0 <= i < code.len() ==> #[trigger] code[i] != '#' && code[i] != '/' && code[i] != '\''
                && code[i] != '"',
    ensures
        code_of(code + rest, Place::Code) == code + code_of(rest, Place::Code),
    decreases code.len(),
{
    let s = code + rest;
    if code.len() == 0 {
        assert(s =~= rest);
        assert(code + code_of(rest, Place::Code) =~= code_of(rest, Place::Code));
    } else {
        let t = code.drop_first();
        assert(s[0] == code[0]);
        assert(s.drop_first() =~= t + rest);
        assert forall|i: int| 0 <= i < t.len() implies #[trigger] t[i] != '#' && t[i] != '/' && t[i]
            != '\'' && t[i] != '"' by {
            assert(t[i] == code[i + 1]);
        }
        lemma_code_stays(t, rest);
        assert(seq![code[0]] + (t + code_of(rest, Place::Code)) =~= code + code_of(
            rest,
            Place::Code,
        ));
    }
}

/// A quoted value stays as it is, whatever it holds.
proof fn lemma_quoted_stays(value: Seq<char>, rest: Seq<char>)
    ensures
        code_of(escaped(value, '\'') + seq!['\''] + rest, Place::Quoted('\'')) == escaped(
            value,
            '\'',
        ) + seq!['\''] + code_of(rest, Place::Code),
    decreases value.len(),
{
    let end = code_of(rest, Place::Code);
    let s = escaped(value, '\'') + seq!['\''] + rest;
    if value.len() == 0 {
        assert(s[0] == '\'');
        assert(s.drop_first() =~= rest);
        assert(escaped(value, '\'') + seq!['\''] + end =~= seq!['\''] + end);
    } else {
        let t = value.drop_first();
        lemma_quoted_stays(t, rest);
        let inner = escaped(t, '\'') + seq!['\''] + rest;
        let out = escaped(t, '\'') + seq!['\''] + end;
        if value[0] == '\\' || value[0] == '\'' {
            assert(s =~= seq!['\\', value[0]] + inner);
            assert(s.skip(2) =~= inner);
            assert(s.take(2) =~= seq!['\\', value[0]]);
            assert(s.take(2) + out =~= escaped(value, '\'') + seq!['\''] + end);
        } else {
            assert(s =~= seq![value[0]] + inner);
            assert(s.drop_first() =~= inner);
            assert(seq![value[0]] + out =~= escaped(value, '\'') + seq!['\''] + end);
        }
    }
}

/// A name has nothing to escape.
proof fn lemma_constant_is_plain(constant: Seq<char>)
    requires
        forall|i: int|
            0 <= i < constant.len() ==> 'A' <= #[trigger] constant[i] <= 'Z' || constant[i] == '_',
    ensures
        escaped(constant, '\'') == constant,
    decreases constant.len(),
{
    if constant.len() == 0 {
        assert(constant =~= Seq::empty());
    } else {
        let t = constant.drop_first();
        assert forall|i: int| 0 <= i < t.len() implies 'A' <= #[trigger] t[i] <= 'Z' || t[i]
            == '_' by {
            assert(t[i] == constant[i + 1]);
        }
        lemma_constant_is_plain(t);
        assert(seq![constant[0]] + t =~= constant);
    }
}

/// A definition holds no comment, whatever the value is.
proof fn lemma_definition_is_code(constant: Seq<char>, value: Seq<char>)
    requires
        is_constant(constant),
    ensures
        code_of(definition(constant, value), Place::Code) == definition(constant, value),
{
    reveal_strlit("define('");
    reveal_strlit("', '");
    reveal_strlit("');");
    let quote = seq!['\''];
    let v = escaped(value, '\'');
    let line = definition(constant, value);
    let none = Seq::<char>::empty();
    let front = "define('"@.take(7);
    let comma = seq![',', ' '];
    let close = seq![')', ';'];
    lemma_code_stays(close, none);
    assert(close + none =~= close);
    let third = v + quote + close;
    lemma_quoted_stays(value, close);
    assert((quote + third).drop_first() =~= third);
    lemma_code_stays(comma, quote + third);
    let second = constant + quote + (comma + (quote + third));
    lemma_constant_is_plain(constant);
    lemma_quoted_stays(constant, comma + (quote + third));
    assert((quote + second).drop_first() =~= second);
    lemma_code_stays(front, quote + second);
    assert(line =~= front + (quote + second));
}

/// A constant that is defined to a value is read back as the value, whatever it holds.
pub proof fn law_defined_values_are_read_back(
    constant: Seq<char>,
    value: Seq<char>,
    more: Seq<Seq<char>>,
)
    requires
        is_constant(constant),
    ensures
        defined_in(code_lines(seq![definition(constant, value)] + more, false), constant) == Some(
            value,
        ),
{
    reveal_strlit("define");
    reveal_strlit("define('");
    reveal_strlit("', '");
    reveal_strlit("');");
    reveal_strlit("*");
    let line = definition(constant, value);
    let v = escaped(value, '\'');
    let lines = seq![line] + more;
    lemma_definition_is_code(constant, value);
    assert(lines[0] == line);
    assert(code_lines(lines, false)[0] == line);
    assert(line[0] == 'd');
    assert(text::prefix_len(line, Class::White) == 0);
    assert(text::trim_start(line, Class::White) =~= line);
    assert(line.subrange(0, 6) =~= "define"@);
    assert(text::occurs_at(line, "define"@, 0));
    assert(!text::starts_with(line, "*"@)) by {
        assert(line.subrange(0, 1)[0] == 'd');
    }
    assert forall|j: int| 0 <= j < 8 implies !text::occurs_at(line, constant, j) by {
        if text::occurs_at(line, constant, j) {
            assert(line.subrange(j, j + constant.len())[0] == constant[0]);
            assert(line[j] == "define('"@[j]);
        }
    }
    assert(line.subrange(8, 8int + constant.len()) =~= constant);
    assert(text::occurs_at(line, constant, 8));
    text::lemma_find_from(line, constant, 0);
    assert(text::find(line, constant) == Some(8int));
    let after = line.skip(8int + constant.len());
    assert(after =~= "', '"@ + v + "');"@);
    assert(text::prefix_len(after, Class::White) == 0);
    assert(text::trim_start(after, Class::White) =~= after);
    text::lemma_prefix_len_is(after, Class::CloseOrQuote, 1);
    let past = after.skip(1);
    assert(past[0] == ',');
    assert(text::prefix_len(past, Class::White) == 0);
    assert(text::trim_start(past, Class::White) =~= past);
    assert(past[1] == ' ');
    text::lemma_prefix_len_is(past, Class::Is(','), 1);
    let spaced = past.skip(1);
    assert(spaced[0] == ' ' && spaced[1] == '\'');
    text::lemma_prefix_len_is(spaced, Class::White, 1);
    let shown = spaced.skip(1);
    assert(shown =~= seq!['\''] + (v + seq!['\''] + seq![')', ';']));
    assert(text::prefix_len(shown, Class::NotQuote) == 0);
    assert(shown.skip(1) =~= v + seq!['\''] + seq![')', ';']);
    law_escaped_values_are_read_back(value, '\'', seq![')', ';']);
}

/// Executable form of [`defined_on`].
fn define_on(line: &[char], constant: &str) -> (r: Option<String>)
    ensures
        text::text_opt(r) == defined_on(line@, constant@),
{
    let t = text::trimmed_start(line, Class::White);
    if text::begins(t, "*") {
        return None;
    }
    let define = text::chars_of("define");
    if !text::has_chars(t, define.as_slice()) {
        return None;
    }
    let name = text::chars_of(constant);
    match text::find_at(t, name.as_slice()) {
        None => None,
        Some(at) => {
            let total = t.len();
            let after = slice_subrange(t, at + name.len(), total);
            assert(after@ =~= t@.skip(at + constant@.len()));
            let past = text::trimmed_start(
                text::trimmed_start(after, Class::White),
                Class::CloseOrQuote,
            );
            let value = text::trimmed_start(
                text::trimmed_start(text::trimmed_start(past, Class::White), Class::Is(',')),
                Class::White,
            );
            first_quoted(value)
        },
    }
}

/// `define('NAME', 'value');` -> `value`, for the first uncommented occurrence.
fn find_define(lines: &Vec<Vec<char>>, constant: &str) -> (r: Option<String>)
    ensures
        text::text_opt(r) == defined_in(text::rows(lines@), constant@),
{
    let ghost all = text::rows(lines@);
    let mut i: usize = 0;
    assert(all.skip(0) =~= all);
    while i < lines.len()
        invariant
            i <= lines@.len(),
            all == text::rows(lines@),
            defined_in(all, constant@) == defined_in(all.skip(i as int), constant@),
        decreases lines@.len() - i,
    {
        assert(all.skip(i as int)[0] == lines@[i as int]@);
        assert(all.skip(i as int).drop_first() =~= all.skip(i + 1));
        let found = define_on(lines[i].as_slice(), constant);
        if found.is_some() {
            return found;
        }
        i += 1;
    }
    None
}

/// The prefix that the first `$table_prefix` line sets.
pub open spec fn prefix_in(lines: Seq<Seq<char>>) -> Option<Seq<char>>
    decreases lines.len(),
{
    if lines.len() == 0 {
        None
    } else {
        let t = text::trim_start(lines[0], Class::White);
        match text::strip_prefix(t, "$table_prefix"@) {
            None => prefix_in(lines.drop_first()),
            Some(after) => match text::strip_prefix(
                text::trim_start(after, Class::White),
                "="@,
            ) {
                None => None,
                Some(value) => first_quoted_in(text::trim_start(value, Class::White)),
            },
        }
    }
}

/// `$table_prefix = 'wp_';` -> `wp_`
fn find_table_prefix(lines: &Vec<Vec<char>>) -> (r: Option<String>)
    ensures
        text::text_opt(r) == prefix_in(text::rows(lines@)),
{
    let ghost all = text::rows(lines@);
    let mut i: usize = 0;
    assert(all.skip(0) =~= all);
    while i < lines.len()
        invariant
            i <= lines@.len(),
            all == text::rows(lines@),
            prefix_in(all) == prefix_in(all.skip(i as int)),
        decreases lines@.len() - i,
    {
        assert(all.skip(i as int)[0] == lines@[i as int]@);
        assert(all.skip(i as int).drop_first() =~= all.skip(i + 1));
        let t = text::trimmed_start(lines[i].as_slice(), Class::White);
        if let Some(after) = text::after_prefix(t, "$table_prefix") {
            return match text::after_prefix(text::trimmed_start(after, Class::White), "=") {
                None => None,
                Some(value) => first_quoted(text::trimmed_start(value, Class::White)),
            };
        }
        i += 1;
    }
    None
}

/// The database constants of a `wp-config.php`, its comments left out.
pub open spec fn db_config_in(contents: Seq<char>) -> Option<DbConfigView> {
    let lines = code_lines(text::lines(contents), false);
    match (defined_in(lines, "DB_NAME"@), defined_in(lines, "DB_USER"@)) {
        (Some(name), Some(user)) => Some(
            DbConfigView {
                name,
                user,
                password: match defined_in(lines, "DB_PASSWORD"@) {
                    Some(p) => p,
                    None => ""@,
                },
                host: match defined_in(lines, "DB_HOST"@) {
                    Some(h) => h,
                    None => "localhost"@,
                },
                prefix: match prefix_in(lines) {
                    Some(p) => p,
                    None => "wp_"@,
                },
            },
        ),
        _ => None,
    }
}

/// The view of the constants.
pub open spec fn config_view(o: Option<DbConfig>) -> Option<DbConfigView> {
    match o {
        Some(c) => Some(c@),
        None => None,
    }
}

/// Extracts the database constants from `wp-config.php` text.
///
/// Handles single and double quotes, `define()` and `define ()`, extra
/// whitespace, and `$table_prefix` in either quoting style. Comments are skipped,
/// whole blocks of them too, so a leftover example cannot win over the live values.
pub fn parse_db_config(contents: &str) -> (r: Option<DbConfig>)
    ensures
        config_view(r) == db_config_in(contents@),
{
    let cs = text::chars_of(contents);
    let lines = text::lines_of(cs.as_slice());
    let lines = strip_lines(&lines);
    let name = find_define(&lines, "DB_NAME");
    let user = find_define(&lines, "DB_USER");
    let password = match find_define(&lines, "DB_PASSWORD") {
        Some(p) => p,
        None => "".to_owned(),
    };
    let host = match find_define(&lines, "DB_HOST") {
        Some(h) => h,
        None => "localhost".to_owned(),
    };
    let prefix = match find_table_prefix(&lines) {
        Some(p) => p,
        None => "wp_".to_owned(),
    };
    match (name, user) {
        (Some(name), Some(user)) => Some(DbConfig { name, user, password, host, prefix }),
        _ => None,
    }
}

// ---------------------------------------------------------------------------
// The file
// ---------------------------------------------------------------------------

/// The `wp-config.php` of a site.
pub open spec fn config_path(config: Config, site: RecordView) -> Seq<char> {
    config.spec_in_site(site.domain, "public_html/wp-config.php"@)
}

/// Reads the `wp-config.php` of a site. In dry-run the file usually does not
/// exist, and its absence changes nothing.
pub open spec fn read_stage(config: Config, site: RecordView) -> StageView {
    let tasks = seq![plan::plain(ActionView::ReadFile(config_path(config, site)))];
    if config.dry_run {
        plan::attempt(tasks)
    } else {
        plan::silent(tasks)
    }
}

/// Executable form of [`read_stage`].
pub fn reading(config: &Config, site: &SiteRecord) -> (s: Stage)
    ensures
        s@ == read_stage(*config, site@),
{
    let file = config.in_site(site.domain.as_str(), "public_html/wp-config.php");
    let list = plan::only(Action::ReadFile(file));
    if config.dry_run {
        plan::attempt_stage(list)
    } else {
        plan::silent_stage(list)
    }
}

/// What a site connects to its database with, given its `wp-config.php`. Without
/// the file, in dry-run, the derived values let the rest of a rehearsal proceed
/// without pretending to have real credentials.
pub open spec fn spec_read_db_config(
    config: Config,
    site: RecordView,
    file: Option<OutputView>,
) -> Result<DbConfigView, ErrorView> {
    match file {
        Some(out) => match db_config_in(out.stdout) {
            Some(c) => Ok(c),
            None => Err(
                ErrorView::Invalid(
                    "could not find database constants in "@ + config_path(config, site),
                ),
            ),
        },
        None => Ok(
            DbConfigView {
                name: site.db_name,
                user: models::identifier_of(site.domain),
                password: ""@,
                host: "127.0.0.1"@,
                prefix: "wp_"@,
            },
        ),
    }
}

/// Executable form of [`spec_read_db_config`].
pub fn read_db_config(config: &Config, site: &SiteRecord, file: Option<&CommandOutput>) -> (r:
    Result<DbConfig, Error>)
    ensures
        ({
            let view = match file {
                Some(out) => Some(out@),
                None => None,
            };
            match r {
                Ok(c) => spec_read_db_config(*config, site@, view) == Ok::<
                    DbConfigView,
                    ErrorView,
                >(c@),
                Err(e) => spec_read_db_config(*config, site@, view) == Err::<
                    DbConfigView,
                    ErrorView,
                >(e@),
            }
        }),
{
    match file {
        Some(out) => match parse_db_config(out.stdout.as_str()) {
            Some(c) => Ok(c),
            None => {
                let path = config.in_site(site.domain.as_str(), "public_html/wp-config.php");
                Err(
                    Error::Invalid(
                        text::cat2("could not find database constants in ", path.as_str()),
                    ),
                )
            },
        },
        None => Ok(
            DbConfig {
                name: site.db_name.clone(),
                user: system_user(site.domain.as_str()),
                password: "".to_owned(),
                host: "127.0.0.1".to_owned(),
                prefix: "wp_".to_owned(),
            },
        ),
    }
}

/// Each part of what a site connects to its database with is read from the constant that
/// is meant for it; name and user have to be there.
pub proof fn law_constants_are_read_by_their_names(contents: Seq<char>)
    ensures
        ({
            let lines = code_lines(text::lines(contents), false);
            match db_config_in(contents) {
                Some(c) => {
                    &&& defined_in(lines, "DB_NAME"@) == Some(c.name)
                    &&& defined_in(lines, "DB_USER"@) == Some(c.user)
                    &&& defined_in(lines, "DB_PASSWORD"@) matches Some(p) ==> c.password == p
                    &&& defined_in(lines, "DB_HOST"@) matches Some(h) ==> c.host == h
                    &&& defined_in(lines, "DB_HOST"@) is None ==> c.host == "localhost"@
                    &&& prefix_in(lines) matches Some(p) ==> c.prefix == p
                },
                None => defined_in(lines, "DB_NAME"@) is None || defined_in(lines, "DB_USER"@)
                    is None,
            }
        }),
{
}

} // verus!
