//! SMTP email delivery for notifications and user invitations: what is sent, what is
//! expected back, and what a reply means.
//!
//! Delivery speaks RFC 5321 SMTP (with AUTH LOGIN support).

use vstd::prelude::*;
use vstd::utf8;
use crate::clock;
use crate::clock::UtcTime;
use crate::crypto;
use crate::digits;
use crate::panel::config::Config;
use crate::text;

verus! {

#[derive(Debug)]
pub struct EmailMessage {
    pub to: String,
    pub subject: String,
    pub body_text: String,
}

// ---------------------------------------------------------------------------
// The conversation
// ---------------------------------------------------------------------------

/// What is sent before a reply is read.
#[derive(Debug)]
pub enum Sending {
    /// Nothing: the server speaks first.
    Nothing,
    /// A line.
    Line(String),
    /// The message itself.
    Message(String),
}

/// [`Sending`] with its texts as sequences of characters.
pub enum SendingView {
    Nothing,
    Line(Seq<char>),
    Message(Seq<char>),
}

impl View for Sending {
    type V = SendingView;

    open spec fn view(&self) -> SendingView {
        match self {
            Sending::Nothing => SendingView::Nothing,
            Sending::Line(s) => SendingView::Line(s@),
            Sending::Message(s) => SendingView::Message(s@),
        }
    }
}

/// One exchange: what is sent, and the code of the reply that lets the conversation
/// go on.
#[derive(Debug)]
pub struct Exchange {
    pub sending: Sending,
    pub code: u16,
    /// The reply may have several lines.
    pub many_lines: bool,
}

/// [`Exchange`] with its texts as sequences of characters.
pub struct ExchangeView {
    pub sending: SendingView,
    pub code: u16,
    pub many_lines: bool,
}

impl View for Exchange {
    type V = ExchangeView;

    open spec fn view(&self) -> ExchangeView {
        ExchangeView {
            sending: self.sending@,
            code: self.code,
            many_lines: self.many_lines,
        }
    }
}

/// The views of a conversation.
pub open spec fn exchanges(v: Seq<Exchange>) -> Seq<ExchangeView> {
    v.map_values(|e: Exchange| e@)
}

/// A line that is answered with one line.
pub open spec fn asks(line: Seq<char>, code: u16) -> ExchangeView {
    ExchangeView { sending: SendingView::Line(line), code, many_lines: false }
}

/// The sender of the panel's messages.
pub open spec fn sender(config: Config) -> Seq<char> {
    match config.smtp_from {
        Some(s) => s@,
        None => "noreply@localhost"@,
    }
}

/// The user and the password that the panel signs in with, if it does.
pub open spec fn login_of(config: Config) -> Option<(Seq<char>, Seq<char>)> {
    match (config.smtp_user, config.smtp_password) {
        (Some(user), Some(password)) => if user@.len() > 0 {
            Some((user@, password@))
        } else {
            None
        },
        _ => None,
    }
}

/// The exchanges that sign the panel in.
pub open spec fn login_exchanges(config: Config) -> Seq<ExchangeView> {
    match login_of(config) {
        Some((user, password)) => seq![
            asks("AUTH LOGIN"@, 334),
            asks(crypto::base64_of(utf8::encode_utf8(user)), 334),
            asks(crypto::base64_of(utf8::encode_utf8(password)), 235),
        ],
        None => Seq::empty(),
    }
}

/// The message with its headers, and the line that ends it.
pub open spec fn wire_message(config: Config, msg: EmailMessage, date: Seq<char>) -> Seq<char> {
    "From: "@ + sender(config) + "\r\nTo: "@ + msg.to@ + "\r\nDate: "@ + date + "\r\nSubject: "@
        + msg.subject@ + "\r\nContent-Type: text/plain; charset=utf-8\r\n\r\n"@ + msg.body_text@
        + "\r\n.\r\n"@
}

/// The conversation that delivers a message.
pub open spec fn conversation(config: Config, msg: EmailMessage, now: UtcTime) -> Seq<ExchangeView> {
    seq![
        ExchangeView { sending: SendingView::Nothing, code: 220, many_lines: false },
        ExchangeView {
            sending: SendingView::Line("EHLO localhost"@),
            code: 250,
            many_lines: true,
        },
    ] + login_exchanges(config) + seq![
        asks("MAIL FROM:<"@ + sender(config) + ">"@, 250),
        asks("RCPT TO:<"@ + msg.to@ + ">"@, 250),
        asks("DATA"@, 354),
        ExchangeView {
            sending: SendingView::Message(
                wire_message(config, msg, clock::rfc2822_of(now.secs, now.nanos)),
            ),
            code: 250,
            many_lines: false,
        },
    ]
}

/// How a message is to be delivered.
#[derive(Debug)]
pub enum Delivery {
    /// Nothing is configured: the message is logged and counts as delivered.
    Log,
    /// The exchanges with the server at this address, after which it is told good-bye.
    Converse { address: String, exchanges: Vec<Exchange> },
}

/// A line that is answered with one line.
fn ask(line: &str, code: u16) -> (e: Exchange)
    ensures
        e@ == asks(line@, code),
{
    Exchange { sending: Sending::Line(line.to_owned()), code, many_lines: false }
}

/// Appends an exchange.
fn push_exchange(v: &mut Vec<Exchange>, e: Exchange)
    ensures
        exchanges(final(v)@) == exchanges(old(v)@).push(e@),
{
    v.push(e);
    assert(exchanges(v@) =~= exchanges(old(v)@).push(e@));
}

/// Executable form of [`sender`].
fn sender_text(config: &Config) -> (s: String)
    ensures
        s@ == sender(*config),
{
    match &config.smtp_from {
        Some(s) => s.clone(),
        None => "noreply@localhost".to_owned(),
    }
}

/// Executable form of [`wire_message`].
fn write_message(config: &Config, msg: &EmailMessage, date: &str) -> (s: String)
    ensures
        s@ == wire_message(*config, *msg, date@),
{
    let from = sender_text(config);
    let mut s = text::cat5("From: ", from.as_str(), "\r\nTo: ", msg.to.as_str(), "\r\nDate: ");
    s.append(date);
    s.append("\r\nSubject: ");
    s.append(msg.subject.as_str());
    s.append("\r\nContent-Type: text/plain; charset=utf-8\r\n\r\n");
    s.append(msg.body_text.as_str());
    s.append("\r\n.\r\n");
    s
}

/// Appends [`login_exchanges`].
fn push_login(v: &mut Vec<Exchange>, config: &Config)
    ensures
        exchanges(final(v)@) == exchanges(old(v)@) + login_exchanges(*config),
{
    let ghost before = exchanges(v@);
    if let (Some(user), Some(password)) = (&config.smtp_user, &config.smtp_password) {
        if !user.as_str().is_empty() {
            push_exchange(v, ask("AUTH LOGIN", 334));
            let shown = crypto::base64(user.as_str().as_bytes());
            push_exchange(v, ask(shown.as_str(), 334));
            let shown = crypto::base64(password.as_str().as_bytes());
            push_exchange(v, ask(shown.as_str(), 235));
        }
    }
    assert(exchanges(v@) =~= before + login_exchanges(*config));
}

/// How a message is to be delivered with the configured SMTP server.
pub fn deliver(config: &Config, msg: &EmailMessage, now: &UtcTime) -> (d: Delivery)
    requires
        config.spec_mail_host() is Some ==> now.wf() && clock::YEAR_0 <= now.secs
            < clock::YEAR_10000,
    ensures
        match config.spec_mail_host() {
            None => d is Log,
            Some(host) => d matches Delivery::Converse { address, exchanges: v } && address@
                == host + ":"@ + digits::dec(config.smtp_port as nat) && exchanges(v@)
                == conversation(*config, *msg, *now),
        },
{
    let host = match config.mail_host() {
        None => return Delivery::Log,
        Some(h) => h,
    };
    let port = digits::dec_u64(config.smtp_port as u64);
    let address = text::cat3(host.as_str(), ":", port.as_str());
    let mut v: Vec<Exchange> = Vec::new();
    assert(exchanges(v@) =~= Seq::empty());
    push_exchange(&mut v, Exchange { sending: Sending::Nothing, code: 220, many_lines: false });
    push_exchange(
        &mut v,
        Exchange {
            sending: Sending::Line("EHLO localhost".to_owned()),
            code: 250,
            many_lines: true,
        },
    );
    push_login(&mut v, config);
    let from = sender_text(config);
    let line = text::cat3("MAIL FROM:<", from.as_str(), ">");
    push_exchange(&mut v, ask(line.as_str(), 250));
    let line = text::cat3("RCPT TO:<", msg.to.as_str(), ">");
    push_exchange(&mut v, ask(line.as_str(), 250));
    push_exchange(&mut v, ask("DATA", 354));
    let date = clock::rfc2822_text(now);
    let message = write_message(config, msg, date.as_str());
    push_exchange(
        &mut v,
        Exchange { sending: Sending::Message(message), code: 250, many_lines: false },
    );
    assert(exchanges(v@) =~= conversation(*config, *msg, *now));
    Delivery::Converse { address, exchanges: v }
}

// ---------------------------------------------------------------------------
// Replies
// ---------------------------------------------------------------------------

/// The code at the front of a line: its first three characters as a number, or zero.
pub open spec fn code_of(line: Seq<char>) -> nat {
    if line.len() >= 3 {
        match digits::parse(line.take(3), u16::MAX as nat) {
            Some(n) => n,
            None => 0,
        }
    } else {
        0
    }
}

/// What is said of a line with another code than the one that was expected.
pub open spec fn unexpected(line: Seq<char>, expected: u16) -> Seq<char> {
    "Expected SMTP code "@ + digits::dec(expected as nat) + ", received "@ + digits::dec(
        code_of(line),
    ) + ": "@ + text::trim(line, text::Class::White)
}

/// What a line of a reply means.
#[derive(Debug)]
pub enum Reply {
    /// The conversation goes on.
    Accepted,
    /// Another line of the reply follows.
    More,
    /// The delivery has failed, for this reason.
    Failed(String),
}

/// Executable form of [`code_of`].
fn read_code(line: &[char]) -> (n: u64)
    ensures
        n == code_of(line@),
        n <= u16::MAX,
{
    if line.len() < 3 {
        return 0;
    }
    let front = vstd::slice::slice_subrange(line, 0, 3);
    assert(front@ =~= line@.take(3));
    match digits::parse_max(front, u16::MAX as u64) {
        Some(n) => n,
        None => 0,
    }
}

/// Executable form of [`unexpected`].
fn write_unexpected(line: &str, expected: u16, code: u64) -> (s: String)
    requires
        code == code_of(line@),
    ensures
        s@ == unexpected(line@, expected),
{
    let wanted = digits::dec_u64(expected as u64);
    let got = digits::dec_u64(code);
    let shown = text::trimmed_text(line);
    let mut s = text::cat5(
        "Expected SMTP code ",
        wanted.as_str(),
        ", received ",
        got.as_str(),
        ": ",
    );
    s.append(shown.as_str());
    s
}

/// What a reply of one line means.
pub fn read_reply(line: &str, expected: u16) -> (r: Reply)
    ensures
        if code_of(line@) == expected {
            r is Accepted
        } else {
            r matches Reply::Failed(e) && e@ == unexpected(line@, expected)
        },
{
    let cs = text::chars_of(line);
    let code = read_code(cs.as_slice());
    if code != expected as u64 {
        return Reply::Failed(write_unexpected(line, expected, code));
    }
    Reply::Accepted
}

/// What a line of a reply of several lines means. The end of the stream, shown by an
/// empty line, and a line of fewer than four bytes end the reply; of the others, the one
/// whose code is followed by a space does.
pub fn read_multiline_reply(line: &str, expected: u16) -> (r: Reply)
    ensures
        if text::byte_len(line@) < 4 {
            r is Accepted
        } else if code_of(line@) != expected {
            r matches Reply::Failed(e) && e@ == unexpected(line@, expected)
        } else if line@.len() <= 3 || line@[3] == ' ' {
            r is Accepted
        } else {
            r is More
        },
{
    if text::bytes_in(line) < 4 {
        return Reply::Accepted;
    }
    let cs = text::chars_of(line);
    let code = read_code(cs.as_slice());
    if code != expected as u64 {
        return Reply::Failed(write_unexpected(line, expected, code));
    }
    if cs.len() <= 3 || cs[3] == ' ' {
        Reply::Accepted
    } else {
        Reply::More
    }
}

/// What went wrong with the connection.
#[derive(Debug)]
pub enum Fault {
    Connect { address: String },
    Write { line: String },
    Flush { line: String },
    WriteData,
    FlushData,
    Read,
    ReadLine,
}

/// What is said of a fault, given the reason.
pub fn fault_message(fault: &Fault, reason: &str) -> (s: String)
    ensures
        s@ == match *fault {
            Fault::Connect { address } => "Failed to connect to SMTP server at "@ + address@ + ": "@
                + reason@,
            Fault::Write { line } => "Failed writing command `"@ + line@ + "`: "@ + reason@,
            Fault::Flush { line } => "Failed flushing `"@ + line@ + "`: "@ + reason@,
            Fault::WriteData => "Failed to write email data: "@ + reason@,
            Fault::FlushData => "Failed to flush email data: "@ + reason@,
            Fault::Read => "Failed reading SMTP reply: "@ + reason@,
            Fault::ReadLine => "Failed reading SMTP reply line: "@ + reason@,
        },
{
    match fault {
        Fault::Connect { address } => text::cat4(
            "Failed to connect to SMTP server at ",
            address.as_str(),
            ": ",
            reason,
        ),
        Fault::Write { line } => text::cat4(
            "Failed writing command `",
            line.as_str(),
            "`: ",
            reason,
        ),
        Fault::Flush { line } => text::cat4("Failed flushing `", line.as_str(), "`: ", reason),
        Fault::WriteData => text::cat2("Failed to write email data: ", reason),
        Fault::FlushData => text::cat2("Failed to flush email data: ", reason),
        Fault::Read => text::cat2("Failed reading SMTP reply: ", reason),
        Fault::ReadLine => text::cat2("Failed reading SMTP reply line: ", reason),
    }
}

// ---------------------------------------------------------------------------
// Messages
// ---------------------------------------------------------------------------

/// The body of an invitation.
pub open spec fn invitation_body(role: Seq<char>, token: Seq<char>) -> Seq<char> {
    "Hello,\n\nYou have been invited to join WPressForge as an "@ + role
        + ".\n\nClick the link below to accept your invitation and set up your account:\n/register?token="@
        + token
        + "\n\nThis link will expire in 7 days.\n\nRegards,\nWPressForge Team\n"@
}

/// The invitation of a user to the team.
pub fn invitation(to_email: &str, role: &str, token: &str) -> (m: EmailMessage)
    ensures
        m.to@ == to_email@,
        m.subject@ == "Invitation to WPressForge"@,
        m.body_text@ == invitation_body(role@, token@),
{
    let body_text = text::cat5(
        "Hello,\n\nYou have been invited to join WPressForge as an ",
        role,
        ".\n\nClick the link below to accept your invitation and set up your account:\n/register?token=",
        token,
        "\n\nThis link will expire in 7 days.\n\nRegards,\nWPressForge Team\n",
    );
    EmailMessage {
        to: to_email.to_owned(),
        subject: "Invitation to WPressForge".to_owned(),
        body_text,
    }
}

} // verus!
