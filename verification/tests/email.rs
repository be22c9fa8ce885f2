use wpressforge::clock::UtcTime;
use wpressforge::panel::config::Config;
use wpressforge::panel::email::{
    deliver, fault_message, invitation, read_multiline_reply, read_reply, Delivery, EmailMessage,
    Fault, Reply, Sending,
};

fn test_config(smtp_host: Option<String>) -> Config {
    Config {
        bind: "127.0.0.1:0".into(),
        database: "test.db".into(),
        workers: 1,
        admin_email: "admin@example.com".into(),
        admin_password: None,
        secure_cookies: false,
        demo_data: false,
        static_dir: "static".into(),
        smtp_host,
        smtp_port: 587,
        smtp_user: None,
        smtp_password: None,
        smtp_from: Some("noreply@wpressforge.local".into()),
    }
}

/// The first of January 2026, noon.
fn noon() -> UtcTime {
    UtcTime { secs: 1_767_268_800, nanos: 0 }
}

fn message() -> EmailMessage {
    EmailMessage {
        to: "user@example.com".into(),
        subject: "Test".into(),
        body_text: "Hello".into(),
    }
}

#[test]
fn unconfigured_smtp_logs_and_returns_ok() {
    let config = test_config(None);
    let msg = EmailMessage {
        to: "user@example.com".into(),
        subject: "Test".into(),
        body_text: "Hello".into(),
    };
    assert!(matches!(deliver(&config, &msg, &noon()), Delivery::Log));
    let never = UtcTime { secs: i64::MAX, nanos: 0 };
    assert!(matches!(deliver(&config, &msg, &never), Delivery::Log));
}

#[test]
fn send_invitation_constructs_correct_payload() {
    let config = test_config(None);
    let msg = invitation("invitee@example.com", "operator", "token123");
    assert!(matches!(deliver(&config, &msg, &noon()), Delivery::Log));
    assert_eq!(msg.to, "invitee@example.com");
    assert_eq!(msg.subject, "Invitation to WPressForge");
    assert!(msg.body_text.contains("/register?token=token123\n"));
    assert!(msg.body_text.contains("as an operator."));
}

/// What is sent of a conversation, with the code that is awaited.
fn lines(d: Delivery) -> Vec<(String, u16)> {
    match d {
        Delivery::Log => panic!("nothing is sent"),
        Delivery::Converse { address, exchanges } => {
            assert_eq!(address, "mail.example.com:587");
            exchanges
                .into_iter()
                .map(|e| match e.sending {
                    Sending::Nothing => (String::new(), e.code),
                    Sending::Line(s) => (s, e.code),
                    Sending::Message(s) => (s, e.code),
                })
                .collect()
        }
    }
}

#[test]
fn a_message_is_delivered_line_by_line() {
    let config = test_config(Some("mail.example.com".into()));
    let sent = lines(deliver(&config, &message(), &noon()));
    let expected = [
        ("", 220),
        ("EHLO localhost", 250),
        ("MAIL FROM:<noreply@wpressforge.local>", 250),
        ("RCPT TO:<user@example.com>", 250),
        ("DATA", 354),
        (
            "From: noreply@wpressforge.local\r\nTo: user@example.com\r\n\
             Date: Thu, 1 Jan 2026 12:00:00 +0000\r\nSubject: Test\r\n\
             Content-Type: text/plain; charset=utf-8\r\n\r\nHello\r\n.\r\n",
            250,
        ),
    ];
    assert_eq!(sent.len(), expected.len());
    for (got, wanted) in sent.iter().zip(expected) {
        assert_eq!((got.0.as_str(), got.1), wanted);
    }
}

#[test]
fn the_panel_signs_in_where_it_has_an_account() {
    let mut config = test_config(Some("mail.example.com".into()));
    config.smtp_user = Some("user".into());
    config.smtp_password = Some("pass".into());
    let sent = lines(deliver(&config, &message(), &noon()));
    assert_eq!(sent[2], ("AUTH LOGIN".to_string(), 334));
    assert_eq!(sent[3], ("dXNlcg==".to_string(), 334));
    assert_eq!(sent[4], ("cGFzcw==".to_string(), 235));
    assert_eq!(sent.len(), 9);
}

#[test]
fn replies_are_held_against_their_code() {
    assert!(matches!(read_reply("220 ready\r\n", 220), Reply::Accepted));
    match read_reply("550 no such user\r\n", 250) {
        Reply::Failed(e) => {
            assert_eq!(e, "Expected SMTP code 250, received 550: 550 no such user")
        }
        other => panic!("unexpected reply: {other:?}"),
    }
    assert!(matches!(read_reply("", 220), Reply::Failed(_)));
}

#[test]
fn a_reply_of_several_lines_ends_with_a_space() {
    assert!(matches!(read_multiline_reply("250-SIZE\r\n", 250), Reply::More));
    assert!(matches!(read_multiline_reply("250 OK\r\n", 250), Reply::Accepted));
    assert!(matches!(read_multiline_reply("", 250), Reply::Accepted));
    assert!(matches!(read_multiline_reply("421 bye\r\n", 250), Reply::Failed(_)));
}

#[test]
fn faults_name_what_was_being_done() {
    let fault = Fault::Connect { address: "mail:25".into() };
    assert_eq!(
        fault_message(&fault, "refused"),
        "Failed to connect to SMTP server at mail:25: refused"
    );
    assert_eq!(
        fault_message(&Fault::Write { line: "DATA".into() }, "gone"),
        "Failed writing command `DATA`: gone"
    );
    assert_eq!(
        fault_message(&Fault::Flush { line: "DATA".into() }, "gone"),
        "Failed flushing `DATA`: gone"
    );
    assert_eq!(fault_message(&Fault::WriteData, "x"), "Failed to write email data: x");
    assert_eq!(fault_message(&Fault::FlushData, "x"), "Failed to flush email data: x");
    assert_eq!(fault_message(&Fault::Read, "x"), "Failed reading SMTP reply: x");
    assert_eq!(fault_message(&Fault::ReadLine, "x"), "Failed reading SMTP reply line: x");
}
