//! Who sends the report, and the message that is sent: one HTML mail from
//! one mailbox to another, with replies going back to where it came from.

use vstd::prelude::*;
use crate::email::error::EmailError;

verus! {

/// A mail ready to be sent, as `lettre` holds it.
#[verifier::external_type_specification]
#[verifier::external_body]
pub struct ExMessage(lettre::Message);

/// A name and an address, as `lettre` holds them.
#[verifier::external_type_specification]
#[verifier::external_body]
pub struct ExMailbox(lettre::message::Mailbox);

/// The settings of an SMTP transport, as `lettre` holds them until the
/// transport is built for a runtime.
#[verifier::external_type_specification]
#[verifier::external_body]
pub struct ExTransportSettings(lettre::transport::smtp::AsyncSmtpTransportBuilder);

/// A clone of a mailbox is the same name and the same address.
pub assume_specification[ <lettre::message::Mailbox as Clone>::clone ](
    mailbox: &lettre::message::Mailbox,
) -> (copy: lettre::message::Mailbox)
    ensures
        copy == *mailbox,
;

/// An HTML mail before it is put together: subject, sender, recipient, reply address, content.
#[derive(Debug)]
pub struct Letter {
    pub subject: String,
    pub from: lettre::message::Mailbox,
    pub to: lettre::message::Mailbox,
    pub reply_to: lettre::message::Mailbox,
    pub content: String,
}

/// Puts an HTML mail together.
///
/// Calls `lettre::Message::builder` and, on the builder, `header` with the
/// HTML content type, `from`, `to`, `reply_to`, `subject` and `body`, each
/// with the letter's field of that name. Each of the first five sets the
/// header of its name, a mailbox as it is written and the subject as it is;
/// `body` encodes the content for transfer and makes it the body. The mail
/// gets the date of the moment; whether there is a mail depends on the
/// letter alone.
#[verifier::external_body]
fn html_message(letter: Letter) -> (built: Result<lettre::Message, lettre::error::Error>)
    ensures
        built is Ok <==> goes_together(letter@),
        built is Ok ==> header_of(built->Ok_0, "From"@) == Some(mailbox_text(letter.from)),
        built is Ok ==> header_of(built->Ok_0, "To"@) == Some(mailbox_text(letter.to)),
        built is Ok ==> header_of(built->Ok_0, "Reply-To"@) == Some(mailbox_text(letter.reply_to)),
        built is Ok ==> header_of(built->Ok_0, "Subject"@) == Some(letter.subject@),
        built is Ok ==> header_of(built->Ok_0, "Content-Type"@) == Some(HTML@),
        built is Ok ==> body_of(built->Ok_0) == mail_body(letter.content@),
{
    lettre::Message::builder()
        .header(lettre::message::header::ContentType::TEXT_HTML)
        .from(letter.from)
        .to(letter.to)
        .reply_to(letter.reply_to)
        .subject(letter.subject)
        .body(letter.content)
}

/// What the settings of a transport say: the host and the port of the relay,
/// the user and the password that log in there, and whether the session
/// starts in plain text and has to go on under TLS, by STARTTLS, before
/// anything else is sent.
pub struct Relay {
    pub host: Seq<char>,
    pub port: u16,
    pub user: Seq<char>,
    pub pass: Seq<char>,
    pub starttls: bool,
}

/// What the settings of a transport of `lettre` say.
pub uninterp spec fn relay_of(settings: lettre::transport::smtp::AsyncSmtpTransportBuilder) -> Relay;

/// The settings of the transport to a relay: STARTTLS, the given port, the
/// given credentials.
///
/// Calls `lettre::AsyncSmtpTransport::starttls_relay`, which keeps the host
/// and requires STARTTLS, and, on the builder it gives, `port` and
/// `credentials` (made by `Credentials::new`), which keep what they are
/// given. Whether the TLS parameters can be made depends on the machine as
/// well, so nothing is said of when settings come back.
#[verifier::external_body]
fn starttls_settings(host: &str, port: u16, user: String, pass: String) -> (built: Result<
    lettre::transport::smtp::AsyncSmtpTransportBuilder,
    lettre::transport::smtp::Error,
>)
    ensures
        built is Ok ==> relay_of(built->Ok_0) == (Relay {
            host: host@,
            port,
            user: user@,
            pass: pass@,
            starttls: true,
        }),
{
    let credentials = lettre::transport::smtp::authentication::Credentials::new(user, pass);
    let builder = lettre::AsyncSmtpTransport::<lettre::Tokio1Executor>::starttls_relay(host)?;
    Ok(builder.port(port).credentials(credentials))
}

/// The SMTP relay that takes the report, and the credentials for it.
#[derive(Debug)]
pub struct Sender {
    pub smtp_host: String,
    pub smtp_port: u16,
    pub smtp_user: String,
    pub smtp_pass: String,
}

impl Sender {
    /// A sender for the relay at `host` and `port`, with the given credentials.
    pub fn new(host: String, port: u16, user: String, pass: String) -> (sender: Sender)
        ensures
            sender.smtp_host == host,
            sender.smtp_port == port,
            sender.smtp_user == user,
            sender.smtp_pass == pass,
    {
        Sender { smtp_host: host, smtp_port: port, smtp_user: user, smtp_pass: pass }
    }

    /// What the settings of the transport to the sender's relay say: the
    /// sender's host, port, user and password, with STARTTLS required.
    pub open spec fn relay(self) -> Relay {
        Relay {
            host: self.smtp_host@,
            port: self.smtp_port,
            user: self.smtp_user@,
            pass: self.smtp_pass@,
            starttls: true,
        }
    }

    /// The settings of the transport to the sender's relay, from which the
    /// transport is built for a runtime: they say what [`Sender::relay`]
    /// says. A failure to make them is a `TransportSmtpError`.
    pub fn new_transport(&self) -> (transport: Result<
        lettre::transport::smtp::AsyncSmtpTransportBuilder,
        EmailError,
    >)
        ensures
            transport is Ok ==> relay_of(transport->Ok_0) == self.relay(),
            transport is Err ==> transport->Err_0 is TransportSmtpError,
    {
        let built = starttls_settings(
            self.smtp_host.as_str(),
            self.smtp_port,
            self.smtp_user.clone(),
            self.smtp_pass.clone(),
        );
        transport_or_error(built)
    }
}

/// The settings of a transport, or the `TransportSmtpError` that holds why
/// there are none.
pub fn transport_or_error(
    built: Result<lettre::transport::smtp::AsyncSmtpTransportBuilder, lettre::transport::smtp::Error>,
) -> (transport: Result<lettre::transport::smtp::AsyncSmtpTransportBuilder, EmailError>)
    ensures
        built is Ok ==> transport is Ok && transport->Ok_0 == built->Ok_0,
        built is Err ==> transport is Err && transport->Err_0 == (EmailError::TransportSmtpError {
            source: built->Err_0,
        }),
{
    match built {
        Ok(transport) => Ok(transport),
        Err(source) => Err(EmailError::TransportSmtpError { source }),
    }
}

/// The message, or the `EmailError` that holds why there is none.
pub fn message_or_error(built: Result<lettre::Message, lettre::error::Error>) -> (message: Result<
    lettre::Message,
    EmailError,
>)
    ensures
        built is Ok ==> message is Ok && message->Ok_0 == built->Ok_0,
        built is Err ==> message is Err && message->Err_0 == (EmailError::EmailError {
            source: built->Err_0,
        }),
{
    match built {
        Ok(message) => Ok(message),
        Err(source) => Err(EmailError::EmailError { source }),
    }
}

/// The letter that carries the report: from `from` to `to`, with replies
/// going back to `from`.
pub fn letter(
    subject: &str,
    from: lettre::message::Mailbox,
    to: lettre::message::Mailbox,
    content: String,
) -> (letter: Letter)
    ensures
        letter.subject@ == subject@,
        letter.from == from,
        letter.to == to,
        letter.reply_to == from,
        letter.content == content,
{
    let reply_to = from.clone();
    Letter { subject: String::from_str(subject), from, to, reply_to, content }
}

/// The mail that carries the report: the [`letter`] for what is given, put
/// together as an HTML mail. There is a mail exactly where that letter
/// goes together, and it is the mail for that letter: from `from`, to
/// `to`, replies to `from`, the subject as given, the content as HTML.
/// Where the letter does not go together, the failure is an `EmailError`.
pub fn compose(
    subject: &str,
    from: lettre::message::Mailbox,
    to: lettre::message::Mailbox,
    content: String,
) -> (message: Result<lettre::Message, EmailError>)
    ensures
        message is Ok <==> goes_together(report_letter(subject@, from, to, content@)),
        message is Ok ==> is_mail_of(message->Ok_0, report_letter(subject@, from, to, content@)),
        message is Err ==> message->Err_0 is EmailError,
{
    message_or_error(html_message(letter(subject, from, to, content)))
}

/// What a letter says: its texts as sequences of characters, its mailboxes
/// as they are.
pub struct LetterView {
    pub subject: Seq<char>,
    pub from: lettre::message::Mailbox,
    pub to: lettre::message::Mailbox,
    pub reply_to: lettre::message::Mailbox,
    pub content: Seq<char>,
}

impl View for Letter {
    type V = LetterView;

    open spec fn view(&self) -> LetterView {
        LetterView {
            subject: self.subject@,
            from: self.from,
            to: self.to,
            reply_to: self.reply_to,
            content: self.content@,
        }
    }
}

/// Whether `lettre` puts a mail together from a letter: whether its
/// message builder takes the mailboxes, the subject and the content. The
/// date that the mail gets has no part in it.
pub uninterp spec fn goes_together(letter: LetterView) -> bool;

/// A mailbox as `lettre` writes it in a header: the address, and before
/// it the name if there is one.
pub uninterp spec fn mailbox_text(mailbox: lettre::message::Mailbox) -> Seq<char>;

/// What a mail says in the header `name`, if it has that header.
pub uninterp spec fn header_of(message: lettre::Message, name: Seq<char>) -> Option<Seq<char>>;

/// The content type of an HTML mail.
pub const HTML: &'static str = "text/html; charset=utf-8";

/// The body that `lettre` makes of a content: the content encoded for
/// transfer, in the encoding that `lettre` picks for it.
pub uninterp spec fn mail_body(content: Seq<char>) -> Seq<u8>;

/// The body of a mail.
pub uninterp spec fn body_of(message: lettre::Message) -> Seq<u8>;

/// Whether a mail is the one for a letter: whether its headers say who
/// sends it, who gets it, where replies go and what it is about, as the
/// letter does, and that it is HTML, and whether its body is the letter's
/// content.
pub open spec fn is_mail_of(message: lettre::Message, letter: LetterView) -> bool {
    &&& header_of(message, "From"@) == Some(mailbox_text(letter.from))
    &&& header_of(message, "To"@) == Some(mailbox_text(letter.to))
    &&& header_of(message, "Reply-To"@) == Some(mailbox_text(letter.reply_to))
    &&& header_of(message, "Subject"@) == Some(letter.subject)
    &&& header_of(message, "Content-Type"@) == Some(HTML@)
    &&& body_of(message) == mail_body(letter.content)
}

/// What the letter of a report says: replies go back to where it comes from.
pub open spec fn report_letter(
    subject: Seq<char>,
    from: lettre::message::Mailbox,
    to: lettre::message::Mailbox,
    content: Seq<char>,
) -> LetterView {
    LetterView { subject, from, to, reply_to: from, content }
}

} // verus!
