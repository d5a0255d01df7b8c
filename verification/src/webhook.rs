//! The request that carries a message to the chat webhook.
//!
//! A message is sent as a JSON object with two members: `msgtype`, which
//! names the format, and a member called like the format, which holds the
//! title and the rendered body.

use crate::failure::ForwardError;
use vstd::prelude::*;
use vstd::string::*;

verus! {

/// `serde_json::Error`, the error of `serde_json`'s functions. A value of it
/// is carried through and never looked into.
#[verifier::external_type_specification]
#[verifier::external_body]
pub struct ExJsonError(serde_json::Error);

/// The sixteen digits that a control character's code is written with.
pub open spec fn hex_digits() -> Seq<char> {
    "0123456789abcdef"@
}

/// How one character stands inside a JSON string.
///
/// The quote and the backslash get a backslash in front. Backspace, tab, line
/// feed, form feed and carriage return are written with their letter. Every
/// other character below the space is written as `\u00` and the two digits
/// of its code. Every other character stands for itself.
pub open spec fn escaped_char(c: char) -> Seq<char> {
    if c == '"' {
        "\\\""@
    } else if c == '\\' {
        "\\\\"@
    } else if c == '\u{8}' {
        "\\b"@
    } else if c == '\t' {
        "\\t"@
    } else if c == '\n' {
        "\\n"@
    } else if c == '\u{c}' {
        "\\f"@
    } else if c == '\r' {
        "\\r"@
    } else if (c as int) < 0x20 {
        "\\u00"@.push(hex_digits()[(c as int) / 16]).push(hex_digits()[(c as int) % 16])
    } else {
        seq![c]
    }
}

/// The characters of a text as they stand inside a JSON string, in order.
pub open spec fn escaped_text(text: Seq<char>) -> Seq<char>
    decreases text.len(),
{
    if text.len() == 0 {
        Seq::empty()
    } else {
        escaped_text(text.drop_last()) + escaped_char(text.last())
    }
}

/// The JSON string literal for a text: a quote, the escaped text, a quote.
pub open spec fn json_string(text: Seq<char>) -> Seq<char> {
    "\""@ + escaped_text(text) + "\""@
}

/// Calls `serde_json::to_string` on a string slice.
///
/// The call writes into a vector in memory, and for a string slice it has
/// nothing else that could fail, so it is taken to succeed. What it returns
/// is the text between two quotes, each character escaped as
/// [`escaped_char`] says: that is the table by which `serde_json` escapes.
#[verifier::external_body]
fn quote_json(text: &str) -> (quoted: Result<String, serde_json::Error>)
    ensures
        quoted is Ok,
        quoted matches Ok(literal) ==> literal@ == json_string(text@),
{
    serde_json::to_string(text)
}

/// Calls `to_string` on a `serde_json::Error`, which gives the error's
/// description. Nothing is claimed about the text.
#[verifier::external_body]
fn json_error_text(error: &serde_json::Error) -> (text: String) {
    error.to_string()
}

/// The format of a message.
#[derive(Debug, Clone, Copy, PartialEq, Eq, Structural)]
pub enum Format {
    /// The alerts as structured text.
    PlainText,
    /// The alerts rendered as markdown.
    Markdown,
}

/// The value of `msgtype` for a format, which is also the name of the member
/// that holds the content.
pub open spec fn msgtype(format: Format) -> Seq<char> {
    match format {
        Format::PlainText => "text"@,
        Format::Markdown => "markdown"@,
    }
}

/// The name under which the content object holds the rendered body.
pub open spec fn body_key(format: Format) -> Seq<char> {
    match format {
        Format::PlainText => "content"@,
        Format::Markdown => "text"@,
    }
}

/// The request body for a format, given the title and the rendered body as
/// JSON string literals. It has no space and no line break of its own.
pub open spec fn framed_request(
    format: Format,
    quoted_title: Seq<char>,
    quoted_body: Seq<char>,
) -> Seq<char> {
    "{\"msgtype\":\""@ + msgtype(format) + "\",\""@ + msgtype(format) + "\":{\"title\":"@
        + quoted_title + ",\""@ + body_key(format) + "\":"@ + quoted_body + "}}"@
}

/// Puts the request body together from the title and the rendered body, both
/// given as JSON string literals.
pub fn frame_request(format: Format, quoted_title: &str, quoted_body: &str) -> (body: String)
    ensures
        body@ == framed_request(format, quoted_title@, quoted_body@),
{
    let (tag, key) = match format {
        Format::PlainText => ("text", "content"),
        Format::Markdown => ("markdown", "text"),
    };
    assert(tag@ == msgtype(format) && key@ == body_key(format));
    let mut body = String::from_str("{\"msgtype\":\"");
    body.append(tag);
    body.append("\",\"");
    body.append(tag);
    body.append("\":{\"title\":");
    body.append(quoted_title);
    body.append(",\"");
    body.append(key);
    body.append("\":");
    body.append(quoted_body);
    body.append("}}");
    assert(body@ =~= framed_request(format, quoted_title@, quoted_body@));
    body
}

/// What an [`OutboundMessage`] holds, as mathematical values.
pub struct MessageView {
    pub format: Format,
    pub title: Seq<char>,
    pub body: Seq<char>,
}

/// A message for the chat webhook: a title and the rendered alerts, in one
/// of the two formats. It is made for one request and not kept.
#[derive(Debug, Clone)]
pub enum OutboundMessage {
    /// The alerts as structured text.
    PlainText { title: String, content: String },
    /// The alerts as markdown.
    Markdown { title: String, text: String },
}

impl View for OutboundMessage {
    type V = MessageView;

    open spec fn view(&self) -> MessageView {
        match self {
            OutboundMessage::PlainText { title, content } => MessageView {
                format: Format::PlainText,
                title: title@,
                body: content@,
            },
            OutboundMessage::Markdown { title, text } => MessageView {
                format: Format::Markdown,
                title: title@,
                body: text@,
            },
        }
    }
}

/// The request body that carries a message: the frame of its format around
/// the title and the rendered body, each as a JSON string literal.
pub open spec fn request_json(message: MessageView) -> Seq<char> {
    framed_request(message.format, json_string(message.title), json_string(message.body))
}

impl OutboundMessage {
    /// A message in the given format.
    pub fn new(format: Format, title: &str, body: &str) -> (message: OutboundMessage)
        ensures
            message@ == (MessageView { format, title: title@, body: body@ }),
    {
        match format {
            Format::PlainText => OutboundMessage::PlainText {
                title: String::from_str(title),
                content: String::from_str(body),
            },
            Format::Markdown => OutboundMessage::Markdown {
                title: String::from_str(title),
                text: String::from_str(body),
            },
        }
    }

    /// The format of the message.
    pub fn format(&self) -> (format: Format)
        ensures
            format == self@.format,
    {
        match self {
            OutboundMessage::PlainText { .. } => Format::PlainText,
            OutboundMessage::Markdown { .. } => Format::Markdown,
        }
    }

    /// The title of the message.
    pub fn title(&self) -> (title: &str)
        ensures
            title@ == self@.title,
    {
        match self {
            OutboundMessage::PlainText { title, .. } => title.as_str(),
            OutboundMessage::Markdown { title, .. } => title.as_str(),
        }
    }

    /// The rendered alerts that the message carries.
    pub fn body(&self) -> (body: &str)
        ensures
            body@ == self@.body,
    {
        match self {
            OutboundMessage::PlainText { content, .. } => content.as_str(),
            OutboundMessage::Markdown { text, .. } => text.as_str(),
        }
    }

    /// Writes the message as the body of the request to the webhook.
    ///
    /// The title and the rendered body are written as JSON strings by
    /// `serde_json`, and the frame of the format is put around them. This
    /// succeeds for every message.
    pub fn to_json(&self) -> (encoded: Result<String, ForwardError>)
        ensures
            encoded matches Ok(body) && body@ == request_json(self@),
    {
        let quoted_title = quote_json(self.title());
        let quoted_body = quote_json(self.body());
        encode_request(self.format(), quoted_title, quoted_body)
    }
}

/// Completes the writing of a request body, given what became of writing the
/// title and the rendered body as JSON strings: the framed request where both
/// were written, else the failure of the first that was not.
pub fn encode_request(
    format: Format,
    quoted_title: Result<String, serde_json::Error>,
    quoted_body: Result<String, serde_json::Error>,
) -> (encoded: Result<String, ForwardError>)
    ensures
        match (quoted_title, quoted_body) {
            (Ok(title), Ok(body)) => encoded matches Ok(text) && text@ == framed_request(
                format,
                title@,
                body@,
            ),
            _ => encoded matches Err(e) && e is Encode,
        },
{
    match quoted_title {
        Ok(title) => match quoted_body {
            Ok(body) => Ok(frame_request(format, title.as_str(), body.as_str())),
            Err(error) => Err(ForwardError::Encode { cause: json_error_text(&error) }),
        },
        Err(error) => Err(ForwardError::Encode { cause: json_error_text(&error) }),
    }
}

} // verus!
