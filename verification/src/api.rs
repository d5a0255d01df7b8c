//! The handling of one request: from an alert group to the message that is
//! to be forwarded, and from what the webhook made of it to the answer.
//!
//! Handling a request takes two steps with one piece of outside work between
//! them. The first step looks at the group and either answers at once or
//! asks for one message to be posted to one webhook. The second step turns
//! the outcome of that post into the answer.

use crate::alert::{AlertView, PrometeusPost};
use crate::config::DestinationConfig;
use crate::failure::ForwardError;
use crate::render::{render_markdown, render_outcome};
use crate::reply::DingResp;
use crate::resolve::{resolve_url, resolved_url};
use crate::response::CustomResponse;
use crate::webhook::{Format, MessageView, OutboundMessage};
use vstd::prelude::*;
use vstd::string::*;

verus! {

/// A message and the webhook that it is to be posted to.
#[derive(Debug)]
pub struct ForwardRequest {
    pub url: String,
    pub message: OutboundMessage,
}

/// What is to be done for a request after its alert group has been looked at.
#[derive(Debug)]
pub enum Step {
    /// Answer with this envelope. Nothing is posted.
    Respond(CustomResponse<i32>),
    /// Post this message once, then answer with what [`conclude`] makes of
    /// the outcome.
    Forward(ForwardRequest),
}

/// Whether `step` answers at once with the message `msg` and no payload.
pub open spec fn refuses(step: Step, msg: Seq<char>) -> bool {
    step matches Step::Respond(response) && response.msg@ == msg && response.data is None
}

/// Whether `step` asks for `message` to be posted to `url`.
pub open spec fn forwards(step: Step, url: Seq<char>, message: MessageView) -> bool {
    step matches Step::Forward(request) && request.url@ == url && request.message@ == message
}

/// The step for a group on the plain-text path. `content` is the group's
/// alerts as structured text, or nothing where they could not be written so.
///
/// An empty group is refused before anything else is looked at. The message
/// goes to the configured webhook: this path does not read what the alerts
/// say about webhooks.
pub open spec fn text_plan(
    step: Step,
    alerts: Seq<AlertView>,
    title: Seq<char>,
    ding_url: Seq<char>,
    content: Option<Seq<char>>,
) -> bool {
    if alerts.len() == 0 {
        refuses(step, "no alert"@)
    } else {
        match content {
            None => refuses(step, "serialize alert to json err"@),
            Some(text) => forwards(
                step,
                ding_url,
                MessageView { format: Format::PlainText, title, body: text },
            ),
        }
    }
}

/// The step for a group on the markdown path, where `date` is the date of
/// rendering.
///
/// An empty group is refused before anything else is looked at. A group with
/// an alert that cannot be rendered is refused with the description of that
/// failure. Else the markdown of the alerts goes to the webhook that the
/// alerts resolve to.
pub open spec fn markdown_plan(
    step: Step,
    alerts: Seq<AlertView>,
    title: Seq<char>,
    ding_url: Seq<char>,
    date: Seq<char>,
) -> bool {
    if alerts.len() == 0 {
        refuses(step, "no alert"@)
    } else {
        match render_outcome(alerts, date) {
            Err(e) => refuses(step, e.described()),
            Ok(text) => forwards(
                step,
                resolved_url(ding_url, alerts),
                MessageView { format: Format::Markdown, title, body: text },
            ),
        }
    }
}

/// Looks at a group before anything else is read or written for it: a
/// group without alerts is refused, and nothing is posted for it.
pub fn refuse_empty(input: &PrometeusPost) -> (refusal: Option<CustomResponse<i32>>)
    ensures
        match refusal {
            Some(response) => input@.alerts.len() == 0 && response.msg@ == "no alert"@
                && response.data is None,
            None => input@.alerts.len() > 0,
        },
{
    if input.alerts().len() == 0 {
        Some(CustomResponse::err("no alert"))
    } else {
        None
    }
}

/// The first step for a group on the plain-text path.
///
/// `content` is the group's alerts written as indented structured text, or
/// `None` where that was not possible.
pub fn ding_text(input: &PrometeusPost, config: &DestinationConfig, content: Option<String>) -> (step:
    Step)
    ensures
        text_plan(
            step,
            input@.alerts,
            config.spec_title(),
            config.spec_ding_url(),
            match content {
                Some(text) => Some(text@),
                None => None,
            },
        ),
        input@.alerts.len() == 0 ==> refuses(step, "no alert"@),
{
    if let Some(refusal) = refuse_empty(input) {
        return Step::Respond(refusal);
    }
    match content {
        Some(text) => Step::Forward(
            ForwardRequest {
                url: String::from_str(config.ding_url()),
                message: OutboundMessage::PlainText {
                    title: String::from_str(config.title()),
                    content: text,
                },
            },
        ),
        None => Step::Respond(CustomResponse::err("serialize alert to json err")),
    }
}

/// The first step for a group on the markdown path, with `date` as the date
/// of rendering: the time at which the request is handled, read once for the
/// whole group.
pub fn ding_markdown(input: &PrometeusPost, config: &DestinationConfig, date: &str) -> (step: Step)
    ensures
        markdown_plan(step, input@.alerts, config.spec_title(), config.spec_ding_url(), date@),
        input@.alerts.len() == 0 ==> refuses(step, "no alert"@),
{
    if let Some(refusal) = refuse_empty(input) {
        return Step::Respond(refusal);
    }
    let alerts = input.alerts();
    match render_markdown(alerts, date) {
        Ok(text) => Step::Forward(
            ForwardRequest {
                url: resolve_url(config.ding_url(), alerts),
                message: OutboundMessage::Markdown { title: String::from_str(config.title()), text },
            },
        ),
        Err(e) => {
            let description = e.description();
            Step::Respond(CustomResponse::err(description.as_str()))
        },
    }
}

/// The answer to a request whose message was handed on for posting.
///
/// An answer from the webhook is a success of the relay, whatever code the
/// webhook gave: the message is `ok` and the payload is that code. A failed
/// forward is answered with its description and no payload, and the
/// description is never `ok`.
pub fn conclude(outcome: Result<DingResp, ForwardError>) -> (response: CustomResponse<i32>)
    ensures
        match outcome {
            Ok(resp) => response.msg@ == "ok"@ && response.data == Some(resp.errcode),
            Err(e) => response.msg@ == e.described() && response.data is None && response.msg@
                != "ok"@,
        },
{
    match outcome {
        Ok(resp) => CustomResponse::ok(Some(resp.errcode)),
        Err(e) => {
            let description = e.description();
            CustomResponse::err(description.as_str())
        },
    }
}

} // verus!
