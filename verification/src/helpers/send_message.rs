//! The request that delivers a message to the notification channel.

use vstd::prelude::*;

verus! {

/// The credentials of the notification channel. An empty token or an empty
/// chat id switches notification off.
#[derive(Debug)]
pub struct Sender {
    pub token: String,
    pub chat_id: String,
}

/// The body of a request that sends a message.
#[derive(Debug)]
pub struct SendMessageParams {
    pub chat_id: String,
    pub text: String,
    pub parse_mode: String,
}

/// A request that sends a message: where to post, and what.
#[derive(Debug)]
pub struct SendMessageRequest {
    pub url: String,
    pub params: SendMessageParams,
}

/// A request as plain values.
pub struct SendMessageRequestView {
    pub url: Seq<char>,
    pub chat_id: Seq<char>,
    pub text: Seq<char>,
    pub parse_mode: Seq<char>,
}

impl View for SendMessageRequest {
    type V = SendMessageRequestView;

    open spec fn view(&self) -> SendMessageRequestView {
        SendMessageRequestView {
            url: self.url@,
            chat_id: self.params.chat_id@,
            text: self.params.text@,
            parse_mode: self.params.parse_mode@,
        }
    }
}

/// Whether a sender with these credentials sends anything.
pub open spec fn is_configured(token: Seq<char>, chat_id: Seq<char>) -> bool {
    token.len() > 0 && chat_id.len() > 0
}

/// The address to which the bot with `token` posts its messages.
pub open spec fn send_message_url(token: Seq<char>) -> Seq<char> {
    "https://api.telegram.org/bot"@ + token + "/sendMessage"@
}

/// The request that sends `message` with the given credentials. The
/// message is taken as MarkdownV2: it must come escaped.
pub open spec fn send_message_request(
    token: Seq<char>,
    chat_id: Seq<char>,
    message: Seq<char>,
) -> SendMessageRequestView {
    SendMessageRequestView {
        url: send_message_url(token),
        chat_id,
        text: message,
        parse_mode: "MarkdownV2"@,
    }
}

impl Sender {
    /// Prepares the delivery of `message`: the request to post, or nothing
    /// where the token or the chat id is empty. Posting the request, and
    /// what becomes of it, is left to the caller; no outcome of a delivery
    /// is an error of the monitor.
    pub fn send_message(&self, message: String) -> (request: Option<SendMessageRequest>)
        ensures
            request is Some <==> is_configured(self.token@, self.chat_id@),
            request matches Some(r) ==> r@ == send_message_request(
                self.token@,
                self.chat_id@,
                message@,
            ),
    {
        if self.token.as_str().is_empty() || self.chat_id.as_str().is_empty() {
            return None;
        }
        let mut url = String::from_str("https://api.telegram.org/bot");
        url.append(self.token.as_str());
        url.append("/sendMessage");
        Some(
            SendMessageRequest {
                url,
                params: SendMessageParams {
                    chat_id: self.chat_id.clone(),
                    text: message,
                    parse_mode: String::from_str("MarkdownV2"),
                },
            },
        )
    }
}

} // verus!
