use vstd::prelude::*;
use serde_json::Value;
use crate::cards::card::Card;
use crate::cards::suit::Suit;
use crate::network::action::Action;
use crate::network::json::json_fields;
use crate::network::json::number_member;
use crate::network::json::number_of;
use crate::network::json::text_member;
use crate::network::json::text_of;

verus! {

/// The bid that a message carries, if it is a bid: the action is Bid and
/// the amount is there. The amount is cut to its low eight bits.
pub open spec fn bid_of(action: Action, amount: Option<u64>) -> Option<u8> {
    match amount {
        Some(bid) if action == Action::Bid => Some((bid % 256) as u8),
        _ => None,
    }
}

/// The card that a message carries, if it is a played card: the action is
/// PlayCard and the text is the token of a card.
pub open spec fn card_of(action: Action, token: Option<Seq<char>>, card: Option<Card>) -> bool {
    match card {
        Some(c) => action == Action::PlayCard && token == Some(c.token()),
        None => action != Action::PlayCard || token is None || forall|c: Card|
            Some(c.token()) != token,
    }
}

/// The suit that a message carries, if it is a choice of trump: the
/// action is ChooseTrump and the text is the name of a suit.
pub open spec fn trump_of_reply(action: Action, name: Option<Seq<char>>) -> Option<Suit> {
    match name {
        Some(text) if action == Action::ChooseTrump => Suit::of_name(text),
        _ => None,
    }
}

/// The bid of a reply to a prompt for a bid. A message under another
/// action, or without an amount, is no reply: the wait goes on.
pub fn bid_reply(action: Action, amount: Option<u64>) -> (r: Option<u8>)
    ensures
        r == bid_of(action, amount),
{
    match amount {
        Some(bid) => {
            if action == Action::Bid {
                Some((bid % 256) as u8)
            } else {
                None
            }
        },
        None => None,
    }
}

/// The card of a reply to a prompt for a card. A message under another
/// action, or without the token of a card, is no reply.
pub fn card_reply(action: Action, token: Option<&str>) -> (r: Option<Card>)
    ensures
        card_of(
            action,
            match token {
                Some(t) => Some(t@),
                None => None,
            },
            r,
        ),
{
    match token {
        Some(text) => {
            if action == Action::PlayCard {
                match Card::from_token(text) {
                    Ok(card) => Some(card),
                    Err(_) => None,
                }
            } else {
                None
            }
        },
        None => None,
    }
}

/// The suit of a reply to a prompt for the trump suit. A message under
/// another action, or without the name of a suit, is no reply.
pub fn trump_reply(action: Action, name: Option<&str>) -> (r: Option<Suit>)
    ensures
        r == trump_of_reply(
            action,
            match name {
                Some(t) => Some(t@),
                None => None,
            },
        ),
{
    match name {
        Some(text) => {
            if action == Action::ChooseTrump {
                Suit::from_name(text)
            } else {
                None
            }
        },
        None => None,
    }
}

/// Reads the bid out of a message: its member `bid`.
pub fn read_bid(action: Action, message: &Value) -> (r: Option<u8>)
    ensures
        r == bid_of(action, number_of(json_fields(*message), "bid"@)),
{
    bid_reply(action, number_member(message, "bid"))
}

/// Reads the card out of a message: its member `played_card`.
pub fn read_card(action: Action, message: &Value) -> (r: Option<Card>)
    ensures
        card_of(action, text_of(json_fields(*message), "played_card"@), r),
{
    match text_member(message, "played_card") {
        Some(token) => card_reply(action, Some(token.as_str())),
        None => card_reply(action, None),
    }
}

/// Reads the trump suit out of a message: its member `trump`.
pub fn read_trump(action: Action, message: &Value) -> (r: Option<Suit>)
    ensures
        r == trump_of_reply(action, text_of(json_fields(*message), "trump"@)),
{
    match text_member(message, "trump") {
        Some(name) => trump_reply(action, Some(name.as_str())),
        None => trump_reply(action, None),
    }
}

/// Reads where a player listens out of a request to connect: its members
/// `host` and `port`.
pub fn read_connect(action: Action, message: &Value) -> (r: Option<(String, u64)>)
    ensures
        match r {
            Some((host, port)) => {
                &&& action == Action::Connect
                &&& text_of(json_fields(*message), "host"@) == Some(host@)
                &&& number_of(json_fields(*message), "port"@) == Some(port)
            },
            None => {
                ||| action != Action::Connect
                ||| text_of(json_fields(*message), "host"@) is None
                ||| number_of(json_fields(*message), "port"@) is None
            },
        },
{
    if action != Action::Connect {
        return None;
    }
    match (text_member(message, "host"), number_member(message, "port")) {
        (Some(host), Some(port)) => Some((host, port)),
        _ => None,
    }
}

} // verus!
