use vstd::prelude::*;
use vstd::string::StringExecFns;
use serde_json::Value;
use crate::network::json::json_document;
use crate::network::json::json_fields;
use crate::network::json::parse_json;
use crate::network::json::text_member;
use crate::network::json::text_of;
use crate::network::json::JsonField;

verus! {

/// The tag of a message: what the message is about.
#[derive(Copy, Clone, Debug, PartialEq, Eq, Structural)]
pub enum Action {
    /// A prompt for a bid, with `state`; the reply carries `bid`.
    Bid,
    /// A prompt for the trump suit, with `state`; the reply carries `trump`.
    ChooseTrump,
    /// A confirmation, with `msg`.
    Confirmation,
    /// A request to connect, with `host` and `port`.
    Connect,
    /// The final state of the game, with `state`.
    EndGame,
    /// A prompt for a card, with `state`, `hand` and `playable_cards`; the
    /// reply carries `played_card`.
    PlayCard,
    /// The start of the game, with `state`.
    StartGame,
}

/// Why a text is not a message.
#[derive(Copy, Clone, Debug, PartialEq, Eq, Structural)]
pub enum DecodeError {
    /// The text is not one JSON value.
    Malformed,
    /// The value has no string member `action` that names an action.
    UnknownAction,
}

/// The action that a tag text names, if it names one.
pub open spec fn action_of_tag(tag: Seq<char>) -> Option<Action> {
    if tag == "Bid"@ {
        Some(Action::Bid)
    } else if tag == "ChooseTrump"@ {
        Some(Action::ChooseTrump)
    } else if tag == "Confirmation"@ {
        Some(Action::Confirmation)
    } else if tag == "Connect"@ {
        Some(Action::Connect)
    } else if tag == "EndGame"@ {
        Some(Action::EndGame)
    } else if tag == "PlayCard"@ {
        Some(Action::PlayCard)
    } else if tag == "StartGame"@ {
        Some(Action::StartGame)
    } else {
        None
    }
}

/// The action that the members of a message name: the one whose tag is
/// the string member `action`.
pub open spec fn action_of(fields: Map<Seq<char>, JsonField>) -> Option<Action> {
    match text_of(fields, "action"@) {
        Some(tag) => action_of_tag(tag),
        None => None,
    }
}

impl Action {
    /// The tag text of the action.
    pub open spec fn tag(self) -> Seq<char> {
        match self {
            Action::Bid => "Bid"@,
            Action::ChooseTrump => "ChooseTrump"@,
            Action::Confirmation => "Confirmation"@,
            Action::Connect => "Connect"@,
            Action::EndGame => "EndGame"@,
            Action::PlayCard => "PlayCard"@,
            Action::StartGame => "StartGame"@,
        }
    }

    /// The tag text of the action.
    pub fn to_str(self) -> (r: &'static str)
        ensures
            r@ == self.tag(),
    {
        match self {
            Action::Bid => "Bid",
            Action::ChooseTrump => "ChooseTrump",
            Action::Confirmation => "Confirmation",
            Action::Connect => "Connect",
            Action::EndGame => "EndGame",
            Action::PlayCard => "PlayCard",
            Action::StartGame => "StartGame",
        }
    }

    /// The action that a tag text names, if it names one.
    pub fn from_tag(tag: &str) -> (r: Option<Action>)
        ensures
            r == action_of_tag(tag@),
    {
        let text = String::from_str(tag);
        if text == String::from_str("Bid") {
            Some(Action::Bid)
        } else if text == String::from_str("ChooseTrump") {
            Some(Action::ChooseTrump)
        } else if text == String::from_str("Confirmation") {
            Some(Action::Confirmation)
        } else if text == String::from_str("Connect") {
            Some(Action::Connect)
        } else if text == String::from_str("EndGame") {
            Some(Action::EndGame)
        } else if text == String::from_str("PlayCard") {
            Some(Action::PlayCard)
        } else if text == String::from_str("StartGame") {
            Some(Action::StartGame)
        } else {
            None
        }
    }

    /// The action that a parsed message names, if it names one.
    pub fn of_message(message: &Value) -> (r: Option<Action>)
        ensures
            r == action_of(json_fields(*message)),
    {
        match text_member(message, "action") {
            Some(tag) => Action::from_tag(tag.as_str()),
            None => None,
        }
    }

    /// Decodes a text as one message: the text has to be one JSON value
    /// with a string member `action` that names an action. Returns the
    /// action and the parsed value.
    pub fn serde_find_action(data: &Vec<u8>) -> (r: Result<(Action, Value), DecodeError>)
        ensures
            match r {
                Ok((action, message)) => {
                    &&& json_document(data@) == Some(json_fields(message))
                    &&& action_of(json_fields(message)) == Some(action)
                },
                Err(DecodeError::Malformed) => json_document(data@) is None,
                Err(DecodeError::UnknownAction) => {
                    &&& json_document(data@) is Some
                    &&& action_of(json_document(data@)->0) is None
                },
            },
    {
        match parse_json(data) {
            Err(_) => Err(DecodeError::Malformed),
            Ok(message) => {
                match Action::of_message(&message) {
                    Some(action) => Ok((action, message)),
                    None => Err(DecodeError::UnknownAction),
                }
            },
        }
    }

    /// The action under which a message of this action is answered, if
    /// it is answered: prompts for a bid, for the trump suit and for a
    /// card are answered under their own action.
    pub open spec fn spec_answer(self) -> Option<Action> {
        match self {
            Action::Bid => Some(Action::Bid),
            Action::ChooseTrump => Some(Action::ChooseTrump),
            Action::PlayCard => Some(Action::PlayCard),
            _ => None,
        }
    }

    /// The action under which a message of this action is answered, if
    /// it is answered.
    pub fn answer(self) -> (r: Option<Action>)
        ensures
            r == self.spec_answer(),
    {
        match self {
            Action::Bid | Action::ChooseTrump | Action::PlayCard => Some(self),
            _ => None,
        }
    }

    /// Whether a message of this action ends a player's session.
    pub fn ends_session(self) -> (r: bool)
        ensures
            r == (self == Action::EndGame),
    {
        match self {
            Action::EndGame => true,
            _ => false,
        }
    }
}

/// The tags are distinct, so a tag names the action it belongs to.
pub proof fn tag_names_its_action(action: Action)
    ensures
        action_of_tag(action.tag()) == Some(action),
{
    reveal_strlit("Bid");
    reveal_strlit("ChooseTrump");
    reveal_strlit("Confirmation");
    reveal_strlit("Connect");
    reveal_strlit("EndGame");
    reveal_strlit("PlayCard");
    reveal_strlit("StartGame");
    assert("Bid"@.len() == 3);
    assert("ChooseTrump"@.len() == 11);
    assert("Confirmation"@.len() == 12);
    assert("Connect"@.len() == 7);
    assert("EndGame"@.len() == 7);
    assert("PlayCard"@.len() == 8);
    assert("StartGame"@.len() == 9);
    assert("Connect"@[0] == 'C');
    assert("EndGame"@[0] == 'E');
}

} // verus!
