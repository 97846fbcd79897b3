use serde_json::Value;
use wizard::cards::card::Card;
use wizard::cards::normal_card::NormalCard;
use wizard::cards::rank::Rank;
use wizard::cards::special_card::SpecialCard;
use wizard::cards::suit::Suit;
use wizard::network::action::Action;
use wizard::network::action::DecodeError;
use wizard::network::network::network_listener;
use wizard::network::network::Listened;
use wizard::network::reply::bid_reply;
use wizard::network::reply::card_reply;
use wizard::network::reply::read_bid;
use wizard::network::reply::read_card;
use wizard::network::reply::read_connect;
use wizard::network::reply::read_trump;
use wizard::network::reply::trump_reply;

fn bytes(text: &str) -> Vec<u8> {
    text.as_bytes().to_vec()
}

fn value(text: &str) -> Value {
    serde_json::from_str(text).unwrap()
}

fn all_actions() -> Vec<Action> {
    vec![
        Action::Bid,
        Action::ChooseTrump,
        Action::Confirmation,
        Action::Connect,
        Action::EndGame,
        Action::PlayCard,
        Action::StartGame,
    ]
}

#[test]
fn tags_round_trip() {
    let tags = [
        "Bid",
        "ChooseTrump",
        "Confirmation",
        "Connect",
        "EndGame",
        "PlayCard",
        "StartGame",
    ];
    for (action, tag) in all_actions().into_iter().zip(tags) {
        assert_eq!(tag, action.to_str());
        assert_eq!(Some(action), Action::from_tag(tag));
    }
    assert_eq!(None, Action::from_tag("bid"));
    assert_eq!(None, Action::from_tag("Card"));
    assert_eq!(None, Action::from_tag(""));
    assert_eq!(None, Action::from_tag("Bid "));
}

#[test]
fn find_action_in_a_message() {
    let data = bytes("{\"action\":\"Bid\",\"bid\":3}");

    let (action, message) = Action::serde_find_action(&data).unwrap();

    assert_eq!(Action::Bid, action);
    assert_eq!(value("{\"action\":\"Bid\",\"bid\":3}"), message);
    assert_eq!(Some(Action::Bid), Action::of_message(&message));
    for action in all_actions() {
        let text = format!("{{\"state\":{{}},\"action\":\"{}\"}}", action.to_str());
        assert_eq!(action, Action::serde_find_action(&bytes(&text)).unwrap().0);
    }
}

#[test]
fn find_action_refuses_what_is_no_message() {
    for text in ["", "{\"action\":\"Bid\"", "{\"action\":\"Bid\"}{", "Bid", "{action:1}"] {
        assert_eq!(
            Some(DecodeError::Malformed),
            Action::serde_find_action(&bytes(text)).err(),
            "{}",
            text
        );
    }
    for text in [
        "{}",
        "{\"bid\":3}",
        "{\"action\":\"Card\"}",
        "{\"action\":3}",
        "{\"action\":null}",
        "[\"action\",\"Bid\"]",
        "\"Bid\"",
        "7",
    ] {
        assert_eq!(
            Some(DecodeError::UnknownAction),
            Action::serde_find_action(&bytes(text)).err(),
            "{}",
            text
        );
    }
}

#[test]
fn listener_gathers_a_message_from_its_pieces() {
    let mut data = Vec::new();

    assert!(matches!(
        network_listener(&mut data, b"{\"action\":\"Play"),
        Listened::Incomplete
    ));
    assert_eq!(bytes("{\"action\":\"Play"), data);
    assert!(matches!(
        network_listener(&mut data, b"Card\",\"played_card\""),
        Listened::Incomplete
    ));
    match network_listener(&mut data, b":\"10H\"}") {
        Listened::Message(action, message) => {
            assert_eq!(Action::PlayCard, action);
            assert_eq!(
                value("{\"action\":\"PlayCard\",\"played_card\":\"10H\"}"),
                message
            );
        }
        other => panic!("{:?}", other),
    }
    assert_eq!(0, data.len());

    // The next message starts from an empty buffer.
    assert!(matches!(
        network_listener(&mut data, b"{\"action\":\"EndGame\"}"),
        Listened::Message(Action::EndGame, _)
    ));
    assert_eq!(0, data.len());
}

#[test]
fn listener_reports_a_closed_connection() {
    let mut data = bytes("{\"act");

    assert!(matches!(
        network_listener(&mut data, b""),
        Listened::Disconnected
    ));
    assert_eq!(bytes("{\"act"), data);
}

#[test]
fn listener_keeps_what_is_no_message() {
    let mut data = Vec::new();

    assert!(matches!(
        network_listener(&mut data, b"{\"action\":\"Nothing\"}"),
        Listened::Incomplete
    ));
    assert_eq!(bytes("{\"action\":\"Nothing\"}"), data);
}

#[test]
fn bid_replies() {
    assert_eq!(Some(3), bid_reply(Action::Bid, Some(3)));
    assert_eq!(Some(0), bid_reply(Action::Bid, Some(0)));
    assert_eq!(Some(255), bid_reply(Action::Bid, Some(255)));
    assert_eq!(Some(4), bid_reply(Action::Bid, Some(260)));
    assert_eq!(None, bid_reply(Action::Bid, None));
    assert_eq!(None, bid_reply(Action::PlayCard, Some(3)));

    assert_eq!(
        Some(7),
        read_bid(Action::Bid, &value("{\"action\":\"Bid\",\"bid\":7}"))
    );
    assert_eq!(None, read_bid(Action::Bid, &value("{\"action\":\"Bid\"}")));
    assert_eq!(None, read_bid(Action::Bid, &value("{\"bid\":\"7\"}")));
    assert_eq!(None, read_bid(Action::Bid, &value("{\"bid\":-1}")));
    assert_eq!(None, read_bid(Action::Bid, &value("[7]")));
    assert_eq!(None, read_bid(Action::StartGame, &value("{\"bid\":7}")));
}

#[test]
fn card_replies() {
    let ten = Card::NormalCard(NormalCard {
        suit: Suit::Heart,
        rank: Rank::Ten,
    });
    assert_eq!(Some(ten), card_reply(Action::PlayCard, Some("10H")));
    assert_eq!(None, card_reply(Action::PlayCard, Some("10X")));
    assert_eq!(None, card_reply(Action::PlayCard, None));
    assert_eq!(None, card_reply(Action::Bid, Some("10H")));

    assert_eq!(
        Some(Card::SpecialCard(SpecialCard::Wizard)),
        read_card(Action::PlayCard, &value("{\"played_card\":\"Wizard\"}"))
    );
    assert_eq!(
        None,
        read_card(Action::PlayCard, &value("{\"played_card\":10}"))
    );
    assert_eq!(None, read_card(Action::PlayCard, &value("{\"card\":\"AC\"}")));
    assert_eq!(
        None,
        read_card(Action::EndGame, &value("{\"played_card\":\"AC\"}"))
    );
}

#[test]
fn trump_replies() {
    assert_eq!(
        Some(Suit::Spade),
        trump_reply(Action::ChooseTrump, Some("Spade"))
    );
    assert_eq!(None, trump_reply(Action::ChooseTrump, Some("S")));
    assert_eq!(None, trump_reply(Action::ChooseTrump, None));
    assert_eq!(None, trump_reply(Action::Bid, Some("Spade")));

    assert_eq!(
        Some(Suit::Club),
        read_trump(Action::ChooseTrump, &value("{\"trump\":\"Club\"}"))
    );
    assert_eq!(
        None,
        read_trump(Action::ChooseTrump, &value("{\"trump\":null}"))
    );
}

#[test]
fn connect_requests() {
    let message = value("{\"action\":\"Connect\",\"host\":\"10.0.0.7\",\"port\":4021}");
    assert_eq!(
        Some(("10.0.0.7".to_string(), 4021)),
        read_connect(Action::Connect, &message)
    );
    assert_eq!(None, read_connect(Action::Confirmation, &message));
    assert_eq!(
        None,
        read_connect(Action::Connect, &value("{\"port\":4021}"))
    );
    assert_eq!(
        None,
        read_connect(Action::Connect, &value("{\"host\":\"h\",\"port\":\"1\"}"))
    );
}

#[test]
fn only_prompts_are_answered() {
    assert_eq!(Some(Action::Bid), Action::Bid.answer());
    assert_eq!(Some(Action::ChooseTrump), Action::ChooseTrump.answer());
    assert_eq!(Some(Action::PlayCard), Action::PlayCard.answer());
    for action in [
        Action::Confirmation,
        Action::Connect,
        Action::EndGame,
        Action::StartGame,
    ] {
        assert_eq!(None, action.answer());
    }
    for action in all_actions() {
        assert_eq!(action == Action::EndGame, action.ends_session());
    }
}
