use std::collections::HashSet;
use wizard::cards::card::Card;
use wizard::cards::deck::Deck;
use wizard::cards::deck::DeckError;
use wizard::cards::special_card::SpecialCard;

#[test]
fn shuffled_deck() {
    let deck = Deck::new();
    let deck2 = Deck::new();

    assert_ne!(deck, deck2);
}

#[test]
fn deck_60_cards() {
    for _ in 0..5 {
        assert_eq!(60, Deck::new().cards.len());
    }
}

#[test]
fn deck_4_wizards() {
    let deck = Deck::new();
    let mut wizards = 0;

    for card in deck.cards {
        if let Card::SpecialCard(special_card) = card {
            if special_card == SpecialCard::Wizard {
                wizards += 1;
            }
        }
    }

    assert_eq!(4, wizards);
}

#[test]
fn deck_4_jesters() {
    let deck = Deck::new();
    let mut jesters = 0;

    for card in deck.cards {
        if let Card::SpecialCard(special_card) = card {
            if special_card == SpecialCard::Jester {
                jesters += 1;
            }
        }
    }

    assert_eq!(4, jesters);
}

#[test]
fn deck_no_normal_card_repeats() {
    let deck = Deck::new();
    let mut special_cards = 0;
    let mut normal_cards = HashSet::new();

    for card in deck.cards {
        match card {
            Card::NormalCard(normal_card) => {
                normal_cards.insert(normal_card);
            }
            Card::SpecialCard(_) => {
                special_cards += 1;
            }
        }
    }

    println!("{:#?}", normal_cards);

    assert_eq!(8, special_cards);
    assert_eq!(52, normal_cards.len());
}

#[test]
fn to_and_from_json() {
    let deck = Deck::new();

    let tokens: Vec<String> = deck.cards.iter().map(|card| card.to_token()).collect();
    let string = serde_json::to_string(&tokens).unwrap();
    let read: Vec<String> = serde_json::from_str(&string.to_string()).unwrap();
    let deck2 = Deck {
        cards: read
            .iter()
            .map(|token| Card::from_token(token).unwrap())
            .collect(),
    };

    println!("{}", string);
    assert_eq!(deck, deck2);
}

#[test]
fn deal() {
    let mut deck = Deck::new();

    // Request 0 cards
    assert_eq!(0, deck.deal(0).unwrap().len());
    assert_eq!(60, deck.cards.len());

    assert_eq!(5, deck.deal(5).unwrap().len());
    assert_eq!(55, deck.cards.len());

    assert_eq!(7, deck.deal(7).unwrap().len());
    assert_eq!(48, deck.cards.len());

    assert_eq!(12, deck.deal(12).unwrap().len());
    assert_eq!(36, deck.cards.len());

    // Request too many cards
    assert!(deck.deal(100).is_err());

    // Deal all of the cards
    assert_eq!(36, deck.deal(36).unwrap().len());
    assert_eq!(0, deck.cards.len());

    // Request cards from an empty deck
    assert!(deck.deal(100).is_err());
}

#[test]
fn failed_deal_leaves_the_deck_untouched() {
    let mut deck = Deck::new();
    deck.deal(24).unwrap();
    let before = deck.clone();

    assert_eq!(
        Err(DeckError {
            remaining: 36,
            requested: 100
        }),
        deck.deal(100)
    );
    assert_eq!(before, deck);
    assert_eq!(36, deck.len());

    deck.deal(36).unwrap();
    assert_eq!(
        Err(DeckError {
            remaining: 0,
            requested: 1
        }),
        deck.deal(1)
    );
}

#[test]
fn deal_takes_the_top_cards_in_deck_order() {
    let mut deck = Deck::ordered();
    let before = deck.cards.clone();

    let hand = deck.deal(7).unwrap();

    assert_eq!(before[53..].to_vec(), hand);
    assert_eq!(before[..53].to_vec(), deck.cards);
}

#[test]
fn ordered_deck_lists_suit_by_suit() {
    let deck = Deck::ordered();
    assert_eq!("2C", deck.cards[0].to_token());
    assert_eq!("AC", deck.cards[12].to_token());
    assert_eq!("2D", deck.cards[13].to_token());
    assert_eq!("10S", deck.cards[34].to_token());
    assert_eq!("AH", deck.cards[51].to_token());
    for place in 52..60 {
        let expected = if place % 2 == 0 { "Wizard" } else { "Jester" };
        assert_eq!(expected, deck.cards[place].to_token());
    }
}

#[test]
fn ordered_deck_lists_every_card_once() {
    let deck = Deck::ordered();
    let mut seen = HashSet::new();
    for card in deck.cards.iter().take(52) {
        assert!(matches!(card, Card::NormalCard(_)));
        assert!(seen.insert(*card));
    }
    assert_eq!(Card::SpecialCard(SpecialCard::Wizard), deck.cards[52]);
    assert_eq!(Card::SpecialCard(SpecialCard::Jester), deck.cards[59]);
    assert_eq!(60, deck.len());
}

#[test]
fn shuffle_keeps_the_cards() {
    let mut deck = Deck::ordered();
    deck.deal(10).unwrap();
    let mut before: Vec<String> = deck.cards.iter().map(|c| c.to_token()).collect();

    deck.shuffle();

    let mut after: Vec<String> = deck.cards.iter().map(|c| c.to_token()).collect();
    before.sort();
    after.sort();
    assert_eq!(before, after);
    assert_eq!(50, deck.len());
}
