use wizard::cards::card::Card;
use wizard::cards::deck::Deck;
use wizard::cards::normal_card::NormalCard;
use wizard::cards::rank::Rank;
use wizard::cards::special_card::SpecialCard;
use wizard::cards::suit::Suit;
use wizard::game::state::Prompt;
use wizard::game::wizard::GameError;
use wizard::network::action::Action;
use wizard::game::wizard::Stage;
use wizard::game::wizard::Step;
use wizard::game::wizard::WizardGame;

fn normal(suit: Suit, rank: Rank) -> Card {
    Card::NormalCard(NormalCard { suit, rank })
}

fn wizard() -> Card {
    Card::SpecialCard(SpecialCard::Wizard)
}

fn jester() -> Card {
    Card::SpecialCard(SpecialCard::Jester)
}

/// Plays a whole game in which every player bids `bid` and plays the
/// first legal card.
fn play_through(num_players: usize, bid: u8) -> WizardGame {
    let mut game = WizardGame::new(num_players, num_players, num_players).unwrap();
    let mut steps = 0;
    loop {
        steps += 1;
        assert!(steps < 10_000);
        assert!(game.valid());
        match game.play_game() {
            Step::ChooseTrump(player) => {
                assert_eq!(num_players - 1, player);
                game.choose_trump(Suit::Spade);
            }
            Step::Bid(player) => {
                assert!(player < num_players);
                game.bid(bid);
            }
            Step::PlayCard(player) => {
                assert_eq!(game.round - game.tricks_played, game.players[player].cards.len() as u8);
                let playable = game.playable_cards();
                assert!(game.players[player].holds(playable[0]));
                game.play_card(playable[0]);
            }
            Step::GameOver => break,
            Step::CannotScore => panic!("{:?}", game),
        }
    }
    game
}

#[test]
fn not_enough_players() {
    for n in 0..3 {
        assert_eq!(
            Some(GameError::NotEnoughPlayers { requested: n }),
            WizardGame::new(n, n, n).err()
        );
    }
}

#[test]
fn too_many_players() {
    assert_eq!(
        Some(GameError::TooManyPlayers { requested: 7 }),
        WizardGame::new(7, 7, 7).err()
    );
    assert!(WizardGame::new(8, 8, 8).is_err());
}

#[test]
fn enough_players() {
    for i in 3..=6 {
        assert!(!WizardGame::new(i, i, i).is_err());
    }
}

#[test]
fn connections_must_match_players() {
    assert_eq!(
        Some(GameError::ConnectionMismatch {
            players: 4,
            listeners: 3,
            writers: 4
        }),
        WizardGame::new(4, 3, 4).err()
    );
    assert!(WizardGame::new(4, 4, 5).is_err());
}

#[test]
fn player_creation() {
    for num_players in 3..=6 {
        let game = WizardGame::new(num_players, num_players, num_players).unwrap();

        assert_eq!(num_players, game.players.len());
        assert_eq!(0, game.round);
        assert_eq!(0, game.starting_player);
        assert_eq!(None, game.trump_suit);
        assert_eq!(Stage::Dealing, game.stage);

        for player in game.players {
            assert_eq!(0, player.score);
            assert_eq!(0, player.cards.len());
        }
    }
}

#[test]
fn rounds_use_up_the_deck() {
    let rounds = [20, 15, 12, 10];
    for num_players in 3..=6 {
        let game = WizardGame::new(num_players, num_players, num_players).unwrap();
        assert_eq!(rounds[num_players - 3], game.num_rounds());
        assert_eq!(60, game.num_rounds() * num_players);
    }
}

#[test]
fn play_four_player_game() {
    let game = play_through(4, 0);

    assert_eq!(15, game.round);
    assert_eq!(Stage::Finished, game.stage);
}

#[test]
fn play_games_of_every_size() {
    let rounds = [20, 15, 12, 10];
    for num_players in 3..=6 {
        let game = play_through(num_players, 1);
        assert_eq!(rounds[num_players - 3], game.round);
        for player in game.players.iter() {
            assert_eq!(0, player.cards.len());
            assert_eq!(None, player.bid);
            assert_eq!(0, player.tricks_taken);
        }
    }
}

#[test]
fn game_state_inital() {
    let game = WizardGame::new(4, 4, 4).unwrap();

    let state = game.game_state();

    assert_eq!(4, state.player_count);
    assert_eq!(0, state.round);
    assert_eq!(0, state.starting_player);
    assert_eq!(None, state.trump_suit);
    assert!(state.trick.is_none());
    assert_eq!(4, state.players.len());
    for i in 0..game.players.len() {
        assert_eq!(None, state.players[i].bid);
        assert_eq!(0, state.players[i].score);
        assert_eq!(0, state.players[i].tricks_taken);
    }
}

#[test]
fn game_state_bid() {
    let mut game = WizardGame::new(4, 4, 4).unwrap();
    assert!(game.perform_round(Deck::ordered()).is_ok());
    // The ordered deck cuts a Jester after four hands of one card.
    assert_eq!(Stage::Bidding, game.stage);
    assert_eq!(None, game.trump_suit);
    for _ in 0..4 {
        game.bid(0);
    }

    let state = game.game_state();

    for i in 0..game.players.len() {
        assert_eq!(Some(0), state.players[i].bid);
    }
    let trick = state.trick.unwrap();
    assert_eq!(0, trick.played_cards.len());
    assert_eq!(None, trick.leading_suit);
    assert_eq!(0, trick.leading_player);
}

#[test]
fn deal_hands_out_the_top_of_the_deck_seat_by_seat() {
    let mut game = WizardGame::new(3, 3, 3).unwrap();
    game.round = 2;
    let mut deck = Deck::ordered();
    let listed = deck.cards.clone();

    assert_eq!(Ok(()), game.deal(&mut deck));

    assert_eq!(listed[58..60].to_vec(), game.players[0].cards);
    assert_eq!(listed[56..58].to_vec(), game.players[1].cards);
    assert_eq!(listed[54..56].to_vec(), game.players[2].cards);
    assert_eq!(listed[..54].to_vec(), deck.cards);
}

#[test]
fn deal_stops_at_the_first_player_without_cards() {
    let mut game = WizardGame::new(3, 3, 3).unwrap();
    game.round = 2;
    let mut deck = Deck::ordered();
    deck.deal(55).unwrap();
    let listed = deck.cards.clone();

    let err = game.deal(&mut deck).unwrap_err();

    assert_eq!(1, err.remaining);
    assert_eq!(2, err.requested);
    assert_eq!(listed[3..5].to_vec(), game.players[0].cards);
    assert_eq!(listed[1..3].to_vec(), game.players[1].cards);
    assert_eq!(0, game.players[2].cards.len());
    assert_eq!(listed[..1].to_vec(), deck.cards);
}

#[test]
fn reveal_trump_cuts_the_top_card() {
    let mut game = WizardGame::new(3, 3, 3).unwrap();

    let mut deck = Deck {
        cards: vec![wizard(), normal(Suit::Diamond, Rank::Nine)],
    };
    game.reveal_trump(&mut deck);
    assert_eq!(Some(Suit::Diamond), game.trump_suit);
    assert_eq!(Stage::Bidding, game.stage);
    assert_eq!(vec![wizard()], deck.cards);

    game.reveal_trump(&mut deck);
    assert_eq!(None, game.trump_suit);
    assert_eq!(Stage::ChoosingTrump, game.stage);
    assert_eq!(2, game.dealing_player());
    assert_eq!(0, deck.len());

    game.trump_suit = Some(Suit::Club);
    game.reveal_trump(&mut deck);
    assert_eq!(None, game.trump_suit);
    assert_eq!(Stage::Bidding, game.stage);

    let mut deck = Deck {
        cards: vec![jester()],
    };
    game.trump_suit = Some(Suit::Club);
    game.reveal_trump(&mut deck);
    assert_eq!(None, game.trump_suit);
    assert_eq!(Stage::Bidding, game.stage);
}

#[test]
fn dealer_chooses_trump_after_a_wizard() {
    let mut game = WizardGame::new(3, 3, 3).unwrap();
    let mut deck = Deck::ordered();
    // Leave a Wizard on top once three hands of one card are gone.
    deck.deal(4).unwrap();
    assert!(game.perform_round(deck).is_ok());

    assert_eq!(Step::ChooseTrump(2), game.play_game());
    game.choose_trump(Suit::Heart);

    assert_eq!(Some(Suit::Heart), game.trump_suit);
    assert_eq!(Step::Bid(0), game.play_game());
}

#[test]
fn perform_round_fails_on_a_short_deck() {
    let mut game = WizardGame::new(3, 3, 3).unwrap();
    let mut deck = Deck::ordered();
    deck.deal(58).unwrap();

    let err = game.perform_round(deck).unwrap_err();

    assert_eq!(1, err.requested);
    assert_eq!(0, err.remaining);
    assert_eq!(Stage::Finished, game.stage);
    assert_eq!(Step::GameOver, game.play_game());
}

#[test]
fn one_round_of_three_players() {
    let mut game = WizardGame::new(3, 3, 3).unwrap();
    let deck = Deck {
        cards: vec![
            normal(Suit::Club, Rank::Nine),
            normal(Suit::Heart, Rank::Three),
            normal(Suit::Spade, Rank::Ace),
            normal(Suit::Spade, Rank::Two),
        ],
    };
    assert!(game.perform_round(deck).is_ok());
    assert_eq!(1, game.round);
    assert_eq!(Some(Suit::Club), game.trump_suit);
    assert_eq!(vec![normal(Suit::Spade, Rank::Two)], game.players[0].cards);
    assert_eq!(vec![normal(Suit::Spade, Rank::Ace)], game.players[1].cards);

    let bids = [2, 1, 1];
    for seat in 0..3 {
        assert_eq!(Step::Bid(seat), game.play_game());
        game.bid(bids[seat]);
    }

    assert_eq!(Step::PlayCard(0), game.play_game());
    assert_eq!(None, game.play_card(normal(Suit::Spade, Rank::Two)));
    let state = game.game_state();
    let trick = state.trick.unwrap();
    assert_eq!(vec![normal(Suit::Spade, Rank::Two)], trick.played_cards);
    assert_eq!(Some(Suit::Spade), trick.leading_suit);
    assert_eq!(0, trick.leading_player);
    assert_eq!(Step::PlayCard(1), game.play_game());
    assert_eq!(None, game.play_card(normal(Suit::Spade, Rank::Ace)));
    assert_eq!(Step::PlayCard(2), game.play_game());
    assert_eq!(Some(1), game.play_card(normal(Suit::Heart, Rank::Three)));

    assert_eq!(Stage::Scoring, game.stage);
    assert_eq!(1, game.leading_player);
    assert_eq!(1, game.players[1].tricks_taken);
    assert!(game.round_complete());
    game.update_player_scores();

    assert_eq!(-20, game.players[0].score);
    assert_eq!(30, game.players[1].score);
    assert_eq!(-10, game.players[2].score);
    assert_eq!(Stage::Dealing, game.stage);
    for player in game.players.iter() {
        assert_eq!(None, player.bid);
        assert_eq!(0, player.tricks_taken);
    }
}

#[test]
fn winner_leads_the_next_trick() {
    let mut game = WizardGame::new(3, 3, 3).unwrap();
    game.round = 1;
    let mut cards = Vec::new();
    // The cut, then the hands of players 2, 1 and 0, two cards each.
    cards.push(jester());
    cards.push(normal(Suit::Club, Rank::Two));
    cards.push(wizard());
    cards.push(normal(Suit::Club, Rank::Three));
    cards.push(normal(Suit::Club, Rank::Four));
    cards.push(normal(Suit::Club, Rank::Five));
    cards.push(normal(Suit::Club, Rank::Six));
    assert!(game.perform_round(Deck { cards }).is_ok());
    assert_eq!(2, game.round);
    for _ in 0..3 {
        game.bid(0);
    }

    game.play_card(normal(Suit::Club, Rank::Five));
    game.play_card(normal(Suit::Club, Rank::Three));
    assert_eq!(Some(2), game.play_card(wizard()));

    assert_eq!(Step::PlayCard(2), game.play_game());
    assert_eq!(vec![normal(Suit::Club, Rank::Two)], game.playable_cards());
    game.play_card(normal(Suit::Club, Rank::Two));
    assert_eq!(Step::PlayCard(0), game.play_game());
    game.play_card(normal(Suit::Club, Rank::Six));
    assert_eq!(Step::PlayCard(1), game.play_game());
    assert_eq!(Some(0), game.play_card(normal(Suit::Club, Rank::Four)));
    assert_eq!(Stage::Scoring, game.stage);
    assert_eq!(2, game.tricks_played);
}

#[test]
fn scoring_stops_at_the_end_of_the_score_range() {
    let mut game = WizardGame::new(3, 3, 3).unwrap();
    let deck = Deck {
        cards: vec![
            normal(Suit::Heart, Rank::Three),
            normal(Suit::Spade, Rank::Ace),
            normal(Suit::Spade, Rank::Two),
        ],
    };
    assert!(game.perform_round(deck).is_ok());
    assert_eq!(None, game.trump_suit);
    game.players[2].score = i16::MIN + 2000;
    for bid in [0, 1, 255] {
        game.bid(bid);
    }
    game.play_card(normal(Suit::Spade, Rank::Two));
    game.play_card(normal(Suit::Spade, Rank::Ace));
    assert_eq!(Some(1), game.play_card(normal(Suit::Heart, Rank::Three)));
    assert!(game.valid());

    assert!(!game.round_complete());
    assert_eq!(Step::CannotScore, game.play_game());
    assert_eq!(Stage::Scoring, game.stage);
    assert_eq!(i16::MIN + 2000, game.players[2].score);

    game.players[2].score = i16::MIN + 2550;
    assert!(game.round_complete());
    // The next round is dealt from a shuffled deck: after a Wizard the
    // dealer is asked first.
    let step = game.play_game();
    assert!(step == Step::Bid(0) || step == Step::ChooseTrump(2));
    assert_eq!(i16::MIN, game.players[2].score);
    assert_eq!(20, game.players[0].score);
    assert_eq!(30, game.players[1].score);
    assert_eq!(2, game.round);
}

#[test]
fn valid_tells_a_broken_game() {
    let mut game = WizardGame::new(3, 3, 3).unwrap();
    assert!(game.valid());
    game.stage = Stage::Scoring;
    assert!(!game.valid());
    game.stage = Stage::Dealing;
    game.round = 21;
    assert!(!game.valid());
    game.round = 20;
    assert!(!game.valid());
    game.stage = Stage::Finished;
    assert!(game.valid());
    game.players.pop();
    assert!(!game.valid());
}

#[test]
fn prompts_carry_what_the_player_needs() {
    let mut game = WizardGame::new(3, 3, 3).unwrap();
    assert!(game.prompt().is_none());
    match game.start_game() {
        Prompt::StartGame { state } => {
            assert_eq!(0, state.round);
            assert_eq!(3, state.player_count);
        }
        other => panic!("{:?}", other),
    }

    // The cut, then the hands of players 2, 1 and 0, two cards each.
    game.round = 1;
    let deck = Deck {
        cards: vec![
            wizard(),
            normal(Suit::Heart, Rank::Ace),
            normal(Suit::Club, Rank::Two),
            normal(Suit::Heart, Rank::Two),
            normal(Suit::Spade, Rank::Two),
            jester(),
            normal(Suit::Diamond, Rank::Three),
        ],
    };
    assert!(game.perform_round(deck).is_ok());
    let prompt = game.prompt().unwrap();
    assert_eq!(Action::ChooseTrump, prompt.tag());
    assert!(matches!(prompt, Prompt::ChooseTrump { .. }));
    game.choose_trump(Suit::Club);

    match game.prompt() {
        Some(Prompt::Bid { bid, state }) => {
            assert_eq!(0, bid);
            assert_eq!(2, state.round);
            assert_eq!(Some(Suit::Club), state.trump_suit);
            assert!(state.trick.is_none());
        }
        other => panic!("{:?}", other),
    }
    for _ in 0..3 {
        game.bid(1);
    }

    game.play_card(jester());
    game.play_card(normal(Suit::Heart, Rank::Two));
    assert!(game.valid());
    match game.prompt() {
        Some(Prompt::PlayCard {
            state,
            hand,
            playable_cards,
        }) => {
            let trick = state.trick.unwrap();
            assert_eq!(
                vec![jester(), normal(Suit::Heart, Rank::Two)],
                trick.played_cards
            );
            assert_eq!(Some(Suit::Heart), trick.leading_suit);
            assert_eq!(0, trick.leading_player);
            assert_eq!(
                vec![normal(Suit::Heart, Rank::Ace), normal(Suit::Club, Rank::Two)],
                hand
            );
            assert_eq!(vec![normal(Suit::Heart, Rank::Ace)], playable_cards);
        }
        other => panic!("{:?}", other),
    }
    assert_eq!(Action::EndGame, game.end_game().tag());
    assert_eq!(Action::StartGame, game.start_game().tag());
}
