//! The command cores: dice, random picks, the latency colour, and
//! the fortune cooldown.

use discord_bot::commands::{
    coin_face, coinflip, fortune_check, fortune_record, latency_colour, pick_fortune, pick_number,
    roll_dice, should_write, yes_no_answer, yesno, FortuneDecision,
};
use discord_bot::format::AccentColor;
use discord_bot::store::KeyValueStore;

#[test]
fn one_sided_dice_are_deterministic() {
    // A one-sided die shows one pip; this pins the sampler to the
    // requested range.
    assert_eq!(roll_dice(4, 1, 0), 4);
    assert_eq!(roll_dice(4, 1, 10), 14);
    assert_eq!(roll_dice(4, 1, -10), -6);
    assert_eq!(roll_dice(0, 6, 3), 3);
}

#[test]
fn dice_totals_stay_in_range() {
    for _ in 0..50 {
        let total = roll_dice(3, 6, 0);
        assert!((3..=18).contains(&total));
    }
}

#[test]
fn number_picks_respect_the_range() {
    assert_eq!(pick_number(5, 5), None);
    assert_eq!(pick_number(5, 1), None);
    for _ in 0..50 {
        let v = pick_number(-3, 3).unwrap();
        assert!((-3..=3).contains(&v));
    }
    // A single-value range pins the answer.
    assert_eq!(pick_number(7, 8).map(|v| (7..=8).contains(&v)), Some(true));
}

#[test]
fn coin_and_oracle_answers() {
    assert_eq!(coin_face(1), "Heads");
    assert_eq!(coin_face(0), "Tails");
    assert_eq!(yes_no_answer(1), "Maybe");
    assert_eq!(yes_no_answer(2), "Yes");
    assert_eq!(yes_no_answer(3), "No");
    assert_eq!(yes_no_answer(1000), "Yes");
    for _ in 0..20 {
        assert!(["Heads", "Tails"].contains(&coinflip()));
        assert!(["Yes", "No", "Maybe"].contains(&yesno()));
    }
}

#[test]
fn latency_colour_thresholds() {
    assert_eq!(latency_colour(0), AccentColor::DarkGreen);
    assert_eq!(latency_colour(150), AccentColor::DarkGreen);
    assert_eq!(latency_colour(151), AccentColor::Gold);
    assert_eq!(latency_colour(800), AccentColor::Gold);
    assert_eq!(latency_colour(801), AccentColor::DarkRed);
}

#[test]
fn fortunes_come_from_the_list() {
    assert_eq!(pick_fortune(&vec![]), None);
    let one = vec!["the only fortune".to_string()];
    assert_eq!(pick_fortune(&one).as_deref(), Some("the only fortune"));
    let several: Vec<String> = vec!["a".into(), "b".into(), "c".into()];
    for _ in 0..20 {
        let picked = pick_fortune(&several).unwrap();
        assert!(several.contains(&picked));
    }
}

#[test]
fn fortune_cooldown_flow() {
    let mut store = KeyValueStore::new();
    let cooldown = 3600;
    let now = 1700000000;

    // Nothing recorded: ready.
    assert!(matches!(
        fortune_check(&store, 7, cooldown, now),
        FortuneDecision::Ready
    ));

    fortune_record(&mut store, 7, "patience pays", now);
    assert_eq!(
        store.get_user_value("7", "fortune_last").as_deref(),
        Some("patience pays")
    );

    // One minute later: still cooling down, remainder decomposed.
    match fortune_check(&store, 7, cooldown, now + 60) {
        FortuneDecision::Cooldown {
            remaining,
            hours,
            minutes,
            seconds,
            previous,
        } => {
            assert_eq!(remaining, 3540);
            assert_eq!(hours, 0);
            assert_eq!(minutes, 59);
            assert_eq!(seconds, 0);
            assert_eq!(previous.as_deref(), Some("patience pays"));
        }
        FortuneDecision::Ready => panic!("expected a cooldown"),
    }

    // After the cooldown has passed: ready again.
    assert!(matches!(
        fortune_check(&store, 7, cooldown, now + cooldown),
        FortuneDecision::Ready
    ));
}

#[test]
fn write_suppression_decision() {
    assert!(should_write(&None, "x"));
    assert!(should_write(&Some("x".to_string()), "y"));
    assert!(!should_write(&Some("x".to_string()), "x"));
}
