use guessing_game::game::{check_range, compare_guess, Feedback, Game};

#[test]
fn scenario_one_to_ten_secret_seven() {
    let mut g = Game::new(1, 10, 7);
    assert_eq!(g.submit("abc\n"), Feedback::NotANumber);
    assert_eq!(g.submit("abc\n").message(), "Please input a number.");
    let f = g.submit("15\n");
    assert_eq!(f, Feedback::AboveMax(10));
    assert_eq!(f.message(), "Please input a number that is no larger than 10.");
    let f = g.submit("0\n");
    assert_eq!(f, Feedback::BelowMin(1));
    assert_eq!(f.message(), "Please input a number that is at least 1.");
    let f = g.submit("3\n");
    assert_eq!(f, Feedback::TooSmall);
    assert_eq!(f.message(), "Too small!");
    assert!(!g.is_won());
    let f = g.submit("9\n");
    assert_eq!(f, Feedback::TooBig);
    assert_eq!(f.message(), "Too big!");
    assert!(!g.is_won());
    let f = g.submit("7\n");
    assert_eq!(f, Feedback::Win);
    assert_eq!(f.message(), "You win!");
    assert!(g.is_won());
}

#[test]
fn in_range_numbers_are_never_corrected() {
    for secret in 1..=10 {
        let mut g = Game::new(1, 10, secret);
        for v in 1..=10 {
            let f = g.submit(&v.to_string());
            assert!(!matches!(f, Feedback::BelowMin(_) | Feedback::AboveMax(_)));
            assert!(!matches!(f, Feedback::NotANumber));
        }
    }
}

#[test]
fn out_of_range_numbers_name_the_bound() {
    let mut g = Game::new(-5, 5, 0);
    assert_eq!(g.submit("-6"), Feedback::BelowMin(-5));
    assert_eq!(g.submit("-2147483648"), Feedback::BelowMin(-5));
    assert_eq!(g.submit("6"), Feedback::AboveMax(5));
    assert_eq!(g.submit("2147483647"), Feedback::AboveMax(5));
    assert!(!g.is_won());
    assert_eq!(g.submit("0"), Feedback::Win);
}

#[test]
fn non_numbers_ask_for_a_number() {
    let mut g = Game::new(1, 10, 4);
    for line in ["", "x", "ten", "4.0", "- 4", "99999999999"].iter() {
        assert_eq!(g.submit(line), Feedback::NotANumber);
    }
    assert!(!g.is_won());
    assert_eq!(g.submit(" 4 "), Feedback::Win);
}

#[test]
fn secret_stays_through_wrong_guesses() {
    let mut g = Game::new(1, 100, 42);
    for v in [1, 99, 41, 43, 50, 10].iter() {
        g.submit(&v.to_string());
        assert_eq!(g.min(), 1);
        assert_eq!(g.max(), 100);
    }
    assert_eq!(g.submit("41"), Feedback::TooSmall);
    assert_eq!(g.submit("43"), Feedback::TooBig);
    assert_eq!(g.submit("42"), Feedback::Win);
}

#[test]
fn same_refused_line_gets_the_same_answer() {
    let mut g = Game::new(1, 10, 7);
    for line in ["abc", "15", "0"].iter() {
        let first = g.submit(line);
        for _ in 0..5 {
            assert_eq!(g.submit(line), first);
            assert!(!g.is_won());
        }
    }
    assert_eq!(g.submit("7"), Feedback::Win);
}

#[test]
fn range_check_and_comparison() {
    assert_eq!(check_range(1, 10, 1), None);
    assert_eq!(check_range(1, 10, 10), None);
    assert_eq!(check_range(1, 10, 0), Some(Feedback::BelowMin(1)));
    assert_eq!(check_range(1, 10, 11), Some(Feedback::AboveMax(10)));
    assert_eq!(compare_guess(3, 7), Feedback::TooSmall);
    assert_eq!(compare_guess(9, 7), Feedback::TooBig);
    assert_eq!(compare_guess(7, 7), Feedback::Win);
}

#[test]
fn start_draws_a_secret_within_the_bounds() {
    for _ in 0..20 {
        let mut g = Game::start(1, 10);
        assert_eq!(g.min(), 1);
        assert_eq!(g.max(), 10);
        assert!(!g.is_won());
        let mut wins = 0;
        for v in 1..=10 {
            if g.submit(&v.to_string()) == Feedback::Win {
                wins += 1;
            }
        }
        assert_eq!(wins, 1);
    }
}

#[test]
fn start_with_a_single_value() {
    let mut g = Game::start(-3, -3);
    assert_eq!(g.submit("-3"), Feedback::Win);
}

#[test]
fn start_draws_more_than_the_lower_bound() {
    let mut seen_other = false;
    for _ in 0..200 {
        let mut g = Game::start(0, 1);
        if g.submit("1") == Feedback::Win {
            seen_other = true;
        }
    }
    assert!(seen_other);
}
