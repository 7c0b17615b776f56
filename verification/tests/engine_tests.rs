use qwerty::engine::{Action, Attempt, KeyEvent};

fn attempt(word: &str) -> Attempt {
    Attempt::new(word.as_bytes().to_vec())
}

#[test]
fn flawless_cat_scores_zero() {
    let mut a = attempt("cat");
    for &c in b"cat" {
        assert!(!a.is_done());
        let act = a.step(KeyEvent::Char(c));
        assert!(matches!(act, Action::Advanced { .. }));
    }
    assert!(a.is_done());
    assert_eq!(a.result_count(), 0);
    assert_eq!(a.answer.pos, 3);
}

#[test]
fn one_mistake_then_cat_scores_one() {
    let mut a = attempt("cat");
    let act = a.step(KeyEvent::Char(b'x'));
    assert!(matches!(
        act,
        Action::Mistake { erased: 1, count: 1, fatal: false }
    ));
    assert!(!a.is_done());
    for &c in b"cat" {
        a.step(KeyEvent::Char(c));
    }
    assert!(a.is_done());
    assert_eq!(a.result_count(), 1);
}

#[test]
fn enter_immediately_scores_ten() {
    let mut a = attempt("cat");
    let act = a.step(KeyEvent::Enter);
    assert!(matches!(act, Action::GaveUp));
    assert!(a.is_done());
    assert_eq!(a.result_count(), 10);
}

#[test]
fn enter_after_correct_prefix_still_scores_ten() {
    let mut a = attempt("cat");
    a.step(KeyEvent::Char(b'c'));
    a.step(KeyEvent::Char(b'a'));
    assert!(!a.is_done());
    let act = a.step(KeyEvent::Enter);
    assert!(matches!(act, Action::GaveUp));
    assert!(a.is_done());
    assert_eq!(a.result_count(), 10);
}

#[test]
fn eleven_wrong_first_keystrokes_score_eleven() {
    let mut a = attempt("cat");
    for i in 1..=11u32 {
        assert!(!a.is_done());
        let act = a.step(KeyEvent::Char(b'x'));
        match act {
            Action::Mistake { erased, count, fatal } => {
                assert_eq!(erased, 1);
                assert_eq!(count, i);
                assert_eq!(fatal, i == 11);
            }
            _ => panic!("expected a mistake action"),
        }
    }
    assert!(a.is_done());
    assert_eq!(a.result_count(), 11);
}

#[test]
fn ten_mistakes_do_not_end_the_attempt() {
    let mut a = attempt("go");
    for _ in 0..10 {
        a.step(KeyEvent::Char(b'z'));
    }
    assert!(!a.is_done());
    assert_eq!(a.mistakes, 10);
    a.step(KeyEvent::Char(b'g'));
    a.step(KeyEvent::Char(b'o'));
    assert!(a.is_done());
    assert_eq!(a.result_count(), 10);
}

#[test]
fn mistake_counter_never_decreases() {
    let mut a = attempt("cat");
    let mut last = 0u32;
    let keys = [b'c', b'x', b'c', b'a', b'z', b'c', b'a', b't'];
    for &c in keys.iter() {
        a.step(KeyEvent::Char(c));
        assert!(a.mistakes >= last);
        assert!(a.mistakes <= 10);
        last = a.mistakes;
    }
    assert!(a.is_done());
    assert_eq!(a.result_count(), 2);
}

#[test]
fn mistake_resets_position_to_zero() {
    let mut a = attempt("cat");
    a.step(KeyEvent::Char(b'c'));
    a.step(KeyEvent::Char(b'a'));
    assert_eq!(a.answer.pos, 2);
    let act = a.step(KeyEvent::Char(b'x'));
    assert!(matches!(
        act,
        Action::Mistake { erased: 3, count: 1, fatal: false }
    ));
    assert_eq!(a.answer.pos, 0);
    // The next keystroke is graded against index 0 of the word, not against
    // the pre-mistake position: 'c' advances, 'a' (the pre-mistake expected
    // character was 't') would not.
    let act = a.step(KeyEvent::Char(b'c'));
    assert!(matches!(act, Action::Advanced { finished: false }));
    assert_eq!(a.answer.pos, 1);
}

#[test]
fn other_keys_are_ignored() {
    let mut a = attempt("cat");
    let act = a.step(KeyEvent::Other);
    assert!(matches!(act, Action::Ignored));
    assert_eq!(a.answer.pos, 0);
    assert_eq!(a.mistakes, 0);
    assert!(!a.is_done());
}

#[test]
fn single_character_word_completes_at_once() {
    let mut a = attempt("a");
    let act = a.step(KeyEvent::Char(b'a'));
    assert!(matches!(act, Action::Advanced { finished: true }));
    assert!(a.is_done());
    assert_eq!(a.result_count(), 0);
}

#[test]
fn placeholder_row_is_one_tilde_per_character() {
    assert_eq!(qwerty::engine::placeholder_row(0), b"".to_vec());
    assert_eq!(qwerty::engine::placeholder_row(3), b"~~~".to_vec());
}

#[test]
fn append_char_advances_regardless_of_correctness() {
    let mut ans = qwerty::engine::Answer {
        pos: 0,
        word: b"cat".to_vec(),
    };
    assert!(ans.append_char(b'c').is_ok());
    assert_eq!(ans.pos, 1);
    assert!(ans.append_char(b'x').is_err());
    assert_eq!(ans.pos, 2);
}
