use pwvlt::{Password, PwvltError};

fn policy(
    length: usize,
    numbers: bool,
    lowercase: bool,
    uppercase: bool,
    symbols: bool,
    strict: bool,
) -> Password {
    Password {
        length,
        numbers,
        lowercase_letters: lowercase,
        uppercase_letters: uppercase,
        symbols: symbols,
        strict,
    }
}

#[test]
fn strict_digits_lowercase_policy_is_honoured() {
    let p = policy(12, true, true, false, false, true);
    for _ in 0..50 {
        let pw = pwvlt::random_password(&p).unwrap();
        assert_eq!(pw.chars().count(), 12);
        assert!(pw.chars().all(|c| c.is_ascii_digit() || c.is_ascii_lowercase()));
        assert!(pw.chars().any(|c| c.is_ascii_digit()));
        assert!(pw.chars().any(|c| c.is_ascii_lowercase()));
    }
}

#[test]
fn non_strict_policy_gives_exact_length() {
    let p = policy(22, true, true, true, true, false);
    let pw = pwvlt::random_password(&p).unwrap();
    assert_eq!(pw.chars().count(), 22);
    assert!(pw.chars().all(|c| {
        c.is_ascii_digit() || c.is_ascii_lowercase() || c.is_ascii_uppercase()
            || c.is_ascii_punctuation()
    }));
}

#[test]
fn zero_length_policy_is_rejected() {
    let p = policy(0, true, true, false, false, false);
    let r = pwvlt::random_password(&p);
    assert!(matches!(r, Err(PwvltError::PasswordGeneration(_))));
}

#[test]
fn no_enabled_class_is_rejected() {
    let p = policy(8, false, false, false, false, false);
    let r = pwvlt::random_password(&p);
    assert!(matches!(r, Err(PwvltError::PasswordGeneration(_))));
}

#[test]
fn strict_policy_shorter_than_class_count_is_rejected() {
    let p = policy(2, true, true, true, false, true);
    let r = pwvlt::random_password(&p);
    assert!(matches!(r, Err(PwvltError::PasswordGeneration(_))));
}

#[test]
fn strict_length_equal_to_class_count_is_accepted() {
    let p = policy(4, true, true, true, true, true);
    let pw = pwvlt::random_password(&p).unwrap();
    assert_eq!(pw.chars().count(), 4);
    assert!(pw.chars().any(|c| c.is_ascii_digit()));
    assert!(pw.chars().any(|c| c.is_ascii_lowercase()));
    assert!(pw.chars().any(|c| c.is_ascii_uppercase()));
    assert!(pw.chars().any(|c| c.is_ascii_punctuation()));
}
