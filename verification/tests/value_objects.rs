use fake::Fake;
use zero2prod::domain::value_objects::{
    ConfirmationStatus, PasswordHash, SubscriberEmail, SubscriberId, SubscriberName,
};
use zero2prod::error::DomainError;

#[test]
fn empty_string_is_rejected() {
    let email = "".to_string();
    assert!(SubscriberEmail::parse(email).is_err());
}

#[test]
fn email_missing_at_symbol_is_rejected() {
    let email = "ursuladomain.com".to_string();
    assert!(SubscriberEmail::parse(email).is_err());
}

#[test]
fn email_missing_subject_is_rejected() {
    let email = "@domain.com".to_string();
    assert!(SubscriberEmail::parse(email).is_err());
}

#[test]
fn valid_emails_are_parsed_successfully() {
    let email = fake::faker::internet::en::SafeEmail().fake::<String>();
    println!("email: {email}");
    assert!(SubscriberEmail::parse(email).is_ok())
}

#[test]
fn email_missing_domain_is_rejected() {
    assert!(SubscriberEmail::parse("ursula@".to_string()).is_err());
}

#[test]
fn parsed_email_keeps_its_text() {
    let email = SubscriberEmail::parse("ursula_le_guin@gmail.com".to_string()).unwrap();
    assert_eq!(email.as_ref(), "ursula_le_guin@gmail.com");
    assert_eq!(email.clone(), email);
}

#[test]
fn rejected_email_is_named_in_the_error() {
    let error = SubscriberEmail::parse("definitely-not-an-email".to_string()).unwrap_err();
    assert_eq!(
        error,
        DomainError("definitely-not-an-email is not valid email".to_string())
    );
    assert_eq!(error.message(), "definitely-not-an-email is not valid email");
}

#[test]
fn valid_name_is_kept_as_given() {
    let name = SubscriberName::parse("Le Guin".to_string()).unwrap();
    assert_eq!(name.as_ref(), "Le Guin");
    assert_eq!(name.clone(), name);
}

#[test]
fn name_with_surrounding_spaces_is_not_trimmed() {
    let name = SubscriberName::parse("  Ursula ".to_string()).unwrap();
    assert_eq!(name.as_ref(), "  Ursula ");
}

#[test]
fn empty_name_is_rejected() {
    assert_eq!(
        SubscriberName::parse("".to_string()),
        Err(" is not valid subscriber name".to_string())
    );
}

#[test]
fn whitespace_only_names_are_rejected() {
    for name in [" ", "   ", "\t\n", "\u{a0}\u{2003}", "\u{3000}", "\u{85}\u{1680}\u{2028}"] {
        assert_eq!(
            SubscriberName::parse(name.to_string()),
            Err(format!("{} is not valid subscriber name", name))
        );
    }
}

#[test]
fn a_name_of_256_characters_is_valid() {
    let name = "a".repeat(256);
    assert!(SubscriberName::parse(name).is_ok());
}

#[test]
fn a_name_of_257_characters_is_rejected() {
    let name = "a".repeat(257);
    assert_eq!(
        SubscriberName::parse(name.clone()),
        Err(format!("{} is not valid subscriber name", name))
    );
}

#[test]
fn name_length_is_counted_in_characters() {
    let name = "ы".repeat(256);
    assert!(SubscriberName::parse(name).is_ok());
    let name = "ы".repeat(257);
    assert!(SubscriberName::parse(name).is_err());
}

#[test]
fn names_with_a_forbidden_character_are_rejected() {
    for c in ['/', '\\', '(', ')', '<', '>', '{', '}'] {
        let name = format!("Ursula{}Guin", c);
        assert_eq!(
            SubscriberName::parse(name.clone()),
            Err(format!("{} is not valid subscriber name", name))
        );
    }
}

#[test]
fn names_with_other_punctuation_are_valid() {
    for name in ["Ursula K. Le Guin", "O'Brien", "a", "[x]", "名前", "zero\u{200b}width"] {
        assert!(SubscriberName::parse(name.to_string()).is_ok());
    }
}

#[test]
fn subscriber_id_is_parsed_from_its_hyphenated_form() {
    let id = SubscriberId::parse("550e8400-e29b-41d4-a716-446655440000").unwrap();
    assert_eq!(id, SubscriberId(0x550e8400_e29b_41d4_a716_446655440000));
    assert_eq!(*id.as_ref(), 0x550e8400_e29b_41d4_a716_446655440000);
}

#[test]
fn subscriber_id_is_parsed_from_its_simple_form() {
    let id = SubscriberId::parse("A1A2A3A4B1B2C1C2D1D2D3D4D5D6D7D8").unwrap();
    assert_eq!(id, SubscriberId(0xa1a2a3a4_b1b2_c1c2_d1d2_d3d4d5d6d7d8));
}

#[test]
fn subscriber_id_is_written_hyphenated_in_lower_case() {
    let id = SubscriberId(0xa1a2a3a4_b1b2_c1c2_d1d2_d3d4d5d6d7d8);
    assert_eq!(id.to_text(), "a1a2a3a4-b1b2-c1c2-d1d2-d3d4d5d6d7d8");
    assert_eq!(SubscriberId(0).to_text(), "00000000-0000-0000-0000-000000000000");
    assert_eq!(SubscriberId(0x0f).to_text(), "00000000-0000-0000-0000-00000000000f");
    assert_eq!(
        SubscriberId(u128::MAX).to_text(),
        "ffffffff-ffff-ffff-ffff-ffffffffffff"
    );
}

#[test]
fn subscriber_id_text_is_read_back() {
    let id = SubscriberId::new();
    assert_eq!(SubscriberId::parse(&id.to_text()), Ok(id));
}

#[test]
fn incorrect_subscriber_id_is_a_domain_error() {
    assert_eq!(
        SubscriberId::parse("not-a-uuid"),
        Err(DomainError("Incorrect subscriber id not-a-uuid".to_string()))
    );
    assert_eq!(
        SubscriberId::parse(""),
        Err(DomainError("Incorrect subscriber id ".to_string()))
    );
}

#[test]
fn new_subscriber_ids_are_version_7_and_differ() {
    let first = SubscriberId::new();
    let second = SubscriberId::default();
    assert_ne!(first, second);
    for id in [first, second] {
        assert_eq!((id.0 >> 76) & 0xf, 7);
        assert_eq!((id.0 >> 62) & 0x3, 2);
    }
}

#[test]
fn password_hash_is_the_sha3_256_digest_in_hex() {
    assert_eq!(
        PasswordHash::new_from_password("").as_ref(),
        "a7ffc6f8bf1ed76651c14756a061d662f580ff4de43b49fa82d80a4b80f8434a"
    );
    assert_eq!(
        PasswordHash::new_from_password("abc").as_ref(),
        "3a985da74fe225b2045c172d6bd390bd855f086e3e9d525b46bfe24511431532"
    );
    assert_eq!(
        PasswordHash::new_from_password("pässword").as_ref(),
        "d253e54c98c03efeacf04a420a6279aa027de33712ecfded16d5827c5e733873"
    );
}

#[test]
fn confirmation_status_is_stored_under_its_name() {
    assert_eq!(ConfirmationStatus::PendingConfirmation.as_ref(), "PendingConfirmation");
    assert_eq!(ConfirmationStatus::Confirmed.as_ref(), "Confirmed");
}
