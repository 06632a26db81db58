use headless_talk::account::SavedAccount;

#[test]
fn saved_account_equality_covers_the_token() {
    let a = SavedAccount {
        profile: "p".to_string(),
        name: "n".to_string(),
        email: "e@example.com".to_string(),
        token: Some([7u8; 64]),
    };
    let mut b = a.clone();
    assert_eq!(a, b);
    b.token = None;
    assert_ne!(a, b);
}
