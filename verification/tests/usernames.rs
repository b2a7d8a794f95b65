use craft_nexus_onboarding::error::OnboardingError;
use craft_nexus_onboarding::host::{normalize_username, username_bytes};
use craft_nexus_onboarding::username::{normalize, MAX_INPUT_BYTES};
use soroban_sdk::Env;

fn normalized(username: &[u8]) -> String {
    normalize(username).unwrap()
}

#[test]
fn upper_case_letters_are_lowered() {
    assert_eq!(normalized(b"AliCE_9"), "alice_9");
    assert_eq!(normalized(b"AZaz@[`{"), "azaz@[`{");
    assert_eq!(normalized(b"0123456789"), "0123456789");
}

#[test]
fn usernames_that_differ_in_case_normalize_alike() {
    assert_eq!(normalized(b"Crafty"), normalized(b"cRAFTY"));
    assert_ne!(normalized(b"Crafty"), normalized(b"Craft"));
}

#[test]
fn outer_spaces_are_stripped_and_inner_ones_kept() {
    assert_eq!(normalized(b"  Mary Ann   "), "mary ann");
    assert_eq!(normalized(b"mary ann"), "mary ann");
    assert_eq!(normalized(b"mary  ann"), "mary  ann");
    assert_eq!(normalized(b" x"), "x");
    assert_eq!(normalized(b"x "), "x");
}

#[test]
fn other_white_space_is_kept() {
    assert_eq!(normalized(b"\tBob\n"), "\tbob\n");
    assert_eq!(normalized(b" \t "), "\t");
}

#[test]
fn nothing_but_spaces_is_the_empty_name() {
    assert_eq!(normalized(b""), "");
    assert_eq!(normalized(b" "), "");
    assert_eq!(normalized(&[b' '; MAX_INPUT_BYTES]), "");
}

#[test]
fn letters_beyond_ascii_stay_as_they_are() {
    assert_eq!(normalized(" \u{c0}BC\u{1f600} ".as_bytes()), "\u{c0}bc\u{1f600}");
}

#[test]
fn bytes_that_spell_no_text_are_the_empty_name() {
    assert_eq!(normalized(&[0xff, b'a', b'b']), "");
    assert_eq!(normalized(&[b'a', 0xc3]), "");
    assert_eq!(normalized(&[b'a', 0xc3, b' ', b'b']), "");
}

#[test]
fn normalizing_twice_changes_nothing() {
    for username in [&b"  Mary Ann "[..], b"ADMIN", b"", &[0xff], "\u{c9}T\u{c9}".as_bytes()] {
        let once = normalized(username);
        assert_eq!(normalized(once.as_bytes()), once);
    }
}

#[test]
fn input_is_limited_to_256_bytes() {
    assert_eq!(MAX_INPUT_BYTES, 256);
    assert_eq!(normalized(&[b'A'; 256]), "a".repeat(256));
    assert_eq!(normalize(&[b'A'; 257]), Err(OnboardingError::UsernameTooLong));
    // Spaces count, though they would be stripped.
    assert_eq!(normalize(&[b' '; 257]), Err(OnboardingError::UsernameTooLong));
}

#[test]
fn host_strings_are_normalized_in_the_host() {
    let env = Env::default();
    let username = soroban_sdk::String::from_str(&env, "  AliCE Smith ");
    let name = normalize_username(&env, &username).unwrap();
    assert_eq!(name, soroban_sdk::String::from_str(&env, "alice smith"));
    assert_eq!(name.len(), 11);
    let again = normalize_username(&env, &name).unwrap();
    assert_eq!(again, name);
}

#[test]
fn host_strings_need_not_be_text() {
    let env = Env::default();
    let username = soroban_sdk::String::from_bytes(&env, &[b'A', 0xff, b'B']);
    assert_eq!(username_bytes(&username), vec![b'A', 0xff, b'B']);
    assert_eq!(normalize_username(&env, &username).unwrap().len(), 0);
    let empty = soroban_sdk::String::from_str(&env, "");
    assert_eq!(username_bytes(&empty), Vec::<u8>::new());
    assert_eq!(normalize_username(&env, &empty).unwrap(), empty);
}

#[test]
fn host_strings_are_limited_too() {
    let env = Env::default();
    let long = soroban_sdk::String::from_str(&env, &"B".repeat(256));
    let name = normalize_username(&env, &long).unwrap();
    assert_eq!(username_bytes(&name), vec![b'b'; 256]);
    let longer = soroban_sdk::String::from_str(&env, &"B".repeat(257));
    assert_eq!(username_bytes(&longer).len(), 257);
    assert!(matches!(
        normalize_username(&env, &longer),
        Err(OnboardingError::UsernameTooLong)
    ));
}
