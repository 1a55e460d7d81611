use auth_core::text::{contains, matches_at, same_text, starts_with};

#[test]
fn needle_is_found_where_it_stands() {
    assert!(matches_at("users_email_key", "email", 6));
    assert!(!matches_at("users_email_key", "email", 5));
    assert!(!matches_at("users_email_key", "email", 7));
    assert!(matches_at("users_email_key", "users", 0));
    assert!(matches_at("users_email_key", "key", 12));
    assert!(matches_at("abc", "", 0));
    assert!(matches_at("abc", "", 3));
    assert!(matches_at("", "", 0));
}

#[test]
fn needle_that_would_reach_beyond_the_end_is_not_found() {
    assert!(!matches_at("abc", "bcd", 1));
    assert!(!matches_at("abc", "c", 3));
    assert!(!matches_at("abc", "", 4));
    assert!(!matches_at("abc", "abc", usize::MAX));
    assert!(!matches_at("", "a", 0));
}

#[test]
fn positions_count_characters_not_bytes() {
    assert!(matches_at("żółw email", "email", 5));
    assert!(matches_at("żółw", "ółw", 1));
    assert!(!matches_at("żółw", "ółw", 2));
}

#[test]
fn text_begins_with_its_prefixes_only() {
    assert!(starts_with("Bearer abc", "Bearer "));
    assert!(starts_with("Bearer ", "Bearer "));
    assert!(starts_with("abc", ""));
    assert!(starts_with("", ""));
    assert!(!starts_with("Bearer", "Bearer "));
    assert!(!starts_with("bearer abc", "Bearer "));
    assert!(!starts_with(" Bearer abc", "Bearer "));
    assert!(!starts_with("", "Bearer "));
}

#[test]
fn text_contains_what_stands_in_it() {
    assert!(contains("users_email_key", "email"));
    assert!(contains("email", "email"));
    assert!(contains("users_email", "email"));
    assert!(contains("email_users", "email"));
    assert!(contains("abc", ""));
    assert!(contains("", ""));
    assert!(contains("emaiemail", "email"));
    assert!(!contains("users_emai", "email"));
    assert!(!contains("users_e_mail_key", "email"));
    assert!(!contains("EMAIL", "email"));
    assert!(!contains("", "email"));
    assert!(!contains("mail", "email"));
}

#[test]
fn same_text_is_equality() {
    assert!(same_text("23505", "23505"));
    assert!(same_text("", ""));
    assert!(same_text("żółw", "żółw"));
    assert!(!same_text("23505", "2350"));
    assert!(!same_text("2350", "23505"));
    assert!(!same_text("23505", "23506"));
    assert!(!same_text("", "23505"));
}
