use user_auth::patterns::{
    is_valid_email, is_valid_username, is_valid_username_length, is_well_formatted_username,
    Patterns, EMAIL_PATTERN, USERNAME_PATTERN,
};

#[test]
fn test_email_regex_valid_emails() {
    let valid_emails = [
        "test@example.com",
        "user.name@domain.co.jp",
        "user+tag@example.org",
        "first.last@subdomain.example.com",
        "user123@example123.com",
        "test_user@example-domain.net",
        "user%test@domain.info",
        "user@domain-with-dash.com",
        "test123+tag@example.com",
        "a@b.co",
        "very.common@example.com",
        "disposable.style.email.with+symbol@example.com",
        "x@example.com",
        "example@s.example",
        "test@example-one.com",
        "test@example.name",
    ];

    for email in &valid_emails {
        assert!(is_valid_email(email), "Email '{}' should be valid", email);
    }
}

#[test]
fn test_email_regex_invalid_emails() {
    let invalid_emails = [
        "invalid-email",
        "@example.com",
        "user@",
        "user@domain",
        "user.domain.com",
        "user@domain.",
        "",
        "user@domain.c",
        "user name@domain.com",
        "user..name@domain.com",
        ".user@domain.com",
        "user.@domain.com",
        "user@domain..com",
        "user@.domain.com",
        "user@domain-.com",
        "user@-domain.com",
        "user@domain.com.",
        "user@@domain.com",
        "user@domain@com",
        "user@domain,com",
    ];

    for email in &invalid_emails {
        assert!(!is_valid_email(email), "Email '{}' should be invalid", email);
    }
}

#[test]
fn test_english_name_patterns() {
    let valid_english_names = [
        "John",
        "Mary",
        "Elizabeth",
        "Michael",
        "John Smith",
        "Mary Johnson",
        "Elizabeth Brown",
        "Michael Davis",
        "John Michael Smith",
        "Mary Jane Watson",
        "Elizabeth Anne Brown",
        "Michael James Davis",
        "O'Connor",
        "Mary-Jane",
        "John Jr.",
        "Dr. Smith",
        "Jean-Pierre",
        "John Smith-Johnson",
        "Mary Wilson-Davis",
    ];

    let patterns = Patterns::new().unwrap();
    for name in &valid_english_names {
        assert!(patterns.is_valid_username(name), "English name '{}' should be valid", name);
    }
}

#[test]
fn test_japanese_name_patterns() {
    let valid_japanese_names = [
        "田中",
        "佐藤",
        "鈴木",
        "高橋",
        "田中太郎",
        "佐藤花子",
        "鈴木一郎",
        "高橋美香",
        "田中 太郎",
        "佐藤 花子",
        "鈴木 一郎",
        "高橋 美香",
        "たなか",
        "さとう",
        "たなか たろう",
        "タナカ",
        "サトウ",
        "タナカ タロウ",
        "田中 たろう",
        "佐藤 ハナコ",
    ];

    let patterns = Patterns::new().unwrap();
    for name in &valid_japanese_names {
        assert!(patterns.is_valid_username(name), "Japanese name '{}' should be valid", name);
    }
}

#[test]
fn test_invalid_name_patterns() {
    let invalid_names = [
        "",
        " ",
        "  ",
        "John Michael James Smith",
        "田中 太郎 三郎 四郎",
        " John Smith",
        "John Smith ",
        " 田中太郎",
        "田中太郎 ",
        "John  Smith",
        "田中  太郎",
        "-John",
        "John-",
        "'John",
        ".John",
        "John--Smith",
        "John''Smith",
        "John..Smith",
        "John123",
        "Smith2",
        "田中1",
        "John@Smith",
        "John#Smith",
        "John$Smith",
        "田中@太郎",
    ];

    let patterns = Patterns::new().unwrap();
    for name in &invalid_names {
        assert!(!patterns.is_valid_username(name), "Name '{}' should be invalid", name);
        assert!(!is_valid_username(name), "Name '{}' should be invalid", name);
    }
}

#[test]
fn test_name_length_validation() {
    assert!(is_valid_username_length("A"));
    assert!(is_valid_username_length("田"));
    assert!(is_valid_username_length(&"a".repeat(50)));
    assert!(!is_valid_username_length(""));
    assert!(!is_valid_username_length(&"a".repeat(51)));
    assert!(!is_valid_username_length("   "));
}

#[test]
fn test_name_formatting_validation() {
    assert!(is_well_formatted_username("John Smith"));
    assert!(is_well_formatted_username("田中太郎"));
    assert!(is_well_formatted_username("田中 太郎"));
    assert!(is_well_formatted_username("Jean-Pierre"));
    assert!(is_well_formatted_username("O'Connor"));

    assert!(!is_well_formatted_username("John  Smith"));
    assert!(!is_well_formatted_username(" John Smith"));
    assert!(!is_well_formatted_username("John Smith "));
    assert!(!is_well_formatted_username("John--Smith"));
    assert!(!is_well_formatted_username("John''Smith"));
    assert!(!is_well_formatted_username("John..Smith"));
    assert!(!is_well_formatted_username("-John"));
    assert!(!is_well_formatted_username("John-"));
}

#[test]
fn test_mixed_language_patterns() {
    let valid_mixed_names = [
        "John 田中",
        "田中 Smith",
        "Mary 花子",
        "太郎 Johnson",
        "John 田中 Smith",
        "田中 Mary 太郎",
        "田中John",
        "Maryたなか",
    ];

    let patterns = Patterns::new().unwrap();
    for name in &valid_mixed_names {
        assert!(patterns.is_valid_username(name), "Mixed language name '{}' should be valid", name);
    }
}

#[test]
fn test_edge_cases() {
    let valid_cases = [
        "A",
        "田",
        "Jo",
        "John Jr.",
        "Mary-Jane",
        "O'Connor",
        "da Silva",
        "von Neumann",
        "田中 太郎",
        "たなか たろう",
        "タナカ タロウ",
    ];

    let patterns = Patterns::new().unwrap();
    for name in &valid_cases {
        assert!(patterns.is_valid_username(name), "Name '{}' should be valid", name);
    }
    assert!(is_valid_username("A"));

    let invalid_cases = [
        "John Michael James Smith Jr.",
        "田中 太郎 三郎 四郎",
        "-John",
        "John-",
        "'John",
        "Jo--hn",
        "Jo''hn",
        "Jo..hn",
    ];

    for name in &invalid_cases {
        assert!(!patterns.is_valid_username(name), "Name '{}' should be invalid", name);
    }
}

#[test]
fn test_regex_compilation() {
    let email_regex = regex::Regex::new(EMAIL_PATTERN);
    assert!(email_regex.is_ok());

    let username_regex = regex::Regex::new(USERNAME_PATTERN);
    assert!(username_regex.is_ok());

    assert!(Patterns::new().is_some());
}

#[test]
fn test_email_regex_edge_cases() {
    let valid_edge_cases = [
        "a@b.co",
        "test123@example123.com",
        "user+tag+more@example.com",
        "user_name@example.com",
        "user-name@example.com",
    ];

    let patterns = Patterns::new().unwrap();
    for email in &valid_edge_cases {
        assert!(patterns.is_valid_email(email), "Email '{}' should be valid", email);
    }

    let invalid_edge_cases = [
        "a@b.c",
        "test@domain-.com",
        "test@-domain.com",
        ".test@domain.com",
        "test.@domain.com",
        "test..test@domain.com",
        "test@domain..com",
    ];

    for email in &invalid_edge_cases {
        assert!(!patterns.is_valid_email(email), "Email '{}' should be invalid", email);
    }
}

#[test]
fn test_email_regex_case_insensitive() {
    let test_cases = [
        ("Test@Example.Com", true),
        ("USER@DOMAIN.COM", true),
        ("user@domain.com", true),
        ("User.Name@Example.Org", true),
    ];

    let patterns = Patterns::new().unwrap();
    for (email, should_match) in &test_cases {
        assert_eq!(
            patterns.is_valid_email(email),
            *should_match,
            "Email '{}' case sensitivity test failed",
            email
        );
    }
}

#[test]
fn test_email_regex_performance() {
    let test_emails = vec!["test@example.com"; 1000];
    let patterns = Patterns::new().unwrap();

    let start = std::time::Instant::now();
    for email in &test_emails {
        patterns.is_valid_email(email);
    }
    let duration = start.elapsed();

    assert!(
        duration.as_millis() < 100,
        "Email regex performance test failed: took {}ms",
        duration.as_millis()
    );
}

#[test]
fn test_username_performance() {
    let test_names = vec!["John Smith"; 500];
    let test_japanese_names = vec!["田中太郎"; 500];
    let patterns = Patterns::new().unwrap();

    let start = std::time::Instant::now();
    for name in &test_names {
        patterns.is_valid_username(name);
    }
    for name in &test_japanese_names {
        patterns.is_valid_username(name);
    }
    let duration = start.elapsed();

    assert!(
        duration.as_millis() < 100,
        "Username validation performance test failed: took {}ms",
        duration.as_millis()
    );
}
