use new_user_report::helper::{
    check_new_user, NewUserData, TokenBalance, TransactionMeta, TransactionRecord,
};
use new_user_report::report::{amount_string, bracketed, report, FRACTION_DIGITS, UNITS_PER_TOKEN};

fn texts(items: &[&str]) -> Vec<String> {
    items.iter().map(|text| text.to_string()).collect()
}

#[test]
fn one_token_is_a_thousand_million_units() {
    assert_eq!(UNITS_PER_TOKEN, 1_000_000_000);
    assert_eq!(FRACTION_DIGITS, 9);
    assert_eq!(10u64.pow(FRACTION_DIGITS), UNITS_PER_TOKEN);
}

#[test]
fn whole_amounts_have_no_point() {
    assert_eq!(amount_string(0), "0");
    assert_eq!(amount_string(1_000_000_000), "1");
    assert_eq!(amount_string(10_000_000_000), "10");
    assert_eq!(amount_string(123_000_000_000), "123");
    assert_eq!(amount_string(18_446_744_073_000_000_000), "18446744073");
}

#[test]
fn fractions_lose_the_zeros_at_their_end() {
    assert_eq!(amount_string(1), "0.000000001");
    assert_eq!(amount_string(10), "0.00000001");
    assert_eq!(amount_string(120), "0.00000012");
    assert_eq!(amount_string(100_000_000), "0.1");
    assert_eq!(amount_string(500_000_000), "0.5");
    assert_eq!(amount_string(999_999_999), "0.999999999");
    assert_eq!(amount_string(1_500_000_000), "1.5");
    assert_eq!(amount_string(1_000_000_001), "1.000000001");
    assert_eq!(amount_string(20_050_000_000), "20.05");
    assert_eq!(amount_string(u64::MAX), "18446744073.709551615");
}

#[test]
fn amounts_read_like_the_numbers_they_stand_for() {
    let samples: [u64; 8] = [0, 1, 10, 250_000_000, 500_000_000, 1_000_000_000, 1_500_000_000, 64_000_000_000];
    for units in samples {
        let number = units as f64 / 1e9;
        assert_eq!(amount_string(units), format!("{}", number));
    }
}

#[test]
fn a_new_user_is_reported_in_six_lines() {
    let user = NewUserData {
        signatures: texts(&["A"]),
        owner: "OwnerX".to_string(),
        pre_token_balance: 0,
        post_token_balance: 1,
    };
    assert_eq!(
        report(&user),
        "New User -\n\tSignature(s) - [A]\n\tOwner - OwnerX\n\tPre Token Balance - 0\n\tPost Token Balance - 0.000000001\n-----------\n"
    );
}

#[test]
fn a_report_shows_every_signature_and_both_balances() {
    let user = NewUserData {
        signatures: texts(&["S1", "S2", "S3"]),
        owner: "".to_string(),
        pre_token_balance: 2_500_000_000,
        post_token_balance: 12,
    };
    let text = report(&user);
    let lines: Vec<&str> = text.lines().collect();
    assert_eq!(
        lines,
        vec![
            "New User -",
            "\tSignature(s) - [S1, S2, S3]",
            "\tOwner - ",
            "\tPre Token Balance - 2.5",
            "\tPost Token Balance - 0.000000012",
            "-----------",
        ]
    );
    assert!(text.ends_with("-----------\n"));
}

#[test]
fn a_first_credit_to_owner_x_is_reported_whatever_the_amount() {
    for amount in ["1", "777", "anything"] {
        let tx = TransactionRecord {
            meta: Some(TransactionMeta {
                pre_token_balances: Some(vec![]),
                post_token_balances: Some(vec![TokenBalance {
                    owner: Some("OwnerX".to_string()),
                    amount: amount.to_string(),
                }]),
            }),
            signatures: Some(texts(&["A"])),
        };
        let user = check_new_user(&tx).unwrap().unwrap();
        assert_eq!(user.owner, "OwnerX");
        assert_eq!(user.pre_token_balance, 0);
        assert_eq!(user.post_token_balance, 1);
        let text = report(&user);
        assert_eq!(text.lines().count(), 6);
        assert_eq!(
            text,
            "New User -\n\tSignature(s) - [A]\n\tOwner - OwnerX\n\tPre Token Balance - 0\n\tPost Token Balance - 0.000000001\n-----------\n"
        );
    }
}

#[test]
fn items_are_put_between_brackets_with_commas() {
    assert_eq!(bracketed(&texts(&[])), "[]");
    assert_eq!(bracketed(&texts(&["a"])), "[a]");
    assert_eq!(bracketed(&texts(&["a", "b"])), "[a, b]");
    assert_eq!(bracketed(&texts(&["", "", ""])), "[, , ]");
    assert_eq!(bracketed(&texts(&["x y", "[z]", ","])), "[x y, [z], ,]");
}

#[test]
fn signatures_stand_in_the_report_as_they_are() {
    let user = NewUserData {
        signatures: texts(&["A", "B"]),
        owner: "O".to_string(),
        pre_token_balance: 0,
        post_token_balance: 1,
    };
    let text = report(&user);
    assert_eq!(text.lines().nth(1), Some("\tSignature(s) - [A, B]"));
    let odd = NewUserData {
        signatures: texts(&["a\"b", "c\\d"]),
        owner: "\"O\"".to_string(),
        pre_token_balance: 0,
        post_token_balance: 1,
    };
    let text = report(&odd);
    assert_eq!(text.lines().nth(1), Some("\tSignature(s) - [a\"b, c\\d]"));
    assert_eq!(text.lines().nth(2), Some("\tOwner - \"O\""));
}

#[test]
fn a_report_without_signatures_has_empty_brackets() {
    let user = NewUserData {
        signatures: texts(&[]),
        owner: "O".to_string(),
        pre_token_balance: 0,
        post_token_balance: 1,
    };
    assert_eq!(report(&user).lines().nth(1), Some("\tSignature(s) - []"));
}
