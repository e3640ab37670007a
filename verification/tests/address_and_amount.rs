use grin_gui::address::is_valid_slatepack_address;
use grin_gui::amount::{amount_is_safe, parse_amount};
use grin_gui::chain::ChainTypes;

const TESTNET_ADDRESS: &str = "tgrin1xtxavwfgs48ckf3gk8wwgcndmn0nt4tvkl8a7ltyejjcy2mc6nfs9gm2lp";
const MAINNET_ADDRESS: &str = "grin1dvge9z4uqgqlpspmljrd7smh3grrw9xu2r9lkz3u67s3emj3ud2sd5gk9p";

#[test]
fn testnet_address_is_valid_on_test_chains() {
    assert!(is_valid_slatepack_address(ChainTypes::Testnet, TESTNET_ADDRESS));
    assert!(is_valid_slatepack_address(ChainTypes::UserTesting, TESTNET_ADDRESS));
    assert!(is_valid_slatepack_address(ChainTypes::AutomatedTesting, TESTNET_ADDRESS));
}

#[test]
fn testnet_address_is_refused_on_mainnet() {
    assert!(!is_valid_slatepack_address(ChainTypes::Mainnet, TESTNET_ADDRESS));
}

#[test]
fn mainnet_address_is_valid_on_mainnet_only() {
    assert!(is_valid_slatepack_address(ChainTypes::Mainnet, MAINNET_ADDRESS));
    assert!(!is_valid_slatepack_address(ChainTypes::Testnet, MAINNET_ADDRESS));
}

#[test]
fn malformed_addresses_are_refused() {
    for text in ["", "None", "tgrin1", "not an address", "tgrin1xtxavwfgs48ckf3gk8wwgcndmn0nt4tvkl8a7ltyejjcy2mc6nfs9gm2lq"] {
        assert!(!is_valid_slatepack_address(ChainTypes::Testnet, text), "{}", text);
        assert!(!is_valid_slatepack_address(ChainTypes::Mainnet, text), "{}", text);
    }
}

#[test]
fn the_answer_follows_the_chain_of_each_call() {
    // The chain of one call must not leak into the next.
    assert!(is_valid_slatepack_address(ChainTypes::Mainnet, MAINNET_ADDRESS));
    assert!(is_valid_slatepack_address(ChainTypes::Testnet, TESTNET_ADDRESS));
    assert!(!is_valid_slatepack_address(ChainTypes::Testnet, MAINNET_ADDRESS));
    assert!(is_valid_slatepack_address(ChainTypes::Mainnet, MAINNET_ADDRESS));
}

#[test]
fn shortnames_of_the_chains() {
    assert_eq!(ChainTypes::AutomatedTesting.shortname(), "auto");
    assert_eq!(ChainTypes::UserTesting.shortname(), "user");
    assert_eq!(ChainTypes::Testnet.shortname(), "test");
    assert_eq!(ChainTypes::Mainnet.shortname(), "main");
    assert!(ChainTypes::Mainnet.is_mainnet());
    assert!(!ChainTypes::Testnet.is_mainnet());
}

#[test]
fn amounts_are_read_in_the_smallest_unit() {
    assert_eq!(parse_amount("50.123456789"), Some(50_123_456_789));
    assert_eq!(parse_amount("50.1234567899"), Some(50_123_456_789));
    assert_eq!(parse_amount(".000000050"), Some(50));
    assert_eq!(parse_amount(".000000001"), Some(1));
    assert_eq!(parse_amount(".0000000009"), Some(0));
    assert_eq!(parse_amount("500"), Some(500_000_000_000));
    assert_eq!(parse_amount("66.6"), Some(66_600_000_000));
    assert_eq!(parse_amount("66."), Some(66_000_000_000));
    assert_eq!(parse_amount("0.5"), Some(500_000_000));
    assert_eq!(parse_amount(""), Some(0));
}

#[test]
fn leading_zeros_and_a_plus_sign_do_not_count() {
    assert_eq!(parse_amount("00000000001"), Some(1_000_000_000));
    assert_eq!(parse_amount("000000000000000000000000000000012.5"), Some(12_500_000_000));
    assert_eq!(parse_amount("+5"), Some(5_000_000_000));
    assert_eq!(parse_amount("+0005.25"), Some(5_250_000_000));
    assert_eq!(parse_amount("0000"), Some(0));
    assert_eq!(parse_amount("+"), None);
    assert_eq!(parse_amount("+.5"), None);
    assert_eq!(parse_amount("++5"), None);
    assert_eq!(parse_amount("0+5"), None);
}

#[test]
fn every_amount_that_fits_is_read() {
    assert_eq!(parse_amount("5000000000.00000000000"), Some(5_000_000_000_000_000_000));
    assert_eq!(parse_amount("9999999999.999999999"), Some(9_999_999_999_999_999_999));
    assert_eq!(parse_amount("10000000000"), Some(10_000_000_000_000_000_000));
    assert_eq!(parse_amount("12345678901"), Some(12_345_678_901_000_000_000));
    assert_eq!(parse_amount("12345678901.000000001"), Some(12_345_678_901_000_000_001));
    assert_eq!(parse_amount("18446744072.999999999"), Some(18_446_744_072_999_999_999));
    assert_eq!(parse_amount("18446744073"), Some(18_446_744_073_000_000_000));
    assert_eq!(parse_amount("18446744073."), Some(18_446_744_073_000_000_000));
    assert_eq!(parse_amount("18446744073.7"), Some(18_446_744_073_700_000_000));
    assert_eq!(parse_amount("18446744073.709551615"), Some(u64::MAX));
    assert_eq!(parse_amount("018446744073.7095516159"), Some(u64::MAX));
}

#[test]
fn an_amount_that_does_not_fit_is_none() {
    assert_eq!(parse_amount("18446744073.709551616"), None);
    assert_eq!(parse_amount("18446744073.71"), None);
    assert_eq!(parse_amount("18446744073.8"), None);
    assert_eq!(parse_amount("18446744074"), None);
    assert_eq!(parse_amount("18446744074.0"), None);
    assert_eq!(parse_amount("99999999999"), None);
    assert_eq!(parse_amount("100000000000"), None);
    assert_eq!(parse_amount("18446744073709551615"), None);
    assert_eq!(parse_amount("18446744073709551616"), None);
    assert_eq!(parse_amount("99999999999999999999999"), None);
}

#[test]
fn a_fraction_that_is_not_all_digits() {
    assert_eq!(parse_amount("1.+5"), Some(1_050_000_000));
    assert_eq!(parse_amount("18446744073.+7"), Some(18_446_744_073_070_000_000));
    assert_eq!(parse_amount("1.5x"), None);
    assert_eq!(parse_amount("1.x"), None);
    assert_eq!(parse_amount("1.2.3"), None);
    assert_eq!(parse_amount("1.123456789x"), Some(1_123_456_789));
    assert_eq!(parse_amount("1.123456789,"), None);
    assert_eq!(parse_amount("18446744074.x"), None);
}

#[test]
fn texts_that_are_no_amounts() {
    assert_eq!(parse_amount("abc"), None);
    assert_eq!(parse_amount("1,5"), None);
    assert_eq!(parse_amount("1.2.3"), None);
    assert_eq!(parse_amount("-1"), None);
    assert_eq!(parse_amount("1.5x"), None);
    assert_eq!(parse_amount("12 "), None);
}

#[test]
fn characters_outside_ascii() {
    // before the tenth digit of the fraction they make the text no amount
    assert_eq!(parse_amount("1\u{e9}"), None);
    assert_eq!(parse_amount("\u{e9}1"), None);
    assert_eq!(parse_amount("1.\u{e9}"), None);
    assert_eq!(parse_amount("1.12345678\u{e9}"), None);
    assert_eq!(parse_amount("1.1234567\u{20ac}"), None);
    assert_eq!(parse_amount("\u{ff11}"), None);
    // after the ninth digit nothing is looked at
    assert_eq!(parse_amount("1.123456789\u{e9}"), Some(1_123_456_789));
    assert_eq!(parse_amount("0.000000001\u{20ac}\u{20ac}"), Some(1));
    assert_eq!(parse_amount("18446744073.709551615\u{e9}"), Some(u64::MAX));
    assert_eq!(parse_amount("18446744073.709551616\u{e9}"), None);
}

#[test]
fn the_guard_by_itself() {
    assert!(amount_is_safe(b""));
    assert!(amount_is_safe(b"12.5"));
    assert!(amount_is_safe(b"00000000001"));
    assert!(amount_is_safe(b"18446744073.709551615"));
    assert!(!amount_is_safe(b"18446744073.709551616"));
    assert!(!amount_is_safe(b"18446744074"));
    assert!(!amount_is_safe(b"abc"));
    assert!(!amount_is_safe(b"1,5"));
    // safe to hand over, though the parser makes no amount of them
    assert!(amount_is_safe(b"1.5x"));
    assert!(amount_is_safe(b"+"));
    assert!(amount_is_safe(b"1.123456789,"));
    assert!(amount_is_safe("1.123456789\u{e9}".as_bytes()));
    assert!(!amount_is_safe("1.12345678\u{e9}".as_bytes()));
}
