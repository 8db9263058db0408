use lotp::totp::{
    generate_6_digit_totp, generate_6_digit_totp_string, generate_7_digit_totp,
    generate_7_digit_totp_string, generate_8_digit_totp, generate_8_digit_totp_string,
};

#[test]
fn test_generate_6_digit_totp() {
    match generate_6_digit_totp(&String::from("abcdef234567abcdef234567"), &30) {
        Ok(_) => (),
        Err(e) => panic!(
            "An error occurred when generating the hotp: {}",
            e.description()
        ),
    }
}

#[test]
fn test_generate_7_digit_totp() {
    match generate_7_digit_totp(&String::from("abcdef234567abcdef234567"), &30) {
        Ok(_) => (),
        Err(e) => panic!(
            "An error occurred when generating the hotp: {}",
            e.description()
        ),
    }
}

#[test]
fn test_generate_8_digit_totp() {
    match generate_8_digit_totp(&String::from("abcdef234567abcdef234567"), &30) {
        Ok(_) => (),
        Err(e) => panic!(
            "An error occurred when generating the hotp: {}",
            e.description()
        ),
    }
}

#[test]
fn test_generate_6_digit_totp_string() {
    match generate_6_digit_totp_string(&String::from("abcdef234567abcdef234567"), &30) {
        Ok(c) => assert_eq!(c.len(), 6),
        Err(e) => panic!(
            "An error occurred when generating the hotp: {}",
            e.description()
        ),
    }
}

#[test]
fn test_generate_7_digit_totp_string() {
    match generate_7_digit_totp_string(&String::from("abcdef234567abcdef234567"), &30) {
        Ok(c) => assert_eq!(c.len(), 7),
        Err(e) => panic!(
            "An error occurred when generating the hotp: {}",
            e.description()
        ),
    }
}

#[test]
fn test_generate_8_digit_totp_string() {
    match generate_8_digit_totp_string(&String::from("abcdef234567abcdef234567"), &30) {
        Ok(c) => assert_eq!(c.len(), 8),
        Err(e) => panic!(
            "An error occurred when generating the hotp: {}",
            e.description()
        ),
    }
}
