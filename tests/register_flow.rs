use flow_auth::register::{
    check_registration, check_registration_at, get_register_link, new_user_record, post_user_at, request_code_at, signup_link, validate_code,
    validate_code_at, validate_email, EmailCodeDict, RegisterError, RegisterInfo,
    CODE_EXPIRE_SECS, RETRY_SECS,
};

const ADDR: &str = "12345678@mail.sustech.edu.cn";

#[test]
fn addresses_are_checked() {
    assert_eq!(validate_email("12345678@mail.sustech.edu.cn"), Ok("12345678@mail.sustech.edu.cn"));
    assert_eq!(validate_email("abc@mail.sustech.edu.cn"), Err(RegisterError::NotStudent));
    assert_eq!(validate_email("12345678@gmail.com"), Err(RegisterError::NotSUSTech));
}

#[test]
fn every_campus_domain_is_accepted() {
    for d in ["@mail.sustech.edu.cn", "@sustech.edu.cn", "@mail.sustc.edu.cn", "@sustc.edu.cn"] {
        let a = format!("11712009{}", d);
        assert_eq!(validate_email(&a), Ok(a.as_str()));
    }
    assert_eq!(validate_email("11712009@sustech.edu.cn.evil"), Err(RegisterError::NotSUSTech));
    assert_eq!(validate_email("11712009"), Err(RegisterError::NotSUSTech));
}

#[test]
fn short_or_odd_addresses_are_not_students() {
    assert_eq!(validate_email(""), Err(RegisterError::NotStudent));
    assert_eq!(validate_email("1234567"), Err(RegisterError::NotStudent));
    assert_eq!(validate_email("+1234567@sustech.edu.cn"), Err(RegisterError::NotStudent));
    assert_eq!(validate_email("1234567é@sustech.edu.cn"), Err(RegisterError::NotStudent));
}

#[test]
fn issued_code_validates_until_expiry() {
    let mut dict = EmailCodeDict::new();
    let e = request_code_at(&mut dict, ADDR, 1_000, "c1".to_string()).unwrap();
    assert_eq!(e.email, ADDR);
    assert_eq!(e.code, "c1");
    assert_eq!(validate_code_at(&mut dict, ADDR, "c1", 1_000 + CODE_EXPIRE_SECS - 1), Ok(()));
    // A code that passed stays valid until it expires.
    assert_eq!(validate_code_at(&mut dict, ADDR, "c1", 1_001), Ok(()));
    assert_eq!(validate_code_at(&mut dict, ADDR, "c2", 1_001), Err(RegisterError::CodeInvalid));
    assert_eq!(
        validate_code_at(&mut dict, ADDR, "c1", 1_000 + CODE_EXPIRE_SECS),
        Err(RegisterError::CodeInvalid)
    );
    // The expired record is gone, so a new request is not held back.
    assert!(request_code_at(&mut dict, ADDR, 1_000 + CODE_EXPIRE_SECS, "c3".to_string()).is_ok());
}

#[test]
fn unknown_address_has_no_valid_code() {
    let mut dict = EmailCodeDict::new();
    assert_eq!(validate_code_at(&mut dict, ADDR, "", 0), Err(RegisterError::CodeInvalid));
    assert_eq!(validate_code(&mut dict, ADDR, "x"), Err(RegisterError::CodeInvalid));
}

#[test]
fn retry_cooldown() {
    let mut dict = EmailCodeDict::new();
    request_code_at(&mut dict, ADDR, 0, "c1".to_string()).unwrap();
    assert_eq!(
        request_code_at(&mut dict, ADDR, RETRY_SECS - 1, "c2".to_string()).unwrap_err(),
        RegisterError::TooMany
    );
    assert_eq!(validate_code_at(&mut dict, ADDR, "c1", RETRY_SECS - 1), Ok(()));
    let e = request_code_at(&mut dict, ADDR, RETRY_SECS, "c2".to_string()).unwrap();
    assert_eq!(e.code, "c2");
    assert_eq!(validate_code_at(&mut dict, ADDR, "c1", RETRY_SECS), Err(RegisterError::CodeInvalid));
    assert_eq!(validate_code_at(&mut dict, ADDR, "c2", RETRY_SECS), Ok(()));
}

#[test]
fn bad_address_gets_no_code() {
    let mut dict = EmailCodeDict::new();
    assert_eq!(
        request_code_at(&mut dict, "12345678@gmail.com", 0, "c".to_string()).unwrap_err(),
        RegisterError::NotSUSTech
    );
    assert_eq!(
        request_code_at(&mut dict, "abc", 0, "c".to_string()).unwrap_err(),
        RegisterError::NotStudent
    );
    assert_eq!(
        validate_code_at(&mut dict, "12345678@gmail.com", "c", 0),
        Err(RegisterError::CodeInvalid)
    );
}

#[test]
fn random_codes_differ_and_validate() {
    let mut dict = EmailCodeDict::new();
    let a = get_register_link(&mut dict, ADDR).unwrap();
    assert_eq!(a.code.len(), 36);
    assert_eq!(validate_code(&mut dict, ADDR, &a.code), Ok(()));
    assert_eq!(get_register_link(&mut dict, ADDR).unwrap_err(), RegisterError::TooMany);
    let b = get_register_link(&mut dict, "87654321@sustech.edu.cn").unwrap();
    assert_ne!(a.code, b.code);
}

#[test]
fn link_carries_code() {
    assert_eq!(signup_link("abc"), "https://sustechflow.top/signup?vcode=abc");
}

#[test]
fn registration_needs_valid_code() {
    let mut dict = EmailCodeDict::new();
    request_code_at(&mut dict, ADDR, 0, "c1".to_string()).unwrap();
    let info = RegisterInfo {
        username: "alice".to_string(),
        password: "secret".to_string(),
        email: ADDR.to_string(),
        vcode: "wrong".to_string(),
    };
    assert_eq!(post_user_at(&mut dict, &info, 10).unwrap_err(), RegisterError::CodeInvalid);
    let info = RegisterInfo { vcode: "c1".to_string(), ..info };
    let u = post_user_at(&mut dict, &info, 10).unwrap();
    assert_eq!(u.username, "alice");
    assert_eq!(u.email, ADDR);
    assert!(u.learnt_course.is_empty());
    assert!(bcrypt::verify("secret", &u.permanent_token).unwrap());
    assert!(flow_auth::crypto::verify_helper(&u.permanent_token, "secret"));
}

#[test]
fn register_error_messages() {
    assert_eq!(RegisterError::NotSUSTech.message(), "not SUSTech email");
    assert_eq!(
        RegisterError::NotStudent.message(),
        "not student if you want to register please contact us"
    );
    assert_eq!(
        RegisterError::TooMany.message(),
        "too many request for link, please wait 60 seconds"
    );
    assert_eq!(RegisterError::CodeInvalid.message(), "invalid verification code");
    assert_eq!(RegisterError::Internal.message(), "internal error");
}

#[test]
fn registration_check_then_record() {
    let mut dict = EmailCodeDict::new();
    request_code_at(&mut dict, ADDR, 0, "c1".to_string()).unwrap();
    let info = RegisterInfo {
        username: "bob".to_string(),
        password: "pw".to_string(),
        email: ADDR.to_string(),
        vcode: "c1".to_string(),
    };
    assert_eq!(check_registration_at(&mut dict, &info, 5), Ok(()));
    assert_eq!(
        check_registration_at(&mut dict, &info, CODE_EXPIRE_SECS),
        Err(RegisterError::CodeInvalid)
    );
    assert_eq!(check_registration(&mut dict, &info), Err(RegisterError::CodeInvalid));
    let u = new_user_record(&info).unwrap();
    assert_eq!(u.username, "bob");
    assert!(flow_auth::crypto::verify_helper(&u.permanent_token, "pw"));
}
