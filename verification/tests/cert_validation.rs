use navipod::cert_validation::CertificateValidator;
use navipod::modern_ui::{
    determine_cert_status, format_expiration_date, get_security_indicator, is_expired_soon,
};
use navipod::data::Cert;
use navipod::theme::ResourceStatus;
use navipod::time_util::days_string;

#[test]
fn test_iso_date_parsing() {
    let validator = CertificateValidator::default();

    assert!(validator.parse_expiry_date("2024-12-31T23:59:59Z").is_some());
    assert!(validator.parse_expiry_date("2024-01-01T00:00:00Z").is_some());
}

#[test]
fn test_expiry_detection() {
    let validator = CertificateValidator::with_warning_days(30);

    assert!(validator.is_expiring_soon("expired"));
    assert!(validator.is_expiring_soon("INVALID"));
    assert!(validator.is_expiring_soon("5 days"));

    assert!(!validator.is_expiring_soon("365 days"));
    assert!(!validator.is_expiring_soon("valid"));
}

#[test]
fn test_days_until_expiry() {
    let validator = CertificateValidator::default();

    let future = chrono::Utc::now() + chrono::Duration::days(10);
    let future_str = future.format("%Y-%m-%dT%H:%M:%SZ").to_string();

    let days = validator.days_until_expiry(&future_str);
    assert!(days.is_some());
    assert!(days.unwrap() >= 9 && days.unwrap() <= 10);
}

#[test]
fn test_format_with_warning() {
    let validator = CertificateValidator::with_warning_days(30);

    let result = validator.format_expiration_with_warning("expired");
    assert!(result.contains("⚠️"));

    let result = validator.format_expiration_with_warning("Unknown");
    assert_eq!(result, "Unknown");

    let result = validator.format_expiration_with_warning("-");
    assert_eq!(result, "Unknown");
}

#[test]
fn unparseable_expiry_has_no_day_count() {
    let validator = CertificateValidator::default();
    assert_eq!(validator.days_until_expiry("not a date"), None);
    assert!(validator.parse_expiry_date("not a date").is_none());
}

#[test]
fn past_expiry_counts_negative_days() {
    let validator = CertificateValidator::default();
    let days = validator.days_until_expiry("2001-01-01T00:00:00Z").unwrap();
    assert!(days < -8000);
    assert!(validator.is_expiring_soon("2001-01-01T00:00:00Z"));
}

#[test]
fn expiry_text_heuristics() {
    assert!(is_expired_soon("Expired"));
    assert!(is_expired_soon("2 days"));
    assert!(!is_expired_soon("45d"));
    assert!(is_expired_soon("29 days"));
    assert!(is_expired_soon("30 days"));
    assert!(!is_expired_soon("31 days"));
    assert!(!is_expired_soon("100 days"));
    assert!(is_expired_soon("Invalid certificate"));
    assert_eq!(format_expiration_date(""), "Unknown");
    assert_eq!(format_expiration_date("-"), "Unknown");
    assert_eq!(format_expiration_date("expired"), "expired ⚠️");
    assert_eq!(format_expiration_date("300d"), "300d");
    assert_eq!(get_security_indicator(false, false), "🔓 INVALID");
    assert_eq!(get_security_indicator(true, true), "⚠️ EXPIRING");
    assert_eq!(get_security_indicator(true, false), "🔒 SECURE");
}

#[test]
fn certificate_status_by_validity_and_expiry() {
    let cert = |valid: &str, expires: &str| Cert {
        host: "example.com".to_string(),
        is_valid: valid.to_string(),
        expires: expires.to_string(),
        issued_by: "CA".to_string(),
    };
    assert_eq!(determine_cert_status(&cert("false", "300d")), ResourceStatus::Failed);
    assert_eq!(determine_cert_status(&cert("VALID", "expired")), ResourceStatus::Pending);
    assert_eq!(determine_cert_status(&cert("true", "300d")), ResourceStatus::Running);
}

#[test]
fn days_are_shown_with_a_suffix() {
    assert_eq!(days_string(42), "42d");
    assert_eq!(days_string(-3), "-3d");
}

#[test]
fn expiry_dates_without_an_offset_are_read_as_utc() {
    let validator = CertificateValidator::default();
    let midnight = Some((1_735_603_200i64, 0u32));
    assert_eq!(validator.parse_expiry_date("2024-12-31"), midnight);
    assert_eq!(validator.parse_expiry_date("Dec 31 2024"), midnight);
    assert_eq!(validator.parse_expiry_date("Dec 31, 2024"), midnight);
    assert_eq!(validator.parse_expiry_date("31 Dec 2024"), midnight);
    assert_eq!(validator.parse_expiry_date("31/12/2024"), midnight);
    assert_eq!(validator.parse_expiry_date("12/31/2024"), midnight);
    assert_eq!(validator.parse_expiry_date("2024-12-31 23:59:59"), Some((1_735_689_599, 0)));
    assert_eq!(validator.parse_expiry_date("2024-12-31 23:59:59 UTC"), Some((1_735_689_599, 0)));
    assert_eq!(validator.parse_expiry_date("2024-12-31T23:59:59+01:00"), Some((1_735_685_999, 0)));
    assert_eq!(validator.parse_expiry_date("soon"), None);
}
