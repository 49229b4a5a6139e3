use rcli::ProcessError;
use rcli::process_genpass;

const UPPER: &[u8] = b"ABCDEFGHJKLMNPQRSTUVWXYZ";
const LOWER: &[u8] = b"abcdefghijkmnopqrstuvwxyz";
const NUMBER: &[u8] = b"123456789";
const SYMBOL: &[u8] = b"!@#$%^&*_";

#[test]
fn genpass_all_classes() {
    let p = process_genpass(32, true, true, true, true).unwrap();
    assert_eq!(p.len(), 32);
    assert!(p.iter().any(|b| UPPER.contains(b)));
    assert!(p.iter().any(|b| LOWER.contains(b)));
    assert!(p.iter().any(|b| NUMBER.contains(b)));
    assert!(p.iter().any(|b| SYMBOL.contains(b)));
    for b in &p {
        assert!(
            UPPER.contains(b) || LOWER.contains(b) || NUMBER.contains(b) || SYMBOL.contains(b)
        );
    }
}

#[test]
fn genpass_single_class() {
    let p = process_genpass(16, false, false, true, false).unwrap();
    assert_eq!(p.len(), 16);
    for b in &p {
        assert!(NUMBER.contains(b));
    }
}

#[test]
fn genpass_too_short() {
    let r = process_genpass(2, true, true, true, true);
    assert_eq!(r.unwrap_err(), ProcessError::PasswordLength);
}

#[test]
fn genpass_no_classes() {
    let r = process_genpass(16, false, false, false, false);
    assert_eq!(r.unwrap_err(), ProcessError::PasswordClasses);
}

#[test]
fn genpass_boundary_length() {
    // Exactly as many bytes as selected classes is allowed.
    let p = process_genpass(4, true, true, true, true).unwrap();
    assert_eq!(p.len(), 4);
}
