use blixt::codeword::confidential_text;

#[test]
fn codeword_detection() {
    assert_eq!(confidential_text("vertraulich bitte"), Some("bitte".to_string()));
    assert_eq!(confidential_text("Vertraulich, bitte"), Some("bitte".to_string()));
    assert_eq!(confidential_text("VERTRAULICH - bitte"), Some("bitte".to_string()));
    assert_eq!(confidential_text("  Vertraulich.\n Zeile"), Some("Zeile".to_string()));
    assert_eq!(confidential_text("Vertraulich"), Some(String::new()));
    assert_eq!(confidential_text("Vertraulichkeit"), None);
    assert_eq!(confidential_text("Das ist vertraulich"), None);
    assert_eq!(confidential_text("vertraulic"), None);
    assert_eq!(confidential_text(""), None);
}
