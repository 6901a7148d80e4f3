use sendinblue::Client;
use sendinblue::Mailer;
use sendinblue::Sendinblue;

#[test]
fn client_new_keeps_url_and_key() {
    let client = Client::new(
        "https://example.test/v3".to_string(),
        "SECRET-REDACTED".to_string(),
    );
    assert_eq!(client.server_url, "https://example.test/v3");
    assert_eq!(client.api_key, "SECRET-REDACTED");
}

#[test]
fn production_uses_the_fixed_endpoint() {
    let client: Sendinblue = Sendinblue::production("SECRET-REDACTED".to_string());
    assert_eq!(client.server_url, "https://api.sendinblue.com/v3");
    assert_eq!(client.api_key, "SECRET-REDACTED");
}

#[test]
fn smtp_email_url_appends_the_fixed_path() {
    let client = Client::new("https://example.test/v3".to_string(), "k".to_string());
    assert_eq!(client.smtp_email_url(), "https://example.test/v3/smtp/email");
}

#[test]
fn mailer_new_keeps_name_and_email() {
    let mailer = Mailer::new("sender_name".to_string(), "sender_email".to_string());
    assert_eq!(mailer.name, "sender_name");
    assert_eq!(mailer.email, "sender_email");
}
