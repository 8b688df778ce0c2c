//! The notification email: whether one is to be sent at all for given
//! settings, and the exact subject and HTML body it carries. The SMTP
//! connection itself is outside work; these functions decide and build.

use vstd::prelude::*;

use crate::models::EmailSettings;
use crate::outside;

verus! {

/// A fully assembled outbound notification: everything an SMTP client
/// needs. From = the configured username, Reply-To = the submitter.
#[derive(Debug)]
pub struct EmailPlan {
    pub smtp_server: String,
    pub smtp_port: i32,
    pub smtp_username: String,
    pub smtp_password: String,
    pub reply_to: String,
    pub to: String,
    pub subject: String,
    pub body_html: String,
}

/// Why no email goes out.
#[derive(Clone, Copy, Debug, PartialEq, Eq, Structural)]
pub enum EmailError {
    Disabled,
    NotConfigured,
    InvalidFrom,
    InvalidReplyTo,
    InvalidTo,
}

impl EmailError {
    /// The text reported for this failure.
    pub fn message(&self) -> (r: String)
        ensures
            *self == EmailError::Disabled ==> r@ == "Email notifications are disabled"@,
            *self == EmailError::NotConfigured ==> r@ == "Email settings not configured"@,
            *self == EmailError::InvalidFrom ==> r@ == "Invalid from address"@,
            *self == EmailError::InvalidReplyTo ==> r@ == "Invalid reply-to address"@,
            *self == EmailError::InvalidTo ==> r@ == "Invalid to address"@,
    {
        match self {
            EmailError::Disabled => String::from_str("Email notifications are disabled"),
            EmailError::NotConfigured => String::from_str("Email settings not configured"),
            EmailError::InvalidFrom => String::from_str("Invalid from address"),
            EmailError::InvalidReplyTo => String::from_str("Invalid reply-to address"),
            EmailError::InvalidTo => String::from_str("Invalid to address"),
        }
    }
}

/// The subject line of a notification.
pub open spec fn email_subject(subject: Seq<char>) -> Seq<char> {
    "New Contact Form Message: "@ + subject
}

/// The HTML body of a notification: the fixed styled page with the
/// sender's name, address (twice: shown and as mailto target), subject and
/// message text spliced in.
pub open spec fn email_html(
    sender_name: Seq<char>,
    sender_email: Seq<char>,
    subject: Seq<char>,
    message_body: Seq<char>,
) -> Seq<char> {
    "<!DOCTYPE html>\n<html>\n<head>\n    <style>\n        body { font-family: 'Segoe UI', Tahoma, Geneva, Verdana, sans-serif; background-color: #0a0a14; color: #f3f4f6; padding: 20px; }\n        .container { max-width: 600px; margin: 0 auto; background: linear-gradient(135deg, #1a1a2e 0%, #16213e 100%); border-radius: 16px; padding: 30px; border: 1px solid #374151; }\n        .header { text-align: center; margin-bottom: 30px; }\n        .header h1 { color: #f97316; margin: 0; font-size: 24px; }\n        .header p { color: #9ca3af; margin-top: 8px; }\n        .info-box { background: rgba(249, 115, 22, 0.1); border: 1px solid rgba(249, 115, 22, 0.3); border-radius: 12px; padding: 20px; margin: 20px 0; }\n        .info-row { display: flex; margin-bottom: 12px; }\n        .info-label { color: #f97316; font-weight: 600; min-width: 100px; }\n        .info-value { color: #f3f4f6; }\n        .message-box { background: rgba(255, 255, 255, 0.05); border-radius: 12px; padding: 20px; margin-top: 20px; }\n        .message-box h3 { color: #f97316; margin-top: 0; }\n        .message-content { color: #d1d5db; line-height: 1.6; white-space: pre-wrap; }\n        .footer { text-align: center; margin-top: 30px; padding-top: 20px; border-top: 1px solid #374151; color: #6b7280; font-size: 12px; }\n    </style>\n</head>\n<body>\n    <div class=\"container\">\n        <div class=\"header\">\n            <h1>📬 New Contact Message</h1>\n            <p>Someone reached out through your portfolio!</p>\n        </div>\n        \n        <div class=\"info-box\">\n            <div class=\"info-row\">\n                <span class=\"info-label\">From:</span>\n                <span class=\"info-value\">"@ + sender_name + "</span>\n            </div>\n            <div class=\"info-row\">\n                <span class=\"info-label\">Email:</span>\n                <span class=\"info-value\"><a href=\"mailto:"@ + sender_email + "\" style=\"color: #60a5fa;\">"@ + sender_email + "</a></span>\n            </div>\n            <div class=\"info-row\">\n                <span class=\"info-label\">Subject:</span>\n                <span class=\"info-value\">"@ + subject
        + "</span>\n            </div>\n        </div>\n        \n        <div class=\"message-box\">\n            <h3>Message</h3>\n            <div class=\"message-content\">"@ + message_body + "</div>\n        </div>\n        \n        <div class=\"footer\">\n            <p>This notification was sent from your Portfolio website.</p>\n            <p>Reply directly to the sender's email address above.</p>\n        </div>\n    </div>\n</body>\n</html>"@
}

/// Build the HTML body of a notification.
pub fn build_email_body(
    sender_name: &str,
    sender_email: &str,
    subject: &str,
    message_body: &str,
) -> (r: String)
    ensures
        r@ == email_html(sender_name@, sender_email@, subject@, message_body@),
{
    let mut out = String::new();
    out.append("<!DOCTYPE html>\n<html>\n<head>\n    <style>\n        body { font-family: 'Segoe UI', Tahoma, Geneva, Verdana, sans-serif; background-color: #0a0a14; color: #f3f4f6; padding: 20px; }\n        .container { max-width: 600px; margin: 0 auto; background: linear-gradient(135deg, #1a1a2e 0%, #16213e 100%); border-radius: 16px; padding: 30px; border: 1px solid #374151; }\n        .header { text-align: center; margin-bottom: 30px; }\n        .header h1 { color: #f97316; margin: 0; font-size: 24px; }\n        .header p { color: #9ca3af; margin-top: 8px; }\n        .info-box { background: rgba(249, 115, 22, 0.1); border: 1px solid rgba(249, 115, 22, 0.3); border-radius: 12px; padding: 20px; margin: 20px 0; }\n        .info-row { display: flex; margin-bottom: 12px; }\n        .info-label { color: #f97316; font-weight: 600; min-width: 100px; }\n        .info-value { color: #f3f4f6; }\n        .message-box { background: rgba(255, 255, 255, 0.05); border-radius: 12px; padding: 20px; margin-top: 20px; }\n        .message-box h3 { color: #f97316; margin-top: 0; }\n        .message-content { color: #d1d5db; line-height: 1.6; white-space: pre-wrap; }\n        .footer { text-align: center; margin-top: 30px; padding-top: 20px; border-top: 1px solid #374151; color: #6b7280; font-size: 12px; }\n    </style>\n</head>\n<body>\n    <div class=\"container\">\n        <div class=\"header\">\n            <h1>📬 New Contact Message</h1>\n            <p>Someone reached out through your portfolio!</p>\n        </div>\n        \n        <div class=\"info-box\">\n            <div class=\"info-row\">\n                <span class=\"info-label\">From:</span>\n                <span class=\"info-value\">");
    out.append(sender_name);
    out.append("</span>\n            </div>\n            <div class=\"info-row\">\n                <span class=\"info-label\">Email:</span>\n                <span class=\"info-value\"><a href=\"mailto:");
    out.append(sender_email);
    out.append("\" style=\"color: #60a5fa;\">");
    out.append(sender_email);
    out.append("</a></span>\n            </div>\n            <div class=\"info-row\">\n                <span class=\"info-label\">Subject:</span>\n                <span class=\"info-value\">");
    out.append(subject);
    out.append("</span>\n            </div>\n        </div>\n        \n        <div class=\"message-box\">\n            <h3>Message</h3>\n            <div class=\"message-content\">");
    out.append(message_body);
    out.append("</div>\n        </div>\n        \n        <div class=\"footer\">\n            <p>This notification was sent from your Portfolio website.</p>\n            <p>Reply directly to the sender's email address above.</p>\n        </div>\n    </div>\n</body>\n</html>");
    out
}

/// Build the subject line of a notification.
pub fn build_email_subject(subject: &str) -> (r: String)
    ensures
        r@ == email_subject(subject@),
{
    let mut out = String::new();
    out.append("New Contact Form Message: ");
    out.append(subject);
    out
}

/// When a notification is owed: notifications are enabled, both SMTP
/// credentials are set, and all three addresses parse.
pub open spec fn notification_allowed(s: EmailSettings, sender_email: Seq<char>) -> bool {
    &&& s.enabled
    &&& s.smtp_username@.len() > 0
    &&& s.smtp_password@.len() > 0
    &&& outside::mailbox_ok(s.smtp_username@)
    &&& outside::mailbox_ok(sender_email)
    &&& outside::mailbox_ok(s.notification_email@)
}

/// The first reason a notification is refused, in the order the checks
/// run; None when one is owed.
pub open spec fn notification_refusal(s: EmailSettings, sender_email: Seq<char>) -> Option<
    EmailError,
> {
    if !s.enabled {
        Some(EmailError::Disabled)
    } else if s.smtp_username@.len() == 0 || s.smtp_password@.len() == 0 {
        Some(EmailError::NotConfigured)
    } else if !outside::mailbox_ok(s.smtp_username@) {
        Some(EmailError::InvalidFrom)
    } else if !outside::mailbox_ok(sender_email) {
        Some(EmailError::InvalidReplyTo)
    } else if !outside::mailbox_ok(s.notification_email@) {
        Some(EmailError::InvalidTo)
    } else {
        None
    }
}

/// What deciding a notification yields: on success the plan carries the
/// configured transport data, the submitter as Reply-To, and the fixed
/// subject and HTML body; on refusal, the first failing check's error.
pub open spec fn planned(
    r: Result<EmailPlan, EmailError>,
    s: EmailSettings,
    sender_name: Seq<char>,
    sender_email: Seq<char>,
    subject: Seq<char>,
    message_body: Seq<char>,
) -> bool {
    match r {
        Ok(plan) => {
            &&& notification_allowed(s, sender_email)
            &&& plan.smtp_server == s.smtp_server
            &&& plan.smtp_port == s.smtp_port
            &&& plan.smtp_username == s.smtp_username
            &&& plan.smtp_password == s.smtp_password
            &&& plan.reply_to@ == sender_email
            &&& plan.to == s.notification_email
            &&& plan.subject@ == email_subject(subject)
            &&& plan.body_html@ == email_html(sender_name, sender_email, subject, message_body)
        },
        Err(e) => notification_refusal(s, sender_email) == Some(e),
    }
}

/// Decide and assemble the notification for a contact message: exactly
/// when every check passes, the plan carries the configured transport
/// data, the submitter as Reply-To, and the fixed subject and HTML body.
pub fn plan_notification(
    settings: &EmailSettings,
    sender_name: &str,
    sender_email: &str,
    subject: &str,
    message_body: &str,
) -> (r: Result<EmailPlan, EmailError>)
    ensures
        planned(r, *settings, sender_name@, sender_email@, subject@, message_body@),
{
    if !settings.enabled {
        return Err(EmailError::Disabled);
    }
    if settings.smtp_username.unicode_len() == 0 || settings.smtp_password.unicode_len() == 0 {
        return Err(EmailError::NotConfigured);
    }
    if !outside::mailbox_parses(settings.smtp_username.as_str()) {
        return Err(EmailError::InvalidFrom);
    }
    if !outside::mailbox_parses(sender_email) {
        return Err(EmailError::InvalidReplyTo);
    }
    if !outside::mailbox_parses(settings.notification_email.as_str()) {
        return Err(EmailError::InvalidTo);
    }
    let body_html = build_email_body(sender_name, sender_email, subject, message_body);
    let subject_line = build_email_subject(subject);
    Ok(
        EmailPlan {
            smtp_server: settings.smtp_server.clone(),
            smtp_port: settings.smtp_port,
            smtp_username: settings.smtp_username.clone(),
            smtp_password: settings.smtp_password.clone(),
            reply_to: String::from_str(sender_email),
            to: settings.notification_email.clone(),
            subject: subject_line,
            body_html,
        },
    )
}

/// A string with every double quote escaped for embedding in a JSON body.
pub open spec fn escape_quotes_spec(s: Seq<char>) -> Seq<char>
    decreases s.len(),
{
    if s.len() == 0 {
        Seq::empty()
    } else {
        escape_quotes_spec(s.drop_last()) + (if s.last() == '"' {
            seq!['\\', '"']
        } else {
            seq![s.last()]
        })
    }
}

/// Escape every double quote with a backslash, as the test-email report
/// does before splicing a message into its JSON reply.
pub fn escape_quotes(s: &str) -> (r: String)
    ensures
        r@ == escape_quotes_spec(s@),
{
    let n = s.unicode_len();
    let mut out = String::new();
    let mut i: usize = 0;
    while i < n
        invariant
            0 <= i <= n,
            n == s@.len(),
            out@ == escape_quotes_spec(s@.take(i as int)),
        decreases n - i,
    {
        let c = s.get_char(i);
        if c == '"' {
            outside::push_char(&mut out, '\\');
            outside::push_char(&mut out, '"');
        } else {
            outside::push_char(&mut out, c);
        }
        proof {
            assert(s@.take(i + 1).drop_last() =~= s@.take(i as int));
            assert(s@.take(i + 1).last() == s@[i as int]);
        }
        i = i + 1;
    }
    proof {
        assert(s@.take(n as int) =~= s@);
    }
    out
}

} // verus!
