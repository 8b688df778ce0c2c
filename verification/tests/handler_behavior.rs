use portfolio::admin;
use portfolio::admin::{TestEmailOutcome, UploadImageOutcome};
use portfolio::auth;
use portfolio::auth::LoginOutcome;
use portfolio::email;
use portfolio::models::{ContactForm, EmailSettingsForm, LoginForm};
use portfolio::multipart::Part;
use portfolio::pages;
use portfolio::response::{AdminOutcome, PageError};
use portfolio::store::Store;

fn seeded() -> Store {
    let mut s = Store::new();
    s.initialize().expect("initialize");
    s
}

fn admin_session() -> Option<String> {
    Some("admin".to_string())
}

fn text_part(name: &str, value: &str) -> Part {
    Part {
        name: name.to_string(),
        filename: String::new(),
        content_type: None,
        chunks: vec![value.as_bytes().to_vec()],
    }
}

fn file_part(name: &str, filename: &str, ctype: &str, bytes: &[u8]) -> Part {
    Part {
        name: name.to_string(),
        filename: filename.to_string(),
        content_type: Some(ctype.to_string()),
        chunks: vec![bytes.to_vec()],
    }
}

#[test]
fn default_credentials_log_in_after_first_boot() {
    let s = seeded();
    let form = LoginForm { username: "admin".to_string(), password: "admin123".to_string() };
    match auth::login(&s, &form).expect("login") {
        LoginOutcome::RedirectAdmin { session_user } => assert_eq!(session_user, "admin"),
        LoginOutcome::RenderError { .. } => panic!("default credential was rejected"),
    }
    let marker = Some("admin".to_string());
    match admin::dashboard(&s, &marker).expect("dashboard") {
        AdminOutcome::Page { data } => {
            assert_eq!(data.projects_count, 2);
            assert_eq!(data.blogs_count, 2);
            assert_eq!(data.skills_count, 12);
        }
        _ => panic!("authenticated dashboard request was redirected"),
    }
}

#[test]
fn wrong_password_renders_login_error() {
    let s = seeded();
    let form = LoginForm { username: "admin".to_string(), password: "nope".to_string() };
    match auth::login(&s, &form).expect("login") {
        LoginOutcome::RenderError { .. } => {}
        LoginOutcome::RedirectAdmin { .. } => panic!("bad credential accepted"),
    }
}

#[test]
fn anonymous_sessions_are_redirected_everywhere() {
    let mut s = seeded();
    let none: Option<String> = None;
    assert_eq!(auth::require_auth(&none), Some("/admin/login".to_string()));
    assert_eq!(auth::require_auth(&admin_session()), None);
    assert!(matches!(admin::dashboard(&s, &none), Ok(AdminOutcome::RedirectLogin)));
    assert!(matches!(admin::profile_page(&s, &none), Ok(AdminOutcome::RedirectLogin)));
    assert!(matches!(admin::skills_page(&s, &none), Ok(AdminOutcome::RedirectLogin)));
    assert!(matches!(admin::projects_page(&s, &none), Ok(AdminOutcome::RedirectLogin)));
    assert!(matches!(admin::blogs_page(&s, &none), Ok(AdminOutcome::RedirectLogin)));
    assert!(matches!(admin::messages_page(&s, &none), Ok(AdminOutcome::RedirectLogin)));
    assert!(matches!(admin::services_page(&s, &none), Ok(AdminOutcome::RedirectLogin)));
    let before = s.services.len();
    assert!(matches!(admin::delete_service(&mut s, &none, 1), AdminOutcome::RedirectLogin));
    assert_eq!(s.services.len(), before, "gate must run before any store work");
    assert!(matches!(admin::site_content_page(&s, &none), AdminOutcome::RedirectLogin));
    assert!(matches!(admin::education_page(&s, &none), AdminOutcome::RedirectLogin));
    assert!(matches!(admin::email_settings_page(&mut s, &none), AdminOutcome::RedirectLogin));
}

#[test]
fn contact_submission_with_disabled_email_sends_nothing() {
    let mut s = seeded();
    let form = ContactForm {
        name: "Visitor".to_string(),
        email: "v@example.com".to_string(),
        subject: "Hi".to_string(),
        message: "Hello there".to_string(),
    };
    let before = s.messages.len();
    let (page, task) = pages::submit_contact(&mut s, &form).expect("submit");
    assert!(page.success);
    assert!(task.is_none(), "no send may be attempted while notifications are off");
    assert_eq!(s.messages.len(), before + 1);
    assert_eq!(s.messages.last().unwrap().name, "Visitor");
    assert!(!s.messages.last().unwrap().read);
}

#[test]
fn contact_submission_with_enabled_email_builds_a_plan() {
    let mut s = seeded();
    let settings = EmailSettingsForm {
        smtp_server: "smtp.example".to_string(),
        smtp_port: 587,
        smtp_username: "site@example.com".to_string(),
        smtp_password: "pw-123".to_string(),
        notification_email: "owner@example.com".to_string(),
        enabled: Some("on".to_string()),
    };
    s.update_email_settings(&settings).unwrap();
    let form = ContactForm {
        name: "Visitor".to_string(),
        email: "v@example.com".to_string(),
        subject: "Hi".to_string(),
        message: "Hello there".to_string(),
    };
    let (_, task) = pages::submit_contact(&mut s, &form).expect("submit");
    let plan = task.expect("enabled settings must hand a task back").expect("plan");
    assert_eq!(plan.subject, "New Contact Form Message: Hi");
    assert_eq!(plan.to, "owner@example.com");
    assert_eq!(plan.reply_to, "v@example.com");
    assert!(plan.body_html.contains("Visitor"));
    assert!(plan.body_html.contains("Hello there"));
    assert!(plan.body_html.starts_with("<!DOCTYPE html>"));
}

#[test]
fn unknown_project_slug_is_not_found() {
    let s = seeded();
    match pages::project_detail(&s, "does-not-exist") {
        Err(PageError::NotFound) => {}
        other => panic!("expected a not-found reply, got {:?}", other.is_ok()),
    }
}

#[test]
fn project_detail_renders_markdown() {
    let s = seeded();
    let page = pages::project_detail(&s, "portfolio-website").expect("detail");
    assert_eq!(page.project.title, "Portfolio Website");
    assert!(page.content_html.contains("<h2>"));
    assert_ne!(page.content_html, page.project.content);
}

#[test]
fn icon_upload_stores_bytes_and_rewrites_icon_url() {
    let mut s = seeded();
    let payload: &[u8] = b"\x89PNG fake image bytes";
    let parts = vec![
        text_part("name", "Uploading"),
        text_part("category", "Tools"),
        text_part("proficiency", "55"),
        text_part("icon", "u"),
        file_part("icon_file", "icon.png", "image/png", payload),
    ];
    let files_before = s.files.len();
    match admin::add_skill(&mut s, &admin_session(), &parts) {
        AdminOutcome::Redirect { location } => assert_eq!(location, "/admin/skills"),
        _ => panic!("expected a redirect"),
    }
    assert_eq!(s.files.len(), files_before + 1);
    let stored = s.files.last().unwrap();
    assert_eq!(stored.data.len(), payload.len());
    assert_eq!(stored.filename, "icon.png");
    let skill = s.skills.last().unwrap();
    assert_eq!(skill.name, "Uploading");
    assert_eq!(skill.proficiency, 55);
    assert_eq!(skill.icon_url, format!("/images/{}", stored.id));
    let served = pages::serve_image(&s, stored.id.as_str()).expect("serve");
    assert_eq!(served.data, payload);
    assert_eq!(served.content_type, "image/png");
}

#[test]
fn skill_without_upload_keeps_empty_icon_url() {
    let mut s = seeded();
    let parts = vec![text_part("name", "Plain"), text_part("category", "Tools")];
    let files_before = s.files.len();
    admin::add_skill(&mut s, &admin_session(), &parts);
    assert_eq!(s.files.len(), files_before);
    let skill = s.skills.last().unwrap();
    assert_eq!(skill.icon_url, "");
    assert_eq!(skill.proficiency, 0, "a missing proficiency field reads as zero");
}

#[test]
fn unparsable_proficiency_falls_back_to_eighty() {
    let mut s = seeded();
    let parts = vec![text_part("name", "Odd"), text_part("proficiency", "lots")];
    admin::add_skill(&mut s, &admin_session(), &parts);
    assert_eq!(s.skills.last().unwrap().proficiency, 80);
}

#[test]
fn ajax_upload_requires_a_session_and_a_file() {
    let mut s = seeded();
    let none: Option<String> = None;
    let parts = vec![file_part("file", "x.bin", "application/octet-stream", b"abc")];
    assert!(matches!(
        admin::upload_image(&mut s, &none, &parts),
        UploadImageOutcome::Unauthorized
    ));
    let empty: Vec<Part> = vec![text_part("note", "no file here")];
    assert!(matches!(
        admin::upload_image(&mut s, &admin_session(), &empty),
        UploadImageOutcome::NoImage
    ));
    match admin::upload_image(&mut s, &admin_session(), &parts) {
        UploadImageOutcome::Saved { image_id, image_url } => {
            assert_eq!(image_url, format!("/images/{}", image_id));
            assert_eq!(s.files.last().unwrap().data, b"abc");
        }
        _ => panic!("expected a saved upload"),
    }
}

#[test]
fn project_form_upload_rewrites_image_url() {
    let mut s = seeded();
    let parts = vec![
        text_part("title", "Upload Project"),
        text_part("description", "d"),
        text_part("content", "c"),
        text_part("demo_url", ""),
        text_part("github_url", ""),
        text_part("technologies", ""),
        file_part("image", "shot.jpg", "image/jpeg", b"JPEGDATA"),
    ];
    admin::add_project_with_image(&mut s, &admin_session(), &parts);
    let added = s.get_project_by_slug("upload-project").expect("added");
    let file = s.files.last().unwrap();
    assert_eq!(added.image_url, format!("/images/{}", file.id));
    assert!(!added.featured);
}

#[test]
fn test_email_refuses_while_disabled() {
    let mut s = seeded();
    match admin::test_email(&mut s, &admin_session()) {
        TestEmailOutcome::Refused { message } => {
            assert_eq!(message, "Email notifications are disabled");
        }
        _ => panic!("disabled settings must refuse"),
    }
}

#[test]
fn test_email_report_escapes_quotes() {
    let ok: Result<(), String> = Ok(());
    assert_eq!(
        admin::test_email_report(&ok),
        "{\"success\": true, \"message\": \"Test email sent successfully!\"}"
    );
    let err: Result<(), String> = Err("bad \"relay\" down".to_string());
    assert_eq!(
        admin::test_email_report(&err),
        "{\"success\": false, \"message\": \"bad \\\"relay\\\" down\"}"
    );
}

#[test]
fn invalid_addresses_are_refused_in_order() {
    let base = portfolio::models::EmailSettings {
        id: 1,
        smtp_server: "smtp.example".to_string(),
        smtp_port: 587,
        smtp_username: "not an address".to_string(),
        smtp_password: "pw-123".to_string(),
        notification_email: "owner@example.com".to_string(),
        enabled: true,
    };
    assert_eq!(
        email::plan_notification(&base, "N", "v@example.com", "S", "B").unwrap_err(),
        email::EmailError::InvalidFrom
    );
    let mut no_password = base.clone();
    no_password.smtp_username = "site@example.com".to_string();
    no_password.smtp_password = String::new();
    assert_eq!(
        email::plan_notification(&no_password, "N", "v@example.com", "S", "B").unwrap_err(),
        email::EmailError::NotConfigured
    );
    let good = portfolio::models::EmailSettings {
        smtp_username: "site@example.com".to_string(),
        ..base
    };
    assert_eq!(
        email::plan_notification(&good, "N", "not an address", "S", "B").unwrap_err(),
        email::EmailError::InvalidReplyTo
    );
}

#[test]
fn serve_file_sets_download_disposition() {
    let mut s = Store::new();
    s.save_image("res-1", "cv.pdf", "application/pdf", b"%PDF").unwrap();
    let out = pages::serve_file(&s, "res-1").expect("serve");
    assert_eq!(out.disposition, "attachment; filename=\"cv.pdf\"");
    assert_eq!(out.content_type, "application/pdf");
    assert_eq!(out.data, b"%PDF");
    assert!(matches!(pages::serve_file(&s, "missing"), Err(PageError::NotFound)));
}

#[test]
fn index_page_assembles_front_page_data() {
    let s = seeded();
    let page = pages::index(&s).expect("index");
    assert_eq!(page.featured_projects.len(), 2);
    assert!(page.featured_projects.iter().all(|p| p.featured));
    assert_eq!(page.recent_blogs.len(), 2);
    assert!(page.recent_blogs.iter().all(|b| b.published));
    assert_eq!(page.services.len(), 3);
    assert_eq!(page.content.len(), 92);
    assert_eq!(page.profile.name, "Md Jobayer Arafat");
}

#[test]
fn multipart_text_fields_use_last_value() {
    let parts = vec![text_part("title", "first"), text_part("title", "second")];
    let (fields, image) = portfolio::multipart::extract_multipart_data(&parts);
    assert!(image.is_none());
    let got = portfolio::multipart::get_field(&fields, "title").expect("field");
    assert_eq!(got.as_str(), "second");
    assert!(portfolio::multipart::get_field(&fields, "absent").is_none());
}

#[test]
fn empty_filename_parts_are_text_fields() {
    let mut p = text_part("image_url", "/keep/me.png");
    p.chunks = vec![b"/keep/".to_vec(), b"me.png".to_vec()];
    let parts = vec![p];
    let (fields, image) = portfolio::multipart::extract_multipart_data(&parts);
    assert!(image.is_none());
    assert_eq!(
        portfolio::multipart::get_field(&fields, "image_url").expect("field").as_str(),
        "/keep/me.png"
    );
}

#[test]
fn logout_returns_to_login_page() {
    assert_eq!(auth::logout(), "/admin/login");
}

#[test]
fn invalid_notification_address_is_refused_last() {
    let settings = portfolio::models::EmailSettings {
        id: 1,
        smtp_server: "smtp.example".to_string(),
        smtp_port: 587,
        smtp_username: "site@example.com".to_string(),
        smtp_password: "pw-123".to_string(),
        notification_email: "not an address".to_string(),
        enabled: true,
    };
    assert_eq!(
        email::plan_notification(&settings, "N", "v@example.com", "S", "B").unwrap_err(),
        email::EmailError::InvalidTo
    );
}

#[test]
fn invalid_utf8_chunks_are_skipped_in_text_fields() {
    let part = Part {
        name: "note".to_string(),
        filename: String::new(),
        content_type: None,
        chunks: vec![b"good ".to_vec(), vec![0xff, 0xfe], b"text".to_vec()],
    };
    let parts = vec![part];
    let (fields, _) = portfolio::multipart::extract_multipart_data(&parts);
    assert_eq!(
        portfolio::multipart::get_field(&fields, "note").expect("field").as_str(),
        "good text"
    );
}

#[test]
fn upload_ids_have_the_hyphenated_shape() {
    let mut s = seeded();
    let parts = vec![file_part("file", "x.bin", "application/octet-stream", b"abc")];
    match admin::upload_image(&mut s, &admin_session(), &parts) {
        UploadImageOutcome::Saved { image_id, .. } => {
            assert_eq!(image_id.len(), 36);
            assert_eq!(image_id.matches('-').count(), 4);
        }
        _ => panic!("expected a saved upload"),
    }
}

#[test]
fn unknown_service_id_on_edit_page_is_not_found() {
    let s = seeded();
    match admin::edit_service_page(&s, &admin_session(), 9999) {
        Ok(AdminOutcome::NotFound { body }) => assert_eq!(body, "Service not found"),
        _ => panic!("an unknown service id must answer not-found"),
    }
}

#[test]
fn blog_update_restamps_updated_at() {
    let mut s = seeded();
    let target = s.blogs[0].id;
    let form = portfolio::models::BlogForm {
        title: "Rewritten Post".to_string(),
        excerpt: "new excerpt".to_string(),
        content: "new body".to_string(),
        image_url: String::new(),
        tags: String::new(),
        published: None,
    };
    s.update_blog_at(target, &form, &"2031-01-01 00:00:00".to_string()).unwrap();
    let row = s.get_blog_by_id(target).expect("row");
    assert_eq!(row.updated_at, "2031-01-01 00:00:00");
    assert_ne!(row.created_at, row.updated_at);
    assert!(!row.published);
    assert_eq!(row.slug, "rewritten-post");
}
