use portfolio::models::{BlogForm, ContactForm, Education, ProjectForm, ServiceForm, SkillForm};
use portfolio::store::{Store, StoreError};

fn seeded() -> Store {
    let mut s = Store::new();
    s.initialize().expect("initialize");
    s
}

fn project_form(title: &str, featured: Option<&str>) -> ProjectForm {
    ProjectForm {
        title: title.to_string(),
        description: "a description".to_string(),
        content: "# Heading\n\nbody".to_string(),
        image_url: "/static/x.jpg".to_string(),
        demo_url: "https://demo.example".to_string(),
        github_url: "https://github.example".to_string(),
        technologies: "Rust, SQL".to_string(),
        featured: featured.map(|v| v.to_string()),
    }
}

#[test]
fn initializer_is_idempotent() {
    let mut s = Store::new();
    s.initialize().expect("first run");
    let skills = s.skills.len();
    let projects = s.projects.len();
    let blogs = s.blogs.len();
    let experience = s.experience.len();
    let education = s.education.len();
    let services = s.services.len();
    let content = s.site_content.len();
    assert_eq!(skills, 12);
    assert_eq!(projects, 2);
    assert_eq!(blogs, 2);
    assert_eq!(experience, 2);
    assert_eq!(education, 1);
    assert_eq!(services, 3);
    assert_eq!(content, 92);
    s.initialize().expect("second run");
    assert_eq!(s.skills.len(), skills);
    assert_eq!(s.projects.len(), projects);
    assert_eq!(s.blogs.len(), blogs);
    assert_eq!(s.experience.len(), experience);
    assert_eq!(s.education.len(), education);
    assert_eq!(s.services.len(), services);
    assert_eq!(s.site_content.len(), content);
    assert!(s.profile.is_some());
    assert!(s.admin.is_some());
}

#[test]
fn add_project_derives_ascii_slug() {
    let mut s = seeded();
    s.add_project(&project_form("My Test String!!!1!1", None)).expect("add");
    let added = s.projects.last().expect("row");
    assert_eq!(added.slug, "my-test-string-1-1");
    for c in added.slug.chars() {
        assert!(c.is_ascii_lowercase() || c.is_ascii_digit() || c == '-');
    }
}

#[test]
fn add_project_round_trips_submitted_fields() {
    let mut s = seeded();
    s.add_project(&project_form("Round Trip Title", Some("on"))).expect("add");
    let got = s.get_project_by_slug("round-trip-title").expect("lookup");
    assert_eq!(got.title, "Round Trip Title");
    assert_eq!(got.description, "a description");
    assert_eq!(got.content, "# Heading\n\nbody");
    assert_eq!(got.image_url, "/static/x.jpg");
    assert_eq!(got.demo_url, "https://demo.example");
    assert_eq!(got.github_url, "https://github.example");
    assert_eq!(got.technologies, "Rust, SQL");
    assert!(got.featured);
}

#[test]
fn featured_checkbox_coerces_by_presence() {
    let mut s = seeded();
    s.add_project(&project_form("Unchecked One", None)).expect("add");
    s.add_project(&project_form("Checked One", Some("anything"))).expect("add");
    assert!(!s.get_project_by_slug("unchecked-one").unwrap().featured);
    assert!(s.get_project_by_slug("checked-one").unwrap().featured);
}

#[test]
fn duplicate_title_is_rejected() {
    let mut s = seeded();
    s.add_project(&project_form("Same Title", None)).expect("first");
    let count = s.projects.len();
    let second = s.add_project(&project_form("Same Title", Some("on")));
    assert_eq!(second, Err(StoreError::DuplicateSlug));
    assert_eq!(s.projects.len(), count);
}

#[test]
fn blog_round_trip_and_publish_flag() {
    let mut s = seeded();
    let form = BlogForm {
        title: "A Fresh Post".to_string(),
        excerpt: "short".to_string(),
        content: "## Section".to_string(),
        image_url: String::new(),
        tags: "t1, t2".to_string(),
        published: Some("1".to_string()),
    };
    s.add_blog(&form).expect("add");
    let got = s.get_blog_by_slug("a-fresh-post").expect("lookup");
    assert_eq!(got.excerpt, "short");
    assert!(got.published);
    assert_eq!(got.created_at, got.updated_at);
}

#[test]
fn skills_listing_orders_by_category_then_name() {
    let s = seeded();
    let skills = s.get_skills();
    assert_eq!(skills.len(), 12);
    for w in skills.windows(2) {
        let a = (w[0].category.as_str(), w[0].name.as_str());
        let b = (w[1].category.as_str(), w[1].name.as_str());
        assert!(a <= b, "{:?} should not precede {:?}", b, a);
    }
    assert_eq!(skills[0].category, "AI/ML");
}

#[test]
fn messages_list_newest_first() {
    let mut s = seeded();
    let mk = |n: &str| ContactForm {
        name: n.to_string(),
        email: "a@b.example".to_string(),
        subject: "s".to_string(),
        message: "m".to_string(),
    };
    s.add_message_at(&mk("older"), &"2020-01-01 00:00:00".to_string()).unwrap();
    s.add_message_at(&mk("newer"), &"2021-01-01 00:00:00".to_string()).unwrap();
    s.add_message_at(&mk("middle"), &"2020-06-01 00:00:00".to_string()).unwrap();
    let listed = s.get_messages();
    assert_eq!(listed[0].name, "newer");
    assert_eq!(listed[1].name, "middle");
    assert_eq!(listed[2].name, "older");
    assert_eq!(s.get_unread_message_count(), 3);
}

#[test]
fn delete_service_removes_only_that_row() {
    let mut s = seeded();
    let before = s.get_services();
    assert_eq!(before.len(), 3);
    let victim = before[1].id;
    let skills_before = s.skills.len();
    let projects_before = s.projects.len();
    s.delete_service(victim).expect("delete");
    let after = s.get_services();
    assert_eq!(after.len(), 2);
    assert!(after.iter().all(|sv| sv.id != victim));
    for w in after.windows(2) {
        assert!(w[0].order_index <= w[1].order_index);
    }
    assert_eq!(s.skills.len(), skills_before);
    assert_eq!(s.projects.len(), projects_before);
}

#[test]
fn add_service_reports_its_new_id() {
    let mut s = seeded();
    let form = ServiceForm {
        name: "Consulting".to_string(),
        description: "advice".to_string(),
        image_url: String::new(),
        icon: "i".to_string(),
        order_index: 9,
    };
    let id = s.add_service(&form).expect("add");
    let got = s.get_service(id).expect("lookup");
    assert_eq!(got.name, "Consulting");
    assert_eq!(got.order_index, 9);
}

#[test]
fn education_update_and_delete() {
    let mut s = seeded();
    let row = Education {
        id: 0,
        institution: "Inst".to_string(),
        degree: "Deg".to_string(),
        field: "F".to_string(),
        start_date: "2001".to_string(),
        end_date: "2005".to_string(),
        description: "d".to_string(),
    };
    s.add_education(&row).expect("add");
    let added_id = s.education.last().unwrap().id;
    let mut updated = row.clone();
    updated.id = added_id;
    updated.degree = "New Degree".to_string();
    s.update_education(&updated).expect("update");
    assert_eq!(s.get_education_by_id(added_id).unwrap().degree, "New Degree");
    s.delete_education(added_id).expect("delete");
    assert!(s.get_education_by_id(added_id).is_err());
}

#[test]
fn site_content_updates_in_place_and_never_inserts() {
    let mut s = seeded();
    let count = s.site_content.len();
    s.update_site_content(&"hero_greeting".to_string(), &"Howdy!".to_string()).unwrap();
    let bag = s.get_site_content();
    let hero = bag.iter().find(|it| it.key == "hero_greeting").expect("key");
    assert_eq!(hero.value, "Howdy!");
    assert_eq!(s.site_content.len(), count);
    s.update_site_content(&"never_seeded_key".to_string(), &"x".to_string()).unwrap();
    assert_eq!(s.site_content.len(), count);
    assert!(s.get_site_content().iter().all(|it| it.key != "never_seeded_key"));
}

#[test]
fn email_settings_auto_create_and_checkbox() {
    let mut s = Store::new();
    let settings = s.get_email_settings().expect("auto create");
    assert_eq!(settings.smtp_server, "smtp.gmail.com");
    assert_eq!(settings.smtp_port, 587);
    assert!(!settings.enabled);
    let form = portfolio::models::EmailSettingsForm {
        smtp_server: "mail.example".to_string(),
        smtp_port: 465,
        smtp_username: "u@example.com".to_string(),
        smtp_password: "pw-123".to_string(),
        notification_email: "n@example.com".to_string(),
        enabled: Some("on".to_string()),
    };
    s.update_email_settings(&form).unwrap();
    let saved = s.get_email_settings().unwrap();
    assert!(saved.enabled);
    assert_eq!(saved.smtp_server, "mail.example");
}

#[test]
fn stored_files_round_trip_and_delete() {
    let mut s = Store::new();
    let payload: Vec<u8> = vec![1, 2, 3, 4, 5];
    s.save_image("fixed-id", "a.bin", "application/octet-stream", &payload).expect("save");
    let dup = s.save_image("fixed-id", "b.bin", "text/plain", &[9]);
    assert_eq!(dup, Err(StoreError::DuplicateFileId));
    let got = s.get_image("fixed-id").expect("get");
    assert_eq!(got.filename, "a.bin");
    assert_eq!(got.data, payload);
    s.delete_image("fixed-id").unwrap();
    assert!(s.get_image("fixed-id").is_err());
}

#[test]
fn skill_form_appends_row() {
    let mut s = seeded();
    let form = SkillForm {
        name: "Zig".to_string(),
        category: "Backend".to_string(),
        proficiency: 70,
        icon: "z".to_string(),
        icon_url: String::new(),
    };
    s.add_skill(&form).expect("add");
    let added = s.skills.last().unwrap();
    assert_eq!(added.name, "Zig");
    assert_eq!(added.proficiency, 70);
    s.delete_skill(added.id).unwrap();
    assert!(s.skills.iter().all(|sk| sk.name != "Zig"));
}

#[test]
fn parse_i32_matches_std_grammar() {
    assert_eq!(portfolio::parse::parse_i32("42"), Some(42));
    assert_eq!(portfolio::parse::parse_i32("+17"), Some(17));
    assert_eq!(portfolio::parse::parse_i32("-2147483648"), Some(i32::MIN));
    assert_eq!(portfolio::parse::parse_i32("2147483647"), Some(i32::MAX));
    assert_eq!(portfolio::parse::parse_i32("2147483648"), None);
    assert_eq!(portfolio::parse::parse_i32("-2147483649"), None);
    assert_eq!(portfolio::parse::parse_i32(""), None);
    assert_eq!(portfolio::parse::parse_i32("-"), None);
    assert_eq!(portfolio::parse::parse_i32("80x"), None);
    assert_eq!(portfolio::parse::parse_i32("007"), Some(7));
    assert_eq!(portfolio::parse::parse_i32("99999999999999999999"), None);
}

#[test]
fn exhausted_id_space_is_reported() {
    let mut s = Store::new();
    s.next_skill_id = i32::MAX;
    let form = SkillForm {
        name: "n".to_string(),
        category: "c".to_string(),
        proficiency: 1,
        icon: String::new(),
        icon_url: String::new(),
    };
    assert_eq!(s.add_skill(&form), Err(StoreError::IdsExhausted));
    assert!(s.skills.is_empty());
}

#[test]
fn message_timestamps_come_from_the_clock() {
    let mut s = Store::new();
    let form = ContactForm {
        name: "n".to_string(),
        email: "e@example.com".to_string(),
        subject: "s".to_string(),
        message: "m".to_string(),
    };
    s.add_message(&form).unwrap();
    let stamp = &s.messages.last().unwrap().created_at;
    assert!(stamp.len() >= 19, "timestamp {:?} is too short", stamp);
    assert!(stamp.starts_with("20"), "timestamp {:?} looks wrong", stamp);
}

#[test]
fn initializer_never_reseeds_a_partly_emptied_table() {
    let mut s = Store::new();
    s.initialize().expect("first run");
    let victim = s.services[0].id;
    s.delete_service(victim).unwrap();
    s.update_site_content(&"hero_greeting".to_string(), &"Changed".to_string()).unwrap();
    s.initialize().expect("second run");
    assert_eq!(s.services.len(), 2, "a non-empty table must not be reseeded");
    let hero = s
        .get_site_content()
        .into_iter()
        .find(|it| it.key == "hero_greeting")
        .expect("key");
    assert_eq!(hero.value, "Changed", "existing content values must be kept");
}
