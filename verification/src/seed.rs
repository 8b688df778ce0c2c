//! First-run seeding: table creation defaults, the fixed site-content key
//! set, the bootstrap admin credential, and the sample rows, inserted only
//! where a table is still empty so that re-running the initializer changes
//! nothing.

use vstd::prelude::*;

use crate::models::{
    Admin, Blog, Education, Experience, Profile, Project, Service, SiteContentItem, Skill,
};
use crate::outside;
use crate::store::{
    content_key_present, same_tables_except_content, Store, StoreError,
};

verus! {

/// The entry the fixed default set holds at position `k`.
pub open spec fn content_matches(k: int, it: SiteContentItem) -> bool {

    if k == 0 {
        it.key@ == "hero_greeting"@ && it.value@ == "Hello!"@ && it.section@ == "hero"@ && it.description@ == "Hero section greeting badge"@
    }
    else if k == 1 {
        it.key@ == "hero_intro"@ && it.value@ == "I'm"@ && it.section@ == "hero"@ && it.description@ == "Text before name"@
    }
    else if k == 2 {
        it.key@ == "hero_subtitle"@ && it.value@ == "Full Stack Developer & AI Enthusiast"@ && it.section@ == "hero"@ && it.description@ == "Hero subtitle/title"@
    }
    else if k == 3 {
        it.key@ == "hero_description"@ && it.value@ == "Passionate about building innovative solutions and exploring cutting-edge technologies."@ && it.section@ == "hero"@ && it.description@ == "Hero description text"@
    }
    else if k == 4 {
        it.key@ == "hero_btn_portfolio"@ && it.value@ == "Portfolio"@ && it.section@ == "hero"@ && it.description@ == "Portfolio button text"@
    }
    else if k == 5 {
        it.key@ == "hero_btn_hire"@ && it.value@ == "Hire me"@ && it.section@ == "hero"@ && it.description@ == "Hire me button text"@
    }
    else if k == 6 {
        it.key@ == "hero_btn_resume"@ && it.value@ == "Download Resume"@ && it.section@ == "hero"@ && it.description@ == "Download resume button text"@
    }
    else if k == 7 {
        it.key@ == "hero_experience_years"@ && it.value@ == "10"@ && it.section@ == "hero"@ && it.description@ == "Years of experience number"@
    }
    else if k == 8 {
        it.key@ == "hero_experience_label"@ && it.value@ == "Years Experience"@ && it.section@ == "hero"@ && it.description@ == "Experience label text"@
    }
    else if k == 9 {
        it.key@ == "about_badge"@ && it.value@ == "About Me"@ && it.section@ == "about"@ && it.description@ == "About section badge text"@
    }
    else if k == 10 {
        it.key@ == "about_heading"@ && it.value@ == "Get a website that will make a lasting impression on your audience!!!"@ && it.section@ == "about"@ && it.description@ == "About section main heading"@
    }
    else if k == 11 {
        it.key@ == "tech_title"@ && it.value@ == "Tech Stack"@ && it.section@ == "tech"@ && it.description@ == "Tech stack section title"@
    }
    else if k == 12 {
        it.key@ == "tech_items"@ && it.value@ == "Rust,Python,Microsoft,AI,Automation"@ && it.section@ == "tech"@ && it.description@ == "Comma-separated tech items"@
    }
    else if k == 13 {
        it.key@ == "skills_title"@ && it.value@ == "My Skills"@ && it.section@ == "skills"@ && it.description@ == "Skills section title"@
    }
    else if k == 14 {
        it.key@ == "skills_subtitle"@ && it.value@ == "Technologies and tools I work with"@ && it.section@ == "skills"@ && it.description@ == "Skills section subtitle"@
    }
    else if k == 15 {
        it.key@ == "services_title_prefix"@ && it.value@ == "My"@ && it.section@ == "services"@ && it.description@ == "Services title prefix"@
    }
    else if k == 16 {
        it.key@ == "services_title"@ && it.value@ == "Services"@ && it.section@ == "services"@ && it.description@ == "Services section title"@
    }
    else if k == 17 {
        it.key@ == "services_subtitle"@ && it.value@ == "Delivering exceptional digital experiences tailored to your needs"@ && it.section@ == "services"@ && it.description@ == "Services section subtitle"@
    }
    else if k == 18 {
        it.key@ == "hire_title_prefix"@ && it.value@ == "Why"@ && it.section@ == "hire"@ && it.description@ == "Hire title prefix"@
    }
    else if k == 19 {
        it.key@ == "hire_title"@ && it.value@ == "Hire me"@ && it.section@ == "hire"@ && it.description@ == "Hire section title"@
    }
    else if k == 20 {
        it.key@ == "hire_btn"@ && it.value@ == "Hire Me"@ && it.section@ == "hire"@ && it.description@ == "Hire button text"@
    }
    else if k == 21 {
        it.key@ == "stats_experience"@ && it.value@ == "10+"@ && it.section@ == "hire"@ && it.description@ == "Years of experience stat"@
    }
    else if k == 22 {
        it.key@ == "stats_experience_label"@ && it.value@ == "Years of Experience"@ && it.section@ == "hire"@ && it.description@ == "Experience stat label"@
    }
    else if k == 23 {
        it.key@ == "stats_projects"@ && it.value@ == "4K"@ && it.section@ == "hire"@ && it.description@ == "Projects completed stat"@
    }
    else if k == 24 {
        it.key@ == "stats_projects_label"@ && it.value@ == "Projects Completed"@ && it.section@ == "hire"@ && it.description@ == "Projects stat label"@
    }
    else if k == 25 {
        it.key@ == "stats_customers"@ && it.value@ == "12K"@ && it.section@ == "hire"@ && it.description@ == "Happy customers stat"@
    }
    else if k == 26 {
        it.key@ == "stats_customers_label"@ && it.value@ == "Happy Customers"@ && it.section@ == "hire"@ && it.description@ == "Customers stat label"@
    }
    else if k == 27 {
        it.key@ == "process_title_prefix"@ && it.value@ == "Our Work"@ && it.section@ == "process"@ && it.description@ == "Process title prefix"@
    }
    else if k == 28 {
        it.key@ == "process_title"@ && it.value@ == "Process"@ && it.section@ == "process"@ && it.description@ == "Process section title"@
    }
    else if k == 29 {
        it.key@ == "process_subtitle"@ && it.value@ == "A streamlined approach to bringing your ideas to life"@ && it.section@ == "process"@ && it.description@ == "Process section subtitle"@
    }
    else if k == 30 {
        it.key@ == "portfolio_title_prefix"@ && it.value@ == "Look at my"@ && it.section@ == "portfolio"@ && it.description@ == "Portfolio title prefix"@
    }
    else if k == 31 {
        it.key@ == "portfolio_title"@ && it.value@ == "Portfolio"@ && it.section@ == "portfolio"@ && it.description@ == "Portfolio section title"@
    }
    else if k == 32 {
        it.key@ == "portfolio_subtitle"@ && it.value@ == "Some of my recent work"@ && it.section@ == "portfolio"@ && it.description@ == "Portfolio section subtitle"@
    }
    else if k == 33 {
        it.key@ == "portfolio_btn"@ && it.value@ == "View All Projects"@ && it.section@ == "portfolio"@ && it.description@ == "View all projects button"@
    }
    else if k == 34 {
        it.key@ == "cta_title_prefix"@ && it.value@ == "Let's Work"@ && it.section@ == "cta"@ && it.description@ == "CTA title prefix"@
    }
    else if k == 35 {
        it.key@ == "cta_title"@ && it.value@ == "Together"@ && it.section@ == "cta"@ && it.description@ == "CTA section title"@
    }
    else if k == 36 {
        it.key@ == "cta_subtitle"@ && it.value@ == "Have a project in mind? Let's create something amazing together."@ && it.section@ == "cta"@ && it.description@ == "CTA section subtitle"@
    }
    else if k == 37 {
        it.key@ == "cta_btn"@ && it.value@ == "Get in Touch"@ && it.section@ == "cta"@ && it.description@ == "CTA button text"@
    }
    else if k == 38 {
        it.key@ == "projects_title"@ && it.value@ == "Featured Projects"@ && it.section@ == "projects"@ && it.description@ == "Projects section title"@
    }
    else if k == 39 {
        it.key@ == "projects_subtitle"@ && it.value@ == "Some of my recent work"@ && it.section@ == "projects"@ && it.description@ == "Projects section subtitle"@
    }
    else if k == 40 {
        it.key@ == "projects_btn_view"@ && it.value@ == "View Project"@ && it.section@ == "projects"@ && it.description@ == "View project button text"@
    }
    else if k == 41 {
        it.key@ == "projects_btn_all"@ && it.value@ == "View All Projects"@ && it.section@ == "projects"@ && it.description@ == "View all projects button text"@
    }
    else if k == 42 {
        it.key@ == "blog_title"@ && it.value@ == "Latest Articles"@ && it.section@ == "blog"@ && it.description@ == "Blog section title"@
    }
    else if k == 43 {
        it.key@ == "blog_subtitle"@ && it.value@ == "Thoughts, tutorials, and insights"@ && it.section@ == "blog"@ && it.description@ == "Blog section subtitle"@
    }
    else if k == 44 {
        it.key@ == "blog_btn_read"@ && it.value@ == "Read More"@ && it.section@ == "blog"@ && it.description@ == "Read more button text"@
    }
    else if k == 45 {
        it.key@ == "blog_btn_all"@ && it.value@ == "View All Articles"@ && it.section@ == "blog"@ && it.description@ == "View all articles button text"@
    }
    else if k == 46 {
        it.key@ == "contact_label"@ && it.value@ == "Contact"@ && it.section@ == "contact"@ && it.description@ == "Contact page label"@
    }
    else if k == 47 {
        it.key@ == "contact_title_prefix"@ && it.value@ == "Get in"@ && it.section@ == "contact"@ && it.description@ == "Contact title prefix"@
    }
    else if k == 48 {
        it.key@ == "contact_title"@ && it.value@ == "Touch"@ && it.section@ == "contact"@ && it.description@ == "Contact section title"@
    }
    else if k == 49 {
        it.key@ == "contact_subtitle"@ && it.value@ == "Have a question or want to work together? Feel free to reach out!"@ && it.section@ == "contact"@ && it.description@ == "Contact section subtitle"@
    }
    else if k == 50 {
        it.key@ == "contact_form_title"@ && it.value@ == "Send a Message"@ && it.section@ == "contact"@ && it.description@ == "Contact form title"@
    }
    else if k == 51 {
        it.key@ == "contact_btn"@ && it.value@ == "Send Message"@ && it.section@ == "contact"@ && it.description@ == "Send message button text"@
    }
    else if k == 52 {
        it.key@ == "contact_success"@ && it.value@ == "Thank you! Your message has been sent successfully."@ && it.section@ == "contact"@ && it.description@ == "Success message after form submission"@
    }
    else if k == 53 {
        it.key@ == "form_name_label"@ && it.value@ == "Name"@ && it.section@ == "form"@ && it.description@ == "Name field label"@
    }
    else if k == 54 {
        it.key@ == "form_name_placeholder"@ && it.value@ == "Your name"@ && it.section@ == "form"@ && it.description@ == "Name field placeholder"@
    }
    else if k == 55 {
        it.key@ == "form_email_label"@ && it.value@ == "Email"@ && it.section@ == "form"@ && it.description@ == "Email field label"@
    }
    else if k == 56 {
        it.key@ == "form_email_placeholder"@ && it.value@ == "your@email.com"@ && it.section@ == "form"@ && it.description@ == "Email field placeholder"@
    }
    else if k == 57 {
        it.key@ == "form_subject_label"@ && it.value@ == "Subject"@ && it.section@ == "form"@ && it.description@ == "Subject field label"@
    }
    else if k == 58 {
        it.key@ == "form_subject_placeholder"@ && it.value@ == "What's this about?"@ && it.section@ == "form"@ && it.description@ == "Subject field placeholder"@
    }
    else if k == 59 {
        it.key@ == "form_message_label"@ && it.value@ == "Message"@ && it.section@ == "form"@ && it.description@ == "Message field label"@
    }
    else if k == 60 {
        it.key@ == "form_message_placeholder"@ && it.value@ == "Your message..."@ && it.section@ == "form"@ && it.description@ == "Message field placeholder"@
    }
    else if k == 61 {
        it.key@ == "roadmap_step1_title"@ && it.value@ == "Concept"@ && it.section@ == "roadmap"@ && it.description@ == "Step 1 title"@
    }
    else if k == 62 {
        it.key@ == "roadmap_step1_desc"@ && it.value@ == "Understanding your vision, goals, and requirements to create a solid foundation."@ && it.section@ == "roadmap"@ && it.description@ == "Step 1 description"@
    }
    else if k == 63 {
        it.key@ == "roadmap_step2_title"@ && it.value@ == "Design"@ && it.section@ == "roadmap"@ && it.description@ == "Step 2 title"@
    }
    else if k == 64 {
        it.key@ == "roadmap_step2_desc"@ && it.value@ == "Creating beautiful, intuitive interfaces that engage and delight users."@ && it.section@ == "roadmap"@ && it.description@ == "Step 2 description"@
    }
    else if k == 65 {
        it.key@ == "roadmap_step3_title"@ && it.value@ == "Development"@ && it.section@ == "roadmap"@ && it.description@ == "Step 3 title"@
    }
    else if k == 66 {
        it.key@ == "roadmap_step3_desc"@ && it.value@ == "Building robust, scalable solutions with clean, maintainable code."@ && it.section@ == "roadmap"@ && it.description@ == "Step 3 description"@
    }
    else if k == 67 {
        it.key@ == "footer_copyright"@ && it.value@ == "© 2024"@ && it.section@ == "footer"@ && it.description@ == "Footer copyright year"@
    }
    else if k == 68 {
        it.key@ == "footer_rights"@ && it.value@ == "All rights reserved."@ && it.section@ == "footer"@ && it.description@ == "Footer rights text"@
    }
    else if k == 69 {
        it.key@ == "footer_quick_links"@ && it.value@ == "Quick Links"@ && it.section@ == "footer"@ && it.description@ == "Footer quick links title"@
    }
    else if k == 70 {
        it.key@ == "footer_connect"@ && it.value@ == "Connect"@ && it.section@ == "footer"@ && it.description@ == "Footer connect title"@
    }
    else if k == 71 {
        it.key@ == "footer_tagline"@ && it.value@ == "Built with passion using Rust & Actix Web"@ && it.section@ == "footer"@ && it.description@ == "Footer tagline"@
    }
    else if k == 72 {
        it.key@ == "education_label"@ && it.value@ == "Learning"@ && it.section@ == "education"@ && it.description@ == "Education section label"@
    }
    else if k == 73 {
        it.key@ == "education_title"@ && it.value@ == "Education"@ && it.section@ == "education"@ && it.description@ == "Education section title"@
    }
    else if k == 74 {
        it.key@ == "experience_label"@ && it.value@ == "Career"@ && it.section@ == "experience"@ && it.description@ == "Experience section label"@
    }
    else if k == 75 {
        it.key@ == "experience_title_prefix"@ && it.value@ == "Work"@ && it.section@ == "experience"@ && it.description@ == "Experience title prefix"@
    }
    else if k == 76 {
        it.key@ == "experience_title"@ && it.value@ == "Experience"@ && it.section@ == "experience"@ && it.description@ == "Experience section title"@
    }
    else if k == 77 {
        it.key@ == "skills_label"@ && it.value@ == "Expertise"@ && it.section@ == "skills"@ && it.description@ == "Skills section label"@
    }
    else if k == 78 {
        it.key@ == "skills_title_prefix"@ && it.value@ == "Technical"@ && it.section@ == "skills"@ && it.description@ == "Skills title prefix"@
    }
    else if k == 79 {
        it.key@ == "about_label"@ && it.value@ == "Introduction"@ && it.section@ == "about"@ && it.description@ == "About page label"@
    }
    else if k == 80 {
        it.key@ == "about_title_prefix"@ && it.value@ == "About"@ && it.section@ == "about"@ && it.description@ == "About page title prefix"@
    }
    else if k == 81 {
        it.key@ == "about_title"@ && it.value@ == "Me"@ && it.section@ == "about"@ && it.description@ == "About page title"@
    }
    else if k == 82 {
        it.key@ == "about_subtitle"@ && it.value@ == "Get to know more about my background, skills, and experience"@ && it.section@ == "about"@ && it.description@ == "About page subtitle"@
    }
    else if k == 83 {
        it.key@ == "about_experience_years"@ && it.value@ == "5+"@ && it.section@ == "about"@ && it.description@ == "Years of experience badge"@
    }
    else if k == 84 {
        it.key@ == "about_experience_label"@ && it.value@ == "Years Experience"@ && it.section@ == "about"@ && it.description@ == "Experience badge label"@
    }
    else if k == 85 {
        it.key@ == "about_resume_btn"@ && it.value@ == "Download Resume"@ && it.section@ == "about"@ && it.description@ == "Download resume button text"@
    }
    else if k == 86 {
        it.key@ == "about_contact_btn"@ && it.value@ == "Contact Me"@ && it.section@ == "about"@ && it.description@ == "Contact me button text"@
    }
    else if k == 87 {
        it.key@ == "nav_home"@ && it.value@ == "Home"@ && it.section@ == "nav"@ && it.description@ == "Home navigation link"@
    }
    else if k == 88 {
        it.key@ == "nav_about"@ && it.value@ == "About"@ && it.section@ == "nav"@ && it.description@ == "About navigation link"@
    }
    else if k == 89 {
        it.key@ == "nav_projects"@ && it.value@ == "Projects"@ && it.section@ == "nav"@ && it.description@ == "Projects navigation link"@
    }
    else if k == 90 {
        it.key@ == "nav_blog"@ && it.value@ == "Blog"@ && it.section@ == "nav"@ && it.description@ == "Blog navigation link"@
    }
    else if k == 91 {
        it.key@ == "nav_contact"@ && it.value@ == "Contact"@ && it.section@ == "nav"@ && it.description@ == "Contact navigation link"@
    }
    else {
        false
    }

}

/// A sequence that is exactly the fixed default site-content set.
pub open spec fn is_default_content_list(ds: Seq<SiteContentItem>) -> bool {
    &&& ds.len() == 92
    &&& forall|k: int| 0 <= k < ds.len() ==> content_matches(k, #[trigger] ds[k])
}

/// Every key of `ds` already occurs in `items`.
pub open spec fn all_keys_present(items: Seq<SiteContentItem>, ds: Seq<SiteContentItem>) -> bool {
    forall|k: int| 0 <= k < ds.len() ==> content_key_present(items, (#[trigger] ds[k]).key@)
}

/// Insert-if-absent of each default entry, first to last.
pub open spec fn seed_content(
    items: Seq<SiteContentItem>,
    ds: Seq<SiteContentItem>,
) -> Seq<SiteContentItem>
    decreases ds.len(),
{
    if ds.len() == 0 {
        items
    } else {
        let prev = seed_content(items, ds.drop_last());
        if content_key_present(prev, ds.last().key@) {
            prev
        } else {
            prev.push(ds.last())
        }
    }
}

/// Seeding a bag that already holds every default key changes nothing.
pub proof fn lemma_seed_unchanged(items: Seq<SiteContentItem>, ds: Seq<SiteContentItem>)
    requires
        all_keys_present(items, ds),
    ensures
        seed_content(items, ds) == items,
    decreases ds.len(),
{
    if ds.len() > 0 {
        let dl = ds.drop_last();
        assert(all_keys_present(items, dl)) by {
            assert(forall|k: int| 0 <= k < dl.len() ==> dl[k] == ds[k]);
        }
        lemma_seed_unchanged(items, dl);
        assert(content_key_present(items, ds[ds.len() - 1].key@));
    }
}

/// After seeding, every default key is present.
pub proof fn lemma_seed_all_present(items: Seq<SiteContentItem>, ds: Seq<SiteContentItem>)
    ensures
        all_keys_present(seed_content(items, ds), ds),
    decreases ds.len(),
{
    if ds.len() > 0 {
        let dl = ds.drop_last();
        lemma_seed_all_present(items, dl);
        let prev = seed_content(items, dl);
        let result = seed_content(items, ds);
        assert forall|k: int| 0 <= k < ds.len() implies content_key_present(
            result,
            (#[trigger] ds[k]).key@,
        ) by {
            if k < ds.len() - 1 {
                assert(dl[k] == ds[k]);
                assert(content_key_present(prev, ds[k].key@));
                let j = choose|j: int| 0 <= j < prev.len() && prev[j].key@ == ds[k].key@;
                assert(result[j].key@ == ds[k].key@);
            } else {
                if content_key_present(prev, ds.last().key@) {
                    let j = choose|j: int|
                        0 <= j < prev.len() && prev[j].key@ == ds.last().key@;
                    assert(result[j].key@ == ds[k].key@);
                } else {
                    assert(result[prev.len() as int].key@ == ds[k].key@);
                }
            }
        }
    }
}

/// Two copies of the default set carry the same keys, so presence of one
/// copy's keys gives presence of the other's.
pub proof fn lemma_default_lists_alike(
    ds1: Seq<SiteContentItem>,
    ds2: Seq<SiteContentItem>,
    items: Seq<SiteContentItem>,
)
    requires
        is_default_content_list(ds1),
        is_default_content_list(ds2),
        all_keys_present(items, ds1),
    ensures
        all_keys_present(items, ds2),
{
    assert forall|k: int| 0 <= k < ds2.len() implies content_key_present(
        items,
        (#[trigger] ds2[k]).key@,
    ) by {
        assert(content_matches(k, ds1[k]));
        assert(content_matches(k, ds2[k]));
        assert(ds1[k].key@ == ds2[k].key@);
        assert(content_key_present(items, ds1[k].key@));
    }
}


/// The profile row seeded on first run.
pub open spec fn is_seeded_profile(p: Profile) -> bool {
    &&& p.id == 1
    &&& p.name@ == "Md Jobayer Arafat"@
    &&& p.title@ == "Full Stack Developer & AI Enthusiast"@
    &&& p.bio@ == "Passionate software developer with expertise in web development, machine learning, and building innovative solutions. I love creating efficient, scalable applications and exploring cutting-edge technologies."@
    &&& p.email@ == "jobayerarafat@example.com"@
    &&& p.phone@ == "+880 1234567890"@
    &&& p.location@ == "Bangladesh"@
    &&& p.github_url@ == "https://github.com/mdjobayerarafat"@
    &&& p.linkedin_url@ == "https://linkedin.com/in/mdjobayerarafat"@
    &&& p.twitter_url@ == "https://twitter.com/mdjobayerarafat"@
    &&& p.resume_url@ == "/static/resume.pdf"@
    &&& p.avatar_url@ == "/static/avatar.jpg"@
}

/// The bootstrap admin row: the documented first-run credential.
pub open spec fn is_seeded_admin(a: Admin) -> bool {
    &&& a.id == 1
    &&& a.username@ == "admin"@
    &&& outside::bcrypt_matches("admin123"@, a.password_hash@)
}

/// The sample skills seeded into an empty skills table.
pub open spec fn is_seeded_skills(s: Seq<Skill>, first: int) -> bool {
    &&& s.len() == 12
    &&& s[0].id == first + 0 && s[0].name@ == "Rust"@ && s[0].category@ == "Backend"@
    &&& s[0].proficiency == 85 && s[0].icon@ == "🦀"@ && s[0].icon_url@ == Seq::<char>::empty()
    &&& s[1].id == first + 1 && s[1].name@ == "Python"@ && s[1].category@ == "Backend"@
    &&& s[1].proficiency == 90 && s[1].icon@ == "🐍"@ && s[1].icon_url@ == Seq::<char>::empty()
    &&& s[2].id == first + 2 && s[2].name@ == "JavaScript"@ && s[2].category@ == "Frontend"@
    &&& s[2].proficiency == 88 && s[2].icon@ == "📜"@ && s[2].icon_url@ == Seq::<char>::empty()
    &&& s[3].id == first + 3 && s[3].name@ == "TypeScript"@ && s[3].category@ == "Frontend"@
    &&& s[3].proficiency == 85 && s[3].icon@ == "💙"@ && s[3].icon_url@ == Seq::<char>::empty()
    &&& s[4].id == first + 4 && s[4].name@ == "React"@ && s[4].category@ == "Frontend"@
    &&& s[4].proficiency == 82 && s[4].icon@ == "⚛️"@ && s[4].icon_url@ == Seq::<char>::empty()
    &&& s[5].id == first + 5 && s[5].name@ == "Node.js"@ && s[5].category@ == "Backend"@
    &&& s[5].proficiency == 85 && s[5].icon@ == "💚"@ && s[5].icon_url@ == Seq::<char>::empty()
    &&& s[6].id == first + 6 && s[6].name@ == "PostgreSQL"@ && s[6].category@ == "Database"@
    &&& s[6].proficiency == 80 && s[6].icon@ == "🐘"@ && s[6].icon_url@ == Seq::<char>::empty()
    &&& s[7].id == first + 7 && s[7].name@ == "SQLite"@ && s[7].category@ == "Database"@
    &&& s[7].proficiency == 85 && s[7].icon@ == "📦"@ && s[7].icon_url@ == Seq::<char>::empty()
    &&& s[8].id == first + 8 && s[8].name@ == "Docker"@ && s[8].category@ == "DevOps"@
    &&& s[8].proficiency == 78 && s[8].icon@ == "🐳"@ && s[8].icon_url@ == Seq::<char>::empty()
    &&& s[9].id == first + 9 && s[9].name@ == "Git"@ && s[9].category@ == "Tools"@
    &&& s[9].proficiency == 90 && s[9].icon@ == "📚"@ && s[9].icon_url@ == Seq::<char>::empty()
    &&& s[10].id == first + 10 && s[10].name@ == "Linux"@ && s[10].category@ == "Tools"@
    &&& s[10].proficiency == 85 && s[10].icon@ == "🐧"@ && s[10].icon_url@ == Seq::<char>::empty()
    &&& s[11].id == first + 11 && s[11].name@ == "Machine Learning"@ && s[11].category@ == "AI/ML"@
    &&& s[11].proficiency == 80 && s[11].icon@ == "🤖"@ && s[11].icon_url@ == Seq::<char>::empty()
}

/// The sample projects seeded into an empty projects table; both rows are
/// featured and share one creation stamp taken from the clock.
pub open spec fn is_seeded_projects(s: Seq<Project>, first: int) -> bool {
    &&& s.len() == 2
    &&& s[0].id == first + 0
    &&& s[0].title@ == "Portfolio Website"@
    &&& s[0].slug@ == "portfolio-website"@
    &&& s[0].description@ == "A modern portfolio website built with Rust Actix Web and Tailwind CSS"@
    &&& s[0].content@ == "## Overview\n\nThis portfolio website showcases my projects, skills, and blog posts. Built with modern technologies for optimal performance.\n\n## Features\n\n- Responsive dark theme design\n- Admin panel for content management\n- Blog with markdown support\n- Project showcase\n- Contact form"@
    &&& s[0].image_url@ == "/static/images/portfolio.jpg"@
    &&& s[0].demo_url@ == "https://example.com"@
    &&& s[0].github_url@ == "https://github.com/mdjobayerarafat/portfolio"@
    &&& s[0].technologies@ == "Rust, Actix Web, SQLite, Tailwind CSS, Tera"@
    &&& s[0].featured == true
    &&& s[1].id == first + 1
    &&& s[1].title@ == "AI Chat Application"@
    &&& s[1].slug@ == "ai-chat-app"@
    &&& s[1].description@ == "An intelligent chat application powered by machine learning"@
    &&& s[1].content@ == "## Overview\n\nA real-time chat application with AI-powered responses and natural language processing capabilities.\n\n## Features\n\n- Real-time messaging\n- AI-powered responses\n- Natural language understanding\n- Multi-language support"@
    &&& s[1].image_url@ == "/static/images/ai-chat.jpg"@
    &&& s[1].demo_url@ == "https://example.com/chat"@
    &&& s[1].github_url@ == "https://github.com/mdjobayerarafat/ai-chat"@
    &&& s[1].technologies@ == "Python, FastAPI, React, TensorFlow, WebSocket"@
    &&& s[1].featured == true
    &&& s[0].created_at@.len() >= 19
    &&& s[1].created_at@ == s[0].created_at@
}

/// The sample blogs seeded into an empty blogs table; both rows are
/// published and stamped with one clock reading.
pub open spec fn is_seeded_blogs(s: Seq<Blog>, first: int) -> bool {
    &&& s.len() == 2
    &&& s[0].id == first + 0
    &&& s[0].title@ == "Getting Started with Rust Web Development"@
    &&& s[0].slug@ == "getting-started-rust-web"@
    &&& s[0].excerpt@ == "Learn how to build fast and reliable web applications using Rust and Actix Web framework."@
    &&& s[0].content@ == "## Introduction\n\nRust is a systems programming language that offers memory safety, concurrency, and performance. In this blog post, we'll explore how to build web applications using Rust.\n\n## Why Rust?\n\n- Memory safety without garbage collection\n- Zero-cost abstractions\n- Fearless concurrency\n- Great performance\n\n## Setting Up\n\nFirst, install Rust using rustup:\n\n```bash\ncurl --proto '=https' --tlsv1.2 -sSf https://sh.rustup.rs | sh\n```\n\n## Creating Your First Actix Web App\n\nCreate a new project and add dependencies..."@
    &&& s[0].image_url@ == "/static/images/rust-blog.jpg"@
    &&& s[0].tags@ == "Rust, Web Development, Actix"@
    &&& s[0].published == true
    &&& s[1].id == first + 1
    &&& s[1].title@ == "Building Modern UIs with Tailwind CSS"@
    &&& s[1].slug@ == "modern-ui-tailwind-css"@
    &&& s[1].excerpt@ == "Discover how Tailwind CSS can speed up your frontend development with utility-first approach."@
    &&& s[1].content@ == "## What is Tailwind CSS?\n\nTailwind CSS is a utility-first CSS framework that allows you to build custom designs without leaving your HTML.\n\n## Benefits\n\n- No need to write custom CSS\n- Consistent design system\n- Responsive design made easy\n- Dark mode support\n\n## Getting Started\n\nInstall Tailwind via npm:\n\n```bash\nnpm install -D tailwindcss\nnpx tailwindcss init\n```\n\n## Building Components\n\nCreate beautiful components with utility classes..."@
    &&& s[1].image_url@ == "/static/images/tailwind-blog.jpg"@
    &&& s[1].tags@ == "CSS, Tailwind, Frontend"@
    &&& s[1].published == true
    &&& s[0].created_at@.len() >= 19
    &&& s[0].updated_at@ == s[0].created_at@
    &&& s[1].created_at@ == s[0].created_at@
    &&& s[1].updated_at@ == s[0].created_at@
}

/// The sample experience rows seeded into an empty experience table.
pub open spec fn is_seeded_experience(s: Seq<Experience>, first: int) -> bool {
    &&& s.len() == 2
    &&& s[0].id == first + 0
    &&& s[0].company@ == "Tech Company"@
    &&& s[0].position@ == "Senior Software Developer"@
    &&& s[0].description@ == "Building scalable web applications and leading development teams."@
    &&& s[0].start_date@ == "2022-01"@
    &&& s[0].end_date@ == ""@
    &&& s[0].current == true
    &&& s[1].id == first + 1
    &&& s[1].company@ == "Startup Inc"@
    &&& s[1].position@ == "Full Stack Developer"@
    &&& s[1].description@ == "Developed full-stack applications using modern technologies."@
    &&& s[1].start_date@ == "2020-06"@
    &&& s[1].end_date@ == "2022-01"@
    &&& s[1].current == false
}

/// The sample education row seeded into an empty education table.
pub open spec fn is_seeded_education(s: Seq<Education>, first: int) -> bool {
    &&& s.len() == 1
    &&& s[0].id == first
    &&& s[0].institution@ == "University of Technology"@
    &&& s[0].degree@ == "Bachelor of Science"@
    &&& s[0].field@ == "Computer Science and Engineering"@
    &&& s[0].start_date@ == "2016"@
    &&& s[0].end_date@ == "2020"@
    &&& s[0].description@ == "Focused on software engineering and machine learning."@
}

/// The sample services seeded into an empty services table.
pub open spec fn is_seeded_services(s: Seq<Service>, first: int) -> bool {
    &&& s.len() == 3
    &&& s[0].id == first + 0
    &&& s[0].name@ == "UI/UX Design"@
    &&& s[0].description@ == "Creating beautiful and intuitive user interfaces with modern design principles."@
    &&& s[0].image_url@ == ""@
    &&& s[0].icon@ == "🎨"@
    &&& s[0].order_index == 1
    &&& s[1].id == first + 1
    &&& s[1].name@ == "Web Design"@
    &&& s[1].description@ == "Building responsive, modern websites that look great on all devices."@
    &&& s[1].image_url@ == ""@
    &&& s[1].icon@ == "🌐"@
    &&& s[1].order_index == 2
    &&& s[2].id == first + 2
    &&& s[2].name@ == "Landing Page Design"@
    &&& s[2].description@ == "High-converting landing pages designed to maximize your business goals."@
    &&& s[2].image_url@ == ""@
    &&& s[2].icon@ == "📄"@
    &&& s[2].order_index == 3
}

/// One site-content entry built from its four texts.
fn content_item(key: &str, value: &str, section: &str, description: &str) -> (it: SiteContentItem)
    ensures
        it.key@ == key@,
        it.value@ == value@,
        it.section@ == section@,
        it.description@ == description@,
{
    SiteContentItem {
        key: String::from_str(key),
        value: String::from_str(value),
        section: String::from_str(section),
        description: String::from_str(description),
    }
}

/// The fixed default site-content set, in its seeding order.
#[verifier::rlimit(100)]
pub fn default_site_content() -> (r: Vec<SiteContentItem>)
    ensures
        is_default_content_list(r@),
{
    let mut v: Vec<SiteContentItem> = Vec::new();

    v.push(content_item("hero_greeting", "Hello!", "hero", "Hero section greeting badge"));
    v.push(content_item("hero_intro", "I'm", "hero", "Text before name"));
    v.push(content_item("hero_subtitle", "Full Stack Developer & AI Enthusiast", "hero", "Hero subtitle/title"));
    v.push(content_item("hero_description", "Passionate about building innovative solutions and exploring cutting-edge technologies.", "hero", "Hero description text"));
    v.push(content_item("hero_btn_portfolio", "Portfolio", "hero", "Portfolio button text"));
    v.push(content_item("hero_btn_hire", "Hire me", "hero", "Hire me button text"));
    v.push(content_item("hero_btn_resume", "Download Resume", "hero", "Download resume button text"));
    v.push(content_item("hero_experience_years", "10", "hero", "Years of experience number"));
    v.push(content_item("hero_experience_label", "Years Experience", "hero", "Experience label text"));
    v.push(content_item("about_badge", "About Me", "about", "About section badge text"));
    v.push(content_item("about_heading", "Get a website that will make a lasting impression on your audience!!!", "about", "About section main heading"));
    v.push(content_item("tech_title", "Tech Stack", "tech", "Tech stack section title"));
    v.push(content_item("tech_items", "Rust,Python,Microsoft,AI,Automation", "tech", "Comma-separated tech items"));
    v.push(content_item("skills_title", "My Skills", "skills", "Skills section title"));
    v.push(content_item("skills_subtitle", "Technologies and tools I work with", "skills", "Skills section subtitle"));
    v.push(content_item("services_title_prefix", "My", "services", "Services title prefix"));
    v.push(content_item("services_title", "Services", "services", "Services section title"));
    v.push(content_item("services_subtitle", "Delivering exceptional digital experiences tailored to your needs", "services", "Services section subtitle"));
    v.push(content_item("hire_title_prefix", "Why", "hire", "Hire title prefix"));
    v.push(content_item("hire_title", "Hire me", "hire", "Hire section title"));
    v.push(content_item("hire_btn", "Hire Me", "hire", "Hire button text"));
    v.push(content_item("stats_experience", "10+", "hire", "Years of experience stat"));
    v.push(content_item("stats_experience_label", "Years of Experience", "hire", "Experience stat label"));
    v.push(content_item("stats_projects", "4K", "hire", "Projects completed stat"));
    v.push(content_item("stats_projects_label", "Projects Completed", "hire", "Projects stat label"));
    v.push(content_item("stats_customers", "12K", "hire", "Happy customers stat"));
    v.push(content_item("stats_customers_label", "Happy Customers", "hire", "Customers stat label"));
    v.push(content_item("process_title_prefix", "Our Work", "process", "Process title prefix"));
    v.push(content_item("process_title", "Process", "process", "Process section title"));
    v.push(content_item("process_subtitle", "A streamlined approach to bringing your ideas to life", "process", "Process section subtitle"));
    v.push(content_item("portfolio_title_prefix", "Look at my", "portfolio", "Portfolio title prefix"));
    v.push(content_item("portfolio_title", "Portfolio", "portfolio", "Portfolio section title"));
    v.push(content_item("portfolio_subtitle", "Some of my recent work", "portfolio", "Portfolio section subtitle"));
    v.push(content_item("portfolio_btn", "View All Projects", "portfolio", "View all projects button"));
    v.push(content_item("cta_title_prefix", "Let's Work", "cta", "CTA title prefix"));
    v.push(content_item("cta_title", "Together", "cta", "CTA section title"));
    v.push(content_item("cta_subtitle", "Have a project in mind? Let's create something amazing together.", "cta", "CTA section subtitle"));
    v.push(content_item("cta_btn", "Get in Touch", "cta", "CTA button text"));
    v.push(content_item("projects_title", "Featured Projects", "projects", "Projects section title"));
    v.push(content_item("projects_subtitle", "Some of my recent work", "projects", "Projects section subtitle"));
    v.push(content_item("projects_btn_view", "View Project", "projects", "View project button text"));
    v.push(content_item("projects_btn_all", "View All Projects", "projects", "View all projects button text"));
    v.push(content_item("blog_title", "Latest Articles", "blog", "Blog section title"));
    v.push(content_item("blog_subtitle", "Thoughts, tutorials, and insights", "blog", "Blog section subtitle"));
    v.push(content_item("blog_btn_read", "Read More", "blog", "Read more button text"));
    v.push(content_item("blog_btn_all", "View All Articles", "blog", "View all articles button text"));
    v.push(content_item("contact_label", "Contact", "contact", "Contact page label"));
    v.push(content_item("contact_title_prefix", "Get in", "contact", "Contact title prefix"));
    v.push(content_item("contact_title", "Touch", "contact", "Contact section title"));
    v.push(content_item("contact_subtitle", "Have a question or want to work together? Feel free to reach out!", "contact", "Contact section subtitle"));
    v.push(content_item("contact_form_title", "Send a Message", "contact", "Contact form title"));
    v.push(content_item("contact_btn", "Send Message", "contact", "Send message button text"));
    v.push(content_item("contact_success", "Thank you! Your message has been sent successfully.", "contact", "Success message after form submission"));
    v.push(content_item("form_name_label", "Name", "form", "Name field label"));
    v.push(content_item("form_name_placeholder", "Your name", "form", "Name field placeholder"));
    v.push(content_item("form_email_label", "Email", "form", "Email field label"));
    v.push(content_item("form_email_placeholder", "your@email.com", "form", "Email field placeholder"));
    v.push(content_item("form_subject_label", "Subject", "form", "Subject field label"));
    v.push(content_item("form_subject_placeholder", "What's this about?", "form", "Subject field placeholder"));
    v.push(content_item("form_message_label", "Message", "form", "Message field label"));
    v.push(content_item("form_message_placeholder", "Your message...", "form", "Message field placeholder"));
    v.push(content_item("roadmap_step1_title", "Concept", "roadmap", "Step 1 title"));
    v.push(content_item("roadmap_step1_desc", "Understanding your vision, goals, and requirements to create a solid foundation.", "roadmap", "Step 1 description"));
    v.push(content_item("roadmap_step2_title", "Design", "roadmap", "Step 2 title"));
    v.push(content_item("roadmap_step2_desc", "Creating beautiful, intuitive interfaces that engage and delight users.", "roadmap", "Step 2 description"));
    v.push(content_item("roadmap_step3_title", "Development", "roadmap", "Step 3 title"));
    v.push(content_item("roadmap_step3_desc", "Building robust, scalable solutions with clean, maintainable code.", "roadmap", "Step 3 description"));
    v.push(content_item("footer_copyright", "© 2024", "footer", "Footer copyright year"));
    v.push(content_item("footer_rights", "All rights reserved.", "footer", "Footer rights text"));
    v.push(content_item("footer_quick_links", "Quick Links", "footer", "Footer quick links title"));
    v.push(content_item("footer_connect", "Connect", "footer", "Footer connect title"));
    v.push(content_item("footer_tagline", "Built with passion using Rust & Actix Web", "footer", "Footer tagline"));
    v.push(content_item("education_label", "Learning", "education", "Education section label"));
    v.push(content_item("education_title", "Education", "education", "Education section title"));
    v.push(content_item("experience_label", "Career", "experience", "Experience section label"));
    v.push(content_item("experience_title_prefix", "Work", "experience", "Experience title prefix"));
    v.push(content_item("experience_title", "Experience", "experience", "Experience section title"));
    v.push(content_item("skills_label", "Expertise", "skills", "Skills section label"));
    v.push(content_item("skills_title_prefix", "Technical", "skills", "Skills title prefix"));
    v.push(content_item("about_label", "Introduction", "about", "About page label"));
    v.push(content_item("about_title_prefix", "About", "about", "About page title prefix"));
    v.push(content_item("about_title", "Me", "about", "About page title"));
    v.push(content_item("about_subtitle", "Get to know more about my background, skills, and experience", "about", "About page subtitle"));
    v.push(content_item("about_experience_years", "5+", "about", "Years of experience badge"));
    v.push(content_item("about_experience_label", "Years Experience", "about", "Experience badge label"));
    v.push(content_item("about_resume_btn", "Download Resume", "about", "Download resume button text"));
    v.push(content_item("about_contact_btn", "Contact Me", "about", "Contact me button text"));
    v.push(content_item("nav_home", "Home", "nav", "Home navigation link"));
    v.push(content_item("nav_about", "About", "nav", "About navigation link"));
    v.push(content_item("nav_projects", "Projects", "nav", "Projects navigation link"));
    v.push(content_item("nav_blog", "Blog", "nav", "Blog navigation link"));
    v.push(content_item("nav_contact", "Contact", "nav", "Contact navigation link"));
    v
}

/// Whether the content bag already holds the given key.
fn content_key_in_use(items: &Vec<SiteContentItem>, key: &str) -> (r: bool)
    ensures
        r == content_key_present(items@, key@),
{
    let mut i: usize = 0;
    while i < items.len()
        invariant
            0 <= i <= items@.len(),
            forall|k: int| 0 <= k < i ==> (#[trigger] items@[k]).key@ != key@,
        decreases items@.len() - i,
    {
        if crate::order::str_eq(items[i].key.as_str(), key) {
            return true;
        }
        i = i + 1;
    }
    false
}

/// Whether each table that is still empty has room for its sample rows.
pub open spec fn seeding_room(s: Store) -> bool {
    &&& (s.skills@.len() == 0 ==> s.next_skill_id <= i32::MAX - 12)
    &&& (s.projects@.len() == 0 ==> s.next_project_id <= i32::MAX - 2)
    &&& (s.blogs@.len() == 0 ==> s.next_blog_id <= i32::MAX - 2)
    &&& (s.experience@.len() == 0 ==> s.next_experience_id <= i32::MAX - 2)
    &&& (s.education@.len() == 0 ==> s.next_education_id <= i32::MAX - 1)
    &&& (s.services@.len() == 0 ==> s.next_service_id <= i32::MAX - 3)
}

/// A store the initializer has nothing left to do on: every singleton row
/// exists, every sample table holds rows, and every default content key is
/// present.
pub open spec fn already_seeded(s: Store) -> bool {
    &&& s.profile is Some
    &&& s.admin is Some
    &&& s.skills@.len() > 0
    &&& s.projects@.len() > 0
    &&& s.blogs@.len() > 0
    &&& s.experience@.len() > 0
    &&& s.education@.len() > 0
    &&& s.services@.len() > 0
    &&& (forall|ds: Seq<SiteContentItem>|
        #[trigger] is_default_content_list(ds) ==> all_keys_present(s.site_content@, ds))
}

/// How an initialized store relates to the store it was built from: each
/// missing singleton gained its default row, each empty table gained its
/// sample rows, every occupied table and the email settings are untouched,
/// and the content bag gained exactly the absent default entries.
pub open spec fn initialized_from(pre: Store, post: Store) -> bool {
    &&& (pre.profile is Some ==> post.profile == pre.profile)
    &&& (pre.profile is None ==> post.profile is Some && is_seeded_profile(post.profile->0))
    &&& (pre.admin is Some ==> post.admin == pre.admin)
    &&& (pre.admin is None ==> post.admin is Some && is_seeded_admin(post.admin->0))
    &&& post.email_settings == pre.email_settings
    &&& (pre.skills@.len() > 0 ==> post.skills == pre.skills && post.next_skill_id
        == pre.next_skill_id)
    &&& (pre.skills@.len() == 0 ==> is_seeded_skills(post.skills@, pre.next_skill_id as int)
        && post.next_skill_id == pre.next_skill_id + 12)
    &&& (pre.projects@.len() > 0 ==> post.projects == pre.projects && post.next_project_id
        == pre.next_project_id)
    &&& (pre.projects@.len() == 0 ==> is_seeded_projects(
        post.projects@,
        pre.next_project_id as int,
    ) && post.next_project_id == pre.next_project_id + 2)
    &&& (pre.blogs@.len() > 0 ==> post.blogs == pre.blogs && post.next_blog_id
        == pre.next_blog_id)
    &&& (pre.blogs@.len() == 0 ==> is_seeded_blogs(post.blogs@, pre.next_blog_id as int)
        && post.next_blog_id == pre.next_blog_id + 2)
    &&& (pre.experience@.len() > 0 ==> post.experience == pre.experience
        && post.next_experience_id == pre.next_experience_id)
    &&& (pre.experience@.len() == 0 ==> is_seeded_experience(
        post.experience@,
        pre.next_experience_id as int,
    ) && post.next_experience_id == pre.next_experience_id + 2)
    &&& (pre.education@.len() > 0 ==> post.education == pre.education
        && post.next_education_id == pre.next_education_id)
    &&& (pre.education@.len() == 0 ==> is_seeded_education(
        post.education@,
        pre.next_education_id as int,
    ) && post.next_education_id == pre.next_education_id + 1)
    &&& (pre.services@.len() > 0 ==> post.services == pre.services && post.next_service_id
        == pre.next_service_id)
    &&& (pre.services@.len() == 0 ==> is_seeded_services(
        post.services@,
        pre.next_service_id as int,
    ) && post.next_service_id == pre.next_service_id + 3)
    &&& post.next_message_id == pre.next_message_id
    &&& post.messages == pre.messages
    &&& post.files == pre.files
    &&& (exists|ds: Seq<SiteContentItem>|
        #[trigger] is_default_content_list(ds) && post.site_content@ == seed_content(
            pre.site_content@,
            ds,
        ))
}

impl Store {
    /// First-run initialization: create the default content keys, profile,
    /// bootstrap admin and sample rows, each only where nothing is there
    /// yet. Running it on an already-seeded store changes nothing, so it is
    /// safe to run on every start.
    #[verifier::rlimit(100)]
    pub fn initialize(&mut self) -> (r: Result<(), StoreError>)
        requires
            old(self).wf(),
        ensures
            final(self).wf(),
            final(self).email_settings == old(self).email_settings,
            r is Err ==> *final(self) == *old(self),
            !seeding_room(*old(self)) ==> r == Err::<(), StoreError>(StoreError::IdsExhausted),
            r == Err::<(), StoreError>(StoreError::IdsExhausted) ==> !seeding_room(*old(self)),
            r == Err::<(), StoreError>(StoreError::HashFailed) ==> old(self).admin is None,
            r is Err ==> r == Err::<(), StoreError>(StoreError::IdsExhausted) || r == Err::<
                (),
                StoreError,
            >(StoreError::HashFailed),
            seeding_room(*old(self)) && old(self).admin is Some ==> r is Ok,
            already_seeded(*old(self)) ==> r is Ok && *final(self) == *old(self),
            r is Ok ==> initialized_from(*old(self), *final(self)),
            r is Ok ==> already_seeded(*final(self)),
    {
        if self.skills.len() == 0 && self.next_skill_id > i32::MAX - 12 {
            return Err(StoreError::IdsExhausted);
        }
        if self.projects.len() == 0 && self.next_project_id > i32::MAX - 2 {
            return Err(StoreError::IdsExhausted);
        }
        if self.blogs.len() == 0 && self.next_blog_id > i32::MAX - 2 {
            return Err(StoreError::IdsExhausted);
        }
        if self.experience.len() == 0 && self.next_experience_id > i32::MAX - 2 {
            return Err(StoreError::IdsExhausted);
        }
        if self.education.len() == 0 && self.next_education_id > i32::MAX - 1 {
            return Err(StoreError::IdsExhausted);
        }
        if self.services.len() == 0 && self.next_service_id > i32::MAX - 3 {
            return Err(StoreError::IdsExhausted);
        }
        let admin_hash: Option<String> = match &self.admin {
            Some(_) => None,
            None => match outside::bcrypt_hash_default("admin123") {
                Some(h) => Some(h),
                None => {
                    return Err(StoreError::HashFailed);
                },
            },
        };
        let ds = default_site_content();
        let mut i: usize = 0;
        while i < ds.len()
            invariant
                0 <= i <= ds@.len(),
                old(self).wf(),
                self.wf(),
                is_default_content_list(ds@),
                same_tables_except_content(*old(self), *self),
                self.profile == old(self).profile,
                self.admin == old(self).admin,
                self.email_settings == old(self).email_settings,
                self.site_content@ == seed_content(old(self).site_content@, ds@.take(i as int)),
                all_keys_present(old(self).site_content@, ds@) ==> self.site_content == old(
                    self,
                ).site_content,
            decreases ds@.len() - i,
        {
            let present = content_key_in_use(&self.site_content, ds[i].key.as_str());
            if !present {
                self.site_content.push(ds[i].duplicate());
            }
            proof {
                assert(ds@.take(i + 1).drop_last() =~= ds@.take(i as int));
                assert(ds@.take(i + 1).last() == ds@[i as int]);
            }
            i = i + 1;
        }
        proof {
            assert(ds@.take(ds@.len() as int) =~= ds@);
            lemma_seed_all_present(old(self).site_content@, ds@);
        }
        if self.profile.is_none() {
            self.profile = Some(
                Profile {
                    id: 1,
                    name: String::from_str("Md Jobayer Arafat"),
                    title: String::from_str("Full Stack Developer & AI Enthusiast"),
                    bio: String::from_str("Passionate software developer with expertise in web development, machine learning, and building innovative solutions. I love creating efficient, scalable applications and exploring cutting-edge technologies."),
                    email: String::from_str("jobayerarafat@example.com"),
                    phone: String::from_str("+880 1234567890"),
                    location: String::from_str("Bangladesh"),
                    github_url: String::from_str("https://github.com/mdjobayerarafat"),
                    linkedin_url: String::from_str("https://linkedin.com/in/mdjobayerarafat"),
                    twitter_url: String::from_str("https://twitter.com/mdjobayerarafat"),
                    resume_url: String::from_str("/static/resume.pdf"),
                    avatar_url: String::from_str("/static/avatar.jpg"),
                },
            );
        }
        match admin_hash {
            Some(h) => {
                self.admin = Some(
                    Admin { id: 1, username: String::from_str("admin"), password_hash: h },
                );
            },
            None => {},
        }
        if self.skills.len() == 0 {
            let base = self.next_skill_id;
            self.skills.push(
                Skill {
                    id: base,
                    name: String::from_str("Rust"),
                    category: String::from_str("Backend"),
                    proficiency: 85,
                    icon: String::from_str("🦀"),
                    icon_url: String::new(),
                },
            );
            self.skills.push(
                Skill {
                    id: base + 1,
                    name: String::from_str("Python"),
                    category: String::from_str("Backend"),
                    proficiency: 90,
                    icon: String::from_str("🐍"),
                    icon_url: String::new(),
                },
            );
            self.skills.push(
                Skill {
                    id: base + 2,
                    name: String::from_str("JavaScript"),
                    category: String::from_str("Frontend"),
                    proficiency: 88,
                    icon: String::from_str("📜"),
                    icon_url: String::new(),
                },
            );
            self.skills.push(
                Skill {
                    id: base + 3,
                    name: String::from_str("TypeScript"),
                    category: String::from_str("Frontend"),
                    proficiency: 85,
                    icon: String::from_str("💙"),
                    icon_url: String::new(),
                },
            );
            self.skills.push(
                Skill {
                    id: base + 4,
                    name: String::from_str("React"),
                    category: String::from_str("Frontend"),
                    proficiency: 82,
                    icon: String::from_str("⚛️"),
                    icon_url: String::new(),
                },
            );
            self.skills.push(
                Skill {
                    id: base + 5,
                    name: String::from_str("Node.js"),
                    category: String::from_str("Backend"),
                    proficiency: 85,
                    icon: String::from_str("💚"),
                    icon_url: String::new(),
                },
            );
            self.skills.push(
                Skill {
                    id: base + 6,
                    name: String::from_str("PostgreSQL"),
                    category: String::from_str("Database"),
                    proficiency: 80,
                    icon: String::from_str("🐘"),
                    icon_url: String::new(),
                },
            );
            self.skills.push(
                Skill {
                    id: base + 7,
                    name: String::from_str("SQLite"),
                    category: String::from_str("Database"),
                    proficiency: 85,
                    icon: String::from_str("📦"),
                    icon_url: String::new(),
                },
            );
            self.skills.push(
                Skill {
                    id: base + 8,
                    name: String::from_str("Docker"),
                    category: String::from_str("DevOps"),
                    proficiency: 78,
                    icon: String::from_str("🐳"),
                    icon_url: String::new(),
                },
            );
            self.skills.push(
                Skill {
                    id: base + 9,
                    name: String::from_str("Git"),
                    category: String::from_str("Tools"),
                    proficiency: 90,
                    icon: String::from_str("📚"),
                    icon_url: String::new(),
                },
            );
            self.skills.push(
                Skill {
                    id: base + 10,
                    name: String::from_str("Linux"),
                    category: String::from_str("Tools"),
                    proficiency: 85,
                    icon: String::from_str("🐧"),
                    icon_url: String::new(),
                },
            );
            self.skills.push(
                Skill {
                    id: base + 11,
                    name: String::from_str("Machine Learning"),
                    category: String::from_str("AI/ML"),
                    proficiency: 80,
                    icon: String::from_str("🤖"),
                    icon_url: String::new(),
                },
            );
            self.next_skill_id = base + 12;
        }
        if self.projects.len() == 0 {
            let now = outside::now_timestamp();
            let base = self.next_project_id;
            self.projects.push(
                Project {
                    id: base,
                    title: String::from_str("Portfolio Website"),
                    slug: String::from_str("portfolio-website"),
                    description: String::from_str("A modern portfolio website built with Rust Actix Web and Tailwind CSS"),
                    content: String::from_str("## Overview\n\nThis portfolio website showcases my projects, skills, and blog posts. Built with modern technologies for optimal performance.\n\n## Features\n\n- Responsive dark theme design\n- Admin panel for content management\n- Blog with markdown support\n- Project showcase\n- Contact form"),
                    image_url: String::from_str("/static/images/portfolio.jpg"),
                    demo_url: String::from_str("https://example.com"),
                    github_url: String::from_str("https://github.com/mdjobayerarafat/portfolio"),
                    technologies: String::from_str("Rust, Actix Web, SQLite, Tailwind CSS, Tera"),
                    featured: true,
                    created_at: now.clone(),
                },
            );
            self.projects.push(
                Project {
                    id: base + 1,
                    title: String::from_str("AI Chat Application"),
                    slug: String::from_str("ai-chat-app"),
                    description: String::from_str("An intelligent chat application powered by machine learning"),
                    content: String::from_str("## Overview\n\nA real-time chat application with AI-powered responses and natural language processing capabilities.\n\n## Features\n\n- Real-time messaging\n- AI-powered responses\n- Natural language understanding\n- Multi-language support"),
                    image_url: String::from_str("/static/images/ai-chat.jpg"),
                    demo_url: String::from_str("https://example.com/chat"),
                    github_url: String::from_str("https://github.com/mdjobayerarafat/ai-chat"),
                    technologies: String::from_str("Python, FastAPI, React, TensorFlow, WebSocket"),
                    featured: true,
                    created_at: now,
                },
            );
            self.next_project_id = base + 2;
            proof {
                reveal_strlit("portfolio-website");
                reveal_strlit("ai-chat-app");
                assert("portfolio-website"@.len() == 17);
                assert("ai-chat-app"@.len() == 11);
                assert(self.projects@[0].slug@ != self.projects@[1].slug@);
            }
        }
        if self.blogs.len() == 0 {
            let now = outside::now_timestamp();
            let base = self.next_blog_id;
            self.blogs.push(
                Blog {
                    id: base,
                    title: String::from_str("Getting Started with Rust Web Development"),
                    slug: String::from_str("getting-started-rust-web"),
                    excerpt: String::from_str("Learn how to build fast and reliable web applications using Rust and Actix Web framework."),
                    content: String::from_str("## Introduction\n\nRust is a systems programming language that offers memory safety, concurrency, and performance. In this blog post, we'll explore how to build web applications using Rust.\n\n## Why Rust?\n\n- Memory safety without garbage collection\n- Zero-cost abstractions\n- Fearless concurrency\n- Great performance\n\n## Setting Up\n\nFirst, install Rust using rustup:\n\n```bash\ncurl --proto '=https' --tlsv1.2 -sSf https://sh.rustup.rs | sh\n```\n\n## Creating Your First Actix Web App\n\nCreate a new project and add dependencies..."),
                    image_url: String::from_str("/static/images/rust-blog.jpg"),
                    tags: String::from_str("Rust, Web Development, Actix"),
                    published: true,
                    created_at: now.clone(),
                    updated_at: now.clone(),
                },
            );
            self.blogs.push(
                Blog {
                    id: base + 1,
                    title: String::from_str("Building Modern UIs with Tailwind CSS"),
                    slug: String::from_str("modern-ui-tailwind-css"),
                    excerpt: String::from_str("Discover how Tailwind CSS can speed up your frontend development with utility-first approach."),
                    content: String::from_str("## What is Tailwind CSS?\n\nTailwind CSS is a utility-first CSS framework that allows you to build custom designs without leaving your HTML.\n\n## Benefits\n\n- No need to write custom CSS\n- Consistent design system\n- Responsive design made easy\n- Dark mode support\n\n## Getting Started\n\nInstall Tailwind via npm:\n\n```bash\nnpm install -D tailwindcss\nnpx tailwindcss init\n```\n\n## Building Components\n\nCreate beautiful components with utility classes..."),
                    image_url: String::from_str("/static/images/tailwind-blog.jpg"),
                    tags: String::from_str("CSS, Tailwind, Frontend"),
                    published: true,
                    created_at: now.clone(),
                    updated_at: now,
                },
            );
            self.next_blog_id = base + 2;
            proof {
                reveal_strlit("getting-started-rust-web");
                reveal_strlit("modern-ui-tailwind-css");
                assert("getting-started-rust-web"@.len() == 24);
                assert("modern-ui-tailwind-css"@.len() == 22);
                assert(self.blogs@[0].slug@ != self.blogs@[1].slug@);
            }
        }
        if self.experience.len() == 0 {
            let base = self.next_experience_id;
            self.experience.push(
                Experience {
                    id: base,
                    company: String::from_str("Tech Company"),
                    position: String::from_str("Senior Software Developer"),
                    description: String::from_str("Building scalable web applications and leading development teams."),
                    start_date: String::from_str("2022-01"),
                    end_date: String::from_str(""),
                    current: true,
                },
            );
            self.experience.push(
                Experience {
                    id: base + 1,
                    company: String::from_str("Startup Inc"),
                    position: String::from_str("Full Stack Developer"),
                    description: String::from_str("Developed full-stack applications using modern technologies."),
                    start_date: String::from_str("2020-06"),
                    end_date: String::from_str("2022-01"),
                    current: false,
                },
            );
            self.next_experience_id = base + 2;
        }
        if self.education.len() == 0 {
            let base = self.next_education_id;
            self.education.push(
                Education {
                    id: base,
                    institution: String::from_str("University of Technology"),
                    degree: String::from_str("Bachelor of Science"),
                    field: String::from_str("Computer Science and Engineering"),
                    start_date: String::from_str("2016"),
                    end_date: String::from_str("2020"),
                    description: String::from_str("Focused on software engineering and machine learning."),
                },
            );
            self.next_education_id = base + 1;
        }
        if self.services.len() == 0 {
            let base = self.next_service_id;
            self.services.push(
                Service {
                    id: base,
                    name: String::from_str("UI/UX Design"),
                    description: String::from_str("Creating beautiful and intuitive user interfaces with modern design principles."),
                    image_url: String::from_str(""),
                    icon: String::from_str("🎨"),
                    order_index: 1,
                },
            );
            self.services.push(
                Service {
                    id: base + 1,
                    name: String::from_str("Web Design"),
                    description: String::from_str("Building responsive, modern websites that look great on all devices."),
                    image_url: String::from_str(""),
                    icon: String::from_str("🌐"),
                    order_index: 2,
                },
            );
            self.services.push(
                Service {
                    id: base + 2,
                    name: String::from_str("Landing Page Design"),
                    description: String::from_str("High-converting landing pages designed to maximize your business goals."),
                    image_url: String::from_str(""),
                    icon: String::from_str("📄"),
                    order_index: 3,
                },
            );
            self.next_service_id = base + 3;
        }
        proof {
            assert forall|ds2: Seq<SiteContentItem>|
                #[trigger] is_default_content_list(ds2) implies all_keys_present(
                self.site_content@,
                ds2,
            ) by {
                lemma_default_lists_alike(ds@, ds2, self.site_content@);
            }
            if already_seeded(*old(self)) {
                assert(all_keys_present(old(self).site_content@, ds@));
                assert(*self == *old(self));
            }
        }
        Ok(())
    }
}

} // verus!
