//! The public page handlers: each assembles its page data from the store,
//! renders markdown bodies to HTML where a detail page needs it, and
//! reports a missing profile row or an unknown slug as an error instead of
//! a page.

use vstd::prelude::*;

use crate::email;
use crate::email::EmailPlan;
use crate::models::{
    Blog, ContactForm, Education, Experience, Profile, Project, Service, SiteContentItem, Skill,
};
use crate::order::sorted;
use crate::outside;
use crate::response::PageError;
use crate::store;
use crate::store::Store;

verus! {

/// Copy a byte buffer for a response body.
fn copy_bytes(data: &Vec<u8>) -> (r: Vec<u8>)
    ensures
        r@ == data@,
{
    let mut out: Vec<u8> = Vec::new();
    let mut i: usize = 0;
    while i < data.len()
        invariant
            0 <= i <= data@.len(),
            out@ =~= data@.take(i as int),
        decreases data@.len() - i,
    {
        out.push(data[i]);
        i = i + 1;
    }
    proof {
        assert(out@ =~= data@);
    }
    out
}

/// The front page: profile, skills, the featured projects, the three most
/// recent published blogs, experience, services and the content bag.
pub struct IndexPage {
    pub profile: Profile,
    pub skills: Vec<Skill>,
    pub featured_projects: Vec<Project>,
    pub recent_blogs: Vec<Blog>,
    pub experience: Vec<Experience>,
    pub services: Vec<Service>,
    pub content: Vec<SiteContentItem>,
}

pub fn index(s: &Store) -> (r: Result<IndexPage, PageError>)
    requires
        s.wf(),
    ensures
        match r {
            Ok(p) => {
                &&& s.profile == Some(p.profile)
                &&& p.skills@.to_multiset() == s.skills@.to_multiset()
                &&& sorted(p.skills@)
                &&& sorted(p.featured_projects@)
                &&& p.featured_projects@.len() <= 4
                &&& (forall|i: int|
                    0 <= i < p.featured_projects@.len()
                        ==> (#[trigger] p.featured_projects@[i]).featured)
                &&& sorted(p.recent_blogs@)
                &&& p.recent_blogs@.len() <= 3
                &&& (forall|i: int|
                    0 <= i < p.recent_blogs@.len() ==> (#[trigger] p.recent_blogs@[i]).published)
                &&& p.experience@.to_multiset() == s.experience@.to_multiset()
                &&& sorted(p.experience@)
                &&& p.services@.to_multiset() == s.services@.to_multiset()
                &&& sorted(p.services@)
                &&& p.content@ == s.site_content@
            },
            Err(e) => e == PageError::MissingProfile && s.profile is None,
        },
{
    let profile = match s.get_profile() {
        Ok(p) => p.duplicate(),
        Err(_) => {
            return Err(PageError::MissingProfile);
        },
    };
    let skills = s.get_skills();
    let featured_projects = s.get_featured_projects();
    let recent_blogs = s.get_recent_blogs(3);
    let experience = s.get_experience();
    let services = s.get_services();
    let content = s.get_site_content();
    proof {
        let full = choose|full: Seq<Project>|
            #![auto]
            full.to_multiset() == s.projects@.filter(|p: Project| p.featured).to_multiset()
                && sorted(full) && featured_projects@ == if full.len() <= 4 {
                full
            } else {
                full.take(4)
            };
        assert forall|i: int|
            0 <= i < featured_projects@.len() implies (#[trigger] featured_projects@[i]).featured
            by {
            broadcast use vstd::seq_lib::group_to_multiset_ensures;

            let fp = s.projects@.filter(|p: Project| p.featured);
            assert(full.contains(full[i]));
            assert(full.to_multiset().count(full[i]) > 0);
            assert(fp.to_multiset().count(full[i]) > 0);
            assert(fp.contains(full[i]));
            let j = choose|j: int| 0 <= j < fp.len() && fp[j] == full[i];
            s.projects@.lemma_filter_pred(|p: Project| p.featured, j);
        }
        let fullb = choose|fullb: Seq<Blog>|
            #![auto]
            fullb.to_multiset() == s.blogs@.filter(|b: Blog| b.published).to_multiset() && sorted(
                fullb,
            ) && recent_blogs@ == if fullb.len() <= 3 {
                fullb
            } else {
                fullb.take(3)
            };
        assert forall|i: int|
            0 <= i < recent_blogs@.len() implies (#[trigger] recent_blogs@[i]).published by {
            broadcast use vstd::seq_lib::group_to_multiset_ensures;

            let fb = s.blogs@.filter(|b: Blog| b.published);
            assert(fullb.contains(fullb[i]));
            assert(fullb.to_multiset().count(fullb[i]) > 0);
            assert(fb.to_multiset().count(fullb[i]) > 0);
            assert(fb.contains(fullb[i]));
            let j = choose|j: int| 0 <= j < fb.len() && fb[j] == fullb[i];
            s.blogs@.lemma_filter_pred(|b: Blog| b.published, j);
        }
    }
    Ok(
        IndexPage {
            profile,
            skills,
            featured_projects,
            recent_blogs,
            experience,
            services,
            content,
        },
    )
}

/// The about page: profile, skills, experience, education and content.
pub struct AboutPage {
    pub profile: Profile,
    pub skills: Vec<Skill>,
    pub experience: Vec<Experience>,
    pub education: Vec<Education>,
    pub content: Vec<SiteContentItem>,
}

pub fn about(s: &Store) -> (r: Result<AboutPage, PageError>)
    requires
        s.wf(),
    ensures
        match r {
            Ok(p) => {
                &&& s.profile == Some(p.profile)
                &&& p.skills@.to_multiset() == s.skills@.to_multiset()
                &&& sorted(p.skills@)
                &&& p.experience@.to_multiset() == s.experience@.to_multiset()
                &&& sorted(p.experience@)
                &&& p.education@.to_multiset() == s.education@.to_multiset()
                &&& sorted(p.education@)
                &&& p.content@ == s.site_content@
            },
            Err(e) => e == PageError::MissingProfile && s.profile is None,
        },
{
    let profile = match s.get_profile() {
        Ok(p) => p.duplicate(),
        Err(_) => {
            return Err(PageError::MissingProfile);
        },
    };
    Ok(
        AboutPage {
            profile,
            skills: s.get_skills(),
            experience: s.get_experience(),
            education: s.get_education(),
            content: s.get_site_content(),
        },
    )
}

/// The project list page.
pub struct ProjectsPage {
    pub profile: Profile,
    pub projects: Vec<Project>,
    pub content: Vec<SiteContentItem>,
}

pub fn projects(s: &Store) -> (r: Result<ProjectsPage, PageError>)
    requires
        s.wf(),
    ensures
        match r {
            Ok(p) => {
                &&& s.profile == Some(p.profile)
                &&& p.projects@.to_multiset() == s.projects@.to_multiset()
                &&& sorted(p.projects@)
                &&& p.content@ == s.site_content@
            },
            Err(e) => e == PageError::MissingProfile && s.profile is None,
        },
{
    let profile = match s.get_profile() {
        Ok(p) => p.duplicate(),
        Err(_) => {
            return Err(PageError::MissingProfile);
        },
    };
    Ok(ProjectsPage { profile, projects: s.get_projects(), content: s.get_site_content() })
}

/// A project detail page: the record and its markdown body rendered to
/// HTML.
pub struct ProjectDetailPage {
    pub profile: Profile,
    pub project: Project,
    pub content_html: String,
}

pub fn project_detail(s: &Store, slug: &str) -> (r: Result<ProjectDetailPage, PageError>)
    requires
        s.wf(),
    ensures
        match r {
            Ok(p) => {
                &&& s.profile == Some(p.profile)
                &&& s.projects@.contains(p.project)
                &&& p.project.slug@ == slug@
                &&& p.content_html@ == outside::html_of(p.project.content@)
            },
            Err(e) => {
                &&& (e == PageError::MissingProfile <==> s.profile is None)
                &&& (e == PageError::NotFound ==> !store::project_slug_taken(s.projects@, slug@))
            },
        },
{
    let profile = match s.get_profile() {
        Ok(p) => p.duplicate(),
        Err(_) => {
            return Err(PageError::MissingProfile);
        },
    };
    match s.get_project_by_slug(slug) {
        Ok(project) => {
            let project = project.duplicate();
            let content_html = outside::markdown_to_html(project.content.as_str());
            Ok(ProjectDetailPage { profile, project, content_html })
        },
        Err(_) => Err(PageError::NotFound),
    }
}

/// The blog list page: only published posts.
pub struct BlogsPage {
    pub profile: Profile,
    pub blogs: Vec<Blog>,
    pub content: Vec<SiteContentItem>,
}

pub fn blogs(s: &Store) -> (r: Result<BlogsPage, PageError>)
    requires
        s.wf(),
    ensures
        match r {
            Ok(p) => {
                &&& s.profile == Some(p.profile)
                &&& p.blogs@.to_multiset() == s.blogs@.filter(|b: Blog| b.published).to_multiset()
                &&& sorted(p.blogs@)
                &&& p.content@ == s.site_content@
            },
            Err(e) => e == PageError::MissingProfile && s.profile is None,
        },
{
    let profile = match s.get_profile() {
        Ok(p) => p.duplicate(),
        Err(_) => {
            return Err(PageError::MissingProfile);
        },
    };
    Ok(BlogsPage { profile, blogs: s.get_published_blogs(), content: s.get_site_content() })
}

/// A blog detail page: the record and its markdown body rendered to HTML.
pub struct BlogDetailPage {
    pub profile: Profile,
    pub blog: Blog,
    pub content_html: String,
}

pub fn blog_detail(s: &Store, slug: &str) -> (r: Result<BlogDetailPage, PageError>)
    requires
        s.wf(),
    ensures
        match r {
            Ok(p) => {
                &&& s.profile == Some(p.profile)
                &&& s.blogs@.contains(p.blog)
                &&& p.blog.slug@ == slug@
                &&& p.content_html@ == outside::html_of(p.blog.content@)
            },
            Err(e) => {
                &&& (e == PageError::MissingProfile <==> s.profile is None)
                &&& (e == PageError::NotFound ==> !store::blog_slug_taken(s.blogs@, slug@))
            },
        },
{
    let profile = match s.get_profile() {
        Ok(p) => p.duplicate(),
        Err(_) => {
            return Err(PageError::MissingProfile);
        },
    };
    match s.get_blog_by_slug(slug) {
        Ok(blog) => {
            let blog = blog.duplicate();
            let content_html = outside::markdown_to_html(blog.content.as_str());
            Ok(BlogDetailPage { profile, blog, content_html })
        },
        Err(_) => Err(PageError::NotFound),
    }
}

/// The contact page; `success` is set after a submission was stored.
pub struct ContactPage {
    pub profile: Profile,
    pub content: Vec<SiteContentItem>,
    pub success: bool,
}

pub fn contact(s: &Store) -> (r: Result<ContactPage, PageError>)
    requires
        s.wf(),
    ensures
        match r {
            Ok(p) => s.profile == Some(p.profile) && p.content@ == s.site_content@ && !p.success,
            Err(e) => e == PageError::MissingProfile && s.profile is None,
        },
{
    let profile = match s.get_profile() {
        Ok(p) => p.duplicate(),
        Err(_) => {
            return Err(PageError::MissingProfile);
        },
    };
    Ok(ContactPage { profile, content: s.get_site_content(), success: false })
}

/// A contact submission: the message is stored, and a notification send is
/// handed back exactly when notifications are enabled — with notifications
/// off, nothing at all is to be sent. The page always reports success.
pub fn submit_contact(s: &mut Store, form: &ContactForm) -> (r: Result<
    (ContactPage, Option<Result<EmailPlan, email::EmailError>>),
    PageError,
>)
    requires
        old(s).wf(),
    ensures
        final(s).wf(),
        match r {
            Ok(out) => {
                &&& old(s).profile is Some
                &&& final(s).profile == old(s).profile
                &&& out.0.success
                &&& old(s).profile == Some(out.0.profile)
                &&& store::same_tables_except_messages(
                    Store { email_settings: old(s).email_settings, ..*final(s) },
                    *old(s),
                )
                &&& final(s).email_settings is Some
                &&& (old(s).email_settings is Some ==> final(s).email_settings == old(
                    s,
                ).email_settings)
                &&& (old(s).next_message_id < i32::MAX ==> {
                    &&& final(s).messages@.len() == old(s).messages@.len() + 1
                    &&& final(s).messages@.drop_last() == old(s).messages@
                    &&& store::is_new_message(
                        final(s).messages@.last(),
                        *form,
                        old(s).next_message_id,
                    )
                })
                &&& (old(s).next_message_id == i32::MAX ==> final(s).messages@ == old(
                    s,
                ).messages@)
                &&& (out.1 is Some <==> final(s).email_settings->0.enabled)
                &&& (out.1 matches Some(planned) ==> email::planned(
                    planned,
                    final(s).email_settings->0,
                    form.name@,
                    form.email@,
                    form.subject@,
                    form.message@,
                ))
            },
            Err(e) => e == PageError::MissingProfile && old(s).profile is None && *final(s)
                == *old(s),
        },
{
    let profile = match self_profile(s) {
        Some(p) => p,
        None => {
            return Err(PageError::MissingProfile);
        },
    };
    let _ = s.add_message(form);
    let settings = match s.get_email_settings() {
        Ok(e) => e,
        Err(_) => {
            return Err(PageError::MissingProfile);
        },
    };
    let task: Option<Result<EmailPlan, email::EmailError>> = if settings.enabled {
        Some(
            email::plan_notification(
                &settings,
                form.name.as_str(),
                form.email.as_str(),
                form.subject.as_str(),
                form.message.as_str(),
            ),
        )
    } else {
        None
    };
    let content = s.get_site_content();
    Ok((ContactPage { profile, content, success: true }, task))
}

/// The profile row as an owned copy, when it exists.
fn self_profile(s: &Store) -> (r: Option<Profile>)
    ensures
        r is Some <==> s.profile is Some,
        r is Some ==> s.profile == Some(r->Some_0),
{
    match s.get_profile() {
        Ok(p) => Some(p.duplicate()),
        Err(_) => None,
    }
}

/// A stored image streamed back: its declared content type and bytes.
pub struct ImageResponse {
    pub content_type: String,
    pub data: Vec<u8>,
}

pub fn serve_image(s: &Store, id: &str) -> (r: Result<ImageResponse, PageError>)
    requires
        s.wf(),
    ensures
        match r {
            Ok(img) => exists|k: int|
                0 <= k < s.files@.len() && (#[trigger] s.files@[k]).id@ == id@ && img.content_type@
                    == s.files@[k].content_type@ && img.data@ == s.files@[k].data@,
            Err(e) => e == PageError::NotFound && !store::file_id_taken(s.files@, id@),
        },
{
    match s.get_image(id) {
        Ok(f) => {
            Ok(ImageResponse { content_type: f.content_type.clone(), data: copy_bytes(&f.data) })
        },
        Err(_) => Err(PageError::NotFound),
    }
}

/// A stored file streamed back as a download: bytes, content type, and the
/// content-disposition header value that forces a download under the
/// original filename.
pub struct FileResponse {
    pub filename: String,
    pub content_type: String,
    pub disposition: String,
    pub data: Vec<u8>,
}

pub fn serve_file(s: &Store, id: &str) -> (r: Result<FileResponse, PageError>)
    requires
        s.wf(),
    ensures
        match r {
            Ok(f) => exists|k: int|
                0 <= k < s.files@.len() && (#[trigger] s.files@[k]).id@ == id@ && f.filename@
                    == s.files@[k].filename@ && f.content_type@ == s.files@[k].content_type@
                    && f.data@ == s.files@[k].data@ && f.disposition@ == "attachment; filename=\""@
                    + s.files@[k].filename@ + "\""@,
            Err(e) => e == PageError::NotFound && !store::file_id_taken(s.files@, id@),
        },
{
    match s.get_image_with_filename(id) {
        Ok(f) => {
            let mut disposition = String::new();
            disposition.append("attachment; filename=\"");
            disposition.append(f.filename.as_str());
            disposition.append("\"");
            Ok(
                FileResponse {
                    filename: f.filename.clone(),
                    content_type: f.content_type.clone(),
                    disposition,
                    data: copy_bytes(&f.data),
                },
            )
        },
        Err(_) => Err(PageError::NotFound),
    }
}

} // verus!
