//! The admin handlers: every one first applies the authentication gate,
//! then reads or rewrites the store, and answers with a page, a redirect
//! to the owning list page, or a plain-text not-found. Write failures are
//! swallowed and the redirect still happens, so the console cannot tell a
//! failed write from a successful one.

use vstd::prelude::*;

use crate::auth;
use crate::email;
use crate::email::EmailPlan;
use crate::models::{
    Blog, BlogForm, Education, EmailSettings, EmailSettingsForm, Message, Profile, ProfileForm,
    Project, ProjectForm, Service, ServiceForm, Skill, SkillForm, SiteContentItem,
};

use crate::multipart;
use crate::multipart::{assoc_map, fields_model, file_model, files_model, fval, Part};
use crate::order::sorted;
use crate::outside;
use crate::parse;
use crate::response::{AdminOutcome, PageError};
use crate::store;
use crate::store::Store;

verus! {

/// An upload id as the store coins it.
pub open spec fn valid_upload_id(fid: Seq<char>) -> bool {
    fid.len() == 36
}

/// Save uploaded bytes under a fresh random id and hand back the URL they
/// will be served under; on the (random) chance the id is already taken,
/// the write error is swallowed, the store is left alone, and the URL
/// still points at the colliding id.
fn store_upload(s: &mut Store, filename: &str, content_type: &str, data: &Vec<u8>, prefix: &str)
    -> (r: String)
    requires
        old(s).wf(),
    ensures
        final(s).wf(),
        store::same_tables_except_files(*old(s), *final(s)),
        exists|fid: Seq<char>|
            {
                &&& #[trigger] valid_upload_id(fid)
                &&& r@ == prefix@ + fid
                &&& (store::file_id_taken(old(s).files@, fid) ==> *final(s) == *old(s))
                &&& (!store::file_id_taken(old(s).files@, fid) ==> {
                    &&& final(s).files@.len() == old(s).files@.len() + 1
                    &&& final(s).files@.drop_last() == old(s).files@
                    &&& final(s).files@.last().id@ == fid
                    &&& final(s).files@.last().filename@ == filename@
                    &&& final(s).files@.last().content_type@ == content_type@
                    &&& final(s).files@.last().data@ == data@
                })
            },
{
    let id = outside::fresh_file_id();
    let _ = s.save_image(id.as_str(), filename, content_type, data.as_slice());
    let mut url = String::from_str(prefix);
    url.append(id.as_str());
    proof {
        assert(valid_upload_id(id@));
        assert(url@ == prefix@ + id@);
    }
    url
}

/// The dashboard: the profile and how many rows each table holds.
pub struct DashboardPage {
    pub profile: Profile,
    pub projects_count: usize,
    pub blogs_count: usize,
    pub skills_count: usize,
    pub messages_count: usize,
    pub unread_count: i32,
}

pub fn dashboard(s: &Store, session_admin: &Option<String>) -> (r: Result<
    AdminOutcome<DashboardPage>,
    PageError,
>)
    requires
        s.wf(),
    ensures
        session_admin is None ==> r matches Ok(AdminOutcome::RedirectLogin),
        session_admin is Some && s.profile is None ==> r == Err::<
            AdminOutcome<DashboardPage>,
            PageError,
        >(PageError::MissingProfile),
        session_admin is Some && s.profile is Some ==> (r matches Ok(AdminOutcome::Page { data })
            && {
            &&& s.profile == Some(data.profile)
            &&& data.projects_count == s.projects@.len()
            &&& data.blogs_count == s.blogs@.len()
            &&& data.skills_count == s.skills@.len()
            &&& data.messages_count == s.messages@.len()
            &&& data.unread_count == s.messages@.filter(|m: Message| !m.read).len()
        }),
{
    if auth::require_auth(session_admin).is_some() {
        return Ok(AdminOutcome::RedirectLogin);
    }
    let profile = match s.get_profile() {
        Ok(p) => p.duplicate(),
        Err(_) => {
            return Err(PageError::MissingProfile);
        },
    };
    let projects = s.get_projects();
    let blogs = s.get_blogs();
    let skills = s.get_skills();
    let messages = s.get_messages();
    let unread_count = s.get_unread_message_count();
    Ok(
        AdminOutcome::Page {
            data: DashboardPage {
                profile,
                projects_count: projects.len(),
                blogs_count: blogs.len(),
                skills_count: skills.len(),
                messages_count: messages.len(),
                unread_count,
            },
        },
    )
}

/// The profile editing page; `success` is set after a saved update.
pub struct ProfileEditPage {
    pub profile: Profile,
    pub success: bool,
}

pub fn profile_page(s: &Store, session_admin: &Option<String>) -> (r: Result<
    AdminOutcome<ProfileEditPage>,
    PageError,
>)
    requires
        s.wf(),
    ensures
        session_admin is None ==> r matches Ok(AdminOutcome::RedirectLogin),
        session_admin is Some && s.profile is None ==> r == Err::<
            AdminOutcome<ProfileEditPage>,
            PageError,
        >(PageError::MissingProfile),
        session_admin is Some && s.profile is Some ==> (r matches Ok(AdminOutcome::Page { data })
            && s.profile == Some(data.profile) && !data.success),
{
    if auth::require_auth(session_admin).is_some() {
        return Ok(AdminOutcome::RedirectLogin);
    }
    match s.get_profile() {
        Ok(p) => Ok(
            AdminOutcome::Page { data: ProfileEditPage { profile: p.duplicate(), success: false } },
        ),
        Err(_) => Err(PageError::MissingProfile),
    }
}

/// Overwrite the profile from a plain form and re-render the editor with
/// the saved values.
pub fn update_profile(s: &mut Store, session_admin: &Option<String>, form: &ProfileForm) -> (r:
    Result<AdminOutcome<ProfileEditPage>, PageError>)
    requires
        old(s).wf(),
    ensures
        final(s).wf(),
        session_admin is None ==> (r matches Ok(AdminOutcome::RedirectLogin)) && *final(s) == *old(
            s,
        ),
        session_admin is Some ==> store::same_tables_except_profile(*old(s), *final(s)),
        session_admin is Some && old(s).profile is None ==> r == Err::<
            AdminOutcome<ProfileEditPage>,
            PageError,
        >(PageError::MissingProfile) && *final(s) == *old(s),
        session_admin is Some && old(s).profile is Some ==> {
            &&& final(s).profile == Some(
                Profile {
                    id: 1,
                    name: form.name,
                    title: form.title,
                    bio: form.bio,
                    email: form.email,
                    phone: form.phone,
                    location: form.location,
                    github_url: form.github_url,
                    linkedin_url: form.linkedin_url,
                    twitter_url: form.twitter_url,
                    resume_url: form.resume_url,
                    avatar_url: form.avatar_url,
                },
            )
            &&& (r matches Ok(AdminOutcome::Page { data }) && final(s).profile == Some(
                data.profile,
            ) && data.success)
        },
{
    if auth::require_auth(session_admin).is_some() {
        return Ok(AdminOutcome::RedirectLogin);
    }
    let _ = s.update_profile(form);
    match s.get_profile() {
        Ok(p) => Ok(
            AdminOutcome::Page { data: ProfileEditPage { profile: p.duplicate(), success: true } },
        ),
        Err(_) => Err(PageError::MissingProfile),
    }
}

/// The skills management page.
pub struct SkillsPage {
    pub profile: Profile,
    pub skills: Vec<Skill>,
}

pub fn skills_page(s: &Store, session_admin: &Option<String>) -> (r: Result<
    AdminOutcome<SkillsPage>,
    PageError,
>)
    requires
        s.wf(),
    ensures
        session_admin is None ==> r matches Ok(AdminOutcome::RedirectLogin),
        session_admin is Some && s.profile is None ==> r == Err::<
            AdminOutcome<SkillsPage>,
            PageError,
        >(PageError::MissingProfile),
        session_admin is Some && s.profile is Some ==> (r matches Ok(AdminOutcome::Page { data })
            && {
            &&& s.profile == Some(data.profile)
            &&& data.skills@.to_multiset() == s.skills@.to_multiset()
            &&& sorted(data.skills@)
        }),
{
    if auth::require_auth(session_admin).is_some() {
        return Ok(AdminOutcome::RedirectLogin);
    }
    match s.get_profile() {
        Ok(p) => {
            let profile = p.duplicate();
            Ok(AdminOutcome::Page { data: SkillsPage { profile, skills: s.get_skills() } })
        },
        Err(_) => Err(PageError::MissingProfile),
    }
}

/// The proficiency a skill form submits: the parsed number with 80 as the
/// fallback for an unparsable value, or 0 when the field never arrived.
pub open spec fn submitted_proficiency(m: Map<Seq<char>, Seq<char>>) -> i32 {
    if m.contains_key("proficiency"@) {
        match parse::parse_i32_spec(m["proficiency"@]) {
            Some(v) => v,
            None => 80,
        }
    } else {
        0
    }
}

/// Add a skill from a multipart form: text fields fill the record, and a
/// file sent as `icon_file` is stored and becomes the icon URL.
pub fn add_skill(s: &mut Store, session_admin: &Option<String>, parts: &Vec<Part>) -> (r:
    AdminOutcome<()>)
    requires
        old(s).wf(),
    ensures
        final(s).wf(),
        session_admin is None ==> (r is RedirectLogin) && *final(s) == *old(s),
        session_admin is Some ==> {
            let m = fields_model(parts@);
            let fm = files_model(parts@);
            &&& (r matches AdminOutcome::Redirect { location } && location@ == "/admin/skills"@)
            &&& store::same_tables_except_skills_and_files(*old(s), *final(s))
            &&& (old(s).next_skill_id < i32::MAX ==> {
                &&& final(s).skills@.len() == old(s).skills@.len() + 1
                &&& final(s).skills@.drop_last() == old(s).skills@
                &&& final(s).skills@.last().name@ == fval(m, "name"@)
                &&& final(s).skills@.last().category@ == fval(m, "category"@)
                &&& final(s).skills@.last().icon@ == fval(m, "icon"@)
                &&& final(s).skills@.last().proficiency == submitted_proficiency(m)
                &&& final(s).skills@.last().id == old(s).next_skill_id
            })
            &&& (fm.contains_key("icon_file"@) ==> exists|fid: Seq<char>|
                {
                    &&& #[trigger] valid_upload_id(fid)
                    &&& (old(s).next_skill_id < i32::MAX ==> final(s).skills@.last().icon_url@
                        == "/images/"@ + fid)
                    &&& (!store::file_id_taken(old(s).files@, fid) ==> {
                        &&& final(s).files@.len() == old(s).files@.len() + 1
                        &&& final(s).files@.drop_last() == old(s).files@
                        &&& final(s).files@.last().id@ == fid
                        &&& final(s).files@.last().filename@ == fm["icon_file"@].0
                        &&& final(s).files@.last().content_type@ == multipart::payload_ctype_or(
                            fm["icon_file"@].1,
                            "image/png"@,
                        )
                        &&& final(s).files@.last().data@ == fm["icon_file"@].2
                    })
                    &&& (store::file_id_taken(old(s).files@, fid) ==> final(s).files == old(
                        s,
                    ).files)
                })
            &&& (!fm.contains_key("icon_file"@) ==> final(s).files == old(s).files && (old(
                s,
            ).next_skill_id < i32::MAX ==> final(s).skills@.last().icon_url@
                == Seq::<char>::empty()))
        },
{
    if auth::require_auth(session_admin).is_some() {
        return AdminOutcome::RedirectLogin;
    }
    let (fields, files) = multipart::extract_multipart_with_files(parts);
    let icon_url: String = match multipart::get_file(&files, "icon_file") {
        Some(f) => {
            let ctype = multipart::ctype_or(f, "image/png");
            store_upload(s, f.filename.as_str(), ctype.as_str(), &f.data, "/images/")
        },
        None => String::new(),
    };
    let form = SkillForm {
        name: multipart::field_or_empty(&fields, "name"),
        category: multipart::field_or_empty(&fields, "category"),
        proficiency: match multipart::field_opt(&fields, "proficiency") {
            Some(v) => match parse::parse_i32(v.as_str()) {
                Some(n) => n,
                None => 80,
            },
            None => 0,
        },
        icon: multipart::field_or_empty(&fields, "icon"),
        icon_url,
    };
    let _ = s.add_skill(&form);
    AdminOutcome::Redirect { location: String::from_str("/admin/skills") }
}

/// Remove a skill and return to the skills page.
pub fn delete_skill(s: &mut Store, session_admin: &Option<String>, id: i32) -> (r: AdminOutcome<
    (),
>)
    requires
        old(s).wf(),
    ensures
        final(s).wf(),
        session_admin is None ==> (r is RedirectLogin) && *final(s) == *old(s),
        session_admin is Some ==> {
            &&& (r matches AdminOutcome::Redirect { location } && location@ == "/admin/skills"@)
            &&& store::same_tables_except_skills(*old(s), *final(s))
            &&& final(s).next_skill_id == old(s).next_skill_id
            &&& final(s).skills@ == old(s).skills@.filter(|sk: Skill| sk.id != id)
        },
{
    if auth::require_auth(session_admin).is_some() {
        return AdminOutcome::RedirectLogin;
    }
    let _ = s.delete_skill(id);
    AdminOutcome::Redirect { location: String::from_str("/admin/skills") }
}

/// The projects management page.
pub struct ProjectsAdminPage {
    pub profile: Profile,
    pub projects: Vec<Project>,
}

pub fn projects_page(s: &Store, session_admin: &Option<String>) -> (r: Result<
    AdminOutcome<ProjectsAdminPage>,
    PageError,
>)
    requires
        s.wf(),
    ensures
        session_admin is None ==> r matches Ok(AdminOutcome::RedirectLogin),
        session_admin is Some && s.profile is None ==> r == Err::<
            AdminOutcome<ProjectsAdminPage>,
            PageError,
        >(PageError::MissingProfile),
        session_admin is Some && s.profile is Some ==> (r matches Ok(AdminOutcome::Page { data })
            && {
            &&& s.profile == Some(data.profile)
            &&& data.projects@.to_multiset() == s.projects@.to_multiset()
            &&& sorted(data.projects@)
        }),
{
    if auth::require_auth(session_admin).is_some() {
        return Ok(AdminOutcome::RedirectLogin);
    }
    match s.get_profile() {
        Ok(p) => {
            let profile = p.duplicate();
            Ok(AdminOutcome::Page { data: ProjectsAdminPage { profile, projects: s.get_projects() } })
        },
        Err(_) => Err(PageError::MissingProfile),
    }
}

/// A page that only needs the profile around the form it shows.
pub struct AdminShell {
    pub profile: Profile,
}

pub fn add_project_page(s: &Store, session_admin: &Option<String>) -> (r: Result<
    AdminOutcome<AdminShell>,
    PageError,
>)
    requires
        s.wf(),
    ensures
        session_admin is None ==> r matches Ok(AdminOutcome::RedirectLogin),
        session_admin is Some && s.profile is None ==> r == Err::<
            AdminOutcome<AdminShell>,
            PageError,
        >(PageError::MissingProfile),
        session_admin is Some && s.profile is Some ==> (r matches Ok(AdminOutcome::Page { data })
            && s.profile == Some(data.profile)),
{
    if auth::require_auth(session_admin).is_some() {
        return Ok(AdminOutcome::RedirectLogin);
    }
    match s.get_profile() {
        Ok(p) => Ok(AdminOutcome::Page { data: AdminShell { profile: p.duplicate() } }),
        Err(_) => Err(PageError::MissingProfile),
    }
}

/// Add a project from a plain form and return to the project list; a
/// duplicate slug or exhausted id space is swallowed, and the redirect
/// happens regardless.
pub fn add_project(s: &mut Store, session_admin: &Option<String>, form: &ProjectForm) -> (r:
    AdminOutcome<()>)
    requires
        old(s).wf(),
    ensures
        final(s).wf(),
        session_admin is None ==> (r is RedirectLogin) && *final(s) == *old(s),
        session_admin is Some ==> {
            &&& (r matches AdminOutcome::Redirect { location } && location@ == "/admin/projects"@)
            &&& store::same_tables_except_projects(*old(s), *final(s))
            &&& (old(s).next_project_id < i32::MAX && !store::project_slug_taken(
                old(s).projects@,
                outside::slug_of(form.title@),
            ) ==> {
                &&& final(s).projects@.len() == old(s).projects@.len() + 1
                &&& final(s).projects@.drop_last() == old(s).projects@
                &&& store::is_new_project(
                    final(s).projects@.last(),
                    *form,
                    old(s).next_project_id,
                    final(s).projects@.last().created_at@,
                )
            })
            &&& (store::project_slug_taken(old(s).projects@, outside::slug_of(form.title@))
                && old(s).next_project_id < i32::MAX ==> *final(s) == *old(s))
        },
{
    if auth::require_auth(session_admin).is_some() {
        return AdminOutcome::RedirectLogin;
    }
    let _ = s.add_project(form);
    AdminOutcome::Redirect { location: String::from_str("/admin/projects") }
}

/// The project editing page; an unknown id is a plain not-found.
pub struct EditProjectPage {
    pub profile: Profile,
    pub project: Project,
}

pub fn edit_project_page(s: &Store, session_admin: &Option<String>, id: i32) -> (r: Result<
    AdminOutcome<EditProjectPage>,
    PageError,
>)
    requires
        s.wf(),
    ensures
        session_admin is None ==> r matches Ok(AdminOutcome::RedirectLogin),
        session_admin is Some && s.profile is None ==> r == Err::<
            AdminOutcome<EditProjectPage>,
            PageError,
        >(PageError::MissingProfile),
        session_admin is Some && s.profile is Some ==> match r {
            Ok(AdminOutcome::Page { data }) => s.profile == Some(data.profile)
                && s.projects@.contains(data.project) && data.project.id == id,
            Ok(AdminOutcome::NotFound { body }) => body@ == "Project not found"@ && forall|k: int|
                0 <= k < s.projects@.len() ==> (#[trigger] s.projects@[k]).id != id,
            _ => false,
        },
{
    if auth::require_auth(session_admin).is_some() {
        return Ok(AdminOutcome::RedirectLogin);
    }
    let profile = match s.get_profile() {
        Ok(p) => p.duplicate(),
        Err(_) => {
            return Err(PageError::MissingProfile);
        },
    };
    match s.get_project_by_id(id) {
        Ok(project) => Ok(
            AdminOutcome::Page { data: EditProjectPage { profile, project: project.duplicate() } },
        ),
        Err(_) => Ok(AdminOutcome::NotFound { body: String::from_str("Project not found") }),
    }
}

/// Rewrite a project from a plain form and return to the project list.
pub fn update_project(s: &mut Store, session_admin: &Option<String>, id: i32, form: &ProjectForm)
    -> (r: AdminOutcome<()>)
    requires
        old(s).wf(),
    ensures
        final(s).wf(),
        session_admin is None ==> (r is RedirectLogin) && *final(s) == *old(s),
        session_admin is Some ==> {
            &&& (r matches AdminOutcome::Redirect { location } && location@ == "/admin/projects"@)
            &&& store::same_tables_except_projects(*old(s), *final(s))
            &&& final(s).next_project_id == old(s).next_project_id
            &&& ((forall|k: int|
                0 <= k < old(s).projects@.len() ==> !((#[trigger] old(s).projects@[k]).slug@
                    == outside::slug_of(form.title@) && old(s).projects@[k].id != id)) ==> {
                &&& final(s).projects@.len() == old(s).projects@.len()
                &&& (forall|k: int|
                    0 <= k < old(s).projects@.len() && (#[trigger] old(s).projects@[k]).id != id
                        ==> final(s).projects@[k] == old(s).projects@[k])
                &&& (forall|k: int|
                    0 <= k < old(s).projects@.len() && (#[trigger] old(s).projects@[k]).id == id
                        ==> store::is_updated_project(
                        final(s).projects@[k],
                        old(s).projects@[k],
                        *form,
                    ))
            })
            &&& ((exists|k: int|
                0 <= k < old(s).projects@.len() && (#[trigger] old(s).projects@[k]).slug@
                    == outside::slug_of(form.title@) && old(s).projects@[k].id != id)
                ==> *final(s) == *old(s))
        },
{
    if auth::require_auth(session_admin).is_some() {
        return AdminOutcome::RedirectLogin;
    }
    let _ = s.update_project(id, form);
    AdminOutcome::Redirect { location: String::from_str("/admin/projects") }
}

/// Remove a project and return to the project list.
pub fn delete_project(s: &mut Store, session_admin: &Option<String>, id: i32) -> (r: AdminOutcome<
    (),
>)
    requires
        old(s).wf(),
    ensures
        final(s).wf(),
        session_admin is None ==> (r is RedirectLogin) && *final(s) == *old(s),
        session_admin is Some ==> {
            &&& (r matches AdminOutcome::Redirect { location } && location@ == "/admin/projects"@)
            &&& store::same_tables_except_projects(*old(s), *final(s))
            &&& final(s).next_project_id == old(s).next_project_id
            &&& final(s).projects@ == old(s).projects@.filter(|p: Project| p.id != id)
        },
{
    if auth::require_auth(session_admin).is_some() {
        return AdminOutcome::RedirectLogin;
    }
    let _ = s.delete_project(id);
    AdminOutcome::Redirect { location: String::from_str("/admin/projects") }
}

/// The blogs management page.
pub struct BlogsAdminPage {
    pub profile: Profile,
    pub blogs: Vec<Blog>,
}

pub fn blogs_page(s: &Store, session_admin: &Option<String>) -> (r: Result<
    AdminOutcome<BlogsAdminPage>,
    PageError,
>)
    requires
        s.wf(),
    ensures
        session_admin is None ==> r matches Ok(AdminOutcome::RedirectLogin),
        session_admin is Some && s.profile is None ==> r == Err::<
            AdminOutcome<BlogsAdminPage>,
            PageError,
        >(PageError::MissingProfile),
        session_admin is Some && s.profile is Some ==> (r matches Ok(AdminOutcome::Page { data })
            && {
            &&& s.profile == Some(data.profile)
            &&& data.blogs@.to_multiset() == s.blogs@.to_multiset()
            &&& sorted(data.blogs@)
        }),
{
    if auth::require_auth(session_admin).is_some() {
        return Ok(AdminOutcome::RedirectLogin);
    }
    match s.get_profile() {
        Ok(p) => {
            let profile = p.duplicate();
            Ok(AdminOutcome::Page { data: BlogsAdminPage { profile, blogs: s.get_blogs() } })
        },
        Err(_) => Err(PageError::MissingProfile),
    }
}

pub fn add_blog_page(s: &Store, session_admin: &Option<String>) -> (r: Result<
    AdminOutcome<AdminShell>,
    PageError,
>)
    requires
        s.wf(),
    ensures
        session_admin is None ==> r matches Ok(AdminOutcome::RedirectLogin),
        session_admin is Some && s.profile is None ==> r == Err::<
            AdminOutcome<AdminShell>,
            PageError,
        >(PageError::MissingProfile),
        session_admin is Some && s.profile is Some ==> (r matches Ok(AdminOutcome::Page { data })
            && s.profile == Some(data.profile)),
{
    if auth::require_auth(session_admin).is_some() {
        return Ok(AdminOutcome::RedirectLogin);
    }
    match s.get_profile() {
        Ok(p) => Ok(AdminOutcome::Page { data: AdminShell { profile: p.duplicate() } }),
        Err(_) => Err(PageError::MissingProfile),
    }
}

/// Add a blog from a plain form and return to the blog list.
pub fn add_blog(s: &mut Store, session_admin: &Option<String>, form: &BlogForm) -> (r:
    AdminOutcome<()>)
    requires
        old(s).wf(),
    ensures
        final(s).wf(),
        session_admin is None ==> (r is RedirectLogin) && *final(s) == *old(s),
        session_admin is Some ==> {
            &&& (r matches AdminOutcome::Redirect { location } && location@ == "/admin/blogs"@)
            &&& store::same_tables_except_blogs(*old(s), *final(s))
            &&& (old(s).next_blog_id < i32::MAX && !store::blog_slug_taken(
                old(s).blogs@,
                outside::slug_of(form.title@),
            ) ==> {
                &&& final(s).blogs@.len() == old(s).blogs@.len() + 1
                &&& final(s).blogs@.drop_last() == old(s).blogs@
                &&& store::is_new_blog(
                    final(s).blogs@.last(),
                    *form,
                    old(s).next_blog_id,
                    final(s).blogs@.last().created_at@,
                )
            })
            &&& (store::blog_slug_taken(old(s).blogs@, outside::slug_of(form.title@)) && old(
                s,
            ).next_blog_id < i32::MAX ==> *final(s) == *old(s))
        },
{
    if auth::require_auth(session_admin).is_some() {
        return AdminOutcome::RedirectLogin;
    }
    let _ = s.add_blog(form);
    AdminOutcome::Redirect { location: String::from_str("/admin/blogs") }
}

/// The blog editing page; an unknown id is a plain not-found.
pub struct EditBlogPage {
    pub profile: Profile,
    pub blog: Blog,
}

pub fn edit_blog_page(s: &Store, session_admin: &Option<String>, id: i32) -> (r: Result<
    AdminOutcome<EditBlogPage>,
    PageError,
>)
    requires
        s.wf(),
    ensures
        session_admin is None ==> r matches Ok(AdminOutcome::RedirectLogin),
        session_admin is Some && s.profile is None ==> r == Err::<
            AdminOutcome<EditBlogPage>,
            PageError,
        >(PageError::MissingProfile),
        session_admin is Some && s.profile is Some ==> match r {
            Ok(AdminOutcome::Page { data }) => s.profile == Some(data.profile)
                && s.blogs@.contains(data.blog) && data.blog.id == id,
            Ok(AdminOutcome::NotFound { body }) => body@ == "Blog post not found"@ && forall|
                k: int,
            |
                0 <= k < s.blogs@.len() ==> (#[trigger] s.blogs@[k]).id != id,
            _ => false,
        },
{
    if auth::require_auth(session_admin).is_some() {
        return Ok(AdminOutcome::RedirectLogin);
    }
    let profile = match s.get_profile() {
        Ok(p) => p.duplicate(),
        Err(_) => {
            return Err(PageError::MissingProfile);
        },
    };
    match s.get_blog_by_id(id) {
        Ok(blog) => Ok(AdminOutcome::Page { data: EditBlogPage { profile, blog: blog.duplicate() } }),
        Err(_) => Ok(AdminOutcome::NotFound { body: String::from_str("Blog post not found") }),
    }
}

/// Rewrite a blog from a plain form and return to the blog list.
pub fn update_blog(s: &mut Store, session_admin: &Option<String>, id: i32, form: &BlogForm) -> (r:
    AdminOutcome<()>)
    requires
        old(s).wf(),
    ensures
        final(s).wf(),
        session_admin is None ==> (r is RedirectLogin) && *final(s) == *old(s),
        session_admin is Some ==> {
            &&& (r matches AdminOutcome::Redirect { location } && location@ == "/admin/blogs"@)
            &&& store::same_tables_except_blogs(*old(s), *final(s))
            &&& final(s).next_blog_id == old(s).next_blog_id
            &&& ((forall|k: int|
                0 <= k < old(s).blogs@.len() ==> !((#[trigger] old(s).blogs@[k]).slug@
                    == outside::slug_of(form.title@) && old(s).blogs@[k].id != id)) ==> {
                &&& final(s).blogs@.len() == old(s).blogs@.len()
                &&& (forall|k: int|
                    0 <= k < old(s).blogs@.len() && (#[trigger] old(s).blogs@[k]).id != id ==>
                        final(s).blogs@[k] == old(s).blogs@[k])
                &&& (forall|k: int|
                    0 <= k < old(s).blogs@.len() && (#[trigger] old(s).blogs@[k]).id == id ==>
                        store::is_updated_blog(
                        final(s).blogs@[k],
                        old(s).blogs@[k],
                        *form,
                        final(s).blogs@[k].updated_at@,
                    ) && final(s).blogs@[k].updated_at@.len() >= 19)
            })
            &&& ((exists|k: int|
                0 <= k < old(s).blogs@.len() && (#[trigger] old(s).blogs@[k]).slug@
                    == outside::slug_of(form.title@) && old(s).blogs@[k].id != id)
                ==> *final(s) == *old(s))
        },
{
    if auth::require_auth(session_admin).is_some() {
        return AdminOutcome::RedirectLogin;
    }
    let _ = s.update_blog(id, form);
    AdminOutcome::Redirect { location: String::from_str("/admin/blogs") }
}

/// Remove a blog and return to the blog list.
pub fn delete_blog(s: &mut Store, session_admin: &Option<String>, id: i32) -> (r: AdminOutcome<()>)
    requires
        old(s).wf(),
    ensures
        final(s).wf(),
        session_admin is None ==> (r is RedirectLogin) && *final(s) == *old(s),
        session_admin is Some ==> {
            &&& (r matches AdminOutcome::Redirect { location } && location@ == "/admin/blogs"@)
            &&& store::same_tables_except_blogs(*old(s), *final(s))
            &&& final(s).next_blog_id == old(s).next_blog_id
            &&& final(s).blogs@ == old(s).blogs@.filter(|b: Blog| b.id != id)
        },
{
    if auth::require_auth(session_admin).is_some() {
        return AdminOutcome::RedirectLogin;
    }
    let _ = s.delete_blog(id);
    AdminOutcome::Redirect { location: String::from_str("/admin/blogs") }
}

/// The messages page.
pub struct MessagesPage {
    pub profile: Profile,
    pub messages: Vec<Message>,
}

pub fn messages_page(s: &Store, session_admin: &Option<String>) -> (r: Result<
    AdminOutcome<MessagesPage>,
    PageError,
>)
    requires
        s.wf(),
    ensures
        session_admin is None ==> r matches Ok(AdminOutcome::RedirectLogin),
        session_admin is Some && s.profile is None ==> r == Err::<
            AdminOutcome<MessagesPage>,
            PageError,
        >(PageError::MissingProfile),
        session_admin is Some && s.profile is Some ==> (r matches Ok(AdminOutcome::Page { data })
            && {
            &&& s.profile == Some(data.profile)
            &&& data.messages@.to_multiset() == s.messages@.to_multiset()
            &&& sorted(data.messages@)
        }),
{
    if auth::require_auth(session_admin).is_some() {
        return Ok(AdminOutcome::RedirectLogin);
    }
    match s.get_profile() {
        Ok(p) => {
            let profile = p.duplicate();
            Ok(AdminOutcome::Page { data: MessagesPage { profile, messages: s.get_messages() } })
        },
        Err(_) => Err(PageError::MissingProfile),
    }
}

/// Remove a message and return to the messages page.
pub fn delete_message(s: &mut Store, session_admin: &Option<String>, id: i32) -> (r: AdminOutcome<
    (),
>)
    requires
        old(s).wf(),
    ensures
        final(s).wf(),
        session_admin is None ==> (r is RedirectLogin) && *final(s) == *old(s),
        session_admin is Some ==> {
            &&& (r matches AdminOutcome::Redirect { location } && location@ == "/admin/messages"@)
            &&& store::same_tables_except_messages(*old(s), *final(s))
            &&& final(s).next_message_id == old(s).next_message_id
            &&& final(s).messages@ == old(s).messages@.filter(|m: Message| m.id != id)
        },
{
    if auth::require_auth(session_admin).is_some() {
        return AdminOutcome::RedirectLogin;
    }
    let _ = s.delete_message(id);
    AdminOutcome::Redirect { location: String::from_str("/admin/messages") }
}

/// What the ajax image upload replies: a JSON error for a missing session
/// or missing file, or the stored image's URL and id.
pub enum UploadImageOutcome {
    Unauthorized,
    NoImage,
    Saved { image_id: String, image_url: String },
    SaveFailed,
}

/// Store a single uploaded image and reply with its URL; unlike the page
/// handlers, an anonymous session gets a JSON error, not a redirect.
pub fn upload_image(s: &mut Store, session_admin: &Option<String>, parts: &Vec<Part>) -> (r:
    UploadImageOutcome)
    requires
        old(s).wf(),
    ensures
        final(s).wf(),
        session_admin is None ==> (r is Unauthorized) && *final(s) == *old(s),
        session_admin is Some ==> store::same_tables_except_files(*old(s), *final(s)),
        session_admin is Some && file_model(parts@) is None ==> (r is NoImage) && *final(s)
            == *old(s),
        session_admin is Some ==> (file_model(parts@) matches Some(p) ==> match r {
            UploadImageOutcome::Saved { image_id, image_url } => {
                &&& valid_upload_id(image_id@)
                &&& image_url@ == "/images/"@ + image_id@
                &&& !store::file_id_taken(old(s).files@, image_id@)
                &&& final(s).files@.len() == old(s).files@.len() + 1
                &&& final(s).files@.drop_last() == old(s).files@
                &&& final(s).files@.last().id@ == image_id@
                &&& final(s).files@.last().filename@ == p.filename@
                &&& final(s).files@.last().data@ == multipart::chunks_bytes(p.chunks@)
            },
            UploadImageOutcome::SaveFailed => *final(s) == *old(s),
            _ => false,
        }),
{
    if !auth::is_authenticated(session_admin) {
        return UploadImageOutcome::Unauthorized;
    }
    let extracted = multipart::extract_multipart_data(parts);
    match extracted.1 {
        Some(image) => {
            let image_id = outside::fresh_file_id();
            match s.save_image(
                image_id.as_str(),
                image.0.as_str(),
                image.1.as_str(),
                image.2.as_slice(),
            ) {
                Ok(_) => {
                    let mut image_url = String::from_str("/images/");
                    image_url.append(image_id.as_str());
                    UploadImageOutcome::Saved { image_id, image_url }
                },
                Err(_) => UploadImageOutcome::SaveFailed,
            }
        },
        None => UploadImageOutcome::NoImage,
    }
}

/// Overwrite the profile from a multipart form: an `avatar_file` part
/// replaces the avatar URL with a stored image, a `resume_file` part
/// replaces the resume URL with a stored download, and every other field
/// is taken as text, missing ones reading as empty.
pub fn update_profile_with_image(
    s: &mut Store,
    session_admin: &Option<String>,
    parts: &Vec<Part>,
) -> (r: Result<AdminOutcome<ProfileEditPage>, PageError>)
    requires
        old(s).wf(),
    ensures
        final(s).wf(),
        session_admin is None ==> (r matches Ok(AdminOutcome::RedirectLogin)) && *final(s) == *old(
            s,
        ),
        session_admin is Some ==> {
            let m = fields_model(parts@);
            let fm = files_model(parts@);
            &&& store::same_tables_except_profile_and_files(*old(s), *final(s))
            &&& final(s).files@.len() >= old(s).files@.len()
            &&& (old(s).profile is None ==> r == Err::<
                AdminOutcome<ProfileEditPage>,
                PageError,
            >(PageError::MissingProfile) && final(s).profile is None)
            &&& (old(s).profile is Some ==> {
                &&& final(s).profile is Some
                &&& (r matches Ok(AdminOutcome::Page { data }) && final(s).profile == Some(
                    data.profile,
                ) && data.success)
                &&& final(s).profile->0.name@ == fval(m, "name"@)
                &&& final(s).profile->0.title@ == fval(m, "title"@)
                &&& final(s).profile->0.bio@ == fval(m, "bio"@)
                &&& final(s).profile->0.email@ == fval(m, "email"@)
                &&& final(s).profile->0.phone@ == fval(m, "phone"@)
                &&& final(s).profile->0.location@ == fval(m, "location"@)
                &&& final(s).profile->0.github_url@ == fval(m, "github_url"@)
                &&& final(s).profile->0.linkedin_url@ == fval(m, "linkedin_url"@)
                &&& final(s).profile->0.twitter_url@ == fval(m, "twitter_url"@)
                &&& (fm.contains_key("avatar_file"@) ==> exists|fid: Seq<char>|
                    #[trigger] valid_upload_id(fid) && final(s).profile->0.avatar_url@
                        == "/images/"@ + fid)
                &&& (!fm.contains_key("avatar_file"@) ==> final(s).profile->0.avatar_url@ == fval(
                    m,
                    "avatar_url"@,
                ))
                &&& (fm.contains_key("resume_file"@) ==> exists|fid: Seq<char>|
                    #[trigger] valid_upload_id(fid) && final(s).profile->0.resume_url@ == "/files/"@
                        + fid)
                &&& (!fm.contains_key("resume_file"@) ==> final(s).profile->0.resume_url@ == fval(
                    m,
                    "resume_url"@,
                ))
            })
        },
{
    if auth::require_auth(session_admin).is_some() {
        return Ok(AdminOutcome::RedirectLogin);
    }
    let extracted = multipart::extract_multipart_with_files(parts);
    let fields = extracted.0;
    let files = extracted.1;
    let avatar_url: String = match multipart::get_file(&files, "avatar_file") {
        Some(f) => {
            let ctype = multipart::ctype_or(f, "application/octet-stream");
            store_upload(s, f.filename.as_str(), ctype.as_str(), &f.data, "/images/")
        },
        None => multipart::field_or_empty(&fields, "avatar_url"),
    };
    let resume_url: String = match multipart::get_file(&files, "resume_file") {
        Some(f) => {
            let ctype = multipart::ctype_or(f, "application/octet-stream");
            store_upload(s, f.filename.as_str(), ctype.as_str(), &f.data, "/files/")
        },
        None => multipart::field_or_empty(&fields, "resume_url"),
    };
    let form = ProfileForm {
        name: multipart::field_or_empty(&fields, "name"),
        title: multipart::field_or_empty(&fields, "title"),
        bio: multipart::field_or_empty(&fields, "bio"),
        email: multipart::field_or_empty(&fields, "email"),
        phone: multipart::field_or_empty(&fields, "phone"),
        location: multipart::field_or_empty(&fields, "location"),
        github_url: multipart::field_or_empty(&fields, "github_url"),
        linkedin_url: multipart::field_or_empty(&fields, "linkedin_url"),
        twitter_url: multipart::field_or_empty(&fields, "twitter_url"),
        resume_url,
        avatar_url,
    };
    let _ = s.update_profile(&form);
    match s.get_profile() {
        Ok(p) => Ok(
            AdminOutcome::Page { data: ProfileEditPage { profile: p.duplicate(), success: true } },
        ),
        Err(_) => Err(PageError::MissingProfile),
    }
}

/// The image URL an upload-capable form settles on: the stored upload's
/// URL when a file arrived, else the same-named text field (keeping an
/// existing URL when no new file is chosen).
pub open spec fn chosen_image_url(parts: Seq<Part>, url: Seq<char>) -> bool {
    match file_model(parts) {
        Some(_) => exists|fid: Seq<char>|
            #[trigger] valid_upload_id(fid) && url == "/images/"@ + fid,
        None => url == fval(fields_model(parts), "image_url"@),
    }
}

/// Take the single upload of a multipart body, store it, and hand back
/// the URL to reference it by, or fall back to the `image_url` text field.
fn resolve_image_url(s: &mut Store, parts: &Vec<Part>) -> (r: (
    Vec<(String, String)>,
    String,
))
    requires
        old(s).wf(),
    ensures
        final(s).wf(),
        store::same_tables_except_files(*old(s), *final(s)),
        final(s).files@.len() >= old(s).files@.len(),
        assoc_map(r.0@) == fields_model(parts@),
        chosen_image_url(parts@, r.1@),
        file_model(parts@) is None ==> *final(s) == *old(s),
{
    let extracted = multipart::extract_multipart_data(parts);
    let fields = extracted.0;
    let image_url: String = match extracted.1 {
        Some(image) => store_upload(s, image.0.as_str(), image.1.as_str(), &image.2, "/images/"),
        None => multipart::field_or_empty(&fields, "image_url"),
    };
    (fields, image_url)
}

/// The fields of a project row built from a multipart form.
pub open spec fn project_row_from_parts(p: Project, parts: Seq<Part>) -> bool {
    let m = fields_model(parts);
    &&& p.title@ == fval(m, "title"@)
    &&& p.slug@ == outside::slug_of(fval(m, "title"@))
    &&& p.description@ == fval(m, "description"@)
    &&& p.content@ == fval(m, "content"@)
    &&& chosen_image_url(parts, p.image_url@)
    &&& p.demo_url@ == fval(m, "demo_url"@)
    &&& p.github_url@ == fval(m, "github_url"@)
    &&& p.technologies@ == fval(m, "technologies"@)
    &&& p.featured == m.contains_key("featured"@)
}

/// Add a project from a multipart form, storing an uploaded image first.
pub fn add_project_with_image(s: &mut Store, session_admin: &Option<String>, parts: &Vec<Part>)
    -> (r: AdminOutcome<()>)
    requires
        old(s).wf(),
    ensures
        final(s).wf(),
        session_admin is None ==> (r is RedirectLogin) && *final(s) == *old(s),
        session_admin is Some ==> {
            let m = fields_model(parts@);
            &&& (r matches AdminOutcome::Redirect { location } && location@ == "/admin/projects"@)
            &&& store::same_tables_except_projects_and_files(*old(s), *final(s))
            &&& final(s).files@.len() >= old(s).files@.len()
            &&& (old(s).next_project_id < i32::MAX && !store::project_slug_taken(
                old(s).projects@,
                outside::slug_of(fval(m, "title"@)),
            ) ==> {
                &&& final(s).projects@.len() == old(s).projects@.len() + 1
                &&& final(s).projects@.drop_last() == old(s).projects@
                &&& final(s).projects@.last().id == old(s).next_project_id
                &&& project_row_from_parts(final(s).projects@.last(), parts@)
            })
            &&& (old(s).next_project_id < i32::MAX && store::project_slug_taken(
                old(s).projects@,
                outside::slug_of(fval(m, "title"@)),
            ) ==> final(s).projects == old(s).projects)
        },
{
    if auth::require_auth(session_admin).is_some() {
        return AdminOutcome::RedirectLogin;
    }
    let resolved = resolve_image_url(s, parts);
    let fields = resolved.0;
    let form = ProjectForm {
        title: multipart::field_or_empty(&fields, "title"),
        description: multipart::field_or_empty(&fields, "description"),
        content: multipart::field_or_empty(&fields, "content"),
        image_url: resolved.1,
        demo_url: multipart::field_or_empty(&fields, "demo_url"),
        github_url: multipart::field_or_empty(&fields, "github_url"),
        technologies: multipart::field_or_empty(&fields, "technologies"),
        featured: multipart::field_opt(&fields, "featured"),
    };
    let _ = s.add_project(&form);
    AdminOutcome::Redirect { location: String::from_str("/admin/projects") }
}

/// Rewrite a project from a multipart form, storing an uploaded image
/// first.
pub fn update_project_with_image(
    s: &mut Store,
    session_admin: &Option<String>,
    id: i32,
    parts: &Vec<Part>,
) -> (r: AdminOutcome<()>)
    requires
        old(s).wf(),
    ensures
        final(s).wf(),
        session_admin is None ==> (r is RedirectLogin) && *final(s) == *old(s),
        session_admin is Some ==> {
            let m = fields_model(parts@);
            &&& (r matches AdminOutcome::Redirect { location } && location@ == "/admin/projects"@)
            &&& store::same_tables_except_projects_and_files(*old(s), *final(s))
            &&& final(s).files@.len() >= old(s).files@.len()
            &&& final(s).next_project_id == old(s).next_project_id
            &&& ((forall|k: int|
                0 <= k < old(s).projects@.len() ==> !((#[trigger] old(s).projects@[k]).slug@
                    == outside::slug_of(fval(m, "title"@)) && old(s).projects@[k].id != id)) ==> {
                &&& final(s).projects@.len() == old(s).projects@.len()
                &&& (forall|k: int|
                    0 <= k < old(s).projects@.len() && (#[trigger] old(s).projects@[k]).id != id
                        ==> final(s).projects@[k] == old(s).projects@[k])
                &&& (forall|k: int|
                    0 <= k < old(s).projects@.len() && (#[trigger] old(s).projects@[k]).id == id
                        ==> final(s).projects@[k].id == id && final(s).projects@[k].created_at
                        == old(s).projects@[k].created_at && project_row_from_parts(
                        final(s).projects@[k],
                        parts@,
                    ))
            })
            &&& ((exists|k: int|
                0 <= k < old(s).projects@.len() && (#[trigger] old(s).projects@[k]).slug@
                    == outside::slug_of(fval(m, "title"@)) && old(s).projects@[k].id != id)
                ==> final(s).projects == old(s).projects)
        },
{
    if auth::require_auth(session_admin).is_some() {
        return AdminOutcome::RedirectLogin;
    }
    let resolved = resolve_image_url(s, parts);
    let fields = resolved.0;
    let form = ProjectForm {
        title: multipart::field_or_empty(&fields, "title"),
        description: multipart::field_or_empty(&fields, "description"),
        content: multipart::field_or_empty(&fields, "content"),
        image_url: resolved.1,
        demo_url: multipart::field_or_empty(&fields, "demo_url"),
        github_url: multipart::field_or_empty(&fields, "github_url"),
        technologies: multipart::field_or_empty(&fields, "technologies"),
        featured: multipart::field_opt(&fields, "featured"),
    };
    let _ = s.update_project(id, &form);
    AdminOutcome::Redirect { location: String::from_str("/admin/projects") }
}

/// The fields of a blog row built from a multipart form.
pub open spec fn blog_row_from_parts(b: Blog, parts: Seq<Part>) -> bool {
    let m = fields_model(parts);
    &&& b.title@ == fval(m, "title"@)
    &&& b.slug@ == outside::slug_of(fval(m, "title"@))
    &&& b.excerpt@ == fval(m, "excerpt"@)
    &&& b.content@ == fval(m, "content"@)
    &&& chosen_image_url(parts, b.image_url@)
    &&& b.tags@ == fval(m, "tags"@)
    &&& b.published == m.contains_key("published"@)
}

/// Add a blog from a multipart form, storing an uploaded image first.
pub fn add_blog_with_image(s: &mut Store, session_admin: &Option<String>, parts: &Vec<Part>) -> (r:
    AdminOutcome<()>)
    requires
        old(s).wf(),
    ensures
        final(s).wf(),
        session_admin is None ==> (r is RedirectLogin) && *final(s) == *old(s),
        session_admin is Some ==> {
            let m = fields_model(parts@);
            &&& (r matches AdminOutcome::Redirect { location } && location@ == "/admin/blogs"@)
            &&& store::same_tables_except_blogs_and_files(*old(s), *final(s))
            &&& final(s).files@.len() >= old(s).files@.len()
            &&& (old(s).next_blog_id < i32::MAX && !store::blog_slug_taken(
                old(s).blogs@,
                outside::slug_of(fval(m, "title"@)),
            ) ==> {
                &&& final(s).blogs@.len() == old(s).blogs@.len() + 1
                &&& final(s).blogs@.drop_last() == old(s).blogs@
                &&& final(s).blogs@.last().id == old(s).next_blog_id
                &&& blog_row_from_parts(final(s).blogs@.last(), parts@)
            })
            &&& (old(s).next_blog_id < i32::MAX && store::blog_slug_taken(
                old(s).blogs@,
                outside::slug_of(fval(m, "title"@)),
            ) ==> final(s).blogs == old(s).blogs)
        },
{
    if auth::require_auth(session_admin).is_some() {
        return AdminOutcome::RedirectLogin;
    }
    let resolved = resolve_image_url(s, parts);
    let fields = resolved.0;
    let form = BlogForm {
        title: multipart::field_or_empty(&fields, "title"),
        excerpt: multipart::field_or_empty(&fields, "excerpt"),
        content: multipart::field_or_empty(&fields, "content"),
        image_url: resolved.1,
        tags: multipart::field_or_empty(&fields, "tags"),
        published: multipart::field_opt(&fields, "published"),
    };
    let _ = s.add_blog(&form);
    AdminOutcome::Redirect { location: String::from_str("/admin/blogs") }
}

/// Rewrite a blog from a multipart form, storing an uploaded image first.
pub fn update_blog_with_image(
    s: &mut Store,
    session_admin: &Option<String>,
    id: i32,
    parts: &Vec<Part>,
) -> (r: AdminOutcome<()>)
    requires
        old(s).wf(),
    ensures
        final(s).wf(),
        session_admin is None ==> (r is RedirectLogin) && *final(s) == *old(s),
        session_admin is Some ==> {
            let m = fields_model(parts@);
            &&& (r matches AdminOutcome::Redirect { location } && location@ == "/admin/blogs"@)
            &&& store::same_tables_except_blogs_and_files(*old(s), *final(s))
            &&& final(s).files@.len() >= old(s).files@.len()
            &&& final(s).next_blog_id == old(s).next_blog_id
            &&& ((forall|k: int|
                0 <= k < old(s).blogs@.len() ==> !((#[trigger] old(s).blogs@[k]).slug@
                    == outside::slug_of(fval(m, "title"@)) && old(s).blogs@[k].id != id)) ==> {
                &&& final(s).blogs@.len() == old(s).blogs@.len()
                &&& (forall|k: int|
                    0 <= k < old(s).blogs@.len() && (#[trigger] old(s).blogs@[k]).id != id ==>
                        final(s).blogs@[k] == old(s).blogs@[k])
                &&& (forall|k: int|
                    0 <= k < old(s).blogs@.len() && (#[trigger] old(s).blogs@[k]).id == id ==>
                        final(s).blogs@[k].id == id && final(s).blogs@[k].created_at == old(
                        s,
                    ).blogs@[k].created_at && blog_row_from_parts(final(s).blogs@[k], parts@))
            })
            &&& ((exists|k: int|
                0 <= k < old(s).blogs@.len() && (#[trigger] old(s).blogs@[k]).slug@
                    == outside::slug_of(fval(m, "title"@)) && old(s).blogs@[k].id != id)
                ==> final(s).blogs == old(s).blogs)
        },
{
    if auth::require_auth(session_admin).is_some() {
        return AdminOutcome::RedirectLogin;
    }
    let resolved = resolve_image_url(s, parts);
    let fields = resolved.0;
    let form = BlogForm {
        title: multipart::field_or_empty(&fields, "title"),
        excerpt: multipart::field_or_empty(&fields, "excerpt"),
        content: multipart::field_or_empty(&fields, "content"),
        image_url: resolved.1,
        tags: multipart::field_or_empty(&fields, "tags"),
        published: multipart::field_opt(&fields, "published"),
    };
    let _ = s.update_blog(id, &form);
    AdminOutcome::Redirect { location: String::from_str("/admin/blogs") }
}

/// The services management page.
pub struct ServicesAdminPage {
    pub profile: Profile,
    pub services: Vec<Service>,
}

pub fn services_page(s: &Store, session_admin: &Option<String>) -> (r: Result<
    AdminOutcome<ServicesAdminPage>,
    PageError,
>)
    requires
        s.wf(),
    ensures
        session_admin is None ==> r matches Ok(AdminOutcome::RedirectLogin),
        session_admin is Some && s.profile is None ==> r == Err::<
            AdminOutcome<ServicesAdminPage>,
            PageError,
        >(PageError::MissingProfile),
        session_admin is Some && s.profile is Some ==> (r matches Ok(AdminOutcome::Page { data })
            && {
            &&& s.profile == Some(data.profile)
            &&& data.services@.to_multiset() == s.services@.to_multiset()
            &&& sorted(data.services@)
        }),
{
    if auth::require_auth(session_admin).is_some() {
        return Ok(AdminOutcome::RedirectLogin);
    }
    match s.get_profile() {
        Ok(p) => {
            let profile = p.duplicate();
            Ok(AdminOutcome::Page { data: ServicesAdminPage { profile, services: s.get_services() } })
        },
        Err(_) => Err(PageError::MissingProfile),
    }
}

pub fn add_service_page(s: &Store, session_admin: &Option<String>) -> (r: Result<
    AdminOutcome<AdminShell>,
    PageError,
>)
    requires
        s.wf(),
    ensures
        session_admin is None ==> r matches Ok(AdminOutcome::RedirectLogin),
        session_admin is Some && s.profile is None ==> r == Err::<
            AdminOutcome<AdminShell>,
            PageError,
        >(PageError::MissingProfile),
        session_admin is Some && s.profile is Some ==> (r matches Ok(AdminOutcome::Page { data })
            && s.profile == Some(data.profile)),
{
    if auth::require_auth(session_admin).is_some() {
        return Ok(AdminOutcome::RedirectLogin);
    }
    match s.get_profile() {
        Ok(p) => Ok(AdminOutcome::Page { data: AdminShell { profile: p.duplicate() } }),
        Err(_) => Err(PageError::MissingProfile),
    }
}

/// The service editing page; an unknown id is a plain not-found.
pub struct EditServicePage {
    pub profile: Profile,
    pub service: Service,
}

pub fn edit_service_page(s: &Store, session_admin: &Option<String>, id: i32) -> (r: Result<
    AdminOutcome<EditServicePage>,
    PageError,
>)
    requires
        s.wf(),
    ensures
        session_admin is None ==> r matches Ok(AdminOutcome::RedirectLogin),
        session_admin is Some && s.profile is None ==> r == Err::<
            AdminOutcome<EditServicePage>,
            PageError,
        >(PageError::MissingProfile),
        session_admin is Some && s.profile is Some ==> match r {
            Ok(AdminOutcome::Page { data }) => s.profile == Some(data.profile)
                && s.services@.contains(data.service) && data.service.id == id,
            Ok(AdminOutcome::NotFound { body }) => body@ == "Service not found"@ && forall|k: int|
                0 <= k < s.services@.len() ==> (#[trigger] s.services@[k]).id != id,
            _ => false,
        },
{
    if auth::require_auth(session_admin).is_some() {
        return Ok(AdminOutcome::RedirectLogin);
    }
    let profile = match s.get_profile() {
        Ok(p) => p.duplicate(),
        Err(_) => {
            return Err(PageError::MissingProfile);
        },
    };
    match s.get_service(id) {
        Ok(service) => Ok(
            AdminOutcome::Page { data: EditServicePage { profile, service: service.duplicate() } },
        ),
        Err(_) => Ok(AdminOutcome::NotFound { body: String::from_str("Service not found") }),
    }
}

/// The order index a service form submits: the parsed number, or 0 when
/// the field is missing or unparsable.
pub open spec fn submitted_order_index(m: Map<Seq<char>, Seq<char>>) -> i32 {
    if m.contains_key("order_index"@) {
        match parse::parse_i32_spec(m["order_index"@]) {
            Some(v) => v,
            None => 0,
        }
    } else {
        0
    }
}

/// The fields of a service row built from a multipart form.
pub open spec fn service_row_from_parts(sv: Service, parts: Seq<Part>) -> bool {
    let m = fields_model(parts);
    &&& sv.name@ == fval(m, "name"@)
    &&& sv.description@ == fval(m, "description"@)
    &&& chosen_image_url(parts, sv.image_url@)
    &&& sv.icon@ == fval(m, "icon"@)
    &&& sv.order_index == submitted_order_index(m)
}

/// Add a service from a multipart form, storing an uploaded image first.
pub fn add_service_with_image(s: &mut Store, session_admin: &Option<String>, parts: &Vec<Part>)
    -> (r: AdminOutcome<()>)
    requires
        old(s).wf(),
    ensures
        final(s).wf(),
        session_admin is None ==> (r is RedirectLogin) && *final(s) == *old(s),
        session_admin is Some ==> {
            &&& (r matches AdminOutcome::Redirect { location } && location@ == "/admin/services"@)
            &&& store::same_tables_except_services_and_files(*old(s), *final(s))
            &&& final(s).files@.len() >= old(s).files@.len()
            &&& (old(s).next_service_id < i32::MAX ==> {
                &&& final(s).services@.len() == old(s).services@.len() + 1
                &&& final(s).services@.drop_last() == old(s).services@
                &&& final(s).services@.last().id == old(s).next_service_id
                &&& service_row_from_parts(final(s).services@.last(), parts@)
            })
        },
{
    if auth::require_auth(session_admin).is_some() {
        return AdminOutcome::RedirectLogin;
    }
    let resolved = resolve_image_url(s, parts);
    let fields = resolved.0;
    let form = ServiceForm {
        name: multipart::field_or_empty(&fields, "name"),
        description: multipart::field_or_empty(&fields, "description"),
        image_url: resolved.1,
        icon: multipart::field_or_empty(&fields, "icon"),
        order_index: match multipart::field_opt(&fields, "order_index") {
            Some(v) => match parse::parse_i32(v.as_str()) {
                Some(n) => n,
                None => 0,
            },
            None => 0,
        },
    };
    let _ = s.add_service(&form);
    AdminOutcome::Redirect { location: String::from_str("/admin/services") }
}

/// Rewrite a service from a multipart form, storing an uploaded image
/// first.
pub fn update_service_with_image(
    s: &mut Store,
    session_admin: &Option<String>,
    id: i32,
    parts: &Vec<Part>,
) -> (r: AdminOutcome<()>)
    requires
        old(s).wf(),
    ensures
        final(s).wf(),
        session_admin is None ==> (r is RedirectLogin) && *final(s) == *old(s),
        session_admin is Some ==> {
            &&& (r matches AdminOutcome::Redirect { location } && location@ == "/admin/services"@)
            &&& store::same_tables_except_services_and_files(*old(s), *final(s))
            &&& final(s).files@.len() >= old(s).files@.len()
            &&& final(s).next_service_id == old(s).next_service_id
            &&& final(s).services@.len() == old(s).services@.len()
            &&& (forall|k: int|
                0 <= k < old(s).services@.len() && (#[trigger] old(s).services@[k]).id != id ==>
                    final(s).services@[k] == old(s).services@[k])
            &&& (forall|k: int|
                0 <= k < old(s).services@.len() && (#[trigger] old(s).services@[k]).id == id ==>
                    final(s).services@[k].id == id && service_row_from_parts(
                    final(s).services@[k],
                    parts@,
                ))
        },
{
    if auth::require_auth(session_admin).is_some() {
        return AdminOutcome::RedirectLogin;
    }
    let resolved = resolve_image_url(s, parts);
    let fields = resolved.0;
    let form = ServiceForm {
        name: multipart::field_or_empty(&fields, "name"),
        description: multipart::field_or_empty(&fields, "description"),
        image_url: resolved.1,
        icon: multipart::field_or_empty(&fields, "icon"),
        order_index: match multipart::field_opt(&fields, "order_index") {
            Some(v) => match parse::parse_i32(v.as_str()) {
                Some(n) => n,
                None => 0,
            },
            None => 0,
        },
    };
    let _ = s.update_service(id, &form);
    AdminOutcome::Redirect { location: String::from_str("/admin/services") }
}

/// Remove a service and return to the services page; no other table is
/// touched.
pub fn delete_service(s: &mut Store, session_admin: &Option<String>, id: i32) -> (r: AdminOutcome<
    (),
>)
    requires
        old(s).wf(),
    ensures
        final(s).wf(),
        session_admin is None ==> (r is RedirectLogin) && *final(s) == *old(s),
        session_admin is Some ==> {
            &&& (r matches AdminOutcome::Redirect { location } && location@ == "/admin/services"@)
            &&& store::same_tables_except_services(*old(s), *final(s))
            &&& final(s).next_service_id == old(s).next_service_id
            &&& final(s).services@ == old(s).services@.filter(|sv: Service| sv.id != id)
        },
{
    if auth::require_auth(session_admin).is_some() {
        return AdminOutcome::RedirectLogin;
    }
    let _ = s.delete_service(id);
    AdminOutcome::Redirect { location: String::from_str("/admin/services") }
}

/// The email settings page; the row is created with its defaults on first
/// view.
pub struct EmailSettingsPage {
    pub settings: EmailSettings,
}

pub fn email_settings_page(s: &mut Store, session_admin: &Option<String>) -> (r: AdminOutcome<
    EmailSettingsPage,
>)
    requires
        old(s).wf(),
    ensures
        final(s).wf(),
        session_admin is None ==> (r is RedirectLogin) && *final(s) == *old(s),
        session_admin is Some ==> {
            &&& store::same_tables_except_email_settings(*old(s), *final(s))
            &&& final(s).email_settings is Some
            &&& (old(s).email_settings is Some ==> *final(s) == *old(s))
            &&& (r matches AdminOutcome::Page { data } && Some(data.settings)
                == final(s).email_settings)
        },
{
    if auth::require_auth(session_admin).is_some() {
        return AdminOutcome::RedirectLogin;
    }
    match s.get_email_settings() {
        Ok(settings) => AdminOutcome::Page { data: EmailSettingsPage { settings } },
        Err(_) => AdminOutcome::Page { data: EmailSettingsPage { settings: EmailSettings::default() } },
    }
}

/// Overwrite the email settings from a plain form and return to the
/// settings page.
pub fn update_email_settings(
    s: &mut Store,
    session_admin: &Option<String>,
    form: &EmailSettingsForm,
) -> (r: AdminOutcome<()>)
    requires
        old(s).wf(),
    ensures
        final(s).wf(),
        session_admin is None ==> (r is RedirectLogin) && *final(s) == *old(s),
        session_admin is Some ==> {
            &&& (r matches AdminOutcome::Redirect { location } && location@
                == "/admin/email-settings"@)
            &&& store::same_tables_except_email_settings(*old(s), *final(s))
            &&& final(s).email_settings == Some(
                EmailSettings {
                    id: 1,
                    smtp_server: form.smtp_server,
                    smtp_port: form.smtp_port,
                    smtp_username: form.smtp_username,
                    smtp_password: form.smtp_password,
                    notification_email: form.notification_email,
                    enabled: form.enabled is Some,
                },
            )
        },
{
    if auth::require_auth(session_admin).is_some() {
        return AdminOutcome::RedirectLogin;
    }
    let _ = s.update_email_settings(form);
    AdminOutcome::Redirect { location: String::from_str("/admin/email-settings") }
}

/// What the test-email action decided: bounce to login, refuse with a
/// message, or attempt the assembled send (the SMTP connection itself is
/// the caller's outside work, reported back through `test_email_report`).
pub enum TestEmailOutcome {
    RedirectLogin,
    Refused { message: String },
    Attempt { plan: EmailPlan },
}

pub fn test_email(s: &mut Store, session_admin: &Option<String>) -> (r: TestEmailOutcome)
    requires
        old(s).wf(),
    ensures
        final(s).wf(),
        session_admin is None ==> (r is RedirectLogin) && *final(s) == *old(s),
        session_admin is Some ==> {
            &&& store::same_tables_except_email_settings(*old(s), *final(s))
            &&& final(s).email_settings is Some
            &&& (old(s).email_settings is Some ==> *final(s) == *old(s))
            &&& (old(s).email_settings is None ==> store::is_default_email_settings(
                final(s).email_settings->0,
            ))
            &&& !(r is RedirectLogin)
            &&& (r matches TestEmailOutcome::Refused { message } ==> {
                let e = email::notification_refusal(
                    final(s).email_settings->0,
                    final(s).email_settings->0.notification_email@,
                );
                e is Some && message@ == match e->0 {
                    email::EmailError::Disabled => "Email notifications are disabled"@,
                    email::EmailError::NotConfigured => "Email settings not configured"@,
                    email::EmailError::InvalidFrom => "Invalid from address"@,
                    email::EmailError::InvalidReplyTo => "Invalid reply-to address"@,
                    email::EmailError::InvalidTo => "Invalid to address"@,
                }
            })
            &&& (r matches TestEmailOutcome::Attempt { plan } ==> email::planned(
                Ok::<EmailPlan, email::EmailError>(plan),
                final(s).email_settings->0,
                "Test User"@,
                final(s).email_settings->0.notification_email@,
                "Test Email"@,
                "This is a test email from your portfolio website. If you received this, email notifications are working correctly!"@,
            ))
        },
{
    if auth::require_auth(session_admin).is_some() {
        return TestEmailOutcome::RedirectLogin;
    }
    let settings = match s.get_email_settings() {
        Ok(settings) => settings,
        Err(_) => EmailSettings::default(),
    };
    match email::plan_notification(
        &settings,
        "Test User",
        settings.notification_email.as_str(),
        "Test Email",
        "This is a test email from your portfolio website. If you received this, email notifications are working correctly!",
    ) {
        Ok(plan) => TestEmailOutcome::Attempt { plan },
        Err(e) => TestEmailOutcome::Refused { message: e.message() },
    }
}

/// The JSON body reported after a test-email attempt, with the failure
/// text quoted for embedding.
pub fn test_email_report(outcome: &Result<(), String>) -> (r: String)
    ensures
        outcome is Ok ==> r@ == "{\"success\": true, \"message\": \"Test email sent successfully!\"}"@,
        outcome matches Err(e) ==> r@ == "{\"success\": false, \"message\": \""@
            + email::escape_quotes_spec(e@) + "\"}"@,
{
    match outcome {
        Ok(_) => String::from_str(
            "{\"success\": true, \"message\": \"Test email sent successfully!\"}",
        ),
        Err(e) => {
            let mut out = String::from_str("{\"success\": false, \"message\": \"");
            let escaped = email::escape_quotes(e.as_str());
            out.append(escaped.as_str());
            out.append("\"}");
            out
        },
    }
}

/// The site-content editing page: every entry, grouped by section.
pub struct SiteContentPage {
    pub items: Vec<SiteContentItem>,
}

pub fn site_content_page(s: &Store, session_admin: &Option<String>) -> (r: AdminOutcome<
    SiteContentPage,
>)
    requires
        s.wf(),
    ensures
        session_admin is None ==> r is RedirectLogin,
        session_admin is Some ==> (r matches AdminOutcome::Page { data } && {
            &&& data.items@.to_multiset() == s.site_content@.to_multiset()
            &&& sorted(data.items@)
        }),
{
    if auth::require_auth(session_admin).is_some() {
        return AdminOutcome::RedirectLogin;
    }
    AdminOutcome::Page { data: SiteContentPage { items: s.get_site_content_by_section() } }
}

/// Write a batch of content values and return to the content page.
pub fn update_site_content(
    s: &mut Store,
    session_admin: &Option<String>,
    updates: &Vec<(String, String)>,
) -> (r: AdminOutcome<()>)
    requires
        old(s).wf(),
    ensures
        final(s).wf(),
        session_admin is None ==> (r is RedirectLogin) && *final(s) == *old(s),
        session_admin is Some ==> {
            &&& (r matches AdminOutcome::Redirect { location } && location@
                == "/admin/site-content"@)
            &&& store::same_tables_except_content(*old(s), *final(s))
            &&& final(s).site_content@ == store::apply_content_updates(
                old(s).site_content@,
                updates@,
            )
        },
{
    if auth::require_auth(session_admin).is_some() {
        return AdminOutcome::RedirectLogin;
    }
    let _ = s.update_site_content_batch(updates);
    AdminOutcome::Redirect { location: String::from_str("/admin/site-content") }
}

/// The education management page.
pub struct EducationAdminPage {
    pub education: Vec<Education>,
}

pub fn education_page(s: &Store, session_admin: &Option<String>) -> (r: AdminOutcome<
    EducationAdminPage,
>)
    requires
        s.wf(),
    ensures
        session_admin is None ==> r is RedirectLogin,
        session_admin is Some ==> (r matches AdminOutcome::Page { data } && {
            &&& data.education@.to_multiset() == s.education@.to_multiset()
            &&& sorted(data.education@)
        }),
{
    if auth::require_auth(session_admin).is_some() {
        return AdminOutcome::RedirectLogin;
    }
    AdminOutcome::Page { data: EducationAdminPage { education: s.get_education() } }
}

/// The add-education form page carries no data of its own.
pub fn add_education_page(session_admin: &Option<String>) -> (r: AdminOutcome<()>)
    ensures
        session_admin is None ==> r is RedirectLogin,
        session_admin is Some ==> r matches AdminOutcome::Page { data: () },
{
    if auth::require_auth(session_admin).is_some() {
        return AdminOutcome::RedirectLogin;
    }
    AdminOutcome::Page { data: () }
}

/// Add an education row and return to the education page; the submitted
/// id is ignored.
pub fn add_education(s: &mut Store, session_admin: &Option<String>, edu: &Education) -> (r:
    AdminOutcome<()>)
    requires
        old(s).wf(),
    ensures
        final(s).wf(),
        session_admin is None ==> (r is RedirectLogin) && *final(s) == *old(s),
        session_admin is Some ==> {
            &&& (r matches AdminOutcome::Redirect { location } && location@ == "/admin/education"@)
            &&& store::same_tables_except_education(*old(s), *final(s))
            &&& (old(s).next_education_id < i32::MAX ==> final(s).education@ == old(
                s,
            ).education@.push(
                Education {
                    id: old(s).next_education_id,
                    institution: edu.institution,
                    degree: edu.degree,
                    field: edu.field,
                    start_date: edu.start_date,
                    end_date: edu.end_date,
                    description: edu.description,
                },
            ))
        },
{
    if auth::require_auth(session_admin).is_some() {
        return AdminOutcome::RedirectLogin;
    }
    let _ = s.add_education(edu);
    AdminOutcome::Redirect { location: String::from_str("/admin/education") }
}

/// The education editing page; an unknown id is a plain not-found.
pub struct EditEducationPage {
    pub education: Education,
}

pub fn edit_education_page(s: &Store, session_admin: &Option<String>, id: i32) -> (r: AdminOutcome<
    EditEducationPage,
>)
    requires
        s.wf(),
    ensures
        session_admin is None ==> r is RedirectLogin,
        session_admin is Some ==> match r {
            AdminOutcome::Page { data } => s.education@.contains(data.education)
                && data.education.id == id,
            AdminOutcome::NotFound { body } => body@ == "Education not found"@ && forall|k: int|
                0 <= k < s.education@.len() ==> (#[trigger] s.education@[k]).id != id,
            _ => false,
        },
{
    if auth::require_auth(session_admin).is_some() {
        return AdminOutcome::RedirectLogin;
    }
    match s.get_education_by_id(id) {
        Ok(edu) => AdminOutcome::Page { data: EditEducationPage { education: edu.duplicate() } },
        Err(_) => AdminOutcome::NotFound { body: String::from_str("Education not found") },
    }
}

/// Rewrite the education row named by the path id from the form and
/// return to the education page.
pub fn update_education(
    s: &mut Store,
    session_admin: &Option<String>,
    id: i32,
    edu: &Education,
) -> (r: AdminOutcome<()>)
    requires
        old(s).wf(),
    ensures
        final(s).wf(),
        session_admin is None ==> (r is RedirectLogin) && *final(s) == *old(s),
        session_admin is Some ==> {
            &&& (r matches AdminOutcome::Redirect { location } && location@ == "/admin/education"@)
            &&& store::same_tables_except_education(*old(s), *final(s))
            &&& final(s).next_education_id == old(s).next_education_id
            &&& final(s).education@.len() == old(s).education@.len()
            &&& (forall|k: int|
                0 <= k < old(s).education@.len() && (#[trigger] old(s).education@[k]).id != id ==>
                    final(s).education@[k] == old(s).education@[k])
            &&& (forall|k: int|
                0 <= k < old(s).education@.len() && (#[trigger] old(s).education@[k]).id == id ==>
                    final(s).education@[k] == (Education {
                    id,
                    institution: edu.institution,
                    degree: edu.degree,
                    field: edu.field,
                    start_date: edu.start_date,
                    end_date: edu.end_date,
                    description: edu.description,
                }))
        },
{
    if auth::require_auth(session_admin).is_some() {
        return AdminOutcome::RedirectLogin;
    }
    let row = Education {
        id,
        institution: edu.institution.clone(),
        degree: edu.degree.clone(),
        field: edu.field.clone(),
        start_date: edu.start_date.clone(),
        end_date: edu.end_date.clone(),
        description: edu.description.clone(),
    };
    let _ = s.update_education(&row);
    AdminOutcome::Redirect { location: String::from_str("/admin/education") }
}

/// Remove an education row and return to the education page.
pub fn delete_education(s: &mut Store, session_admin: &Option<String>, id: i32) -> (r: AdminOutcome<
    (),
>)
    requires
        old(s).wf(),
    ensures
        final(s).wf(),
        session_admin is None ==> (r is RedirectLogin) && *final(s) == *old(s),
        session_admin is Some ==> {
            &&& (r matches AdminOutcome::Redirect { location } && location@ == "/admin/education"@)
            &&& store::same_tables_except_education(*old(s), *final(s))
            &&& final(s).next_education_id == old(s).next_education_id
            &&& final(s).education@ == old(s).education@.filter(|e: Education| e.id != id)
        },
{
    if auth::require_auth(session_admin).is_some() {
        return AdminOutcome::RedirectLogin;
    }
    let _ = s.delete_education(id);
    AdminOutcome::Redirect { location: String::from_str("/admin/education") }
}

} // verus!
