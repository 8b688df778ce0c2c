//! The persistent store, modelled as plain in-memory tables. Every operation
//! states exactly which rows it reads or rewrites; the surrounding
//! application is responsible only for carrying the same rows to and from
//! the backing database file.

use vstd::prelude::*;

use crate::models::{
    Admin, Blog, BlogForm, ContactForm, Education, EmailSettings, EmailSettingsForm, Experience,
    LoginForm, Message, Profile, ProfileForm, Project, ProjectForm, Service, ServiceForm, Skill,
    SkillForm, SiteContentItem, StoredFile,
};
use crate::order;
use crate::order::{lex_le, pair_le, sorted, SortOrd};
use crate::outside;

verus! {

/// A failure of a store operation. A write that would violate a uniqueness
/// rule reports which rule; a read that finds nothing reports `NotFound`.
#[derive(Clone, Copy, Debug, PartialEq, Eq, Structural)]
pub enum StoreError {
    NotFound,
    DuplicateSlug,
    DuplicateFileId,
    IdsExhausted,
    HashFailed,
}

/// Row ids of a table are at least 1 and below the table's next free id.
pub open spec fn id_in_range(id: int, next: int) -> bool {
    1 <= id < next
}

pub open spec fn skills_ok(s: Seq<Skill>, next: int) -> bool {
    &&& forall|i: int| 0 <= i < s.len() ==> id_in_range((#[trigger] s[i]).id as int, next)
    &&& forall|i: int, j: int| 0 <= i < j < s.len() ==> s[i].id != s[j].id
}

pub open spec fn projects_ok(s: Seq<Project>, next: int) -> bool {
    &&& forall|i: int| 0 <= i < s.len() ==> id_in_range((#[trigger] s[i]).id as int, next)
    &&& forall|i: int, j: int| 0 <= i < j < s.len() ==> s[i].id != s[j].id
    &&& forall|i: int, j: int| 0 <= i < j < s.len() ==> s[i].slug@ != s[j].slug@
}

pub open spec fn blogs_ok(s: Seq<Blog>, next: int) -> bool {
    &&& forall|i: int| 0 <= i < s.len() ==> id_in_range((#[trigger] s[i]).id as int, next)
    &&& forall|i: int, j: int| 0 <= i < j < s.len() ==> s[i].id != s[j].id
    &&& forall|i: int, j: int| 0 <= i < j < s.len() ==> s[i].slug@ != s[j].slug@
}

pub open spec fn experience_ok(s: Seq<Experience>, next: int) -> bool {
    &&& forall|i: int| 0 <= i < s.len() ==> id_in_range((#[trigger] s[i]).id as int, next)
    &&& forall|i: int, j: int| 0 <= i < j < s.len() ==> s[i].id != s[j].id
}

pub open spec fn education_ok(s: Seq<Education>, next: int) -> bool {
    &&& forall|i: int| 0 <= i < s.len() ==> id_in_range((#[trigger] s[i]).id as int, next)
    &&& forall|i: int, j: int| 0 <= i < j < s.len() ==> s[i].id != s[j].id
}

pub open spec fn messages_ok(s: Seq<Message>, next: int) -> bool {
    &&& forall|i: int| 0 <= i < s.len() ==> id_in_range((#[trigger] s[i]).id as int, next)
    &&& forall|i: int, j: int| 0 <= i < j < s.len() ==> s[i].id != s[j].id
}

pub open spec fn services_ok(s: Seq<Service>, next: int) -> bool {
    &&& forall|i: int| 0 <= i < s.len() ==> id_in_range((#[trigger] s[i]).id as int, next)
    &&& forall|i: int, j: int| 0 <= i < j < s.len() ==> s[i].id != s[j].id
}

pub open spec fn files_ok(s: Seq<StoredFile>) -> bool {
    forall|i: int, j: int| 0 <= i < j < s.len() ==> s[i].id@ != s[j].id@
}

pub open spec fn content_ok(s: Seq<SiteContentItem>) -> bool {
    forall|i: int, j: int| 0 <= i < j < s.len() ==> s[i].key@ != s[j].key@
}

/// Whether some project row carries the given slug.
pub open spec fn project_slug_taken(s: Seq<Project>, slug: Seq<char>) -> bool {
    exists|i: int| 0 <= i < s.len() && (#[trigger] s[i]).slug@ == slug
}

/// Whether some blog row carries the given slug.
pub open spec fn blog_slug_taken(s: Seq<Blog>, slug: Seq<char>) -> bool {
    exists|i: int| 0 <= i < s.len() && (#[trigger] s[i]).slug@ == slug
}

/// Whether some stored file carries the given id.
pub open spec fn file_id_taken(s: Seq<StoredFile>, id: Seq<char>) -> bool {
    exists|i: int| 0 <= i < s.len() && (#[trigger] s[i]).id@ == id
}

/// Whether the site-content bag holds the given key.
pub open spec fn content_key_present(s: Seq<SiteContentItem>, key: Seq<char>) -> bool {
    exists|i: int| 0 <= i < s.len() && (#[trigger] s[i]).key@ == key
}

/// The whole store: one table per entity, plus the next free id of each
/// id-keyed table (mirroring an autoincrement column, ids are never reused).
pub struct Store {
    pub profile: Option<Profile>,
    pub admin: Option<Admin>,
    pub email_settings: Option<EmailSettings>,
    pub skills: Vec<Skill>,
    pub projects: Vec<Project>,
    pub blogs: Vec<Blog>,
    pub experience: Vec<Experience>,
    pub education: Vec<Education>,
    pub messages: Vec<Message>,
    pub services: Vec<Service>,
    pub files: Vec<StoredFile>,
    pub site_content: Vec<SiteContentItem>,
    pub next_skill_id: i32,
    pub next_project_id: i32,
    pub next_blog_id: i32,
    pub next_experience_id: i32,
    pub next_education_id: i32,
    pub next_message_id: i32,
    pub next_service_id: i32,
}

// Frame conditions: which parts of the store an operation may rewrite.

pub open spec fn same_tables_except_profile(a: Store, b: Store) -> bool {
    &&& a.admin == b.admin
    &&& a.email_settings == b.email_settings
    &&& a.skills == b.skills
    &&& a.projects == b.projects
    &&& a.blogs == b.blogs
    &&& a.experience == b.experience
    &&& a.education == b.education
    &&& a.messages == b.messages
    &&& a.services == b.services
    &&& a.files == b.files
    &&& a.site_content == b.site_content
    &&& same_counters(a, b)
}

pub open spec fn same_counters(a: Store, b: Store) -> bool {
    &&& a.next_skill_id == b.next_skill_id
    &&& a.next_project_id == b.next_project_id
    &&& a.next_blog_id == b.next_blog_id
    &&& a.next_experience_id == b.next_experience_id
    &&& a.next_education_id == b.next_education_id
    &&& a.next_message_id == b.next_message_id
    &&& a.next_service_id == b.next_service_id
}

pub open spec fn same_singletons(a: Store, b: Store) -> bool {
    &&& a.profile == b.profile
    &&& a.admin == b.admin
    &&& a.email_settings == b.email_settings
}

pub open spec fn same_tables_except_skills(a: Store, b: Store) -> bool {
    &&& same_singletons(a, b)
    &&& a.projects == b.projects
    &&& a.blogs == b.blogs
    &&& a.experience == b.experience
    &&& a.education == b.education
    &&& a.messages == b.messages
    &&& a.services == b.services
    &&& a.files == b.files
    &&& a.site_content == b.site_content
    &&& a.next_project_id == b.next_project_id
    &&& a.next_blog_id == b.next_blog_id
    &&& a.next_experience_id == b.next_experience_id
    &&& a.next_education_id == b.next_education_id
    &&& a.next_message_id == b.next_message_id
    &&& a.next_service_id == b.next_service_id
}

pub open spec fn same_tables_except_projects(a: Store, b: Store) -> bool {
    &&& same_singletons(a, b)
    &&& a.skills == b.skills
    &&& a.blogs == b.blogs
    &&& a.experience == b.experience
    &&& a.education == b.education
    &&& a.messages == b.messages
    &&& a.services == b.services
    &&& a.files == b.files
    &&& a.site_content == b.site_content
    &&& a.next_skill_id == b.next_skill_id
    &&& a.next_blog_id == b.next_blog_id
    &&& a.next_experience_id == b.next_experience_id
    &&& a.next_education_id == b.next_education_id
    &&& a.next_message_id == b.next_message_id
    &&& a.next_service_id == b.next_service_id
}

pub open spec fn same_tables_except_blogs(a: Store, b: Store) -> bool {
    &&& same_singletons(a, b)
    &&& a.skills == b.skills
    &&& a.projects == b.projects
    &&& a.experience == b.experience
    &&& a.education == b.education
    &&& a.messages == b.messages
    &&& a.services == b.services
    &&& a.files == b.files
    &&& a.site_content == b.site_content
    &&& a.next_skill_id == b.next_skill_id
    &&& a.next_project_id == b.next_project_id
    &&& a.next_experience_id == b.next_experience_id
    &&& a.next_education_id == b.next_education_id
    &&& a.next_message_id == b.next_message_id
    &&& a.next_service_id == b.next_service_id
}

pub open spec fn same_tables_except_education(a: Store, b: Store) -> bool {
    &&& same_singletons(a, b)
    &&& a.skills == b.skills
    &&& a.projects == b.projects
    &&& a.blogs == b.blogs
    &&& a.experience == b.experience
    &&& a.messages == b.messages
    &&& a.services == b.services
    &&& a.files == b.files
    &&& a.site_content == b.site_content
    &&& a.next_skill_id == b.next_skill_id
    &&& a.next_project_id == b.next_project_id
    &&& a.next_blog_id == b.next_blog_id
    &&& a.next_experience_id == b.next_experience_id
    &&& a.next_message_id == b.next_message_id
    &&& a.next_service_id == b.next_service_id
}

pub open spec fn same_tables_except_messages(a: Store, b: Store) -> bool {
    &&& same_singletons(a, b)
    &&& a.skills == b.skills
    &&& a.projects == b.projects
    &&& a.blogs == b.blogs
    &&& a.experience == b.experience
    &&& a.education == b.education
    &&& a.services == b.services
    &&& a.files == b.files
    &&& a.site_content == b.site_content
    &&& a.next_skill_id == b.next_skill_id
    &&& a.next_project_id == b.next_project_id
    &&& a.next_blog_id == b.next_blog_id
    &&& a.next_experience_id == b.next_experience_id
    &&& a.next_education_id == b.next_education_id
    &&& a.next_service_id == b.next_service_id
}

pub open spec fn same_tables_except_services(a: Store, b: Store) -> bool {
    &&& same_singletons(a, b)
    &&& a.skills == b.skills
    &&& a.projects == b.projects
    &&& a.blogs == b.blogs
    &&& a.experience == b.experience
    &&& a.education == b.education
    &&& a.messages == b.messages
    &&& a.files == b.files
    &&& a.site_content == b.site_content
    &&& a.next_skill_id == b.next_skill_id
    &&& a.next_project_id == b.next_project_id
    &&& a.next_blog_id == b.next_blog_id
    &&& a.next_experience_id == b.next_experience_id
    &&& a.next_education_id == b.next_education_id
    &&& a.next_message_id == b.next_message_id
}

pub open spec fn same_tables_except_files(a: Store, b: Store) -> bool {
    &&& same_singletons(a, b)
    &&& a.skills == b.skills
    &&& a.projects == b.projects
    &&& a.blogs == b.blogs
    &&& a.experience == b.experience
    &&& a.education == b.education
    &&& a.messages == b.messages
    &&& a.services == b.services
    &&& a.site_content == b.site_content
    &&& same_counters(a, b)
}

pub open spec fn same_tables_except_content(a: Store, b: Store) -> bool {
    &&& same_singletons(a, b)
    &&& a.skills == b.skills
    &&& a.projects == b.projects
    &&& a.blogs == b.blogs
    &&& a.experience == b.experience
    &&& a.education == b.education
    &&& a.messages == b.messages
    &&& a.services == b.services
    &&& a.files == b.files
    &&& same_counters(a, b)
}

pub open spec fn same_tables_except_email_settings(a: Store, b: Store) -> bool {
    &&& a.profile == b.profile
    &&& a.admin == b.admin
    &&& a.skills == b.skills
    &&& a.projects == b.projects
    &&& a.blogs == b.blogs
    &&& a.experience == b.experience
    &&& a.education == b.education
    &&& a.messages == b.messages
    &&& a.services == b.services
    &&& a.files == b.files
    &&& a.site_content == b.site_content
    &&& same_counters(a, b)
}


pub open spec fn same_tables_except_profile_and_files(a: Store, b: Store) -> bool {
    &&& a.admin == b.admin
    &&& a.email_settings == b.email_settings
    &&& a.skills == b.skills
    &&& a.projects == b.projects
    &&& a.blogs == b.blogs
    &&& a.experience == b.experience
    &&& a.education == b.education
    &&& a.messages == b.messages
    &&& a.services == b.services
    &&& a.site_content == b.site_content
    &&& same_counters(a, b)
}

pub open spec fn same_tables_except_skills_and_files(a: Store, b: Store) -> bool {
    &&& same_singletons(a, b)
    &&& a.projects == b.projects
    &&& a.blogs == b.blogs
    &&& a.experience == b.experience
    &&& a.education == b.education
    &&& a.messages == b.messages
    &&& a.services == b.services
    &&& a.site_content == b.site_content
    &&& a.next_project_id == b.next_project_id
    &&& a.next_blog_id == b.next_blog_id
    &&& a.next_experience_id == b.next_experience_id
    &&& a.next_education_id == b.next_education_id
    &&& a.next_message_id == b.next_message_id
    &&& a.next_service_id == b.next_service_id
}

pub open spec fn same_tables_except_projects_and_files(a: Store, b: Store) -> bool {
    &&& same_singletons(a, b)
    &&& a.skills == b.skills
    &&& a.blogs == b.blogs
    &&& a.experience == b.experience
    &&& a.education == b.education
    &&& a.messages == b.messages
    &&& a.services == b.services
    &&& a.site_content == b.site_content
    &&& a.next_skill_id == b.next_skill_id
    &&& a.next_blog_id == b.next_blog_id
    &&& a.next_experience_id == b.next_experience_id
    &&& a.next_education_id == b.next_education_id
    &&& a.next_message_id == b.next_message_id
    &&& a.next_service_id == b.next_service_id
}

pub open spec fn same_tables_except_blogs_and_files(a: Store, b: Store) -> bool {
    &&& same_singletons(a, b)
    &&& a.skills == b.skills
    &&& a.projects == b.projects
    &&& a.experience == b.experience
    &&& a.education == b.education
    &&& a.messages == b.messages
    &&& a.services == b.services
    &&& a.site_content == b.site_content
    &&& a.next_skill_id == b.next_skill_id
    &&& a.next_project_id == b.next_project_id
    &&& a.next_experience_id == b.next_experience_id
    &&& a.next_education_id == b.next_education_id
    &&& a.next_message_id == b.next_message_id
    &&& a.next_service_id == b.next_service_id
}

pub open spec fn same_tables_except_services_and_files(a: Store, b: Store) -> bool {
    &&& same_singletons(a, b)
    &&& a.skills == b.skills
    &&& a.projects == b.projects
    &&& a.blogs == b.blogs
    &&& a.experience == b.experience
    &&& a.education == b.education
    &&& a.messages == b.messages
    &&& a.site_content == b.site_content
    &&& a.next_skill_id == b.next_skill_id
    &&& a.next_project_id == b.next_project_id
    &&& a.next_blog_id == b.next_blog_id
    &&& a.next_experience_id == b.next_experience_id
    &&& a.next_education_id == b.next_education_id
    &&& a.next_message_id == b.next_message_id
}

impl Store {
    /// Every table respects its id discipline and uniqueness rules, and the
    /// singleton rows carry their fixed id.
    pub open spec fn wf(&self) -> bool {
        &&& (self.profile matches Some(p) ==> p.id == 1)
        &&& (self.admin matches Some(a) ==> a.id == 1)
        &&& (self.email_settings matches Some(e) ==> e.id == 1)
        &&& skills_ok(self.skills@, self.next_skill_id as int)
        &&& projects_ok(self.projects@, self.next_project_id as int)
        &&& blogs_ok(self.blogs@, self.next_blog_id as int)
        &&& experience_ok(self.experience@, self.next_experience_id as int)
        &&& education_ok(self.education@, self.next_education_id as int)
        &&& messages_ok(self.messages@, self.next_message_id as int)
        &&& services_ok(self.services@, self.next_service_id as int)
        &&& files_ok(self.files@)
        &&& content_ok(self.site_content@)
        &&& self.next_skill_id >= 1
        &&& self.next_project_id >= 1
        &&& self.next_blog_id >= 1
        &&& self.next_experience_id >= 1
        &&& self.next_education_id >= 1
        &&& self.next_message_id >= 1
        &&& self.next_service_id >= 1
    }

    /// A store with no rows at all, as a freshly created database file has.
    pub fn new() -> (r: Store)
        ensures
            r.wf(),
            r.profile is None,
            r.admin is None,
            r.email_settings is None,
            r.skills@.len() == 0,
            r.projects@.len() == 0,
            r.blogs@.len() == 0,
            r.experience@.len() == 0,
            r.education@.len() == 0,
            r.messages@.len() == 0,
            r.services@.len() == 0,
            r.files@.len() == 0,
            r.site_content@.len() == 0,
            r.next_skill_id == 1 && r.next_project_id == 1 && r.next_blog_id == 1,
            r.next_experience_id == 1 && r.next_education_id == 1,
            r.next_message_id == 1 && r.next_service_id == 1,
    {
        Store {
            profile: None,
            admin: None,
            email_settings: None,
            skills: Vec::new(),
            projects: Vec::new(),
            blogs: Vec::new(),
            experience: Vec::new(),
            education: Vec::new(),
            messages: Vec::new(),
            services: Vec::new(),
            files: Vec::new(),
            site_content: Vec::new(),
            next_skill_id: 1,
            next_project_id: 1,
            next_blog_id: 1,
            next_experience_id: 1,
            next_education_id: 1,
            next_message_id: 1,
            next_service_id: 1,
        }
    }

    /// The singleton profile row; absent only on a store that was never
    /// initialized, which callers treat as a fatal configuration error.
    pub fn get_profile(&self) -> (r: Result<&Profile, StoreError>)
        ensures
            match r {
                Ok(p) => self.profile == Some(*p),
                Err(e) => e == StoreError::NotFound && self.profile is None,
            },
    {
        match &self.profile {
            Some(p) => Ok(p),
            None => Err(StoreError::NotFound),
        }
    }

    /// Overwrite every field of the profile row. Like an UPDATE of a missing
    /// row, this is a no-op when the profile was never created.
    pub fn update_profile(&mut self, form: &ProfileForm) -> (r: Result<(), StoreError>)
        requires
            old(self).wf(),
        ensures
            final(self).wf(),
            r == Ok::<(), StoreError>(()),
            same_tables_except_profile(*old(self), *final(self)),
            old(self).profile is None ==> final(self).profile == old(self).profile,
            old(self).profile is Some ==> final(self).profile == Some(
                Profile {
                    id: 1,
                    name: form.name,
                    title: form.title,
                    bio: form.bio,
                    email: form.email,
                    phone: form.phone,
                    location: form.location,
                    github_url: form.github_url,
                    linkedin_url: form.linkedin_url,
                    twitter_url: form.twitter_url,
                    resume_url: form.resume_url,
                    avatar_url: form.avatar_url,
                },
            ),
    {
        if self.profile.is_some() {
            self.profile = Some(
                Profile {
                    id: 1,
                    name: form.name.clone(),
                    title: form.title.clone(),
                    bio: form.bio.clone(),
                    email: form.email.clone(),
                    phone: form.phone.clone(),
                    location: form.location.clone(),
                    github_url: form.github_url.clone(),
                    linkedin_url: form.linkedin_url.clone(),
                    twitter_url: form.twitter_url.clone(),
                    resume_url: form.resume_url.clone(),
                    avatar_url: form.avatar_url.clone(),
                },
            );
        }
        Ok(())
    }

    /// All skills, ordered by category and then by name.
    pub fn get_skills(&self) -> (r: Vec<Skill>)
        requires
            self.wf(),
        ensures
            r@.to_multiset() == self.skills@.to_multiset(),
            r@.len() == self.skills@.len(),
            sorted(r@),
    {
        let mut out: Vec<Skill> = Vec::new();
        let mut i: usize = 0;
        while i < self.skills.len()
            invariant
                0 <= i <= self.skills@.len(),
                out@ =~= self.skills@.take(i as int),
            decreases self.skills@.len() - i,
        {
            out.push(self.skills[i].duplicate());
            i = i + 1;
        }
        proof {
            assert(out@ =~= self.skills@);
        }
        order::sort_by_ord(&mut out);
        out
    }

    /// Append a new skill row under the next free id.
    pub fn add_skill(&mut self, skill: &SkillForm) -> (r: Result<(), StoreError>)
        requires
            old(self).wf(),
        ensures
            final(self).wf(),
            same_tables_except_skills(*old(self), *final(self)),
            old(self).next_skill_id == i32::MAX ==> r == Err::<(), StoreError>(
                StoreError::IdsExhausted,
            ) && *final(self) == *old(self),
            old(self).next_skill_id < i32::MAX ==> {
                &&& r == Ok::<(), StoreError>(())
                &&& final(self).skills@ == old(self).skills@.push(
                    Skill {
                        id: old(self).next_skill_id,
                        name: skill.name,
                        category: skill.category,
                        proficiency: skill.proficiency,
                        icon: skill.icon,
                        icon_url: skill.icon_url,
                    },
                )
                &&& final(self).next_skill_id == old(self).next_skill_id + 1
            },
    {
        if self.next_skill_id == i32::MAX {
            return Err(StoreError::IdsExhausted);
        }
        let row = Skill {
            id: self.next_skill_id,
            name: skill.name.clone(),
            category: skill.category.clone(),
            proficiency: skill.proficiency,
            icon: skill.icon.clone(),
            icon_url: skill.icon_url.clone(),
        };
        self.skills.push(row);
        self.next_skill_id = self.next_skill_id + 1;
        Ok(())
    }

    /// Remove the skill with the given id; removing an absent id is a no-op.
    pub fn delete_skill(&mut self, id: i32) -> (r: Result<(), StoreError>)
        requires
            old(self).wf(),
        ensures
            final(self).wf(),
            r == Ok::<(), StoreError>(()),
            same_tables_except_skills(*old(self), *final(self)),
            final(self).next_skill_id == old(self).next_skill_id,
            final(self).skills@ == old(self).skills@.filter(|s: Skill| s.id != id),
    {
        let mut kept: Vec<Skill> = Vec::new();
        let mut i: usize = 0;
        while i < self.skills.len()
            invariant
                0 <= i <= self.skills@.len(),
                kept@ == self.skills@.take(i as int).filter(|s: Skill| s.id != id),
            decreases self.skills@.len() - i,
        {
            if self.skills[i].id != id {
                kept.push(self.skills[i].duplicate());
            }
            proof {
                reveal(Seq::filter);
                let tk1 = self.skills@.take(i + 1);
                assert(tk1.drop_last() =~= self.skills@.take(i as int));
                assert(tk1.last() == self.skills@[i as int]);
                assert(kept@ == tk1.filter(|s: Skill| s.id != id));
            }
            i = i + 1;
        }
        proof {
            assert(self.skills@.take(self.skills@.len() as int) =~= self.skills@);
        }
        let ghost pre = *self;
        self.skills = kept;
        proof {
            lemma_filter_keeps_table_ok(pre.skills@, |s: Skill| s.id != id, pre.next_skill_id as int);
        }
        Ok(())
    }
}

impl Store {
    /// All projects, newest first.
    pub fn get_projects(&self) -> (r: Vec<Project>)
        requires
            self.wf(),
        ensures
            r@.to_multiset() == self.projects@.to_multiset(),
            r@.len() == self.projects@.len(),
            sorted(r@),
    {
        let mut out: Vec<Project> = Vec::new();
        let mut i: usize = 0;
        while i < self.projects.len()
            invariant
                0 <= i <= self.projects@.len(),
                out@ =~= self.projects@.take(i as int),
            decreases self.projects@.len() - i,
        {
            out.push(self.projects[i].duplicate());
            i = i + 1;
        }
        proof {
            assert(out@ =~= self.projects@);
        }
        order::sort_by_ord(&mut out);
        out
    }

    /// The featured projects, newest first, capped at four entries as the
    /// front page shows them.
    pub fn get_featured_projects(&self) -> (r: Vec<Project>)
        requires
            self.wf(),
        ensures
            sorted(r@),
            exists|full: Seq<Project>|
                {
                    &&& #[trigger] full.to_multiset() == self.projects@.filter(
                        |p: Project| p.featured,
                    ).to_multiset()
                    &&& sorted(full)
                    &&& r@ == if full.len() <= 4 {
                        full
                    } else {
                        full.take(4)
                    }
                },
    {
        let mut out: Vec<Project> = Vec::new();
        let mut i: usize = 0;
        while i < self.projects.len()
            invariant
                0 <= i <= self.projects@.len(),
                out@ == self.projects@.take(i as int).filter(|p: Project| p.featured),
            decreases self.projects@.len() - i,
        {
            if self.projects[i].featured {
                out.push(self.projects[i].duplicate());
            }
            proof {
                reveal(Seq::filter);
                let tk1 = self.projects@.take(i + 1);
                assert(tk1.drop_last() =~= self.projects@.take(i as int));
                assert(tk1.last() == self.projects@[i as int]);
                assert(out@ == tk1.filter(|p: Project| p.featured));
            }
            i = i + 1;
        }
        proof {
            assert(self.projects@.take(self.projects@.len() as int) =~= self.projects@);
        }
        order::sort_by_ord(&mut out);
        let ghost full = out@;
        if out.len() > 4 {
            out.truncate(4);
            proof {
                assert(out@ == full.take(4));
                assert forall|a: int, b: int|
                    0 <= a < b < out@.len() implies #[trigger] out@[a].le_spec(&out@[b]) by {
                    assert(full[a].le_spec(&full[b]));
                }
            }
        }
        out
    }

    /// The project carrying the given slug, if any.
    pub fn get_project_by_slug(&self, slug: &str) -> (r: Result<&Project, StoreError>)
        requires
            self.wf(),
        ensures
            match r {
                Ok(p) => p.slug@ == slug@ && self.projects@.contains(*p),
                Err(e) => e == StoreError::NotFound && !project_slug_taken(self.projects@, slug@),
            },
    {
        let mut i: usize = 0;
        while i < self.projects.len()
            invariant
                0 <= i <= self.projects@.len(),
                forall|k: int| 0 <= k < i ==> (#[trigger] self.projects@[k]).slug@ != slug@,
            decreases self.projects@.len() - i,
        {
            if order::str_eq(self.projects[i].slug.as_str(), slug) {
                return Ok(&self.projects[i]);
            }
            i = i + 1;
        }
        Err(StoreError::NotFound)
    }

    /// The project carrying the given id, if any.
    pub fn get_project_by_id(&self, id: i32) -> (r: Result<&Project, StoreError>)
        requires
            self.wf(),
        ensures
            match r {
                Ok(p) => p.id == id && self.projects@.contains(*p),
                Err(e) => e == StoreError::NotFound && forall|k: int|
                    0 <= k < self.projects@.len() ==> (#[trigger] self.projects@[k]).id != id,
            },
    {
        let mut i: usize = 0;
        while i < self.projects.len()
            invariant
                0 <= i <= self.projects@.len(),
                forall|k: int| 0 <= k < i ==> (#[trigger] self.projects@[k]).id != id,
            decreases self.projects@.len() - i,
        {
            if self.projects[i].id == id {
                return Ok(&self.projects[i]);
            }
            i = i + 1;
        }
        Err(StoreError::NotFound)
    }

    /// Append a project under the next free id, at the given creation time.
    /// The slug is derived from the title; a title whose slug is already
    /// taken is rejected, which keeps slugs unique.
    pub fn add_project_at(&mut self, form: &ProjectForm, created_at: &String) -> (r: Result<
        (),
        StoreError,
    >)
        requires
            old(self).wf(),
        ensures
            final(self).wf(),
            same_tables_except_projects(*old(self), *final(self)),
            old(self).next_project_id == i32::MAX ==> r == Err::<(), StoreError>(
                StoreError::IdsExhausted,
            ) && *final(self) == *old(self),
            old(self).next_project_id < i32::MAX && project_slug_taken(
                old(self).projects@,
                outside::slug_of(form.title@),
            ) ==> r == Err::<(), StoreError>(StoreError::DuplicateSlug) && *final(self) == *old(
                self,
            ),
            old(self).next_project_id < i32::MAX && !project_slug_taken(
                old(self).projects@,
                outside::slug_of(form.title@),
            ) ==> {
                &&& r == Ok::<(), StoreError>(())
                &&& final(self).next_project_id == old(self).next_project_id + 1
                &&& final(self).projects@.len() == old(self).projects@.len() + 1
                &&& final(self).projects@.drop_last() == old(self).projects@
                &&& is_new_project(
                    final(self).projects@.last(),
                    *form,
                    old(self).next_project_id,
                    created_at@,
                )
            },
    {
        if self.next_project_id == i32::MAX {
            return Err(StoreError::IdsExhausted);
        }
        let slug = outside::slugify(form.title.as_str());
        if self.project_slug_in_use(&slug) {
            return Err(StoreError::DuplicateSlug);
        }
        let row = Project {
            id: self.next_project_id,
            title: form.title.clone(),
            slug,
            description: form.description.clone(),
            content: form.content.clone(),
            image_url: form.image_url.clone(),
            demo_url: form.demo_url.clone(),
            github_url: form.github_url.clone(),
            technologies: form.technologies.clone(),
            featured: form.featured.is_some(),
            created_at: created_at.clone(),
        };
        let ghost pre = *self;
        self.projects.push(row);
        self.next_project_id = self.next_project_id + 1;
        proof {
            assert(final(self).projects@.drop_last() =~= pre.projects@);
        }
        Ok(())
    }

    /// Whether any project row already uses this slug.
    fn project_slug_in_use(&self, slug: &String) -> (r: bool)
        ensures
            r == project_slug_taken(self.projects@, slug@),
    {
        let mut i: usize = 0;
        while i < self.projects.len()
            invariant
                0 <= i <= self.projects@.len(),
                forall|k: int| 0 <= k < i ==> (#[trigger] self.projects@[k]).slug@ != slug@,
            decreases self.projects@.len() - i,
        {
            if order::str_eq(self.projects[i].slug.as_str(), slug.as_str()) {
                return true;
            }
            i = i + 1;
        }
        false
    }

    /// Append a project stamped with the current time.
    pub fn add_project(&mut self, form: &ProjectForm) -> (r: Result<(), StoreError>)
        requires
            old(self).wf(),
        ensures
            final(self).wf(),
            same_tables_except_projects(*old(self), *final(self)),
            old(self).next_project_id == i32::MAX ==> r == Err::<(), StoreError>(
                StoreError::IdsExhausted,
            ) && *final(self) == *old(self),
            old(self).next_project_id < i32::MAX && project_slug_taken(
                old(self).projects@,
                outside::slug_of(form.title@),
            ) ==> r == Err::<(), StoreError>(StoreError::DuplicateSlug) && *final(self) == *old(
                self,
            ),
            old(self).next_project_id < i32::MAX && !project_slug_taken(
                old(self).projects@,
                outside::slug_of(form.title@),
            ) ==> {
                &&& r == Ok::<(), StoreError>(())
                &&& final(self).next_project_id == old(self).next_project_id + 1
                &&& final(self).projects@.len() == old(self).projects@.len() + 1
                &&& final(self).projects@.drop_last() == old(self).projects@
                &&& is_new_project(
                    final(self).projects@.last(),
                    *form,
                    old(self).next_project_id,
                    final(self).projects@.last().created_at@,
                )
                &&& final(self).projects@.last().created_at@.len() >= 19
            },
    {
        let now = outside::now_timestamp();
        self.add_project_at(form, &now)
    }

    /// Rewrite the project with the given id from the form, deriving its
    /// slug anew from the submitted title; rewriting an absent id is a
    /// no-op, and a slug already used by a different project is rejected.
    pub fn update_project(&mut self, id: i32, form: &ProjectForm) -> (r: Result<(), StoreError>)
        requires
            old(self).wf(),
        ensures
            final(self).wf(),
            same_tables_except_projects(*old(self), *final(self)),
            final(self).next_project_id == old(self).next_project_id,
            (exists|k: int|
                0 <= k < old(self).projects@.len() && (#[trigger] old(self).projects@[k]).slug@
                    == outside::slug_of(form.title@) && old(self).projects@[k].id != id) ==> r
                == Err::<(), StoreError>(StoreError::DuplicateSlug) && *final(self) == *old(self),
            (forall|k: int|
                0 <= k < old(self).projects@.len() ==> !((#[trigger] old(self).projects@[k]).slug@
                    == outside::slug_of(form.title@) && old(self).projects@[k].id != id)) ==> {
                &&& r == Ok::<(), StoreError>(())
                &&& final(self).projects@.len() == old(self).projects@.len()
                &&& forall|k: int|
                    0 <= k < old(self).projects@.len() && (#[trigger] old(
                        self,
                    ).projects@[k]).id != id ==> final(self).projects@[k] == old(self).projects@[k]
                &&& forall|k: int|
                    0 <= k < old(self).projects@.len() && (#[trigger] old(
                        self,
                    ).projects@[k]).id == id ==> is_updated_project(
                        final(self).projects@[k],
                        old(self).projects@[k],
                        *form,
                    )
            },
    {
        let slug = outside::slugify(form.title.as_str());
        let mut i: usize = 0;
        while i < self.projects.len()
            invariant
                0 <= i <= self.projects@.len(),
                old(self).wf(),
                *self == *old(self),
                slug@ == outside::slug_of(form.title@),
                forall|k: int|
                    0 <= k < i ==> !((#[trigger] self.projects@[k]).slug@ == slug@
                        && self.projects@[k].id != id),
            decreases self.projects@.len() - i,
        {
            if self.projects[i].id != id && order::str_eq(
                self.projects[i].slug.as_str(),
                slug.as_str(),
            ) {
                return Err(StoreError::DuplicateSlug);
            }
            i = i + 1;
        }
        let mut i: usize = 0;
        while i < self.projects.len()
            invariant
                0 <= i <= self.projects@.len(),
                old(self).wf(),
                *self == *old(self),
                slug@ == outside::slug_of(form.title@),
                forall|k: int|
                    0 <= k < self.projects@.len() ==> !((#[trigger] self.projects@[k]).slug@
                        == slug@ && self.projects@[k].id != id),
                forall|k: int| 0 <= k < i ==> (#[trigger] self.projects@[k]).id != id,
            decreases self.projects@.len() - i,
        {
            if self.projects[i].id == id {
                let ghost pre = *self;
                let prev = self.projects.remove(i);
                let row = Project {
                    id,
                    title: form.title.clone(),
                    slug,
                    description: form.description.clone(),
                    content: form.content.clone(),
                    image_url: form.image_url.clone(),
                    demo_url: form.demo_url.clone(),
                    github_url: form.github_url.clone(),
                    technologies: form.technologies.clone(),
                    featured: form.featured.is_some(),
                    created_at: prev.created_at,
                };
                self.projects.insert(i, row);
                proof {
                    assert(self.projects@ =~= pre.projects@.update(i as int, row));
                    assert forall|k: int|
                        0 <= k < pre.projects@.len() && (#[trigger] pre.projects@[k]).id
                            == id implies k == i by {
                        if k != i {
                            assert(pre.projects@[k].id != pre.projects@[i as int].id);
                        }
                    }
                    assert forall|a: int, b: int|
                        0 <= a < b < self.projects@.len() implies self.projects@[a].slug@
                            != self.projects@[b].slug@ by {
                        if b == i && a != i {
                            assert(pre.projects@[a].id != pre.projects@[i as int].id);
                            assert(!(pre.projects@[a].slug@ == slug@ && pre.projects@[a].id
                                != id));
                        } else if a == i && b != i {
                            assert(pre.projects@[b].id != pre.projects@[i as int].id);
                            assert(!(pre.projects@[b].slug@ == slug@ && pre.projects@[b].id
                                != id));
                        }
                    }
                }
                return Ok(());
            }
            i = i + 1;
        }
        Ok(())
    }

    /// Remove the project with the given id; removing an absent id is a
    /// no-op.
    pub fn delete_project(&mut self, id: i32) -> (r: Result<(), StoreError>)
        requires
            old(self).wf(),
        ensures
            final(self).wf(),
            r == Ok::<(), StoreError>(()),
            same_tables_except_projects(*old(self), *final(self)),
            final(self).next_project_id == old(self).next_project_id,
            final(self).projects@ == old(self).projects@.filter(|p: Project| p.id != id),
    {
        let mut kept: Vec<Project> = Vec::new();
        let mut i: usize = 0;
        while i < self.projects.len()
            invariant
                0 <= i <= self.projects@.len(),
                kept@ == self.projects@.take(i as int).filter(|p: Project| p.id != id),
            decreases self.projects@.len() - i,
        {
            if self.projects[i].id != id {
                kept.push(self.projects[i].duplicate());
            }
            proof {
                reveal(Seq::filter);
                let tk1 = self.projects@.take(i + 1);
                assert(tk1.drop_last() =~= self.projects@.take(i as int));
                assert(tk1.last() == self.projects@[i as int]);
                assert(kept@ == tk1.filter(|p: Project| p.id != id));
            }
            i = i + 1;
        }
        proof {
            assert(self.projects@.take(self.projects@.len() as int) =~= self.projects@);
        }
        let ghost pre = *self;
        self.projects = kept;
        proof {
            lemma_filter_keeps_projects_ok(
                pre.projects@,
                |p: Project| p.id != id,
                pre.next_project_id as int,
            );
        }
        Ok(())
    }
}

/// What a freshly inserted project row holds, given the submitted form:
/// every text field is carried over as submitted, the slug is derived from
/// the title and consists only of slug characters, and the checkbox-style
/// "featured" flag is true exactly when the field was submitted at all.
pub open spec fn is_new_project(p: Project, form: ProjectForm, id: i32, created_at: Seq<char>) -> bool {
    &&& p.id == id
    &&& p.title == form.title
    &&& p.slug@ == outside::slug_of(form.title@)
    &&& (forall|k: int| 0 <= k < p.slug@.len() ==> outside::slug_char(#[trigger] p.slug@[k]))
    &&& p.description == form.description
    &&& p.content == form.content
    &&& p.image_url == form.image_url
    &&& p.demo_url == form.demo_url
    &&& p.github_url == form.github_url
    &&& p.technologies == form.technologies
    &&& p.featured == crate::checkbox_set(form.featured)
    &&& p.created_at@ == created_at
}

/// What a rewritten project row holds: fields from the form, the slug
/// derived anew from the title, the id and creation stamp of the row it
/// replaces.
pub open spec fn is_updated_project(p: Project, prev: Project, form: ProjectForm) -> bool {
    &&& p.id == prev.id
    &&& p.title == form.title
    &&& p.slug@ == outside::slug_of(form.title@)
    &&& p.description == form.description
    &&& p.content == form.content
    &&& p.image_url == form.image_url
    &&& p.demo_url == form.demo_url
    &&& p.github_url == form.github_url
    &&& p.technologies == form.technologies
    &&& p.featured == crate::checkbox_set(form.featured)
    &&& p.created_at == prev.created_at
}

/// Elements kept by a filter are elements of the original sequence, so a
/// filtered project table keeps its id discipline and slug uniqueness.
proof fn lemma_filter_keeps_projects_ok(s: Seq<Project>, pred: spec_fn(Project) -> bool, next: int)
    requires
        projects_ok(s, next),
    ensures
        projects_ok(s.filter(pred), next),
    decreases s.len(),
{
    reveal(Seq::filter);
    if s.len() > 0 {
        let d = s.drop_last();
        assert(projects_ok(d, next));
        lemma_filter_keeps_projects_ok(d, pred, next);
        if pred(s.last()) {
            assert(s.filter(pred) == d.filter(pred).push(s.last()));
            lemma_filter_projects_contained(d, pred);
            assert forall|i: int, j: int|
                0 <= i < j < s.filter(pred).len() implies s.filter(pred)[i].id != s.filter(
                pred,
            )[j].id && s.filter(pred)[i].slug@ != s.filter(pred)[j].slug@ by {
                if j == s.filter(pred).len() - 1 {
                    let fi = d.filter(pred)[i];
                    let k = choose|k: int| 0 <= k < d.len() && d[k] == fi;
                    assert(s[k] == fi && s[s.len() - 1] == s.last());
                    assert(s[k].id != s[s.len() - 1].id);
                    assert(s[k].slug@ != s[s.len() - 1].slug@);
                }
            }
        }
    }
}

/// Every element of a filtered project sequence occurs in the original.
proof fn lemma_filter_projects_contained(s: Seq<Project>, pred: spec_fn(Project) -> bool)
    ensures
        forall|i: int|
            0 <= i < s.filter(pred).len() ==> exists|k: int|
                0 <= k < s.len() && s[k] == #[trigger] s.filter(pred)[i],
    decreases s.len(),
{
    reveal(Seq::filter);
    if s.len() > 0 {
        let d = s.drop_last();
        lemma_filter_projects_contained(d, pred);
        assert forall|i: int| 0 <= i < s.filter(pred).len() implies exists|k: int|
            0 <= k < s.len() && s[k] == #[trigger] s.filter(pred)[i] by {
            if pred(s.last()) && i == s.filter(pred).len() - 1 {
                assert(s[s.len() - 1] == s.filter(pred)[i]);
            } else {
                let fi = s.filter(pred)[i];
                assert(d.filter(pred)[i] == fi);
                let k = choose|k: int| 0 <= k < d.len() && d[k] == fi;
                assert(s[k] == fi);
            }
        }
    }
}

impl SortOrd for Project {
    /// Projects list newest first.
    open spec fn le_spec(&self, other: &Self) -> bool {
        lex_le(other.created_at@, self.created_at@)
    }

    proof fn lemma_le_total(a: &Self, b: &Self) {
        order::lemma_lex_total(b.created_at@, a.created_at@);
    }

    proof fn lemma_le_trans(a: &Self, b: &Self, c: &Self) {
        if a.le_spec(b) && b.le_spec(c) {
            order::lemma_lex_trans(c.created_at@, b.created_at@, a.created_at@);
        }
    }

    fn le(&self, other: &Self) -> (r: bool) {
        order::str_lex_le(other.created_at.as_str(), self.created_at.as_str())
    }
}

impl Store {
    /// All blogs, newest first.
    pub fn get_blogs(&self) -> (r: Vec<Blog>)
        requires
            self.wf(),
        ensures
            r@.to_multiset() == self.blogs@.to_multiset(),
            r@.len() == self.blogs@.len(),
            sorted(r@),
    {
        let mut out: Vec<Blog> = Vec::new();
        let mut i: usize = 0;
        while i < self.blogs.len()
            invariant
                0 <= i <= self.blogs@.len(),
                out@ =~= self.blogs@.take(i as int),
            decreases self.blogs@.len() - i,
        {
            out.push(self.blogs[i].duplicate());
            i = i + 1;
        }
        proof {
            assert(out@ =~= self.blogs@);
        }
        order::sort_by_ord(&mut out);
        out
    }

    /// The published blogs, newest first.
    pub fn get_published_blogs(&self) -> (r: Vec<Blog>)
        requires
            self.wf(),
        ensures
            r@.to_multiset() == self.blogs@.filter(|b: Blog| b.published).to_multiset(),
            sorted(r@),
    {
        let mut out: Vec<Blog> = Vec::new();
        let mut i: usize = 0;
        while i < self.blogs.len()
            invariant
                0 <= i <= self.blogs@.len(),
                out@ == self.blogs@.take(i as int).filter(|b: Blog| b.published),
            decreases self.blogs@.len() - i,
        {
            if self.blogs[i].published {
                out.push(self.blogs[i].duplicate());
            }
            proof {
                reveal(Seq::filter);
                let tk1 = self.blogs@.take(i + 1);
                assert(tk1.drop_last() =~= self.blogs@.take(i as int));
                assert(tk1.last() == self.blogs@[i as int]);
                assert(out@ == tk1.filter(|b: Blog| b.published));
            }
            i = i + 1;
        }
        proof {
            assert(self.blogs@.take(self.blogs@.len() as int) =~= self.blogs@);
        }
        order::sort_by_ord(&mut out);
        out
    }

    /// The most recent published blogs, newest first, capped at `limit`.
    pub fn get_recent_blogs(&self, limit: i32) -> (r: Vec<Blog>)
        requires
            self.wf(),
            limit >= 0,
        ensures
            sorted(r@),
            exists|full: Seq<Blog>|
                {
                    &&& #[trigger] full.to_multiset() == self.blogs@.filter(
                        |b: Blog| b.published,
                    ).to_multiset()
                    &&& sorted(full)
                    &&& r@ == if full.len() <= limit as int {
                        full
                    } else {
                        full.take(limit as int)
                    }
                },
    {
        let mut out = self.get_published_blogs();
        let ghost full = out@;
        if out.len() > limit as usize {
            out.truncate(limit as usize);
            proof {
                assert(out@ == full.take(limit as int));
                assert forall|a: int, b: int|
                    0 <= a < b < out@.len() implies #[trigger] out@[a].le_spec(&out@[b]) by {
                    assert(full[a].le_spec(&full[b]));
                }
            }
        }
        out
    }

    /// The blog carrying the given slug, if any.
    pub fn get_blog_by_slug(&self, slug: &str) -> (r: Result<&Blog, StoreError>)
        requires
            self.wf(),
        ensures
            match r {
                Ok(b) => b.slug@ == slug@ && self.blogs@.contains(*b),
                Err(e) => e == StoreError::NotFound && !blog_slug_taken(self.blogs@, slug@),
            },
    {
        let mut i: usize = 0;
        while i < self.blogs.len()
            invariant
                0 <= i <= self.blogs@.len(),
                forall|k: int| 0 <= k < i ==> (#[trigger] self.blogs@[k]).slug@ != slug@,
            decreases self.blogs@.len() - i,
        {
            if order::str_eq(self.blogs[i].slug.as_str(), slug) {
                return Ok(&self.blogs[i]);
            }
            i = i + 1;
        }
        Err(StoreError::NotFound)
    }

    /// The blog carrying the given id, if any.
    pub fn get_blog_by_id(&self, id: i32) -> (r: Result<&Blog, StoreError>)
        requires
            self.wf(),
        ensures
            match r {
                Ok(b) => b.id == id && self.blogs@.contains(*b),
                Err(e) => e == StoreError::NotFound && forall|k: int|
                    0 <= k < self.blogs@.len() ==> (#[trigger] self.blogs@[k]).id != id,
            },
    {
        let mut i: usize = 0;
        while i < self.blogs.len()
            invariant
                0 <= i <= self.blogs@.len(),
                forall|k: int| 0 <= k < i ==> (#[trigger] self.blogs@[k]).id != id,
            decreases self.blogs@.len() - i,
        {
            if self.blogs[i].id == id {
                return Ok(&self.blogs[i]);
            }
            i = i + 1;
        }
        Err(StoreError::NotFound)
    }

    /// Whether any blog row already uses this slug.
    fn blog_slug_in_use(&self, slug: &String) -> (r: bool)
        ensures
            r == blog_slug_taken(self.blogs@, slug@),
    {
        let mut i: usize = 0;
        while i < self.blogs.len()
            invariant
                0 <= i <= self.blogs@.len(),
                forall|k: int| 0 <= k < i ==> (#[trigger] self.blogs@[k]).slug@ != slug@,
            decreases self.blogs@.len() - i,
        {
            if order::str_eq(self.blogs[i].slug.as_str(), slug.as_str()) {
                return true;
            }
            i = i + 1;
        }
        false
    }

    /// Append a blog under the next free id, at the given creation time.
    /// The slug is derived from the title, and a taken slug is rejected.
    pub fn add_blog_at(&mut self, form: &BlogForm, now: &String) -> (r: Result<(), StoreError>)
        requires
            old(self).wf(),
        ensures
            final(self).wf(),
            same_tables_except_blogs(*old(self), *final(self)),
            old(self).next_blog_id == i32::MAX ==> r == Err::<(), StoreError>(
                StoreError::IdsExhausted,
            ) && *final(self) == *old(self),
            old(self).next_blog_id < i32::MAX && blog_slug_taken(
                old(self).blogs@,
                outside::slug_of(form.title@),
            ) ==> r == Err::<(), StoreError>(StoreError::DuplicateSlug) && *final(self) == *old(
                self,
            ),
            old(self).next_blog_id < i32::MAX && !blog_slug_taken(
                old(self).blogs@,
                outside::slug_of(form.title@),
            ) ==> {
                &&& r == Ok::<(), StoreError>(())
                &&& final(self).next_blog_id == old(self).next_blog_id + 1
                &&& final(self).blogs@.len() == old(self).blogs@.len() + 1
                &&& final(self).blogs@.drop_last() == old(self).blogs@
                &&& is_new_blog(
                    final(self).blogs@.last(),
                    *form,
                    old(self).next_blog_id,
                    now@,
                )
            },
    {
        if self.next_blog_id == i32::MAX {
            return Err(StoreError::IdsExhausted);
        }
        let slug = outside::slugify(form.title.as_str());
        if self.blog_slug_in_use(&slug) {
            return Err(StoreError::DuplicateSlug);
        }
        let row = Blog {
            id: self.next_blog_id,
            title: form.title.clone(),
            slug,
            excerpt: form.excerpt.clone(),
            content: form.content.clone(),
            image_url: form.image_url.clone(),
            tags: form.tags.clone(),
            published: form.published.is_some(),
            created_at: now.clone(),
            updated_at: now.clone(),
        };
        let ghost pre = *self;
        self.blogs.push(row);
        self.next_blog_id = self.next_blog_id + 1;
        proof {
            assert(self.blogs@.drop_last() =~= pre.blogs@);
        }
        Ok(())
    }

    /// Append a blog stamped with the current time.
    pub fn add_blog(&mut self, form: &BlogForm) -> (r: Result<(), StoreError>)
        requires
            old(self).wf(),
        ensures
            final(self).wf(),
            same_tables_except_blogs(*old(self), *final(self)),
            old(self).next_blog_id == i32::MAX ==> r == Err::<(), StoreError>(
                StoreError::IdsExhausted,
            ) && *final(self) == *old(self),
            old(self).next_blog_id < i32::MAX && blog_slug_taken(
                old(self).blogs@,
                outside::slug_of(form.title@),
            ) ==> r == Err::<(), StoreError>(StoreError::DuplicateSlug) && *final(self) == *old(
                self,
            ),
            old(self).next_blog_id < i32::MAX && !blog_slug_taken(
                old(self).blogs@,
                outside::slug_of(form.title@),
            ) ==> {
                &&& r == Ok::<(), StoreError>(())
                &&& final(self).next_blog_id == old(self).next_blog_id + 1
                &&& final(self).blogs@.len() == old(self).blogs@.len() + 1
                &&& final(self).blogs@.drop_last() == old(self).blogs@
                &&& is_new_blog(
                    final(self).blogs@.last(),
                    *form,
                    old(self).next_blog_id,
                    final(self).blogs@.last().created_at@,
                )
                &&& final(self).blogs@.last().created_at@.len() >= 19
            },
    {
        let now = outside::now_timestamp();
        self.add_blog_at(form, &now)
    }

    /// Rewrite the blog with the given id, deriving its slug anew and
    /// stamping the given update time; the creation stamp is kept.
    pub fn update_blog_at(&mut self, id: i32, form: &BlogForm, now: &String) -> (r: Result<
        (),
        StoreError,
    >)
        requires
            old(self).wf(),
        ensures
            final(self).wf(),
            same_tables_except_blogs(*old(self), *final(self)),
            final(self).next_blog_id == old(self).next_blog_id,
            (exists|k: int|
                0 <= k < old(self).blogs@.len() && (#[trigger] old(self).blogs@[k]).slug@
                    == outside::slug_of(form.title@) && old(self).blogs@[k].id != id) ==> r
                == Err::<(), StoreError>(StoreError::DuplicateSlug) && *final(self) == *old(self),
            (forall|k: int|
                0 <= k < old(self).blogs@.len() ==> !((#[trigger] old(self).blogs@[k]).slug@
                    == outside::slug_of(form.title@) && old(self).blogs@[k].id != id)) ==> {
                &&& r == Ok::<(), StoreError>(())
                &&& final(self).blogs@.len() == old(self).blogs@.len()
                &&& forall|k: int|
                    0 <= k < old(self).blogs@.len() && (#[trigger] old(self).blogs@[k]).id != id
                        ==> final(self).blogs@[k] == old(self).blogs@[k]
                &&& forall|k: int|
                    0 <= k < old(self).blogs@.len() && (#[trigger] old(self).blogs@[k]).id == id
                        ==> is_updated_blog(
                        final(self).blogs@[k],
                        old(self).blogs@[k],
                        *form,
                        now@,
                    )
            },
    {
        let slug = outside::slugify(form.title.as_str());
        let mut i: usize = 0;
        while i < self.blogs.len()
            invariant
                0 <= i <= self.blogs@.len(),
                old(self).wf(),
                *self == *old(self),
                slug@ == outside::slug_of(form.title@),
                forall|k: int|
                    0 <= k < i ==> !((#[trigger] self.blogs@[k]).slug@ == slug@
                        && self.blogs@[k].id != id),
            decreases self.blogs@.len() - i,
        {
            if self.blogs[i].id != id && order::str_eq(
                self.blogs[i].slug.as_str(),
                slug.as_str(),
            ) {
                return Err(StoreError::DuplicateSlug);
            }
            i = i + 1;
        }
        let mut i: usize = 0;
        while i < self.blogs.len()
            invariant
                0 <= i <= self.blogs@.len(),
                old(self).wf(),
                *self == *old(self),
                slug@ == outside::slug_of(form.title@),
                forall|k: int|
                    0 <= k < self.blogs@.len() ==> !((#[trigger] self.blogs@[k]).slug@ == slug@
                        && self.blogs@[k].id != id),
                forall|k: int| 0 <= k < i ==> (#[trigger] self.blogs@[k]).id != id,
            decreases self.blogs@.len() - i,
        {
            if self.blogs[i].id == id {
                let ghost pre = *self;
                let prev = self.blogs.remove(i);
                let row = Blog {
                    id,
                    title: form.title.clone(),
                    slug,
                    excerpt: form.excerpt.clone(),
                    content: form.content.clone(),
                    image_url: form.image_url.clone(),
                    tags: form.tags.clone(),
                    published: form.published.is_some(),
                    created_at: prev.created_at,
                    updated_at: now.clone(),
                };
                self.blogs.insert(i, row);
                proof {
                    assert(self.blogs@ =~= pre.blogs@.update(i as int, row));
                    assert forall|k: int|
                        0 <= k < pre.blogs@.len() && (#[trigger] pre.blogs@[k]).id
                            == id implies k == i by {
                        if k != i {
                            assert(pre.blogs@[k].id != pre.blogs@[i as int].id);
                        }
                    }
                    assert forall|a: int, b: int|
                        0 <= a < b < self.blogs@.len() implies self.blogs@[a].slug@
                            != self.blogs@[b].slug@ by {
                        if b == i && a != i {
                            assert(pre.blogs@[a].id != pre.blogs@[i as int].id);
                            assert(!(pre.blogs@[a].slug@ == slug@ && pre.blogs@[a].id != id));
                        } else if a == i && b != i {
                            assert(pre.blogs@[b].id != pre.blogs@[i as int].id);
                            assert(!(pre.blogs@[b].slug@ == slug@ && pre.blogs@[b].id != id));
                        }
                    }
                }
                return Ok(());
            }
            i = i + 1;
        }
        Ok(())
    }

    /// Rewrite the blog with the given id, stamped with the current time.
    pub fn update_blog(&mut self, id: i32, form: &BlogForm) -> (r: Result<(), StoreError>)
        requires
            old(self).wf(),
        ensures
            final(self).wf(),
            same_tables_except_blogs(*old(self), *final(self)),
            final(self).next_blog_id == old(self).next_blog_id,
            (exists|k: int|
                0 <= k < old(self).blogs@.len() && (#[trigger] old(self).blogs@[k]).slug@
                    == outside::slug_of(form.title@) && old(self).blogs@[k].id != id) ==> r
                == Err::<(), StoreError>(StoreError::DuplicateSlug) && *final(self) == *old(self),
            (forall|k: int|
                0 <= k < old(self).blogs@.len() ==> !((#[trigger] old(self).blogs@[k]).slug@
                    == outside::slug_of(form.title@) && old(self).blogs@[k].id != id)) ==> {
                &&& r == Ok::<(), StoreError>(())
                &&& final(self).blogs@.len() == old(self).blogs@.len()
                &&& forall|k: int|
                    0 <= k < old(self).blogs@.len() && (#[trigger] old(self).blogs@[k]).id != id
                        ==> final(self).blogs@[k] == old(self).blogs@[k]
                &&& forall|k: int|
                    0 <= k < old(self).blogs@.len() && (#[trigger] old(self).blogs@[k]).id == id
                        ==> is_updated_blog(
                        final(self).blogs@[k],
                        old(self).blogs@[k],
                        *form,
                        final(self).blogs@[k].updated_at@,
                    ) && final(self).blogs@[k].updated_at@.len() >= 19
            },
    {
        let now = outside::now_timestamp();
        self.update_blog_at(id, form, &now)
    }

    /// Remove the blog with the given id; removing an absent id is a no-op.
    pub fn delete_blog(&mut self, id: i32) -> (r: Result<(), StoreError>)
        requires
            old(self).wf(),
        ensures
            final(self).wf(),
            r == Ok::<(), StoreError>(()),
            same_tables_except_blogs(*old(self), *final(self)),
            final(self).next_blog_id == old(self).next_blog_id,
            final(self).blogs@ == old(self).blogs@.filter(|b: Blog| b.id != id),
    {
        let mut kept: Vec<Blog> = Vec::new();
        let mut i: usize = 0;
        while i < self.blogs.len()
            invariant
                0 <= i <= self.blogs@.len(),
                kept@ == self.blogs@.take(i as int).filter(|b: Blog| b.id != id),
            decreases self.blogs@.len() - i,
        {
            if self.blogs[i].id != id {
                kept.push(self.blogs[i].duplicate());
            }
            proof {
                reveal(Seq::filter);
                let tk1 = self.blogs@.take(i + 1);
                assert(tk1.drop_last() =~= self.blogs@.take(i as int));
                assert(tk1.last() == self.blogs@[i as int]);
                assert(kept@ == tk1.filter(|b: Blog| b.id != id));
            }
            i = i + 1;
        }
        proof {
            assert(self.blogs@.take(self.blogs@.len() as int) =~= self.blogs@);
        }
        let ghost pre = *self;
        self.blogs = kept;
        proof {
            lemma_filter_keeps_blogs_ok(pre.blogs@, |b: Blog| b.id != id, pre.next_blog_id as int);
        }
        Ok(())
    }
}

/// What a freshly inserted blog row holds, given the submitted form.
pub open spec fn is_new_blog(b: Blog, form: BlogForm, id: i32, now: Seq<char>) -> bool {
    &&& b.id == id
    &&& b.title == form.title
    &&& b.slug@ == outside::slug_of(form.title@)
    &&& (forall|k: int| 0 <= k < b.slug@.len() ==> outside::slug_char(#[trigger] b.slug@[k]))
    &&& b.excerpt == form.excerpt
    &&& b.content == form.content
    &&& b.image_url == form.image_url
    &&& b.tags == form.tags
    &&& b.published == crate::checkbox_set(form.published)
    &&& b.created_at@ == now
    &&& b.updated_at@ == now
}

/// What a rewritten blog row holds: fields from the form, the slug derived
/// anew, the replaced row's id and creation stamp, and a fresh update stamp.
pub open spec fn is_updated_blog(b: Blog, prev: Blog, form: BlogForm, now: Seq<char>) -> bool {
    &&& b.id == prev.id
    &&& b.title == form.title
    &&& b.slug@ == outside::slug_of(form.title@)
    &&& b.excerpt == form.excerpt
    &&& b.content == form.content
    &&& b.image_url == form.image_url
    &&& b.tags == form.tags
    &&& b.published == crate::checkbox_set(form.published)
    &&& b.created_at == prev.created_at
    &&& b.updated_at@ == now
}

/// Elements kept by a filter are elements of the original sequence, so a
/// filtered blog table keeps its id discipline and slug uniqueness.
proof fn lemma_filter_keeps_blogs_ok(s: Seq<Blog>, pred: spec_fn(Blog) -> bool, next: int)
    requires
        blogs_ok(s, next),
    ensures
        blogs_ok(s.filter(pred), next),
    decreases s.len(),
{
    reveal(Seq::filter);
    if s.len() > 0 {
        let d = s.drop_last();
        assert(blogs_ok(d, next));
        lemma_filter_keeps_blogs_ok(d, pred, next);
        if pred(s.last()) {
            assert(s.filter(pred) == d.filter(pred).push(s.last()));
            lemma_filter_blogs_contained(d, pred);
            assert forall|i: int, j: int|
                0 <= i < j < s.filter(pred).len() implies s.filter(pred)[i].id != s.filter(
                pred,
            )[j].id && s.filter(pred)[i].slug@ != s.filter(pred)[j].slug@ by {
                if j == s.filter(pred).len() - 1 {
                    let fi = d.filter(pred)[i];
                    let k = choose|k: int| 0 <= k < d.len() && d[k] == fi;
                    assert(s[k] == fi && s[s.len() - 1] == s.last());
                    assert(s[k].id != s[s.len() - 1].id);
                    assert(s[k].slug@ != s[s.len() - 1].slug@);
                }
            }
        }
    }
}

/// Every element of a filtered blog sequence occurs in the original.
proof fn lemma_filter_blogs_contained(s: Seq<Blog>, pred: spec_fn(Blog) -> bool)
    ensures
        forall|i: int|
            0 <= i < s.filter(pred).len() ==> exists|k: int|
                0 <= k < s.len() && s[k] == #[trigger] s.filter(pred)[i],
    decreases s.len(),
{
    reveal(Seq::filter);
    if s.len() > 0 {
        let d = s.drop_last();
        lemma_filter_blogs_contained(d, pred);
        assert forall|i: int| 0 <= i < s.filter(pred).len() implies exists|k: int|
            0 <= k < s.len() && s[k] == #[trigger] s.filter(pred)[i] by {
            if pred(s.last()) && i == s.filter(pred).len() - 1 {
                assert(s[s.len() - 1] == s.filter(pred)[i]);
            } else {
                let fi = s.filter(pred)[i];
                assert(d.filter(pred)[i] == fi);
                let k = choose|k: int| 0 <= k < d.len() && d[k] == fi;
                assert(s[k] == fi);
            }
        }
    }
}

impl SortOrd for Blog {
    /// Blogs list newest first.
    open spec fn le_spec(&self, other: &Self) -> bool {
        lex_le(other.created_at@, self.created_at@)
    }

    proof fn lemma_le_total(a: &Self, b: &Self) {
        order::lemma_lex_total(b.created_at@, a.created_at@);
    }

    proof fn lemma_le_trans(a: &Self, b: &Self, c: &Self) {
        if a.le_spec(b) && b.le_spec(c) {
            order::lemma_lex_trans(c.created_at@, b.created_at@, a.created_at@);
        }
    }

    fn le(&self, other: &Self) -> (r: bool) {
        order::str_lex_le(other.created_at.as_str(), self.created_at.as_str())
    }
}

/// Elements kept by a filter are elements of the original sequence, so a
/// filtered table keeps its id discipline.
proof fn lemma_filter_keeps_table_ok(s: Seq<Skill>, pred: spec_fn(Skill) -> bool, next: int)
    requires
        skills_ok(s, next),
    ensures
        skills_ok(s.filter(pred), next),
    decreases s.len(),
{
    reveal(Seq::filter);
    if s.len() > 0 {
        let d = s.drop_last();
        assert(skills_ok(d, next));
        lemma_filter_keeps_table_ok(d, pred, next);
        if pred(s.last()) {
            assert(s.filter(pred) == d.filter(pred).push(s.last()));
            lemma_filter_elements_contained(d, pred);
            assert forall|i: int, j: int|
                0 <= i < j < s.filter(pred).len() implies s.filter(pred)[i].id != s.filter(
                pred,
            )[j].id by {
                if j == s.filter(pred).len() - 1 {
                    let fi = d.filter(pred)[i];
                    let k = choose|k: int| 0 <= k < d.len() && d[k] == fi;
                    assert(s[k] == fi && s[s.len() - 1] == s.last());
                    assert(s[k].id != s[s.len() - 1].id);
                }
            }
        }
    }
}

/// Every element of a filtered sequence occurs in the original.
proof fn lemma_filter_elements_contained(s: Seq<Skill>, pred: spec_fn(Skill) -> bool)
    ensures
        forall|i: int|
            0 <= i < s.filter(pred).len() ==> exists|k: int|
                0 <= k < s.len() && s[k] == #[trigger] s.filter(pred)[i],
    decreases s.len(),
{
    reveal(Seq::filter);
    if s.len() > 0 {
        let d = s.drop_last();
        lemma_filter_elements_contained(d, pred);
        assert forall|i: int| 0 <= i < s.filter(pred).len() implies exists|k: int|
            0 <= k < s.len() && s[k] == #[trigger] s.filter(pred)[i] by {
            if pred(s.last()) && i == s.filter(pred).len() - 1 {
                assert(s[s.len() - 1] == s.filter(pred)[i]);
            } else {
                let fi = s.filter(pred)[i];
                assert(d.filter(pred)[i] == fi);
                let k = choose|k: int| 0 <= k < d.len() && d[k] == fi;
                assert(s[k] == fi);
            }
        }
    }
}

impl Store {
    /// All services, ordered by their order index.
    pub fn get_services(&self) -> (r: Vec<Service>)
        requires
            self.wf(),
        ensures
            r@.to_multiset() == self.services@.to_multiset(),
            r@.len() == self.services@.len(),
            sorted(r@),
    {
        let mut out: Vec<Service> = Vec::new();
        let mut i: usize = 0;
        while i < self.services.len()
            invariant
                0 <= i <= self.services@.len(),
                out@ =~= self.services@.take(i as int),
            decreases self.services@.len() - i,
        {
            out.push(self.services[i].duplicate());
            i = i + 1;
        }
        proof {
            assert(out@ =~= self.services@);
        }
        order::sort_by_ord(&mut out);
        out
    }

    /// The service carrying the given id, if any.
    pub fn get_service(&self, id: i32) -> (r: Result<&Service, StoreError>)
        requires
            self.wf(),
        ensures
            match r {
                Ok(s) => s.id == id && self.services@.contains(*s),
                Err(e) => e == StoreError::NotFound && forall|k: int|
                    0 <= k < self.services@.len() ==> (#[trigger] self.services@[k]).id != id,
            },
    {
        let mut i: usize = 0;
        while i < self.services.len()
            invariant
                0 <= i <= self.services@.len(),
                forall|k: int| 0 <= k < i ==> (#[trigger] self.services@[k]).id != id,
            decreases self.services@.len() - i,
        {
            if self.services[i].id == id {
                return Ok(&self.services[i]);
            }
            i = i + 1;
        }
        Err(StoreError::NotFound)
    }

    /// Append a service row and report the id it received.
    pub fn add_service(&mut self, form: &ServiceForm) -> (r: Result<i32, StoreError>)
        requires
            old(self).wf(),
        ensures
            final(self).wf(),
            same_tables_except_services(*old(self), *final(self)),
            old(self).next_service_id == i32::MAX ==> r == Err::<i32, StoreError>(
                StoreError::IdsExhausted,
            ) && *final(self) == *old(self),
            old(self).next_service_id < i32::MAX ==> {
                &&& r == Ok::<i32, StoreError>(old(self).next_service_id)
                &&& final(self).services@ == old(self).services@.push(
                    Service {
                        id: old(self).next_service_id,
                        name: form.name,
                        description: form.description,
                        image_url: form.image_url,
                        icon: form.icon,
                        order_index: form.order_index,
                    },
                )
                &&& final(self).next_service_id == old(self).next_service_id + 1
            },
    {
        if self.next_service_id == i32::MAX {
            return Err(StoreError::IdsExhausted);
        }
        let id = self.next_service_id;
        let row = Service {
            id,
            name: form.name.clone(),
            description: form.description.clone(),
            image_url: form.image_url.clone(),
            icon: form.icon.clone(),
            order_index: form.order_index,
        };
        self.services.push(row);
        self.next_service_id = self.next_service_id + 1;
        Ok(id)
    }

    /// Rewrite every field of the service with the given id; rewriting an
    /// absent id is a no-op.
    pub fn update_service(&mut self, id: i32, form: &ServiceForm) -> (r: Result<(), StoreError>)
        requires
            old(self).wf(),
        ensures
            final(self).wf(),
            r == Ok::<(), StoreError>(()),
            same_tables_except_services(*old(self), *final(self)),
            final(self).next_service_id == old(self).next_service_id,
            final(self).services@.len() == old(self).services@.len(),
            forall|k: int|
                0 <= k < old(self).services@.len() && (#[trigger] old(self).services@[k]).id != id
                    ==> final(self).services@[k] == old(self).services@[k],
            forall|k: int|
                0 <= k < old(self).services@.len() && (#[trigger] old(self).services@[k]).id == id
                    ==> final(self).services@[k] == (Service {
                    id,
                    name: form.name,
                    description: form.description,
                    image_url: form.image_url,
                    icon: form.icon,
                    order_index: form.order_index,
                }),
    {
        let mut i: usize = 0;
        while i < self.services.len()
            invariant
                0 <= i <= self.services@.len(),
                old(self).wf(),
                *self == *old(self),
                forall|k: int| 0 <= k < i ==> (#[trigger] self.services@[k]).id != id,
            decreases self.services@.len() - i,
        {
            if self.services[i].id == id {
                let ghost pre = *self;
                let _prev = self.services.remove(i);
                let row = Service {
                    id,
                    name: form.name.clone(),
                    description: form.description.clone(),
                    image_url: form.image_url.clone(),
                    icon: form.icon.clone(),
                    order_index: form.order_index,
                };
                self.services.insert(i, row);
                proof {
                    assert(self.services@ =~= pre.services@.update(i as int, row));
                    assert forall|k: int|
                        0 <= k < pre.services@.len() && (#[trigger] pre.services@[k]).id
                            == id implies k == i by {
                        if k != i {
                            assert(pre.services@[k].id != pre.services@[i as int].id);
                        }
                    }
                }
                return Ok(());
            }
            i = i + 1;
        }
        Ok(())
    }

    /// Remove the service with the given id; removing an absent id is a
    /// no-op. No other table is touched.
    pub fn delete_service(&mut self, id: i32) -> (r: Result<(), StoreError>)
        requires
            old(self).wf(),
        ensures
            final(self).wf(),
            r == Ok::<(), StoreError>(()),
            same_tables_except_services(*old(self), *final(self)),
            final(self).next_service_id == old(self).next_service_id,
            final(self).services@ == old(self).services@.filter(|s: Service| s.id != id),
    {
        let mut kept: Vec<Service> = Vec::new();
        let mut i: usize = 0;
        while i < self.services.len()
            invariant
                0 <= i <= self.services@.len(),
                kept@ == self.services@.take(i as int).filter(|s: Service| s.id != id),
            decreases self.services@.len() - i,
        {
            if self.services[i].id != id {
                kept.push(self.services[i].duplicate());
            }
            proof {
                reveal(Seq::filter);
                let tk1 = self.services@.take(i + 1);
                assert(tk1.drop_last() =~= self.services@.take(i as int));
                assert(tk1.last() == self.services@[i as int]);
                assert(kept@ == tk1.filter(|s: Service| s.id != id));
            }
            i = i + 1;
        }
        proof {
            assert(self.services@.take(self.services@.len() as int) =~= self.services@);
        }
        let ghost pre = *self;
        self.services = kept;
        proof {
            lemma_filter_keeps_services_ok(
                pre.services@,
                |s: Service| s.id != id,
                pre.next_service_id as int,
            );
        }
        Ok(())
    }

    /// Append a contact message under the next free id, unread, at the
    /// given creation time.
    pub fn add_message_at(&mut self, msg: &ContactForm, created_at: &String) -> (r: Result<
        (),
        StoreError,
    >)
        requires
            old(self).wf(),
        ensures
            final(self).wf(),
            same_tables_except_messages(*old(self), *final(self)),
            old(self).next_message_id == i32::MAX ==> r == Err::<(), StoreError>(
                StoreError::IdsExhausted,
            ) && *final(self) == *old(self),
            old(self).next_message_id < i32::MAX ==> {
                &&& r == Ok::<(), StoreError>(())
                &&& final(self).messages@ == old(self).messages@.push(
                    Message {
                        id: old(self).next_message_id,
                        name: msg.name,
                        email: msg.email,
                        subject: msg.subject,
                        message: msg.message,
                        read: false,
                        created_at: *created_at,
                    },
                )
                &&& final(self).next_message_id == old(self).next_message_id + 1
            },
    {
        if self.next_message_id == i32::MAX {
            return Err(StoreError::IdsExhausted);
        }
        let row = Message {
            id: self.next_message_id,
            name: msg.name.clone(),
            email: msg.email.clone(),
            subject: msg.subject.clone(),
            message: msg.message.clone(),
            read: false,
            created_at: created_at.clone(),
        };
        self.messages.push(row);
        self.next_message_id = self.next_message_id + 1;
        Ok(())
    }

    /// Append a contact message stamped with the current time.
    pub fn add_message(&mut self, msg: &ContactForm) -> (r: Result<(), StoreError>)
        requires
            old(self).wf(),
        ensures
            final(self).wf(),
            same_tables_except_messages(*old(self), *final(self)),
            old(self).next_message_id == i32::MAX ==> r == Err::<(), StoreError>(
                StoreError::IdsExhausted,
            ) && *final(self) == *old(self),
            old(self).next_message_id < i32::MAX ==> {
                &&& r == Ok::<(), StoreError>(())
                &&& final(self).messages@.len() == old(self).messages@.len() + 1
                &&& final(self).messages@.drop_last() == old(self).messages@
                &&& is_new_message(
                    final(self).messages@.last(),
                    *msg,
                    old(self).next_message_id,
                )
                &&& final(self).next_message_id == old(self).next_message_id + 1
            },
    {
        let now = outside::now_timestamp();
        let r = self.add_message_at(msg, &now);
        proof {
            if old(self).next_message_id < i32::MAX {
                assert(self.messages@.drop_last() =~= old(self).messages@);
            }
        }
        r
    }

    /// All messages, newest first.
    pub fn get_messages(&self) -> (r: Vec<Message>)
        requires
            self.wf(),
        ensures
            r@.to_multiset() == self.messages@.to_multiset(),
            r@.len() == self.messages@.len(),
            sorted(r@),
    {
        let mut out: Vec<Message> = Vec::new();
        let mut i: usize = 0;
        while i < self.messages.len()
            invariant
                0 <= i <= self.messages@.len(),
                out@ =~= self.messages@.take(i as int),
            decreases self.messages@.len() - i,
        {
            out.push(self.messages[i].duplicate());
            i = i + 1;
        }
        proof {
            assert(out@ =~= self.messages@);
        }
        order::sort_by_ord(&mut out);
        out
    }

    /// How many messages are still unread.
    pub fn get_unread_message_count(&self) -> (r: i32)
        requires
            self.wf(),
        ensures
            r == self.messages@.filter(|m: Message| !m.read).len(),
    {
        proof {
            lemma_message_table_len_bound(self.messages@, self.next_message_id as int);
            self.messages@.lemma_filter_len(|m: Message| !m.read);
        }
        let mut count: i32 = 0;
        let mut i: usize = 0;
        while i < self.messages.len()
            invariant
                0 <= i <= self.messages@.len(),
                self.messages@.len() < i32::MAX,
                count == self.messages@.take(i as int).filter(|m: Message| !m.read).len(),
                count <= i,
            decreases self.messages@.len() - i,
        {
            proof {
                self.messages@.take(i + 1).lemma_filter_len(|m: Message| !m.read);
            }
            if !self.messages[i].read {
                count = count + 1;
            }
            proof {
                reveal(Seq::filter);
                let tk1 = self.messages@.take(i + 1);
                assert(tk1.drop_last() =~= self.messages@.take(i as int));
                assert(tk1.last() == self.messages@[i as int]);
                assert(count == tk1.filter(|m: Message| !m.read).len());
            }
            i = i + 1;
        }
        proof {
            assert(self.messages@.take(self.messages@.len() as int) =~= self.messages@);
        }
        count
    }

    /// Remove the message with the given id; removing an absent id is a
    /// no-op.
    pub fn delete_message(&mut self, id: i32) -> (r: Result<(), StoreError>)
        requires
            old(self).wf(),
        ensures
            final(self).wf(),
            r == Ok::<(), StoreError>(()),
            same_tables_except_messages(*old(self), *final(self)),
            final(self).next_message_id == old(self).next_message_id,
            final(self).messages@ == old(self).messages@.filter(|m: Message| m.id != id),
    {
        let mut kept: Vec<Message> = Vec::new();
        let mut i: usize = 0;
        while i < self.messages.len()
            invariant
                0 <= i <= self.messages@.len(),
                kept@ == self.messages@.take(i as int).filter(|m: Message| m.id != id),
            decreases self.messages@.len() - i,
        {
            if self.messages[i].id != id {
                kept.push(self.messages[i].duplicate());
            }
            proof {
                reveal(Seq::filter);
                let tk1 = self.messages@.take(i + 1);
                assert(tk1.drop_last() =~= self.messages@.take(i as int));
                assert(tk1.last() == self.messages@[i as int]);
                assert(kept@ == tk1.filter(|m: Message| m.id != id));
            }
            i = i + 1;
        }
        proof {
            assert(self.messages@.take(self.messages@.len() as int) =~= self.messages@);
        }
        let ghost pre = *self;
        self.messages = kept;
        proof {
            lemma_filter_keeps_messages_ok(
                pre.messages@,
                |m: Message| m.id != id,
                pre.next_message_id as int,
            );
        }
        Ok(())
    }

    /// All experience entries, most recent start date first.
    pub fn get_experience(&self) -> (r: Vec<Experience>)
        requires
            self.wf(),
        ensures
            r@.to_multiset() == self.experience@.to_multiset(),
            r@.len() == self.experience@.len(),
            sorted(r@),
    {
        let mut out: Vec<Experience> = Vec::new();
        let mut i: usize = 0;
        while i < self.experience.len()
            invariant
                0 <= i <= self.experience@.len(),
                out@ =~= self.experience@.take(i as int),
            decreases self.experience@.len() - i,
        {
            out.push(self.experience[i].duplicate());
            i = i + 1;
        }
        proof {
            assert(out@ =~= self.experience@);
        }
        order::sort_by_ord(&mut out);
        out
    }

    /// All education entries, most recent start date first.
    pub fn get_education(&self) -> (r: Vec<Education>)
        requires
            self.wf(),
        ensures
            r@.to_multiset() == self.education@.to_multiset(),
            r@.len() == self.education@.len(),
            sorted(r@),
    {
        let mut out: Vec<Education> = Vec::new();
        let mut i: usize = 0;
        while i < self.education.len()
            invariant
                0 <= i <= self.education@.len(),
                out@ =~= self.education@.take(i as int),
            decreases self.education@.len() - i,
        {
            out.push(self.education[i].duplicate());
            i = i + 1;
        }
        proof {
            assert(out@ =~= self.education@);
        }
        order::sort_by_ord(&mut out);
        out
    }

    /// The education entry carrying the given id, if any.
    pub fn get_education_by_id(&self, id: i32) -> (r: Result<&Education, StoreError>)
        requires
            self.wf(),
        ensures
            match r {
                Ok(e) => e.id == id && self.education@.contains(*e),
                Err(e) => e == StoreError::NotFound && forall|k: int|
                    0 <= k < self.education@.len() ==> (#[trigger] self.education@[k]).id != id,
            },
    {
        let mut i: usize = 0;
        while i < self.education.len()
            invariant
                0 <= i <= self.education@.len(),
                forall|k: int| 0 <= k < i ==> (#[trigger] self.education@[k]).id != id,
            decreases self.education@.len() - i,
        {
            if self.education[i].id == id {
                return Ok(&self.education[i]);
            }
            i = i + 1;
        }
        Err(StoreError::NotFound)
    }

    /// Append an education row; the submitted id is ignored and the next
    /// free id is assigned, as an autoincrement insert does.
    pub fn add_education(&mut self, edu: &Education) -> (r: Result<(), StoreError>)
        requires
            old(self).wf(),
        ensures
            final(self).wf(),
            same_tables_except_education(*old(self), *final(self)),
            old(self).next_education_id == i32::MAX ==> r == Err::<(), StoreError>(
                StoreError::IdsExhausted,
            ) && *final(self) == *old(self),
            old(self).next_education_id < i32::MAX ==> {
                &&& r == Ok::<(), StoreError>(())
                &&& final(self).education@ == old(self).education@.push(
                    Education {
                        id: old(self).next_education_id,
                        institution: edu.institution,
                        degree: edu.degree,
                        field: edu.field,
                        start_date: edu.start_date,
                        end_date: edu.end_date,
                        description: edu.description,
                    },
                )
                &&& final(self).next_education_id == old(self).next_education_id + 1
            },
    {
        if self.next_education_id == i32::MAX {
            return Err(StoreError::IdsExhausted);
        }
        let row = Education {
            id: self.next_education_id,
            institution: edu.institution.clone(),
            degree: edu.degree.clone(),
            field: edu.field.clone(),
            start_date: edu.start_date.clone(),
            end_date: edu.end_date.clone(),
            description: edu.description.clone(),
        };
        self.education.push(row);
        self.next_education_id = self.next_education_id + 1;
        Ok(())
    }

    /// Rewrite every field of the education row whose id the submitted
    /// record carries; rewriting an absent id is a no-op.
    pub fn update_education(&mut self, edu: &Education) -> (r: Result<(), StoreError>)
        requires
            old(self).wf(),
        ensures
            final(self).wf(),
            r == Ok::<(), StoreError>(()),
            same_tables_except_education(*old(self), *final(self)),
            final(self).next_education_id == old(self).next_education_id,
            final(self).education@.len() == old(self).education@.len(),
            forall|k: int|
                0 <= k < old(self).education@.len() && (#[trigger] old(self).education@[k]).id
                    != edu.id ==> final(self).education@[k] == old(self).education@[k],
            forall|k: int|
                0 <= k < old(self).education@.len() && (#[trigger] old(self).education@[k]).id
                    == edu.id ==> final(self).education@[k] == *edu,
    {
        let mut i: usize = 0;
        while i < self.education.len()
            invariant
                0 <= i <= self.education@.len(),
                old(self).wf(),
                *self == *old(self),
                forall|k: int| 0 <= k < i ==> (#[trigger] self.education@[k]).id != edu.id,
            decreases self.education@.len() - i,
        {
            if self.education[i].id == edu.id {
                let ghost pre = *self;
                let _prev = self.education.remove(i);
                let row = edu.duplicate();
                self.education.insert(i, row);
                proof {
                    assert(self.education@ =~= pre.education@.update(i as int, row));
                    assert forall|k: int|
                        0 <= k < pre.education@.len() && (#[trigger] pre.education@[k]).id
                            == edu.id implies k == i by {
                        if k != i {
                            assert(pre.education@[k].id != pre.education@[i as int].id);
                        }
                    }
                }
                return Ok(());
            }
            i = i + 1;
        }
        Ok(())
    }

    /// Remove the education row with the given id; removing an absent id
    /// is a no-op.
    pub fn delete_education(&mut self, id: i32) -> (r: Result<(), StoreError>)
        requires
            old(self).wf(),
        ensures
            final(self).wf(),
            r == Ok::<(), StoreError>(()),
            same_tables_except_education(*old(self), *final(self)),
            final(self).next_education_id == old(self).next_education_id,
            final(self).education@ == old(self).education@.filter(|e: Education| e.id != id),
    {
        let mut kept: Vec<Education> = Vec::new();
        let mut i: usize = 0;
        while i < self.education.len()
            invariant
                0 <= i <= self.education@.len(),
                kept@ == self.education@.take(i as int).filter(|e: Education| e.id != id),
            decreases self.education@.len() - i,
        {
            if self.education[i].id != id {
                kept.push(self.education[i].duplicate());
            }
            proof {
                reveal(Seq::filter);
                let tk1 = self.education@.take(i + 1);
                assert(tk1.drop_last() =~= self.education@.take(i as int));
                assert(tk1.last() == self.education@[i as int]);
                assert(kept@ == tk1.filter(|e: Education| e.id != id));
            }
            i = i + 1;
        }
        proof {
            assert(self.education@.take(self.education@.len() as int) =~= self.education@);
        }
        let ghost pre = *self;
        self.education = kept;
        proof {
            lemma_filter_keeps_education_ok(
                pre.education@,
                |e: Education| e.id != id,
                pre.next_education_id as int,
            );
        }
        Ok(())
    }

    /// The admin row with the given username, if it is the stored one.
    pub fn get_admin(&self, username: &str) -> (r: Result<&Admin, StoreError>)
        requires
            self.wf(),
        ensures
            match r {
                Ok(a) => self.admin == Some(*a) && a.username@ == username@,
                Err(e) => e == StoreError::NotFound && !(self.admin matches Some(a)
                    && a.username@ == username@),
            },
    {
        match &self.admin {
            Some(a) => {
                if order::str_eq(a.username.as_str(), username) {
                    Ok(a)
                } else {
                    Err(StoreError::NotFound)
                }
            },
            None => Err(StoreError::NotFound),
        }
    }
}

impl Store {
    /// Persist an uploaded blob under the given id, at the given creation
    /// time. An id already in use is rejected, which keeps ids unique.
    pub fn save_image_at(
        &mut self,
        id: &str,
        filename: &str,
        content_type: &str,
        data: &[u8],
        created_at: &String,
    ) -> (r: Result<(), StoreError>)
        requires
            old(self).wf(),
        ensures
            final(self).wf(),
            same_tables_except_files(*old(self), *final(self)),
            file_id_taken(old(self).files@, id@) ==> r == Err::<(), StoreError>(
                StoreError::DuplicateFileId,
            ) && *final(self) == *old(self),
            !file_id_taken(old(self).files@, id@) ==> {
                &&& r == Ok::<(), StoreError>(())
                &&& final(self).files@.len() == old(self).files@.len() + 1
                &&& final(self).files@.drop_last() == old(self).files@
                &&& final(self).files@.last().id@ == id@
                &&& final(self).files@.last().filename@ == filename@
                &&& final(self).files@.last().content_type@ == content_type@
                &&& final(self).files@.last().data@ == data@
                &&& final(self).files@.last().created_at == *created_at
            },
    {
        let mut i: usize = 0;
        while i < self.files.len()
            invariant
                0 <= i <= self.files@.len(),
                old(self).wf(),
                *self == *old(self),
                forall|k: int| 0 <= k < i ==> (#[trigger] self.files@[k]).id@ != id@,
            decreases self.files@.len() - i,
        {
            if order::str_eq(self.files[i].id.as_str(), id) {
                return Err(StoreError::DuplicateFileId);
            }
            i = i + 1;
        }
        let mut bytes: Vec<u8> = Vec::new();
        let mut j: usize = 0;
        while j < data.len()
            invariant
                0 <= j <= data@.len(),
                bytes@ =~= data@.take(j as int),
            decreases data@.len() - j,
        {
            bytes.push(data[j]);
            j = j + 1;
        }
        proof {
            assert(bytes@ =~= data@);
        }
        let row = StoredFile {
            id: String::from_str(id),
            filename: String::from_str(filename),
            content_type: String::from_str(content_type),
            data: bytes,
            created_at: created_at.clone(),
        };
        let ghost pre = *self;
        self.files.push(row);
        proof {
            assert(self.files@.drop_last() =~= pre.files@);
        }
        Ok(())
    }

    /// Persist an uploaded blob stamped with the current time.
    pub fn save_image(&mut self, id: &str, filename: &str, content_type: &str, data: &[u8]) -> (r:
        Result<(), StoreError>)
        requires
            old(self).wf(),
        ensures
            final(self).wf(),
            same_tables_except_files(*old(self), *final(self)),
            file_id_taken(old(self).files@, id@) ==> r == Err::<(), StoreError>(
                StoreError::DuplicateFileId,
            ) && *final(self) == *old(self),
            !file_id_taken(old(self).files@, id@) ==> {
                &&& r == Ok::<(), StoreError>(())
                &&& final(self).files@.len() == old(self).files@.len() + 1
                &&& final(self).files@.drop_last() == old(self).files@
                &&& final(self).files@.last().id@ == id@
                &&& final(self).files@.last().filename@ == filename@
                &&& final(self).files@.last().content_type@ == content_type@
                &&& final(self).files@.last().data@ == data@
            },
    {
        let now = outside::now_timestamp();
        self.save_image_at(id, filename, content_type, data, &now)
    }

    /// The stored blob carrying the given id, if any.
    pub fn get_image(&self, id: &str) -> (r: Result<&StoredFile, StoreError>)
        requires
            self.wf(),
        ensures
            match r {
                Ok(f) => f.id@ == id@ && self.files@.contains(*f),
                Err(e) => e == StoreError::NotFound && !file_id_taken(self.files@, id@),
            },
    {
        let mut i: usize = 0;
        while i < self.files.len()
            invariant
                0 <= i <= self.files@.len(),
                forall|k: int| 0 <= k < i ==> (#[trigger] self.files@[k]).id@ != id@,
            decreases self.files@.len() - i,
        {
            if order::str_eq(self.files[i].id.as_str(), id) {
                return Ok(&self.files[i]);
            }
            i = i + 1;
        }
        Err(StoreError::NotFound)
    }

    /// The stored blob carrying the given id, filename included; the same
    /// lookup as `get_image`, kept for the download path.
    pub fn get_image_with_filename(&self, id: &str) -> (r: Result<&StoredFile, StoreError>)
        requires
            self.wf(),
        ensures
            match r {
                Ok(f) => f.id@ == id@ && self.files@.contains(*f),
                Err(e) => e == StoreError::NotFound && !file_id_taken(self.files@, id@),
            },
    {
        self.get_image(id)
    }

    /// Remove the stored blob with the given id; removing an absent id is
    /// a no-op. Ids are unique, so at most one row goes.
    pub fn delete_image(&mut self, id: &str) -> (r: Result<(), StoreError>)
        requires
            old(self).wf(),
        ensures
            final(self).wf(),
            r == Ok::<(), StoreError>(()),
            same_tables_except_files(*old(self), *final(self)),
            !file_id_taken(old(self).files@, id@) ==> *final(self) == *old(self),
            file_id_taken(old(self).files@, id@) ==> exists|k: int|
                0 <= k < old(self).files@.len() && (#[trigger] old(self).files@[k]).id@ == id@
                    && final(self).files@ == old(self).files@.remove(k),
    {
        let mut i: usize = 0;
        while i < self.files.len()
            invariant
                0 <= i <= self.files@.len(),
                old(self).wf(),
                *self == *old(self),
                forall|k: int| 0 <= k < i ==> (#[trigger] self.files@[k]).id@ != id@,
            decreases self.files@.len() - i,
        {
            if order::str_eq(self.files[i].id.as_str(), id) {
                let ghost pre = *self;
                let _gone = self.files.remove(i);
                proof {
                    assert forall|a: int, b: int|
                        0 <= a < b < self.files@.len() implies self.files@[a].id@
                            != self.files@[b].id@ by {
                        let a0 = if a < i { a } else { a + 1 };
                        let b0 = if b < i { b } else { b + 1 };
                        assert(pre.files@[a0].id@ != pre.files@[b0].id@);
                    }
                }
                return Ok(());
            }
            i = i + 1;
        }
        Ok(())
    }

    /// Every site-content entry, in storage order.
    pub fn get_site_content(&self) -> (r: Vec<SiteContentItem>)
        requires
            self.wf(),
        ensures
            r@ == self.site_content@,
    {
        let mut out: Vec<SiteContentItem> = Vec::new();
        let mut i: usize = 0;
        while i < self.site_content.len()
            invariant
                0 <= i <= self.site_content@.len(),
                out@ =~= self.site_content@.take(i as int),
            decreases self.site_content@.len() - i,
        {
            out.push(self.site_content[i].duplicate());
            i = i + 1;
        }
        proof {
            assert(out@ =~= self.site_content@);
        }
        out
    }

    /// Every site-content entry, ordered by section and then by key, as the
    /// admin editing page groups them.
    pub fn get_site_content_by_section(&self) -> (r: Vec<SiteContentItem>)
        requires
            self.wf(),
        ensures
            r@.to_multiset() == self.site_content@.to_multiset(),
            r@.len() == self.site_content@.len(),
            sorted(r@),
    {
        let mut out = self.get_site_content();
        order::sort_by_ord(&mut out);
        out
    }

    /// Replace the value stored under the given key; a key that was never
    /// seeded is left alone — handlers never create content keys.
    pub fn update_site_content(&mut self, key: &String, value: &String) -> (r: Result<
        (),
        StoreError,
    >)
        requires
            old(self).wf(),
        ensures
            final(self).wf(),
            r == Ok::<(), StoreError>(()),
            same_tables_except_content(*old(self), *final(self)),
            final(self).site_content@ == apply_content_update(
                old(self).site_content@,
                (*key, *value),
            ),
    {
        let ghost target = apply_content_update(self.site_content@, (*key, *value));
        let mut out: Vec<SiteContentItem> = Vec::new();
        let mut i: usize = 0;
        while i < self.site_content.len()
            invariant
                0 <= i <= self.site_content@.len(),
                target == apply_content_update(self.site_content@, (*key, *value)),
                out@ =~= target.take(i as int),
            decreases self.site_content@.len() - i,
        {
            if order::str_eq(self.site_content[i].key.as_str(), key.as_str()) {
                out.push(
                    SiteContentItem {
                        key: self.site_content[i].key.clone(),
                        value: value.clone(),
                        section: self.site_content[i].section.clone(),
                        description: self.site_content[i].description.clone(),
                    },
                );
            } else {
                out.push(self.site_content[i].duplicate());
            }
            proof {
                assert(out@ =~= target.take(i + 1));
            }
            i = i + 1;
        }
        proof {
            assert(out@ =~= target);
        }
        self.site_content = out;
        Ok(())
    }

    /// Replace the values of many keys in one pass, first to last.
    pub fn update_site_content_batch(&mut self, updates: &Vec<(String, String)>) -> (r: Result<
        (),
        StoreError,
    >)
        requires
            old(self).wf(),
        ensures
            final(self).wf(),
            r == Ok::<(), StoreError>(()),
            same_tables_except_content(*old(self), *final(self)),
            final(self).site_content@ == apply_content_updates(
                old(self).site_content@,
                updates@,
            ),
    {
        let mut i: usize = 0;
        while i < updates.len()
            invariant
                0 <= i <= updates@.len(),
                self.wf(),
                same_tables_except_content(*old(self), *self),
                self.site_content@ == apply_content_updates(
                    old(self).site_content@,
                    updates@.take(i as int),
                ),
            decreases updates@.len() - i,
        {
            let _ = self.update_site_content(&updates[i].0, &updates[i].1);
            proof {
                assert(updates@.take(i + 1).drop_last() =~= updates@.take(i as int));
                assert(updates@.take(i + 1).last() == updates@[i as int]);
            }
            i = i + 1;
        }
        proof {
            assert(updates@.take(updates@.len() as int) =~= updates@);
        }
        Ok(())
    }

    /// The email settings row, created with its defaults on first access.
    pub fn get_email_settings(&mut self) -> (r: Result<EmailSettings, StoreError>)
        requires
            old(self).wf(),
        ensures
            final(self).wf(),
            same_tables_except_email_settings(*old(self), *final(self)),
            final(self).profile == old(self).profile,
            final(self).admin == old(self).admin,
            final(self).email_settings is Some,
            r == Ok::<EmailSettings, StoreError>(final(self).email_settings->0),
            old(self).email_settings is Some ==> *final(self) == *old(self),
            old(self).email_settings is None ==> is_default_email_settings(
                final(self).email_settings->0,
            ),
    {
        match &self.email_settings {
            Some(e) => Ok(e.duplicate()),
            None => {
                let d = EmailSettings::default();
                self.email_settings = Some(d.duplicate());
                Ok(d)
            },
        }
    }

    /// Overwrite the email settings row, creating it if absent. The
    /// "enabled" checkbox counts as on when the field was submitted at all.
    pub fn update_email_settings(&mut self, form: &EmailSettingsForm) -> (r: Result<
        (),
        StoreError,
    >)
        requires
            old(self).wf(),
        ensures
            final(self).wf(),
            r == Ok::<(), StoreError>(()),
            same_tables_except_email_settings(*old(self), *final(self)),
            final(self).profile == old(self).profile,
            final(self).admin == old(self).admin,
            final(self).email_settings == Some(
                EmailSettings {
                    id: 1,
                    smtp_server: form.smtp_server,
                    smtp_port: form.smtp_port,
                    smtp_username: form.smtp_username,
                    smtp_password: form.smtp_password,
                    notification_email: form.notification_email,
                    enabled: crate::checkbox_set(form.enabled),
                },
            ),
    {
        self.email_settings = Some(
            EmailSettings {
                id: 1,
                smtp_server: form.smtp_server.clone(),
                smtp_port: form.smtp_port,
                smtp_username: form.smtp_username.clone(),
                smtp_password: form.smtp_password.clone(),
                notification_email: form.notification_email.clone(),
                enabled: form.enabled.is_some(),
            },
        );
        Ok(())
    }
}

/// The defaults of an email-settings row that was never saved.
pub open spec fn is_default_email_settings(e: EmailSettings) -> bool {
    &&& e.id == 1
    &&& e.smtp_server@ == "smtp.gmail.com"@
    &&& e.smtp_port == 587
    &&& e.smtp_username@ == Seq::<char>::empty()
    &&& e.smtp_password@ == Seq::<char>::empty()
    &&& e.notification_email@ == Seq::<char>::empty()
    &&& !e.enabled
}

/// One key/value update applied to the content bag: every entry whose key
/// matches takes the new value; every other entry is untouched.
pub open spec fn apply_content_update(
    items: Seq<SiteContentItem>,
    kv: (String, String),
) -> Seq<SiteContentItem> {
    Seq::new(
        items.len(),
        |i: int|
            if items[i].key@ == kv.0@ {
                SiteContentItem {
                    key: items[i].key,
                    value: kv.1,
                    section: items[i].section,
                    description: items[i].description,
                }
            } else {
                items[i]
            },
    )
}

/// A batch of key/value updates applied first to last.
pub open spec fn apply_content_updates(
    items: Seq<SiteContentItem>,
    kvs: Seq<(String, String)>,
) -> Seq<SiteContentItem>
    decreases kvs.len(),
{
    if kvs.len() == 0 {
        items
    } else {
        apply_content_update(apply_content_updates(items, kvs.drop_last()), kvs.last())
    }
}

/// What a freshly inserted message row holds: the submitted form fields,
/// the unread flag, and a creation stamp taken from the clock.
pub open spec fn is_new_message(m: Message, form: ContactForm, id: i32) -> bool {
    &&& m.id == id
    &&& m.name == form.name
    &&& m.email == form.email
    &&& m.subject == form.subject
    &&& m.message == form.message
    &&& m.read == false
    &&& m.created_at@.len() >= 19
}

/// A table whose ids are distinct and confined to [1, next) cannot hold
/// more than next - 1 rows.
proof fn lemma_message_table_len_bound(s: Seq<Message>, next: int)
    requires
        messages_ok(s, next),
        1 <= next <= i32::MAX as int,
    ensures
        s.len() < i32::MAX as int,
{
    let ids = Seq::new(s.len(), |i: int| s[i].id as int);
    assert(ids.no_duplicates());
    ids.unique_seq_to_set();
    assert(ids.to_set().subset_of(vstd::set_lib::set_int_range(1, next))) by {
        assert forall|x: int| ids.to_set().contains(x) implies vstd::set_lib::set_int_range(
            1,
            next,
        ).contains(x) by {
            assert(ids.contains(x));
            let k = choose|k: int| 0 <= k < ids.len() && ids[k] == x;
            assert(id_in_range(s[k].id as int, next));
        }
    }
    vstd::set_lib::lemma_int_range(1, next);
    vstd::set_lib::lemma_len_subset(ids.to_set(), vstd::set_lib::set_int_range(1, next));
}

/// Elements kept by a filter are elements of the original sequence, so a
/// filtered service table keeps its id discipline.
proof fn lemma_filter_keeps_services_ok(s: Seq<Service>, pred: spec_fn(Service) -> bool, next: int)
    requires
        services_ok(s, next),
    ensures
        services_ok(s.filter(pred), next),
    decreases s.len(),
{
    reveal(Seq::filter);
    if s.len() > 0 {
        let d = s.drop_last();
        assert(services_ok(d, next));
        lemma_filter_keeps_services_ok(d, pred, next);
        if pred(s.last()) {
            assert(s.filter(pred) == d.filter(pred).push(s.last()));
            lemma_filter_services_contained(d, pred);
            assert forall|i: int, j: int|
                0 <= i < j < s.filter(pred).len() implies s.filter(pred)[i].id != s.filter(
                pred,
            )[j].id by {
                if j == s.filter(pred).len() - 1 {
                    let fi = d.filter(pred)[i];
                    let k = choose|k: int| 0 <= k < d.len() && d[k] == fi;
                    assert(s[k] == fi && s[s.len() - 1] == s.last());
                    assert(s[k].id != s[s.len() - 1].id);
                }
            }
        }
    }
}

/// Every element of a filtered service sequence occurs in the original.
proof fn lemma_filter_services_contained(s: Seq<Service>, pred: spec_fn(Service) -> bool)
    ensures
        forall|i: int|
            0 <= i < s.filter(pred).len() ==> exists|k: int|
                0 <= k < s.len() && s[k] == #[trigger] s.filter(pred)[i],
    decreases s.len(),
{
    reveal(Seq::filter);
    if s.len() > 0 {
        let d = s.drop_last();
        lemma_filter_services_contained(d, pred);
        assert forall|i: int| 0 <= i < s.filter(pred).len() implies exists|k: int|
            0 <= k < s.len() && s[k] == #[trigger] s.filter(pred)[i] by {
            if pred(s.last()) && i == s.filter(pred).len() - 1 {
                assert(s[s.len() - 1] == s.filter(pred)[i]);
            } else {
                let fi = s.filter(pred)[i];
                assert(d.filter(pred)[i] == fi);
                let k = choose|k: int| 0 <= k < d.len() && d[k] == fi;
                assert(s[k] == fi);
            }
        }
    }
}

/// Elements kept by a filter are elements of the original sequence, so a
/// filtered message table keeps its id discipline.
proof fn lemma_filter_keeps_messages_ok(s: Seq<Message>, pred: spec_fn(Message) -> bool, next: int)
    requires
        messages_ok(s, next),
    ensures
        messages_ok(s.filter(pred), next),
    decreases s.len(),
{
    reveal(Seq::filter);
    if s.len() > 0 {
        let d = s.drop_last();
        assert(messages_ok(d, next));
        lemma_filter_keeps_messages_ok(d, pred, next);
        if pred(s.last()) {
            assert(s.filter(pred) == d.filter(pred).push(s.last()));
            lemma_filter_messages_contained(d, pred);
            assert forall|i: int, j: int|
                0 <= i < j < s.filter(pred).len() implies s.filter(pred)[i].id != s.filter(
                pred,
            )[j].id by {
                if j == s.filter(pred).len() - 1 {
                    let fi = d.filter(pred)[i];
                    let k = choose|k: int| 0 <= k < d.len() && d[k] == fi;
                    assert(s[k] == fi && s[s.len() - 1] == s.last());
                    assert(s[k].id != s[s.len() - 1].id);
                }
            }
        }
    }
}

/// Every element of a filtered message sequence occurs in the original.
proof fn lemma_filter_messages_contained(s: Seq<Message>, pred: spec_fn(Message) -> bool)
    ensures
        forall|i: int|
            0 <= i < s.filter(pred).len() ==> exists|k: int|
                0 <= k < s.len() && s[k] == #[trigger] s.filter(pred)[i],
    decreases s.len(),
{
    reveal(Seq::filter);
    if s.len() > 0 {
        let d = s.drop_last();
        lemma_filter_messages_contained(d, pred);
        assert forall|i: int| 0 <= i < s.filter(pred).len() implies exists|k: int|
            0 <= k < s.len() && s[k] == #[trigger] s.filter(pred)[i] by {
            if pred(s.last()) && i == s.filter(pred).len() - 1 {
                assert(s[s.len() - 1] == s.filter(pred)[i]);
            } else {
                let fi = s.filter(pred)[i];
                assert(d.filter(pred)[i] == fi);
                let k = choose|k: int| 0 <= k < d.len() && d[k] == fi;
                assert(s[k] == fi);
            }
        }
    }
}

/// Elements kept by a filter are elements of the original sequence, so a
/// filtered education table keeps its id discipline.
proof fn lemma_filter_keeps_education_ok(
    s: Seq<Education>,
    pred: spec_fn(Education) -> bool,
    next: int,
)
    requires
        education_ok(s, next),
    ensures
        education_ok(s.filter(pred), next),
    decreases s.len(),
{
    reveal(Seq::filter);
    if s.len() > 0 {
        let d = s.drop_last();
        assert(education_ok(d, next));
        lemma_filter_keeps_education_ok(d, pred, next);
        if pred(s.last()) {
            assert(s.filter(pred) == d.filter(pred).push(s.last()));
            lemma_filter_education_contained(d, pred);
            assert forall|i: int, j: int|
                0 <= i < j < s.filter(pred).len() implies s.filter(pred)[i].id != s.filter(
                pred,
            )[j].id by {
                if j == s.filter(pred).len() - 1 {
                    let fi = d.filter(pred)[i];
                    let k = choose|k: int| 0 <= k < d.len() && d[k] == fi;
                    assert(s[k] == fi && s[s.len() - 1] == s.last());
                    assert(s[k].id != s[s.len() - 1].id);
                }
            }
        }
    }
}

/// Every element of a filtered education sequence occurs in the original.
proof fn lemma_filter_education_contained(s: Seq<Education>, pred: spec_fn(Education) -> bool)
    ensures
        forall|i: int|
            0 <= i < s.filter(pred).len() ==> exists|k: int|
                0 <= k < s.len() && s[k] == #[trigger] s.filter(pred)[i],
    decreases s.len(),
{
    reveal(Seq::filter);
    if s.len() > 0 {
        let d = s.drop_last();
        lemma_filter_education_contained(d, pred);
        assert forall|i: int| 0 <= i < s.filter(pred).len() implies exists|k: int|
            0 <= k < s.len() && s[k] == #[trigger] s.filter(pred)[i] by {
            if pred(s.last()) && i == s.filter(pred).len() - 1 {
                assert(s[s.len() - 1] == s.filter(pred)[i]);
            } else {
                let fi = s.filter(pred)[i];
                assert(d.filter(pred)[i] == fi);
                let k = choose|k: int| 0 <= k < d.len() && d[k] == fi;
                assert(s[k] == fi);
            }
        }
    }
}

impl SortOrd for Service {
    /// Services list by ascending order index.
    open spec fn le_spec(&self, other: &Self) -> bool {
        self.order_index <= other.order_index
    }

    proof fn lemma_le_total(a: &Self, b: &Self) {
    }

    proof fn lemma_le_trans(a: &Self, b: &Self, c: &Self) {
    }

    fn le(&self, other: &Self) -> (r: bool) {
        self.order_index <= other.order_index
    }
}

impl SortOrd for Message {
    /// Messages list newest first.
    open spec fn le_spec(&self, other: &Self) -> bool {
        lex_le(other.created_at@, self.created_at@)
    }

    proof fn lemma_le_total(a: &Self, b: &Self) {
        order::lemma_lex_total(b.created_at@, a.created_at@);
    }

    proof fn lemma_le_trans(a: &Self, b: &Self, c: &Self) {
        if a.le_spec(b) && b.le_spec(c) {
            order::lemma_lex_trans(c.created_at@, b.created_at@, a.created_at@);
        }
    }

    fn le(&self, other: &Self) -> (r: bool) {
        order::str_lex_le(other.created_at.as_str(), self.created_at.as_str())
    }
}

impl SortOrd for Experience {
    /// Experience lists most recent start date first.
    open spec fn le_spec(&self, other: &Self) -> bool {
        lex_le(other.start_date@, self.start_date@)
    }

    proof fn lemma_le_total(a: &Self, b: &Self) {
        order::lemma_lex_total(b.start_date@, a.start_date@);
    }

    proof fn lemma_le_trans(a: &Self, b: &Self, c: &Self) {
        if a.le_spec(b) && b.le_spec(c) {
            order::lemma_lex_trans(c.start_date@, b.start_date@, a.start_date@);
        }
    }

    fn le(&self, other: &Self) -> (r: bool) {
        order::str_lex_le(other.start_date.as_str(), self.start_date.as_str())
    }
}

impl SortOrd for Education {
    /// Education lists most recent start date first.
    open spec fn le_spec(&self, other: &Self) -> bool {
        lex_le(other.start_date@, self.start_date@)
    }

    proof fn lemma_le_total(a: &Self, b: &Self) {
        order::lemma_lex_total(b.start_date@, a.start_date@);
    }

    proof fn lemma_le_trans(a: &Self, b: &Self, c: &Self) {
        if a.le_spec(b) && b.le_spec(c) {
            order::lemma_lex_trans(c.start_date@, b.start_date@, a.start_date@);
        }
    }

    fn le(&self, other: &Self) -> (r: bool) {
        order::str_lex_le(other.start_date.as_str(), self.start_date.as_str())
    }
}

impl SortOrd for SiteContentItem {
    /// Site content lists by section, then by key.
    open spec fn le_spec(&self, other: &Self) -> bool {
        pair_le(self.section@, self.key@, other.section@, other.key@)
    }

    proof fn lemma_le_total(a: &Self, b: &Self) {
        order::lemma_pair_total(a.section@, a.key@, b.section@, b.key@);
    }

    proof fn lemma_le_trans(a: &Self, b: &Self, c: &Self) {
        if a.le_spec(b) && b.le_spec(c) {
            order::lemma_pair_trans(a.section@, a.key@, b.section@, b.key@, c.section@, c.key@);
        }
    }

    fn le(&self, other: &Self) -> (r: bool) {
        order::str_pair_le(
            self.section.as_str(),
            self.key.as_str(),
            other.section.as_str(),
            other.key.as_str(),
        )
    }
}

impl SortOrd for Skill {
    /// Skills list by category, then by name.
    open spec fn le_spec(&self, other: &Self) -> bool {
        pair_le(self.category@, self.name@, other.category@, other.name@)
    }

    proof fn lemma_le_total(a: &Self, b: &Self) {
        order::lemma_pair_total(a.category@, a.name@, b.category@, b.name@);
    }

    proof fn lemma_le_trans(a: &Self, b: &Self, c: &Self) {
        if a.le_spec(b) && b.le_spec(c) {
            order::lemma_pair_trans(
                a.category@,
                a.name@,
                b.category@,
                b.name@,
                c.category@,
                c.name@,
            );
        }
    }

    fn le(&self, other: &Self) -> (r: bool) {
        order::str_pair_le(
            self.category.as_str(),
            self.name.as_str(),
            other.category.as_str(),
            other.name.as_str(),
        )
    }
}

} // verus!
