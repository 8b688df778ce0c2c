use vstd::prelude::*;

verus! {

/// The singleton profile record (its id is always 1).
#[derive(Clone, Debug)]
pub struct Profile {
    pub id: i32,
    pub name: String,
    pub title: String,
    pub bio: String,
    pub email: String,
    pub phone: String,
    pub location: String,
    pub github_url: String,
    pub linkedin_url: String,
    pub twitter_url: String,
    pub resume_url: String,
    pub avatar_url: String,
}

#[derive(Clone, Debug)]
pub struct Skill {
    pub id: i32,
    pub name: String,
    pub category: String,
    pub proficiency: i32,
    pub icon: String,
    pub icon_url: String,
}

#[derive(Clone, Debug)]
pub struct Project {
    pub id: i32,
    pub title: String,
    pub slug: String,
    pub description: String,
    pub content: String,
    pub image_url: String,
    pub demo_url: String,
    pub github_url: String,
    pub technologies: String,
    pub featured: bool,
    pub created_at: String,
}

#[derive(Clone, Debug)]
pub struct Blog {
    pub id: i32,
    pub title: String,
    pub slug: String,
    pub excerpt: String,
    pub content: String,
    pub image_url: String,
    pub tags: String,
    pub published: bool,
    pub created_at: String,
    pub updated_at: String,
}

#[derive(Clone, Debug)]
pub struct Experience {
    pub id: i32,
    pub company: String,
    pub position: String,
    pub description: String,
    pub start_date: String,
    pub end_date: String,
    pub current: bool,
}

#[derive(Clone, Debug)]
pub struct Education {
    pub id: i32,
    pub institution: String,
    pub degree: String,
    pub field: String,
    pub start_date: String,
    pub end_date: String,
    pub description: String,
}

#[derive(Clone, Debug)]
pub struct Message {
    pub id: i32,
    pub name: String,
    pub email: String,
    pub subject: String,
    pub message: String,
    pub read: bool,
    pub created_at: String,
}

#[derive(Clone, Debug)]
pub struct Service {
    pub id: i32,
    pub name: String,
    pub description: String,
    pub image_url: String,
    pub icon: String,
    pub order_index: i32,
}

/// The single administrator account (its id is always 1).
#[derive(Clone, Debug)]
pub struct Admin {
    pub id: i32,
    pub username: String,
    pub password_hash: String,
}

/// An uploaded binary blob, addressed by a randomly generated string id.
#[derive(Clone, Debug)]
pub struct StoredFile {
    pub id: String,
    pub filename: String,
    pub content_type: String,
    pub data: Vec<u8>,
    pub created_at: String,
}

#[derive(Clone, Debug)]
pub struct EmailSettings {
    pub id: i32,
    pub smtp_server: String,
    pub smtp_port: i32,
    pub smtp_username: String,
    pub smtp_password: String,
    pub notification_email: String,
    pub enabled: bool,
}

impl EmailSettings {
    /// The row auto-created when no settings have ever been saved.
    pub fn default() -> (r: EmailSettings)
        ensures
            r.id == 1,
            r.smtp_server@ == "smtp.gmail.com"@,
            r.smtp_port == 587,
            r.smtp_username@ == Seq::<char>::empty(),
            r.smtp_password@ == Seq::<char>::empty(),
            r.notification_email@ == Seq::<char>::empty(),
            !r.enabled,
    {
        EmailSettings {
            id: 1,
            smtp_server: String::from_str("smtp.gmail.com"),
            smtp_port: 587,
            smtp_username: String::new(),
            smtp_password: String::new(),
            notification_email: String::new(),
            enabled: false,
        }
    }
}

#[derive(Clone, Debug)]
pub struct SiteContentItem {
    pub key: String,
    pub value: String,
    pub section: String,
    pub description: String,
}

impl Profile {
    /// A copy that is provably equal to the original.
    pub fn duplicate(&self) -> (r: Profile)
        ensures
            r == *self,
    {
        Profile {
            id: self.id,
            name: self.name.clone(),
            title: self.title.clone(),
            bio: self.bio.clone(),
            email: self.email.clone(),
            phone: self.phone.clone(),
            location: self.location.clone(),
            github_url: self.github_url.clone(),
            linkedin_url: self.linkedin_url.clone(),
            twitter_url: self.twitter_url.clone(),
            resume_url: self.resume_url.clone(),
            avatar_url: self.avatar_url.clone(),
        }
    }
}

impl Skill {
    /// A copy that is provably equal to the original.
    pub fn duplicate(&self) -> (r: Skill)
        ensures
            r == *self,
    {
        Skill {
            id: self.id,
            name: self.name.clone(),
            category: self.category.clone(),
            proficiency: self.proficiency,
            icon: self.icon.clone(),
            icon_url: self.icon_url.clone(),
        }
    }
}

impl Project {
    /// A copy that is provably equal to the original.
    pub fn duplicate(&self) -> (r: Project)
        ensures
            r == *self,
    {
        Project {
            id: self.id,
            title: self.title.clone(),
            slug: self.slug.clone(),
            description: self.description.clone(),
            content: self.content.clone(),
            image_url: self.image_url.clone(),
            demo_url: self.demo_url.clone(),
            github_url: self.github_url.clone(),
            technologies: self.technologies.clone(),
            featured: self.featured,
            created_at: self.created_at.clone(),
        }
    }
}

impl Blog {
    /// A copy that is provably equal to the original.
    pub fn duplicate(&self) -> (r: Blog)
        ensures
            r == *self,
    {
        Blog {
            id: self.id,
            title: self.title.clone(),
            slug: self.slug.clone(),
            excerpt: self.excerpt.clone(),
            content: self.content.clone(),
            image_url: self.image_url.clone(),
            tags: self.tags.clone(),
            published: self.published,
            created_at: self.created_at.clone(),
            updated_at: self.updated_at.clone(),
        }
    }
}

impl Experience {
    /// A copy that is provably equal to the original.
    pub fn duplicate(&self) -> (r: Experience)
        ensures
            r == *self,
    {
        Experience {
            id: self.id,
            company: self.company.clone(),
            position: self.position.clone(),
            description: self.description.clone(),
            start_date: self.start_date.clone(),
            end_date: self.end_date.clone(),
            current: self.current,
        }
    }
}

impl Education {
    /// A copy that is provably equal to the original.
    pub fn duplicate(&self) -> (r: Education)
        ensures
            r == *self,
    {
        Education {
            id: self.id,
            institution: self.institution.clone(),
            degree: self.degree.clone(),
            field: self.field.clone(),
            start_date: self.start_date.clone(),
            end_date: self.end_date.clone(),
            description: self.description.clone(),
        }
    }
}

impl Message {
    /// A copy that is provably equal to the original.
    pub fn duplicate(&self) -> (r: Message)
        ensures
            r == *self,
    {
        Message {
            id: self.id,
            name: self.name.clone(),
            email: self.email.clone(),
            subject: self.subject.clone(),
            message: self.message.clone(),
            read: self.read,
            created_at: self.created_at.clone(),
        }
    }
}

impl Service {
    /// A copy that is provably equal to the original.
    pub fn duplicate(&self) -> (r: Service)
        ensures
            r == *self,
    {
        Service {
            id: self.id,
            name: self.name.clone(),
            description: self.description.clone(),
            image_url: self.image_url.clone(),
            icon: self.icon.clone(),
            order_index: self.order_index,
        }
    }
}

impl Admin {
    /// A copy that is provably equal to the original.
    pub fn duplicate(&self) -> (r: Admin)
        ensures
            r == *self,
    {
        Admin { id: self.id, username: self.username.clone(), password_hash: self.password_hash.clone() }
    }
}

impl EmailSettings {
    /// A copy that is provably equal to the original.
    pub fn duplicate(&self) -> (r: EmailSettings)
        ensures
            r == *self,
    {
        EmailSettings {
            id: self.id,
            smtp_server: self.smtp_server.clone(),
            smtp_port: self.smtp_port,
            smtp_username: self.smtp_username.clone(),
            smtp_password: self.smtp_password.clone(),
            notification_email: self.notification_email.clone(),
            enabled: self.enabled,
        }
    }
}

impl SiteContentItem {
    /// A copy that is provably equal to the original.
    pub fn duplicate(&self) -> (r: SiteContentItem)
        ensures
            r == *self,
    {
        SiteContentItem {
            key: self.key.clone(),
            value: self.value.clone(),
            section: self.section.clone(),
            description: self.description.clone(),
        }
    }
}

// Form payloads, as the request-binding layer hands them over.

#[derive(Clone, Debug)]
pub struct ProfileForm {
    pub name: String,
    pub title: String,
    pub bio: String,
    pub email: String,
    pub phone: String,
    pub location: String,
    pub github_url: String,
    pub linkedin_url: String,
    pub twitter_url: String,
    pub resume_url: String,
    pub avatar_url: String,
}

#[derive(Clone, Debug)]
pub struct SkillForm {
    pub name: String,
    pub category: String,
    pub proficiency: i32,
    pub icon: String,
    pub icon_url: String,
}

#[derive(Clone, Debug)]
pub struct ProjectForm {
    pub title: String,
    pub description: String,
    pub content: String,
    pub image_url: String,
    pub demo_url: String,
    pub github_url: String,
    pub technologies: String,
    pub featured: Option<String>,
}

#[derive(Clone, Debug)]
pub struct BlogForm {
    pub title: String,
    pub excerpt: String,
    pub content: String,
    pub image_url: String,
    pub tags: String,
    pub published: Option<String>,
}

#[derive(Clone, Debug)]
pub struct ContactForm {
    pub name: String,
    pub email: String,
    pub subject: String,
    pub message: String,
}

#[derive(Clone, Debug)]
pub struct LoginForm {
    pub username: String,
    pub password: String,
}

#[derive(Clone, Debug)]
pub struct ServiceForm {
    pub name: String,
    pub description: String,
    pub image_url: String,
    pub icon: String,
    pub order_index: i32,
}

#[derive(Clone, Debug)]
pub struct EmailSettingsForm {
    pub smtp_server: String,
    pub smtp_port: i32,
    pub smtp_username: String,
    pub smtp_password: String,
    pub notification_email: String,
    pub enabled: Option<String>,
}

} // verus!
