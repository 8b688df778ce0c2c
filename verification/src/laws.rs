//! Cross-operation laws of the store, proved from the operations'
//! contracts and the store invariant.

use vstd::prelude::*;

use crate::models::{Blog, BlogForm, Project, ProjectForm};
use crate::outside;
use crate::store;
use crate::store::Store;

verus! {

/// Round trip for projects: after a submission is accepted, the one
/// project row carrying the slug derived from the submitted title is the
/// appended row itself, and its fields are the submitted form values —
/// with the checkbox-style "featured" flag true exactly when the field
/// was submitted in any form. A lookup by that slug can therefore return
/// nothing but the record that was just added.
pub proof fn lemma_project_add_then_get(
    pre: Store,
    post: Store,
    form: ProjectForm,
    id: i32,
    created_at: Seq<char>,
)
    requires
        post.wf(),
        post.projects@.len() == pre.projects@.len() + 1,
        post.projects@.drop_last() == pre.projects@,
        store::is_new_project(post.projects@.last(), form, id, created_at),
    ensures
        forall|k: int|
            0 <= k < post.projects@.len() && (#[trigger] post.projects@[k]).slug@
                == outside::slug_of(form.title@) ==> post.projects@[k] == post.projects@.last(),
        post.projects@.last().title == form.title,
        post.projects@.last().description == form.description,
        post.projects@.last().content == form.content,
        post.projects@.last().image_url == form.image_url,
        post.projects@.last().demo_url == form.demo_url,
        post.projects@.last().github_url == form.github_url,
        post.projects@.last().technologies == form.technologies,
        post.projects@.last().featured == (form.featured is Some),
        post.projects@.last().created_at@ == created_at,
{
    let n = post.projects@.len() - 1;
    assert forall|k: int|
        0 <= k < post.projects@.len() && (#[trigger] post.projects@[k]).slug@ == outside::slug_of(
            form.title@,
        ) implies post.projects@[k] == post.projects@.last() by {
        if k != n {
            assert(post.projects@[k].slug@ != post.projects@[n].slug@);
        }
    }
}

/// Round trip for blogs, in the same shape: the one row carrying the slug
/// derived from the submitted title is the appended row, and its fields
/// are the submitted values, the "published" checkbox coerced by
/// presence.
pub proof fn lemma_blog_add_then_get(
    pre: Store,
    post: Store,
    form: BlogForm,
    id: i32,
    now: Seq<char>,
)
    requires
        post.wf(),
        post.blogs@.len() == pre.blogs@.len() + 1,
        post.blogs@.drop_last() == pre.blogs@,
        store::is_new_blog(post.blogs@.last(), form, id, now),
    ensures
        forall|k: int|
            0 <= k < post.blogs@.len() && (#[trigger] post.blogs@[k]).slug@ == outside::slug_of(
                form.title@,
            ) ==> post.blogs@[k] == post.blogs@.last(),
        post.blogs@.last().title == form.title,
        post.blogs@.last().excerpt == form.excerpt,
        post.blogs@.last().content == form.content,
        post.blogs@.last().image_url == form.image_url,
        post.blogs@.last().tags == form.tags,
        post.blogs@.last().published == (form.published is Some),
{
    let n = post.blogs@.len() - 1;
    assert forall|k: int|
        0 <= k < post.blogs@.len() && (#[trigger] post.blogs@[k]).slug@ == outside::slug_of(
            form.title@,
        ) implies post.blogs@[k] == post.blogs@.last() by {
        if k != n {
            assert(post.blogs@[k].slug@ != post.blogs@[n].slug@);
        }
    }
}

/// The slugs of a well-formed store's projects are pairwise distinct: the
/// storage layer's uniqueness rule, available to every reader.
pub proof fn lemma_project_slugs_unique(s: Store)
    requires
        s.wf(),
    ensures
        forall|i: int, j: int|
            0 <= i < j < s.projects@.len() ==> (#[trigger] s.projects@[i]).slug@ != (
            #[trigger] s.projects@[j]).slug@,
{
}

} // verus!
