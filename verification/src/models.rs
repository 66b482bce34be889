//! The forum's entities, as far as rules are stated of them.

use vstd::prelude::*;
use crate::jobs::record::Timestamp;
use crate::markdown::{render, rendered};

verus! {

#[derive(Debug)]
pub struct User {
    pub id: i32,
    pub username: String,
    pub email: String,
    pub password_hash: String,
    pub admin: bool,
    pub moderator: bool,
    pub trust_level: i32,
    pub created_at: Timestamp,
    pub updated_at: Timestamp,
}

#[derive(Debug)]
pub struct Topic {
    pub id: i32,
    pub title: String,
    pub slug: String,
    pub user_id: i32,
    pub category_id: Option<i32>,
    pub views: i32,
    pub posts_count: i32,
    pub pinned: bool,
    pub closed: bool,
    pub created_at: Timestamp,
    pub updated_at: Timestamp,
}

#[derive(Debug)]
pub struct Post {
    pub id: i32,
    pub topic_id: i32,
    pub user_id: i32,
    /// Position within the topic, counted from one.
    pub post_number: i32,
    /// The Markdown source.
    pub raw: String,
    /// The HTML rendered from `raw`.
    pub cooked: String,
    pub reply_to_post_number: Option<i32>,
    pub deleted_at: Option<Timestamp>,
    pub created_at: Timestamp,
    pub updated_at: Timestamp,
}

/// A post to be inserted.
#[derive(Debug)]
pub struct NewPost {
    pub topic_id: i32,
    pub user_id: i32,
    pub post_number: i32,
    pub raw: String,
    pub cooked: String,
    pub reply_to_post_number: Option<i32>,
}

/// The changes to apply to a post.
#[derive(Debug)]
pub struct UpdatePost {
    pub raw: Option<String>,
    pub cooked: Option<String>,
}

/// What a client sends to create a post: the source only.
#[derive(Debug)]
pub struct CreatePostInput {
    pub topic_id: i32,
    pub user_id: i32,
    pub post_number: i32,
    pub raw: String,
    pub reply_to_post_number: Option<i32>,
}

/// What a client sends to change a post: the source only.
#[derive(Debug)]
pub struct UpdatePostInput {
    pub raw: Option<String>,
}

#[derive(Debug)]
pub struct Notification {
    pub id: i64,
    pub user_id: i32,
    pub notification_type: String,
    /// Details, as JSON text.
    pub data: String,
    pub read: bool,
    pub topic_id: Option<i32>,
    pub post_id: Option<i32>,
    pub acting_user_id: Option<i32>,
    pub created_at: Timestamp,
}

impl User {
    /// Admins and flagged moderators are staff.
    pub fn is_staff(&self) -> (staff: bool)
        ensures
            staff == (self.admin || self.moderator),
    {
        self.admin || self.moderator
    }
}

impl Topic {
    /// Counts one more view. The counter has to have room for it.
    pub fn increment_views(&mut self)
        requires
            old(self).views < i32::MAX,
        ensures
            *final(self) == (Topic { views: (old(self).views + 1) as i32, ..*old(self) }),
    {
        self.views = self.views + 1;
    }

    /// Counts one more post. The counter has to have room for it.
    pub fn increment_posts_count(&mut self)
        requires
            old(self).posts_count < i32::MAX,
        ensures
            *final(self) == (Topic { posts_count: (old(self).posts_count + 1) as i32, ..*old(self) }),
    {
        self.posts_count = self.posts_count + 1;
    }
}

impl Post {
    pub fn is_deleted(&self) -> (deleted: bool)
        ensures
            deleted == self.deleted_at is Some,
    {
        self.deleted_at.is_some()
    }

    /// Whether the post opens its topic.
    pub fn is_first_post(&self) -> (first: bool)
        ensures
            first == (self.post_number == 1),
    {
        self.post_number == 1
    }
}

impl Notification {
    pub fn is_read(&self) -> (read: bool)
        ensures
            read == self.read,
    {
        self.read
    }
}

impl CreatePostInput {
    /// The post to insert: the input with its source rendered.
    pub fn into_new_post(self) -> (post: NewPost)
        ensures
            post.topic_id == self.topic_id,
            post.user_id == self.user_id,
            post.post_number == self.post_number,
            post.raw == self.raw,
            post.cooked@ == rendered(self.raw@),
            post.reply_to_post_number == self.reply_to_post_number,
    {
        let cooked = render(self.raw.as_str());
        NewPost {
            topic_id: self.topic_id,
            user_id: self.user_id,
            post_number: self.post_number,
            raw: self.raw,
            cooked,
            reply_to_post_number: self.reply_to_post_number,
        }
    }
}

impl UpdatePostInput {
    /// The changes to apply: a new source comes with its rendering, no
    /// source leaves both untouched.
    pub fn into_update_post(self) -> (update: UpdatePost)
        ensures
            update.raw == self.raw,
            match self.raw {
                Some(raw) => update.cooked matches Some(cooked) && cooked@ == rendered(raw@),
                None => update.cooked is None,
            },
    {
        let cooked = match &self.raw {
            Some(raw) => Some(render(raw.as_str())),
            None => None,
        };
        UpdatePost { raw: self.raw, cooked }
    }
}

} // verus!
