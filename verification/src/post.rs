//! Blog posts: building one, the steps of storing one with its tags, and
//! paging through a user's posts.
use vstd::prelude::*;
use crate::clock::utc_now_micros;
use crate::errors::{db_error_answer, DbError, DbErrorKind, OurError};
use crate::guards::ApiUser;
use crate::ids::{new_uuid_v4, uuid_is_v4};
use crate::pagination::Pagination;
use crate::tags::Tags;

verus! {

/// A stored post row. Times are microseconds since the epoch.
#[derive(Clone, Debug)]
pub struct SqlxPost {
    pub uuid: u128,
    pub user_uuid: u128,
    pub title: String,
    pub body: String,
    pub created_at: i64,
    pub updated_at: i64,
}

/// A post with its tags.
#[derive(Debug)]
pub struct Post {
    pub uuid: u128,
    pub user_uuid: u128,
    pub title: String,
    pub body: String,
    pub created_at: i64,
    pub updated_at: i64,
    pub tags: Vec<Tags>,
}

/// The form that creates a post.
#[derive(Debug)]
pub struct NewPost {
    pub title: String,
    pub body: String,
    pub tags: Vec<String>,
}

impl Post {
    /// A post with random UUIDs, the current time, and a new tag for each
    /// name, in order.
    pub fn new(title: String, body: String, tags: Vec<String>) -> (r: Self)
        ensures
            r.title == title,
            r.body == body,
            uuid_is_v4(r.uuid),
            uuid_is_v4(r.user_uuid),
            r.tags@.len() == tags@.len(),
            forall|i: int|
                #![trigger r.tags@[i]]
                0 <= i < tags@.len() ==> r.tags@[i].name == tags@[i] && uuid_is_v4(r.tags@[i].uuid),
    {
        let mut mytags: Vec<Tags> = Vec::with_capacity(5);
        let n = tags.len();
        for k in 0..n
            invariant
                n == tags@.len(),
                mytags@.len() == k,
                forall|i: int|
                    #![trigger mytags@[i]]
                    0 <= i < k ==> mytags@[i].name == tags@[i] && uuid_is_v4(mytags@[i].uuid),
        {
            mytags.push(Tags::from(tags[k].clone()));
        }
        let uuid = new_uuid_v4();
        let user_uuid = new_uuid_v4();
        let created_at = utc_now_micros();
        let updated_at = utc_now_micros();
        Post { uuid, user_uuid, title, body, created_at, updated_at, tags: mytags }
    }
}

} // verus!

verus! {

/// Where the storing of a new post stands.
#[derive(Clone, Copy, Debug, PartialEq, Eq, Structural)]
pub enum CreatePhase {
    /// Waiting for the post row to be inserted.
    AwaitPost,
    /// Waiting for the lookup of the next tag by name.
    AwaitFound,
    /// Waiting for the next tag, which was not found, to be inserted.
    AwaitInserted,
    /// Waiting for the next tag to be linked to the post.
    AwaitLink,
    /// Finished.
    Done,
}

/// What the database is to do next, or the answer to the request.
#[derive(Debug)]
pub enum CreateStep {
    InsertPost { user_uuid: u128, title: String, body: String },
    FindTag { name: String },
    InsertTag { name: String },
    LinkTag { post_uuid: u128, tag_uuid: u128 },
    Finished(Result<Post, OurError>),
}

/// What the database answered to the last step.
#[derive(Debug)]
pub enum CreateEvent {
    PostInserted(Result<SqlxPost, OurError>),
    TagFound(Result<Tags, DbError>),
    TagInserted(Result<Tags, OurError>),
    TagLinked(Result<(), OurError>),
}

/// The state of storing a new post: the tag names of the form, the answer
/// to the post's insertion, the tags found or inserted so far (in the
/// form's order), and how many of them are linked to the post.
#[derive(Debug)]
pub struct PostCreation {
    pub tags: Vec<String>,
    pub phase: CreatePhase,
    pub post: Option<Result<SqlxPost, OurError>>,
    pub found: Vec<Tags>,
    pub linked: usize,
}

/// `post` is the stored row `p` with the tags `found`.
pub open spec fn post_from_row(post: Post, p: SqlxPost, found: Seq<Tags>) -> bool {
    &&& post.uuid == p.uuid
    &&& post.user_uuid == p.user_uuid
    &&& post.title == p.title
    &&& post.body == p.body
    &&& post.created_at == p.created_at
    &&& post.updated_at == p.updated_at
    &&& post.tags@ == found
}

/// Once every tag is found or inserted: a failed insertion of the post is
/// the answer; else the tags are linked one by one, and with no tag the post
/// is the answer at once.
pub open spec fn tags_settled(
    post: Option<Result<SqlxPost, OurError>>,
    found: Seq<Tags>,
    n: PostCreation,
    step: CreateStep,
) -> bool {
    match post {
        Some(Err(e)) => n.phase == CreatePhase::Done && step == CreateStep::Finished(
            Err::<Post, OurError>(e),
        ),
        Some(Ok(p)) => if found.len() == 0 {
            n.phase == CreatePhase::Done && (step matches CreateStep::Finished(Ok(x))
                && post_from_row(x, p, found))
        } else {
            &&& n.phase == CreatePhase::AwaitLink
            &&& n.linked == 0
            &&& n.post == post
            &&& n.found@ == found
            &&& step == CreateStep::LinkTag { post_uuid: p.uuid, tag_uuid: found[0].uuid }
        },
        None => false,
    }
}

/// After the post's insertion or a tag: the next tag of the form is looked
/// up, or, with all of them in hand, the tags are settled.
pub open spec fn advanced(
    tags: Seq<String>,
    post: Option<Result<SqlxPost, OurError>>,
    found: Seq<Tags>,
    n: PostCreation,
    step: CreateStep,
) -> bool {
    if found.len() < tags.len() {
        &&& n.phase == CreatePhase::AwaitFound
        &&& n.post == post
        &&& n.found@ == found
        &&& step == CreateStep::FindTag { name: tags[found.len() as int] }
    } else {
        tags_settled(post, found, n, step)
    }
}

/// One step of storing a post: from the state `s` and the database's answer
/// `event` to the state `n` and the next step.
pub open spec fn create_transition(
    s: PostCreation,
    event: CreateEvent,
    n: PostCreation,
    step: CreateStep,
) -> bool {
    &&& n.tags@ == s.tags@
    &&& match event {
        CreateEvent::PostInserted(p) => advanced(s.tags@, Some(p), s.found@, n, step),
        CreateEvent::TagFound(Ok(t)) => advanced(s.tags@, s.post, s.found@.push(t), n, step),
        CreateEvent::TagFound(Err(e)) => match e.kind {
            DbErrorKind::RowNotFound => {
                &&& n.phase == CreatePhase::AwaitInserted
                &&& n.post == s.post
                &&& n.found@ == s.found@
                &&& step == CreateStep::InsertTag { name: s.tags@[s.found@.len() as int] }
            },
            _ => n.phase == CreatePhase::Done && (step matches CreateStep::Finished(Err(x))
                && db_error_answer(e, x)),
        },
        CreateEvent::TagInserted(Ok(t)) => advanced(s.tags@, s.post, s.found@.push(t), n, step),
        CreateEvent::TagInserted(Err(e)) => n.phase == CreatePhase::Done && step
            == CreateStep::Finished(Err::<Post, OurError>(e)),
        CreateEvent::TagLinked(Ok(())) => if s.linked + 1 < s.found@.len() {
            &&& n.phase == CreatePhase::AwaitLink
            &&& n.linked == s.linked + 1
            &&& n.post == s.post
            &&& n.found@ == s.found@
            &&& step == CreateStep::LinkTag {
                post_uuid: s.post->Some_0->Ok_0.uuid,
                tag_uuid: s.found@[s.linked + 1].uuid,
            }
        } else {
            n.phase == CreatePhase::Done && (step matches CreateStep::Finished(Ok(x))
                && post_from_row(x, s.post->Some_0->Ok_0, s.found@))
        },
        CreateEvent::TagLinked(Err(e)) => n.phase == CreatePhase::Done && step
            == CreateStep::Finished(Err::<Post, OurError>(e)),
    }
}

impl PostCreation {
    /// The state is consistent with its phase.
    pub open spec fn wf(self) -> bool {
        &&& self.found@.len() <= self.tags@.len()
        &&& match self.phase {
            CreatePhase::AwaitPost => self.post is None && self.found@.len() == 0 && self.linked
                == 0,
            CreatePhase::AwaitFound => self.post is Some && self.found@.len() < self.tags@.len(),
            CreatePhase::AwaitInserted => self.post is Some && self.found@.len()
                < self.tags@.len(),
            CreatePhase::AwaitLink => self.post matches Some(Ok(_)) && self.found@.len()
                == self.tags@.len() && self.linked < self.found@.len(),
            CreatePhase::Done => true,
        }
    }

    /// The answer that the state waits for.
    pub open spec fn awaits(self, event: CreateEvent) -> bool {
        match event {
            CreateEvent::PostInserted(_) => self.phase == CreatePhase::AwaitPost,
            CreateEvent::TagFound(_) => self.phase == CreatePhase::AwaitFound,
            CreateEvent::TagInserted(_) => self.phase == CreatePhase::AwaitInserted,
            CreateEvent::TagLinked(_) => self.phase == CreatePhase::AwaitLink,
        }
    }

    /// How many answers remain at most before the creation finishes.
    pub open spec fn remaining(self) -> nat {
        let n = self.tags@.len();
        let f = self.found@.len();
        match self.phase {
            CreatePhase::AwaitPost => 1 + 3 * n,
            CreatePhase::AwaitFound => (2 * (n - f) + n) as nat,
            CreatePhase::AwaitInserted => (2 * (n - f) - 1 + n) as nat,
            CreatePhase::AwaitLink => (f - self.linked) as nat,
            CreatePhase::Done => 0,
        }
    }

    /// Whether the state waits for this answer.
    pub fn expects(&self, event: &CreateEvent) -> (r: bool)
        ensures
            r == self.awaits(*event),
    {
        match event {
            CreateEvent::PostInserted(_) => self.phase == CreatePhase::AwaitPost,
            CreateEvent::TagFound(_) => self.phase == CreatePhase::AwaitFound,
            CreateEvent::TagInserted(_) => self.phase == CreatePhase::AwaitInserted,
            CreateEvent::TagLinked(_) => self.phase == CreatePhase::AwaitLink,
        }
    }

    fn settle(
        tags: Vec<String>,
        post: Result<SqlxPost, OurError>,
        found: Vec<Tags>,
    ) -> (r: (PostCreation, CreateStep))
        requires
            found@.len() == tags@.len(),
        ensures
            r.0.tags@ == tags@,
            r.0.wf(),
            tags_settled(Some(post), found@, r.0, r.1),
    {
        match post {
            Err(e) => (
                PostCreation {
                    tags,
                    phase: CreatePhase::Done,
                    post: None,
                    found: Vec::new(),
                    linked: 0,
                },
                CreateStep::Finished(Err(e)),
            ),
            Ok(p) => {
                if found.len() == 0 {
                    let x = Post {
                        uuid: p.uuid,
                        user_uuid: p.user_uuid,
                        title: p.title,
                        body: p.body,
                        created_at: p.created_at,
                        updated_at: p.updated_at,
                        tags: found,
                    };
                    (
                        PostCreation {
                            tags,
                            phase: CreatePhase::Done,
                            post: None,
                            found: Vec::new(),
                            linked: 0,
                        },
                        CreateStep::Finished(Ok(x)),
                    )
                } else {
                    let step = CreateStep::LinkTag { post_uuid: p.uuid, tag_uuid: found[0].uuid };
                    (
                        PostCreation {
                            tags,
                            phase: CreatePhase::AwaitLink,
                            post: Some(Ok(p)),
                            found,
                            linked: 0,
                        },
                        step,
                    )
                }
            },
        }
    }

    fn advance(
        tags: Vec<String>,
        post: Result<SqlxPost, OurError>,
        found: Vec<Tags>,
    ) -> (r: (PostCreation, CreateStep))
        requires
            found@.len() <= tags@.len(),
        ensures
            r.0.tags@ == tags@,
            r.0.wf(),
            advanced(tags@, Some(post), found@, r.0, r.1),
    {
        if found.len() < tags.len() {
            let name = tags[found.len()].clone();
            (
                PostCreation {
                    tags,
                    phase: CreatePhase::AwaitFound,
                    post: Some(post),
                    found,
                    linked: 0,
                },
                CreateStep::FindTag { name },
            )
        } else {
            Self::settle(tags, post, found)
        }
    }

    /// Takes the database's answer to the last step and gives the next step.
    pub fn step(self, event: CreateEvent) -> (r: (PostCreation, CreateStep))
        requires
            self.wf(),
            self.awaits(event),
        ensures
            r.0.wf(),
            create_transition(self, event, r.0, r.1),
            r.0.phase != CreatePhase::Done ==> r.0.remaining() < self.remaining(),
            // A linked tag is followed by the link of the next found tag.
            (event matches CreateEvent::TagLinked(Ok(_)) && self.linked + 1 < self.found@.len())
                ==> {
                &&& r.1 == CreateStep::LinkTag {
                    post_uuid: self.post->Some_0->Ok_0.uuid,
                    tag_uuid: self.found@[self.linked + 1].uuid,
                }
                &&& r.0.phase == CreatePhase::AwaitLink
                &&& r.0.linked == self.linked + 1
                &&& r.0.found@ == self.found@
                &&& r.0.post == self.post
            },
            // Each link names the post and the found tag that is next to link.
            r.1 is LinkTag ==> (r.0.phase == CreatePhase::AwaitLink && r.1->post_uuid
                == r.0.post->Some_0->Ok_0.uuid && r.1->tag_uuid == r.0.found@[r.0.linked as int].uuid),
            // Linking starts at the first found tag, once every tag is in hand.
            (self.phase != CreatePhase::AwaitLink && r.0.phase == CreatePhase::AwaitLink) ==> (
            r.0.linked == 0 && r.0.found@.len() == r.0.tags@.len()),
            // Tags are looked up and inserted in the form's order.
            r.1 is FindTag ==> r.1->FindTag_name == r.0.tags@[r.0.found@.len() as int],
            r.1 is InsertTag ==> r.1->InsertTag_name == r.0.tags@[r.0.found@.len() as int],
            // A tag found or inserted is kept after those before it.
            (event is TagFound && event->TagFound_0 is Ok && r.0.phase != CreatePhase::Done)
                ==> r.0.found@ == self.found@.push(event->TagFound_0->Ok_0),
            (event is TagInserted && event->TagInserted_0 is Ok && r.0.phase != CreatePhase::Done)
                ==> r.0.found@ == self.found@.push(event->TagInserted_0->Ok_0),
            // The last link answered Ok finishes with the post and all its tags.
            (event matches CreateEvent::TagLinked(Ok(_)) && self.linked + 1 >= self.found@.len())
                ==> (r.0.phase == CreatePhase::Done && (r.1 matches CreateStep::Finished(Ok(x))
                && x.uuid == self.post->Some_0->Ok_0.uuid && x.tags@ == self.found@)),
    {
        let ghost s = self;
        let PostCreation { tags, phase, post, found, linked } = self;
        assert(tags == s.tags && post == s.post && found == s.found && linked == s.linked && phase == s.phase);
        let r = match event {
            CreateEvent::PostInserted(p) => Self::advance(tags, p, found),
            CreateEvent::TagFound(Ok(t)) => {
                let mut found = found;
                found.push(t);
                match post {
                    Some(p) => Self::advance(tags, p, found),
                    None => unreached(),
                }
            },
            CreateEvent::TagFound(Err(e)) => {
                let not_found = match &e.kind {
                    DbErrorKind::RowNotFound => true,
                    _ => false,
                };
                if not_found {
                    let name = tags[found.len()].clone();
                    (
                        PostCreation {
                            tags,
                            phase: CreatePhase::AwaitInserted,
                            post,
                            found,
                            linked: 0,
                        },
                        CreateStep::InsertTag { name },
                    )
                } else {
                    (
                        PostCreation {
                            tags,
                            phase: CreatePhase::Done,
                            post: None,
                            found: Vec::new(),
                            linked: 0,
                        },
                        CreateStep::Finished(Err(OurError::from_sqlx_error(e))),
                    )
                }
            },
            CreateEvent::TagInserted(Ok(t)) => {
                let mut found = found;
                found.push(t);
                match post {
                    Some(p) => Self::advance(tags, p, found),
                    None => unreached(),
                }
            },
            CreateEvent::TagInserted(Err(e)) => (
                PostCreation {
                    tags,
                    phase: CreatePhase::Done,
                    post: None,
                    found: Vec::new(),
                    linked: 0,
                },
                CreateStep::Finished(Err(e)),
            ),
            CreateEvent::TagLinked(Ok(())) => {
                let count = found.len();
                if linked + 1 < count {
                    let post_uuid = match &post {
                        Some(Ok(p)) => p.uuid,
                        _ => unreached(),
                    };
                    let step = CreateStep::LinkTag { post_uuid, tag_uuid: found[linked + 1].uuid };
                    (
                        PostCreation {
                            tags,
                            phase: CreatePhase::AwaitLink,
                            post,
                            found,
                            linked: linked + 1,
                        },
                        step,
                    )
                } else {
                    match post {
                        Some(Ok(p)) => Self::settle_linked(tags, p, found),
                        _ => unreached(),
                    }
                }
            },
            CreateEvent::TagLinked(Err(e)) => (
                PostCreation {
                    tags,
                    phase: CreatePhase::Done,
                    post: None,
                    found: Vec::new(),
                    linked: 0,
                },
                CreateStep::Finished(Err(e)),
            ),
        };
        r
    }

    fn settle_linked(tags: Vec<String>, p: SqlxPost, found: Vec<Tags>) -> (r: (
        PostCreation,
        CreateStep,
    ))
        requires
            found@.len() <= tags@.len(),
        ensures
            r.0.tags@ == tags@,
            r.0.wf(),
            r.0.phase == CreatePhase::Done,
            r.1 matches CreateStep::Finished(Ok(x)) && post_from_row(x, p, found@),
    {
        let x = Post {
            uuid: p.uuid,
            user_uuid: p.user_uuid,
            title: p.title,
            body: p.body,
            created_at: p.created_at,
            updated_at: p.updated_at,
            tags: found,
        };
        (
            PostCreation {
                tags,
                phase: CreatePhase::Done,
                post: None,
                found: Vec::new(),
                linked: 0,
            },
            CreateStep::Finished(Ok(x)),
        )
    }
}

/// Storing a post ends: a state that is not finished still has answers to
/// wait for, and each answer lowers their number (see `PostCreation::step`),
/// which starts at one more than three times the number of tags.
pub proof fn lemma_creation_ends(s: PostCreation)
    requires
        s.wf(),
        s.phase != CreatePhase::Done,
    ensures
        s.remaining() >= 1,
        s.remaining() <= 1 + 3 * s.tags@.len(),
{
}

/// The links of a stored post go through its found tags in order, each
/// once: along steps that each answer a link with Ok, the state keeps its
/// post and tags, counts one more linked tag per answer, and the `i`-th
/// step links the tag after the `i`-th, as long as one is left.
pub proof fn lemma_links_follow_found(states: Seq<PostCreation>, steps: Seq<CreateStep>)
    requires
        states.len() == steps.len() + 1,
        forall|i: int|
            0 <= i < steps.len() ==> states[i].phase == CreatePhase::AwaitLink && create_transition(
                #[trigger] states[i],
                CreateEvent::TagLinked(Ok(())),
                states[i + 1],
                steps[i],
            ),
    ensures
        forall|i: int|
            0 <= i < steps.len() ==> (#[trigger] states[i]).found@ == states[0].found@
                && states[i].post == states[0].post && states[i].linked == states[0].linked + i,
        forall|i: int|
            0 <= i < steps.len() && states[0].linked + i + 1 < states[0].found@.len()
                ==> #[trigger] steps[i] == (CreateStep::LinkTag {
                post_uuid: states[0].post->Some_0->Ok_0.uuid,
                tag_uuid: states[0].found@[states[0].linked + i + 1].uuid,
            }),
{
    assert forall|i: int| 0 <= i < steps.len() implies (#[trigger] states[i]).found@
        == states[0].found@ && states[i].post == states[0].post && states[i].linked
        == states[0].linked + i by {
        lemma_links_prefix(states, steps, i);
    }
    assert forall|i: int|
        0 <= i < steps.len() && states[0].linked + i + 1 < states[0].found@.len()
            implies #[trigger] steps[i] == CreateStep::LinkTag {
            post_uuid: states[0].post->Some_0->Ok_0.uuid,
            tag_uuid: states[0].found@[states[0].linked + i + 1].uuid,
        } by {
        lemma_links_prefix(states, steps, i);
        assert(create_transition(states[i], CreateEvent::TagLinked(Ok(())), states[i + 1], steps[i]));
    }
}

proof fn lemma_links_prefix(states: Seq<PostCreation>, steps: Seq<CreateStep>, i: int)
    requires
        states.len() == steps.len() + 1,
        forall|i: int|
            0 <= i < steps.len() ==> states[i].phase == CreatePhase::AwaitLink && create_transition(
                #[trigger] states[i],
                CreateEvent::TagLinked(Ok(())),
                states[i + 1],
                steps[i],
            ),
        0 <= i < steps.len(),
    ensures
        states[i].found@ == states[0].found@,
        states[i].post == states[0].post,
        states[i].linked == states[0].linked + i,
    decreases i,
{
    if i > 0 {
        lemma_links_prefix(states, steps, i - 1);
        let s = states[i - 1];
        assert(create_transition(s, CreateEvent::TagLinked(Ok(())), states[i], steps[i - 1]));
        assert(states[i].phase == CreatePhase::AwaitLink);
    }
}

impl Post {
    /// Starts storing a post for the user: the post row is inserted first,
    /// then each tag of the form is looked up (and inserted where missing),
    /// then each tag is linked to the post.
    pub fn create(title: String, body: String, tags: Vec<String>, user: ApiUser) -> (r: (
        PostCreation,
        CreateStep,
    ))
        ensures
            r.0.wf(),
            r.0.phase == CreatePhase::AwaitPost,
            r.0.tags@ == tags@,
            r.0.remaining() == 1 + 3 * tags@.len(),
            r.1 == (CreateStep::InsertPost { user_uuid: user.user.uuid, title, body }),
    {
        (
            PostCreation {
                tags,
                phase: CreatePhase::AwaitPost,
                post: None,
                found: Vec::new(),
                linked: 0,
            },
            CreateStep::InsertPost { user_uuid: user.user.uuid, title, body },
        )
    }
}

} // verus!

verus! {

/// The query for one page of a user's posts: those of `user_uuid` created
/// before `before`, newest first, at most `limit` of them.
#[derive(Clone, Copy, Debug, PartialEq, Eq, Structural)]
pub struct PageQuery {
    pub user_uuid: u128,
    pub before: i64,
    pub limit: i32,
}

impl Post {
    /// The query for the page of the user's posts that `pagination` starts.
    /// The limit is passed to the database as a 32-bit integer, truncated.
    pub fn find_all_posts_with_uuid_pagination(user_uuid: u128, pagination: &Pagination) -> (r:
        PageQuery)
        ensures
            r.user_uuid == user_uuid,
            r.before == pagination.next,
            r.limit == pagination.limit as i32,
    {
        PageQuery { user_uuid, before: pagination.next, limit: pagination.limit as i32 }
    }

    /// Whether to ask if older posts exist after a page: only after a full
    /// page, about the posts of the page's last post's user created before
    /// that post.
    pub fn more_posts_query(posts: &Vec<SqlxPost>, pagination: &Pagination) -> (r: Option<
        (i64, u128),
    >)
        requires
            posts@.len() == pagination.limit ==> posts@.len() > 0,
        ensures
            r is Some <==> posts@.len() == pagination.limit,
            r is Some ==> r->Some_0 == (
                posts@.last().created_at,
                posts@.last().user_uuid,
            ),
    {
        if posts.len() == pagination.limit {
            let last = &posts[posts.len() - 1];
            Some((last.created_at, last.user_uuid))
        } else {
            None
        }
    }

    /// The pagination of the page after `posts`: it exists after a full
    /// page when older posts exist, starts at the page's last post and keeps
    /// the limit.
    pub fn next_pagination(posts: &Vec<SqlxPost>, pagination: &Pagination, more: bool) -> (r:
        Option<Pagination>)
        requires
            posts@.len() == pagination.limit ==> posts@.len() > 0,
        ensures
            r is Some <==> (posts@.len() == pagination.limit && more),
            r is Some ==> r->Some_0 == (Pagination {
                next: posts@.last().created_at,
                limit: pagination.limit,
            }),
            r == page_after(posts@, *pagination, more),
    {
        if posts.len() == pagination.limit && more {
            Some(Pagination { next: posts[posts.len() - 1].created_at, limit: pagination.limit })
        } else {
            None
        }
    }
}

/// The pagination that follows the page `page` of `start`, given whether
/// older posts exist: only after a full page of which older posts exist.
pub open spec fn page_after(page: Seq<SqlxPost>, start: Pagination, more: bool) -> Option<
    Pagination,
> {
    if page.len() == start.limit && more {
        Some(Pagination { next: page.last().created_at, limit: start.limit })
    } else {
        None
    }
}

/// `p` is a row of `table`, a post of `user` created before `before`.
pub open spec fn of_user_before(table: Seq<SqlxPost>, user: u128, before: i64, p: SqlxPost) -> bool {
    &&& table.contains(p)
    &&& p.user_uuid == user
    &&& p.created_at < before
}

/// Every post of `s` was created after the posts that follow it.
pub open spec fn newest_first(s: Seq<SqlxPost>) -> bool {
    forall|i: int, j: int| 0 <= i < j < s.len() ==> s[i].created_at > s[j].created_at
}

/// `page` is what the database answers to the page query `q` on the rows
/// `table`: posts of the user created before `q.before`, newest first, at
/// most `q.limit` of them, and every such post that is not older than the
/// last of a full page (every such post, where the page is not full).
pub open spec fn answers(table: Seq<SqlxPost>, q: PageQuery, page: Seq<SqlxPost>) -> bool {
    &&& newest_first(page)
    &&& page.len() <= q.limit
    &&& forall|i: int|
        0 <= i < page.len() ==> of_user_before(table, q.user_uuid, q.before, #[trigger] page[i])
    &&& forall|p: SqlxPost|
        of_user_before(table, q.user_uuid, q.before, p) && (page.len() < q.limit
            || p.created_at >= page.last().created_at) ==> #[trigger] page.contains(p)
}

/// `more` is what the database answers to the question that
/// `more_posts_query` asks after a full page: whether a post of the last
/// post's user was created before it.
pub open spec fn answers_more(table: Seq<SqlxPost>, page: Seq<SqlxPost>, limit: usize, more: bool) -> bool {
    page.len() == limit ==> (more <==> exists|p: SqlxPost|
        #[trigger] table.contains(p) && p.user_uuid == page.last().user_uuid && p.created_at
            < page.last().created_at)
}

/// `pages` are the pages of the user's posts that the database gives for
/// `start` and each pagination that follows, with the answers `mores` to the
/// question of older posts, up to the page after which no pagination
/// follows.
pub open spec fn paged(
    table: Seq<SqlxPost>,
    user: u128,
    start: Pagination,
    pages: Seq<Seq<SqlxPost>>,
    mores: Seq<bool>,
) -> bool
    decreases pages.len(),
{
    &&& pages.len() > 0
    &&& mores.len() == pages.len()
    &&& answers(
        table,
        PageQuery { user_uuid: user, before: start.next, limit: start.limit as i32 },
        pages[0],
    )
    &&& answers_more(table, pages[0], start.limit, mores[0])
    &&& match page_after(pages[0], start, mores[0]) {
        None => pages.len() == 1,
        Some(next) => paged(table, user, next, pages.drop_first(), mores.drop_first()),
    }
}

/// Paging through a user's posts visits each once, newest first: where the
/// database answers each page query and each question of older posts as the
/// queries say, the pages from `start` up to the last one, put together,
/// are newest first (so no post comes twice) and hold exactly the user's
/// posts created before `start.next`.
pub proof fn lemma_pages_cover_posts(
    table: Seq<SqlxPost>,
    user: u128,
    start: Pagination,
    pages: Seq<Seq<SqlxPost>>,
    mores: Seq<bool>,
)
    requires
        1 <= start.limit <= 0x7FFF_FFFF,
        paged(table, user, start, pages, mores),
    ensures
        newest_first(pages.flatten()),
        forall|p: SqlxPost|
            #[trigger] pages.flatten().contains(p) <==> of_user_before(table, user, start.next, p),
    decreases pages.len(),
{
    let q = PageQuery { user_uuid: user, before: start.next, limit: start.limit as i32 };
    let page = pages[0];
    assert(start.limit as i32 == start.limit);
    assert(pages.flatten() == page + pages.drop_first().flatten());
    match page_after(page, start, mores[0]) {
        None => {
            assert(pages.drop_first().len() == 0);
            assert(pages.drop_first().flatten() =~= Seq::<SqlxPost>::empty());
            assert(pages.flatten() =~= page);
            assert forall|p: SqlxPost| of_user_before(table, user, start.next, p) implies #[trigger] pages.flatten().contains(p) by {
                if page.len() == start.limit && p.created_at < page.last().created_at {
                    assert(page.last() == page[page.len() - 1]);
                    assert(table.contains(p) && p.user_uuid == page.last().user_uuid
                        && p.created_at < page.last().created_at);
                }
            }
            assert forall|p: SqlxPost| #[trigger] pages.flatten().contains(p) implies of_user_before(table, user, start.next, p) by {
                let i = choose|i: int| 0 <= i < page.len() && page[i] == p;
                assert(of_user_before(table, q.user_uuid, q.before, page[i]));
            }
        },
        Some(next) => {
            let rest = pages.drop_first();
            lemma_pages_cover_posts(table, user, next, rest, mores.drop_first());
            let tail = rest.flatten();
            let last = page.last();
            assert(last == page[page.len() - 1]);
            assert(of_user_before(table, q.user_uuid, q.before, page[page.len() - 1]));
            assert forall|i: int, j: int|
                0 <= i < j < pages.flatten().len() implies pages.flatten()[i].created_at
                > pages.flatten()[j].created_at by {
                if i < page.len() && j >= page.len() {
                    // Every later post is older than the page's last post.
                    assert(tail.contains(tail[j - page.len()]));
                }
            }
            assert forall|p: SqlxPost| of_user_before(table, user, start.next, p) implies #[trigger] pages.flatten().contains(p) by {
                if p.created_at >= last.created_at {
                    assert(page.contains(p));
                    let i = choose|i: int| 0 <= i < page.len() && page[i] == p;
                    assert(pages.flatten()[i] == p);
                } else {
                    assert(tail.contains(p));
                    let k = choose|k: int| 0 <= k < tail.len() && tail[k] == p;
                    assert(pages.flatten()[page.len() + k] == p);
                }
            }
            assert forall|p: SqlxPost| #[trigger] pages.flatten().contains(p) implies of_user_before(table, user, start.next, p) by {
                let i = choose|i: int| 0 <= i < pages.flatten().len() && pages.flatten()[i] == p;
                if i < page.len() {
                    assert(of_user_before(table, q.user_uuid, q.before, page[i]));
                } else {
                    assert(tail[i - page.len()] == p);
                    assert(tail.contains(p));
                }
            }
        },
    }
}

} // verus!
