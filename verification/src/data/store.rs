//! The four tables and the two row counters, and what it means for them to be
//! consistent.

use vstd::prelude::*;

use crate::data::blogs::Blog;
use crate::data::tags::Tag;
use crate::data::tokens::Token;
use crate::data::users::User;

verus! {

/// The contents of a [`Database`]: each table as the sequence of its rows, oldest
/// first, and the id that each counter gives out next.
pub struct Tables {
    pub users: Seq<User>,
    pub blogs: Seq<Blog>,
    pub tags: Seq<Tag>,
    pub tokens: Seq<Token>,
    pub next_user_id: int,
    pub next_blog_id: int,
}

impl Tables {
    /// No rows, and both counters at 1.
    pub open spec fn empty() -> Tables {
        Tables {
            users: Seq::empty(),
            blogs: Seq::empty(),
            tags: Seq::empty(),
            tokens: Seq::empty(),
            next_user_id: 1,
            next_blog_id: 1,
        }
    }

    /// The constraints of the schema: ids were given out in rising order by the
    /// counters, no username and no token string occurs twice, and a row refers
    /// only to an id that was given out. The row it refers to may have left since:
    /// what belonged to it stays behind, and because no id is given out twice,
    /// nothing that stayed behind ever falls to a newer row.
    pub open spec fn wf(self) -> bool {
        &&& 1 <= self.next_user_id <= i64::MAX
        &&& 1 <= self.next_blog_id <= i64::MAX
        &&& forall|i: int|
            0 <= i < self.users.len() ==> 1 <= (#[trigger] self.users[i]).id < self.next_user_id
        &&& forall|i: int, j: int|
            0 <= i < j < self.users.len() ==> (#[trigger] self.users[i]).id < (
            #[trigger] self.users[j]).id
        &&& forall|i: int, j: int|
            0 <= i < j < self.users.len() ==> (#[trigger] self.users[i]).username@ != (
            #[trigger] self.users[j]).username@
        &&& forall|i: int|
            0 <= i < self.blogs.len() ==> 1 <= (#[trigger] self.blogs[i]).id < self.next_blog_id
        &&& forall|i: int, j: int|
            0 <= i < j < self.blogs.len() ==> (#[trigger] self.blogs[i]).id < (
            #[trigger] self.blogs[j]).id
        &&& forall|i: int, j: int|
            0 <= i < j < self.tokens.len() ==> (#[trigger] self.tokens[i]).token@ != (
            #[trigger] self.tokens[j]).token@
        &&& forall|i: int|
            0 <= i < self.blogs.len() ==> 1 <= (#[trigger] self.blogs[i]).user_id
                < self.next_user_id
        &&& forall|i: int|
            0 <= i < self.tokens.len() ==> 1 <= (#[trigger] self.tokens[i]).user_id
                < self.next_user_id
        &&& forall|i: int|
            0 <= i < self.tags.len() ==> 1 <= (#[trigger] self.tags[i]).blog_id < self.next_blog_id
    }

    /// Tags that refer to ids that were given out keep the tables consistent: no
    /// other constraint of the schema is on them.
    pub proof fn lemma_wf_with_tags(self, tags: Seq<Tag>)
        requires
            self.wf(),
            forall|i: int| 0 <= i < tags.len() ==> 1 <= (#[trigger] tags[i]).blog_id
                < self.next_blog_id,
        ensures
            (Tables { tags, ..self }).wf(),
    {
    }

    /// Whether the counters of `later` are consistent and at or beyond these: they
    /// only ever move forward.
    pub open spec fn counters_reach(self, later: Tables) -> bool {
        &&& self.next_user_id <= later.next_user_id <= i64::MAX
        &&& self.next_blog_id <= later.next_blog_id <= i64::MAX
    }

    /// Rows that are consistent stay so when the counters move forward.
    pub proof fn lemma_rolled_back_wf(self, work: Tables)
        requires
            self.wf(),
            self.counters_reach(work),
        ensures
            self.rolled_back(work).wf(),
            self.rolled_back(work).same_rows(self),
    {
        let post = self.rolled_back(work);
        assert forall|i: int| 0 <= i < post.users.len() implies 1 <= (#[trigger] post.users[i]).id
            < post.next_user_id by {
            assert(1 <= self.users[i].id < self.next_user_id);
        }
        assert forall|i: int| 0 <= i < post.blogs.len() implies 1 <= (#[trigger] post.blogs[i]).id
            < post.next_blog_id && 1 <= post.blogs[i].user_id < post.next_user_id by {
            assert(1 <= self.blogs[i].id < self.next_blog_id);
            assert(1 <= self.blogs[i].user_id < self.next_user_id);
        }
        assert forall|i: int| 0 <= i < post.tokens.len() implies 1 <= (
        #[trigger] post.tokens[i]).user_id < post.next_user_id by {
            assert(1 <= self.tokens[i].user_id < self.next_user_id);
        }
        assert forall|i: int| 0 <= i < post.tags.len() implies 1 <= (#[trigger] post.tags[i]).blog_id
            < post.next_blog_id by {
            assert(1 <= self.tags[i].blog_id < self.next_blog_id);
        }
    }

    /// Whether `other` holds the same rows; the counters may differ.
    pub open spec fn same_rows(self, other: Tables) -> bool {
        &&& self.users == other.users
        &&& self.blogs == other.blogs
        &&& self.tags == other.tags
        &&& self.tokens == other.tokens
    }

    /// These rows, with the counters where `work` left them: what remains of a
    /// transaction that is given up. A counter does not hand an id out twice,
    /// whether or not the row it was meant for was kept.
    pub open spec fn rolled_back(self, work: Tables) -> Tables {
        Tables { next_user_id: work.next_user_id, next_blog_id: work.next_blog_id, ..self }
    }
}

/// The store: the tables of users, blogs, tags and tokens.
pub struct Database {
    pub(crate) users: Vec<User>,
    pub(crate) blogs: Vec<Blog>,
    pub(crate) tags: Vec<Tag>,
    pub(crate) tokens: Vec<Token>,
    pub(crate) next_user_id: i64,
    pub(crate) next_blog_id: i64,
}

impl View for Database {
    type V = Tables;

    open(crate) spec fn view(&self) -> Tables {
        Tables {
            users: self.users@,
            blogs: self.blogs@,
            tags: self.tags@,
            tokens: self.tokens@,
            next_user_id: self.next_user_id as int,
            next_blog_id: self.next_blog_id as int,
        }
    }
}

impl Database {
    /// A store without rows.
    pub fn new() -> (db: Database)
        ensures
            db@ == Tables::empty(),
            db@.wf(),
    {
        Database {
            users: Vec::new(),
            blogs: Vec::new(),
            tags: Vec::new(),
            tokens: Vec::new(),
            next_user_id: 1,
            next_blog_id: 1,
        }
    }

    /// A store without rows whose counters start at the given ids, where both
    /// are ids that a counter can give out: 1 or more.
    pub fn starting_at(first_user_id: i64, first_blog_id: i64) -> (r: Option<Database>)
        ensures
            r is Some <==> first_user_id >= 1 && first_blog_id >= 1,
            r matches Some(db) ==> db@.wf() && db@ == (Tables {
                next_user_id: first_user_id as int,
                next_blog_id: first_blog_id as int,
                ..Tables::empty()
            }),
    {
        if first_user_id < 1 || first_blog_id < 1 {
            return None;
        }
        Some(
            Database {
                users: Vec::new(),
                blogs: Vec::new(),
                tags: Vec::new(),
                tokens: Vec::new(),
                next_user_id: first_user_id,
                next_blog_id: first_blog_id,
            },
        )
    }

    /// Opens a transaction: a working copy on which the statements of one request
    /// run, to be handed to [`Database::commit`] or [`Database::rollback`].
    pub fn begin(&self) -> (work: Database)
        ensures
            work@ == self@,
    {
        let users = self.users.clone();
        let blogs = self.blogs.clone();
        let tags = self.tags.clone();
        let tokens = self.tokens.clone();
        assert(users@ =~= self.users@);
        assert(blogs@ =~= self.blogs@);
        assert(tags@ =~= self.tags@);
        assert(tokens@ =~= self.tokens@);
        Database {
            users,
            blogs,
            tags,
            tokens,
            next_user_id: self.next_user_id,
            next_blog_id: self.next_blog_id,
        }
    }

    /// Makes the working copy of a transaction the contents of the store.
    pub fn commit(&mut self, work: Database)
        ensures
            final(self)@ == work@,
    {
        *self = work;
    }

    /// Gives a transaction up: the rows stay as they were before it began, and only
    /// the counters keep what the transaction used.
    pub fn rollback(&mut self, work: Database)
        requires
            old(self)@.wf(),
            old(self)@.counters_reach(work@),
        ensures
            final(self)@ == old(self)@.rolled_back(work@),
            final(self)@.wf(),
    {
        proof {
            old(self)@.lemma_rolled_back_wf(work@);
        }
        self.next_user_id = work.next_user_id;
        self.next_blog_id = work.next_blog_id;
    }
}

} // verus!
