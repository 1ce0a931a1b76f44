//! The table of tags.

use vstd::prelude::*;

use vstd::seq_lib::to_multiset_build;

use crate::data::blogs::{
    blog_at,
    blog_position,
    entries,
    get_blog,
    get_simple_blog,
    has_tags,
    simple_blog_found,
    SimpleBlog,
    SimpleBlogView,
};
use crate::data::order::{
    insert_descending,
    is_descending,
    lemma_text_order_total,
    lemma_text_order_transitive,
    text_before,
    text_less,
};
use crate::data::seqs::lemma_filter_keeps_what_holds;
use crate::data::store::{Database, Tables};
use crate::data::DataError;

verus! {

/// A row of the table of tags: one name on one blog.
#[derive(Debug)]
pub struct Tag {
    pub name: String,
    pub blog_id: i64,
}

impl Clone for Tag {
    fn clone(&self) -> (r: Self)
        ensures
            r == *self,
    {
        Tag { name: self.name.clone(), blog_id: self.blog_id }
    }
}

/// The rows of one blog, in the order of the table.
pub open spec fn tags_of(tags: Seq<Tag>, blog_id: i64) -> Seq<Tag> {
    tags.filter(|row: Tag| row.blog_id == blog_id)
}

/// The tag names of one blog, in the order of the table. A name that was given
/// twice stands twice.
pub open spec fn tag_names_of(tags: Seq<Tag>, blog_id: i64) -> Seq<String> {
    tags_of(tags, blog_id).map_values(|row: Tag| row.name)
}

/// The rows that a batch of names makes for one blog.
pub open spec fn tag_rows(names: Seq<String>, blog_id: i64) -> Seq<Tag> {
    names.map_values(|name: String| Tag { name, blog_id })
}

/// `INSERT INTO tags` of one row: the tables afterwards, and the row or the
/// refusal.
pub open spec fn tag_inserted(t: Tables, tag: Tag) -> (Tables, Result<Tag, DataError>) {
    if blog_position(t.blogs, tag.blog_id) is None {
        (t, Err(DataError::ForeignKeyViolation))
    } else {
        (Tables { tags: t.tags.push(tag), ..t }, Ok(tag))
    }
}

/// `INSERT INTO tags` of a batch of names for one blog: the tables afterwards,
/// and the refusal if there is one.
///
/// An insert needs at least one row, so an empty batch is refused. No name is
/// held against the tags that the blog has: a name may stand twice.
pub open spec fn tags_inserted(t: Tables, names: Seq<String>, blog_id: i64) -> (
    Tables,
    Result<(), DataError>,
) {
    if names.len() == 0 {
        (t, Err(DataError::InvalidStatement))
    } else if blog_position(t.blogs, blog_id) is None {
        (t, Err(DataError::ForeignKeyViolation))
    } else {
        (Tables { tags: t.tags + tag_rows(names, blog_id), ..t }, Ok(()))
    }
}

/// `DELETE FROM tags WHERE blog_id = ..`: the tables afterwards, and whether a row
/// left.
pub open spec fn tags_of_blog_deleted(t: Tables, blog_id: i64) -> (Tables, bool) {
    let kept = t.tags.filter(|row: Tag| row.blog_id != blog_id);
    (Tables { tags: kept, ..t }, kept.len() < t.tags.len())
}

/// Rows for a blog that is there may join the tags: the tables stay consistent.
pub proof fn lemma_tags_of_a_blog_fit(t: Tables, rows: Seq<Tag>, blog_id: i64)
    requires
        t.wf(),
        blog_position(t.blogs, blog_id) is Some,
        forall|i: int| 0 <= i < rows.len() ==> (#[trigger] rows[i]).blog_id == blog_id,
    ensures
        (Tables { tags: t.tags + rows, ..t }).wf(),
{
    let k = blog_position(t.blogs, blog_id)->Some_0;
    assert(blog_at(t.blogs, k, blog_id));
    assert(1 <= t.blogs[k].id < t.next_blog_id);
    let all = t.tags + rows;
    assert forall|i: int| 0 <= i < all.len() implies 1 <= (#[trigger] all[i]).blog_id
        < t.next_blog_id by {
        if i < t.tags.len() {
            assert(all[i] == t.tags[i]);
        } else {
            assert(all[i] == rows[i - t.tags.len()]);
        }
    }
    t.lemma_wf_with_tags(all);
}

/// Writes one tag.
pub fn _create_tag(tag: Tag, db: &mut Database) -> (r: Result<Tag, DataError>)
    requires
        old(db)@.wf(),
    ensures
        final(db)@.wf(),
        (final(db)@, r) == tag_inserted(old(db)@, tag),
{
    if crate::data::blogs::get_blog(tag.blog_id, db).is_err() {
        return Err(DataError::ForeignKeyViolation);
    }
    let copy = tag.clone();
    db.tags.push(tag);
    proof {
        lemma_tags_of_a_blog_fit(old(db)@, seq![tag], tag.blog_id);
        assert(db@.tags =~= old(db)@.tags + seq![tag]);
    }
    Ok(copy)
}

/// Writes a batch of tag names for one blog, as one statement: all of them or
/// none.
pub fn create_some_tags(tags: &[String], blog_id: i64, db: &mut Database) -> (r: Result<
    (),
    DataError,
>)
    requires
        old(db)@.wf(),
    ensures
        final(db)@.wf(),
        (final(db)@, r) == tags_inserted(old(db)@, tags@, blog_id),
{
    if tags.len() == 0 {
        return Err(DataError::InvalidStatement);
    }
    if crate::data::blogs::get_blog(blog_id, db).is_err() {
        return Err(DataError::ForeignKeyViolation);
    }
    let mut i: usize = 0;
    while i < tags.len()
        invariant
            i <= tags.len(),
            old(db)@.wf(),
            blog_position(old(db)@.blogs, blog_id) is Some,
            db@.wf(),
            db@ == (Tables {
                tags: old(db)@.tags + tag_rows(tags@.take(i as int), blog_id),
                ..old(db)@
            }),
        decreases tags.len() - i,
    {
        let ghost before = db@.tags;
        db.tags.push(Tag { name: tags[i].clone(), blog_id });
        proof {
            assert(tags@.take(i + 1) =~= tags@.take(i as int).push(tags@[i as int]));
            assert(db@.tags =~= old(db)@.tags + tag_rows(tags@.take(i + 1), blog_id));
            lemma_tags_of_a_blog_fit(old(db)@, tag_rows(tags@.take(i + 1), blog_id), blog_id);
        }
        i += 1;
    }
    proof {
        assert(tags@.take(i as int) =~= tags@);
    }
    Ok(())
}

/// Reads the tags of one blog, in the order of the table.
pub fn _get_tags_by_blog_id(id: i64, db: &Database) -> (r: Result<Vec<Tag>, DataError>)
    requires
        db@.wf(),
    ensures
        r is Ok,
        r->Ok_0@ == tags_of(db@.tags, id),
{
    let ghost keep = |row: Tag| row.blog_id == id;
    let mut found: Vec<Tag> = Vec::new();
    let mut i: usize = 0;
    proof {
        reveal(Seq::filter);
        assert(db.tags@.take(0).filter(keep) =~= found@);
    }
    while i < db.tags.len()
        invariant
            i <= db.tags.len(),
            keep == |row: Tag| row.blog_id == id,
            found@ == db.tags@.take(i as int).filter(keep),
        decreases db.tags.len() - i,
    {
        proof {
            assert(db.tags@.take(i + 1) =~= db.tags@.take(i as int).push(db.tags@[i as int]));
            db.tags@.take(i as int).lemma_filter_push(db.tags@[i as int], keep);
        }
        if db.tags[i].blog_id == id {
            found.push(db.tags[i].clone());
        }
        i += 1;
    }
    proof {
        assert(db.tags@.take(i as int) =~= db.tags@);
    }
    Ok(found)
}

/// Reads the tag names of one blog, in the order of the table.
pub fn tag_names_for_blog(id: i64, db: &Database) -> (r: Vec<String>)
    ensures
        r@ == tag_names_of(db@.tags, id),
{
    let ghost keep = |row: Tag| row.blog_id == id;
    let ghost name = |row: Tag| row.name;
    let mut names: Vec<String> = Vec::new();
    let mut i: usize = 0;
    proof {
        reveal(Seq::filter);
        assert(db.tags@.take(0).filter(keep).map_values(name) =~= names@);
    }
    while i < db.tags.len()
        invariant
            i <= db.tags.len(),
            keep == |row: Tag| row.blog_id == id,
            name == |row: Tag| row.name,
            names@ == db.tags@.take(i as int).filter(keep).map_values(name),
        decreases db.tags.len() - i,
    {
        proof {
            let head = db.tags@.take(i as int);
            assert(db.tags@.take(i + 1) =~= head.push(db.tags@[i as int]));
            head.lemma_filter_push(db.tags@[i as int], keep);
            if keep(db.tags@[i as int]) {
                assert(head.filter(keep).push(db.tags@[i as int]).map_values(name) =~= head.filter(
                    keep,
                ).map_values(name).push(db.tags@[i as int].name));
            }
        }
        if db.tags[i].blog_id == id {
            names.push(db.tags[i].name.clone());
        }
        i += 1;
    }
    proof {
        assert(db.tags@.take(i as int) =~= db.tags@);
    }
    names
}

/// Removes every tag of one blog; `false` where it had none.
pub fn delete_all_tags_for_blog_id(blog_id: i64, db: &mut Database) -> (r: Result<bool, DataError>)
    requires
        old(db)@.wf(),
    ensures
        final(db)@.wf(),
        r is Ok,
        (final(db)@, r->Ok_0) == tags_of_blog_deleted(old(db)@, blog_id),
{
    let ghost keep = |row: Tag| row.blog_id != blog_id;
    let mut kept: Vec<Tag> = Vec::new();
    let mut i: usize = 0;
    proof {
        reveal(Seq::filter);
        assert(db.tags@.take(0).filter(keep) =~= kept@);
    }
    while i < db.tags.len()
        invariant
            i <= db.tags.len(),
            keep == |row: Tag| row.blog_id != blog_id,
            kept@ == db.tags@.take(i as int).filter(keep),
        decreases db.tags.len() - i,
    {
        proof {
            assert(db.tags@.take(i + 1) =~= db.tags@.take(i as int).push(db.tags@[i as int]));
            db.tags@.take(i as int).lemma_filter_push(db.tags@[i as int], keep);
        }
        if db.tags[i].blog_id != blog_id {
            kept.push(db.tags[i].clone());
        }
        i += 1;
    }
    proof {
        assert(db.tags@.take(i as int) =~= db.tags@);
    }
    let removed = kept.len() < db.tags.len();
    db.tags = kept;
    proof {
        lemma_filter_keeps_what_holds(
            old(db)@.tags,
            keep,
            |row: Tag| 1 <= row.blog_id < old(db)@.next_blog_id,
        );
        old(db)@.lemma_wf_with_tags(db@.tags);
    }
    Ok(removed)
}

/// Whether a row carries this name and belongs to a blog that is there.
pub open spec fn joins_under(t: Tables, row: Tag, name: Seq<char>) -> bool {
    row.name@ == name && blog_position(t.blogs, row.blog_id) is Some
}

/// The ids of the blogs that carry a tag of this name, in the order of the
/// tags: one for each row, so that a blog that carries the name twice stands
/// twice.
pub open spec fn tagged_blog_ids(t: Tables, name: Seq<char>) -> Seq<i64> {
    t.tags.filter(|row: Tag| joins_under(t, row, name)).map_values(|row: Tag| row.blog_id)
}

/// A blog that one of the rows belongs to has a tag.
pub proof fn lemma_tagged_blog_has_tags(t: Tables, k: int)
    requires
        0 <= k < t.tags.len(),
    ensures
        has_tags(t, t.tags[k].blog_id),
{
    let id = t.tags[k].blog_id;
    let keep = |row: Tag| row.blog_id == id;
    t.tags.lemma_filter_contains(keep, k);
    assert(tags_of(t.tags, id).contains(t.tags[k]));
}

/// Reads the ids of the blogs that carry a tag of this name, the highest id
/// first.
pub fn get_blog_ids_by_tag_name(name: String, db: &Database) -> (r: Result<Vec<i64>, DataError>)
    requires
        db@.wf(),
    ensures
        r is Ok,
        is_descending(r->Ok_0@),
        r->Ok_0@.to_multiset() == tagged_blog_ids(db@, name@).to_multiset(),
        forall|i: int| 0 <= i < r->Ok_0@.len() ==> simple_blog_found(db@, #[trigger] r->Ok_0@[i]) is Ok,
{
    let ghost keep = |row: Tag| joins_under(db@, row, name@);
    let ghost id_of = |row: Tag| row.blog_id;
    let mut ids: Vec<i64> = Vec::new();
    let mut i: usize = 0;
    proof {
        reveal(Seq::filter);
        assert(db.tags@.take(0).filter(keep).map_values(id_of) =~= ids@);
    }
    while i < db.tags.len()
        invariant
            db@.wf(),
            i <= db.tags.len(),
            keep == |row: Tag| joins_under(db@, row, name@),
            id_of == |row: Tag| row.blog_id,
            is_descending(ids@),
            ids@.to_multiset() == db.tags@.take(i as int).filter(keep).map_values(
                id_of,
            ).to_multiset(),
            forall|k: int| 0 <= k < ids@.len() ==> simple_blog_found(db@, #[trigger] ids@[k]) is Ok,
        decreases db.tags.len() - i,
    {
        let ghost head = db.tags@.take(i as int);
        let ghost row = db.tags@[i as int];
        proof {
            assert(db.tags@.take(i + 1) =~= head.push(row));
            head.lemma_filter_push(row, keep);
        }
        if db.tags[i].name == name && get_blog(db.tags[i].blog_id, db).is_ok() {
            let ghost before = ids@;
            insert_descending(&mut ids, db.tags[i].blog_id);
            proof {
                assert(head.filter(keep).push(row).map_values(id_of) =~= head.filter(
                    keep,
                ).map_values(id_of).push(row.blog_id));
                to_multiset_build(head.filter(keep).map_values(id_of), row.blog_id);
                lemma_tagged_blog_has_tags(db@, i as int);
                let p = choose|p: int|
                    0 <= p <= before.len() && ids@ == before.insert(p, row.blog_id);
                assert forall|k: int| 0 <= k < ids@.len() implies simple_blog_found(
                    db@,
                    #[trigger] ids@[k],
                ) is Ok by {
                    if k < p {
                        assert(ids@[k] == before[k]);
                    } else if k > p {
                        assert(ids@[k] == before[k - 1]);
                    }
                }
            }
        }
        i += 1;
    }
    proof {
        assert(db.tags@.take(i as int) =~= db.tags@);
    }
    Ok(ids)
}

/// Whether `list` shows, in their order, the blogs with the ids `ids`.
pub open spec fn shows_blogs(t: Tables, ids: Seq<i64>, list: Seq<SimpleBlogView>) -> bool {
    list.len() == ids.len() && forall|i: int|
        0 <= i < ids.len() ==> simple_blog_found(t, ids[i]) == Ok::<SimpleBlogView, DataError>(
            #[trigger] list[i],
        )
}

/// Reads the blogs that carry a tag of this name, without their content, the
/// highest id first; a blog that carries the name twice stands twice.
pub fn get_simple_blogs_by_tag_name(name: String, db: &Database) -> (r: Result<
    Vec<SimpleBlog>,
    DataError,
>)
    requires
        db@.wf(),
    ensures
        r is Ok,
        exists|ids: Seq<i64>|
            is_descending(ids) && ids.to_multiset() == tagged_blog_ids(db@, name@).to_multiset()
                && shows_blogs(db@, ids, entries(r->Ok_0@)),
{
    let blog_ids = match get_blog_ids_by_tag_name(name, db) {
        Ok(ids) => ids,
        Err(error) => { return Err(error); },
    };
    let mut blogs: Vec<SimpleBlog> = Vec::new();
    let mut i: usize = 0;
    while i < blog_ids.len()
        invariant
            db@.wf(),
            i <= blog_ids.len(),
            forall|k: int|
                0 <= k < blog_ids@.len() ==> simple_blog_found(db@, #[trigger] blog_ids@[k]) is Ok,
            shows_blogs(db@, blog_ids@.take(i as int), entries(blogs@)),
        decreases blog_ids.len() - i,
    {
        let ghost shown = entries(blogs@);
        assert(simple_blog_found(db@, blog_ids@[i as int]) is Ok);
        match get_simple_blog(blog_ids[i], db) {
            Ok(blog) => {
                blogs.push(blog);
                proof {
                    assert(entries(blogs@) =~= shown.push(blog@));
                    assert(blog_ids@.take(i + 1) =~= blog_ids@.take(i as int).push(
                        blog_ids@[i as int],
                    ));
                }
            },
            Err(error) => { return Err(error); },
        }
        i += 1;
    }
    proof {
        assert(blog_ids@.take(i as int) =~= blog_ids@);
    }
    Ok(blogs)
}

/// The names, each as its characters.
pub open spec fn texts(names: Seq<String>) -> Seq<Seq<char>> {
    names.map_values(|name: String| name@)
}

/// Whether the texts stand in dictionary order, none of them twice.
pub open spec fn is_ascending(list: Seq<Seq<char>>) -> bool {
    forall|i: int, j: int| 0 <= i < j < list.len() ==> text_before(list[i], list[j])
}

/// Whether a tag of this name is in the table.
pub open spec fn is_tag_name(tags: Seq<Tag>, name: Seq<char>) -> bool {
    exists|k: int| 0 <= k < tags.len() && (#[trigger] tags[k]).name@ == name
}

/// Puts a name into its place in a list in dictionary order, unless it is there.
fn insert_name(names: &mut Vec<String>, name: &String)
    requires
        is_ascending(texts(old(names)@)),
    ensures
        is_ascending(texts(final(names)@)),
        forall|text: Seq<char>|
            texts(final(names)@).contains(text) <==> (texts(old(names)@).contains(text) || text
                == name@),
{
    let mut p: usize = 0;
    while p < names.len() && text_less(names[p].as_str(), name.as_str())
        invariant
            p <= names.len(),
            names@ == old(names)@,
            forall|i: int| 0 <= i < p ==> text_before(#[trigger] texts(names@)[i], name@),
        decreases names.len() - p,
    {
        p += 1;
    }
    let ghost before = texts(names@);
    if p < names.len() && names[p] == *name {
        proof {
            assert(before[p as int] == name@);
        }
        return ;
    }
    names.insert(p, name.clone());
    proof {
        let after = texts(names@);
        assert(after =~= before.insert(p as int, name@));
        if p < before.len() {
            lemma_text_order_total(before[p as int], name@);
        }
        assert forall|i: int, j: int| 0 <= i < j < after.len() implies text_before(
            after[i],
            after[j],
        ) by {
            if j < p {
                assert(after[i] == before[i] && after[j] == before[j]);
            } else if j == p {
                assert(after[i] == before[i]);
            } else if i < p {
                assert(after[i] == before[i] && after[j] == before[j - 1]);
                assert(text_before(before[i], before[j - 1]));
            } else if i == p {
                assert(after[j] == before[j - 1]);
                if j - 1 > p {
                    assert(text_before(before[p as int], before[j - 1]));
                    lemma_text_order_transitive(name@, before[p as int], before[j - 1]);
                }
            } else {
                assert(after[i] == before[i - 1] && after[j] == before[j - 1]);
                assert(text_before(before[i - 1], before[j - 1]));
            }
        }
        assert forall|text: Seq<char>| after.contains(text) <==> (before.contains(text) || text
            == name@) by {
            if after.contains(text) {
                let k = choose|k: int| 0 <= k < after.len() && after[k] == text;
                if k < p {
                    assert(before[k] == text);
                } else if k > p {
                    assert(before[k - 1] == text);
                }
            }
            if before.contains(text) {
                let k = choose|k: int| 0 <= k < before.len() && before[k] == text;
                if k < p {
                    assert(after[k] == text);
                } else {
                    assert(after[k + 1] == text);
                }
            }
            if text == name@ {
                assert(after[p as int] == text);
            }
        }
    }
}

/// Reads the names of all tags, each once, in dictionary order.
pub fn get_all_tag_names(db: &Database) -> (r: Result<Vec<String>, DataError>)
    ensures
        r is Ok,
        is_ascending(texts(r->Ok_0@)),
        forall|name: Seq<char>|
            texts(r->Ok_0@).contains(name) <==> is_tag_name(db@.tags, name),
{
    let mut names: Vec<String> = Vec::new();
    let mut i: usize = 0;
    while i < db.tags.len()
        invariant
            i <= db.tags.len(),
            is_ascending(texts(names@)),
            forall|name: Seq<char>|
                texts(names@).contains(name) <==> is_tag_name(db.tags@.take(i as int), name),
        decreases db.tags.len() - i,
    {
        let ghost before = texts(names@);
        insert_name(&mut names, &db.tags[i].name);
        proof {
            let head = db.tags@.take(i as int);
            let next = db.tags@.take(i + 1);
            let added = db.tags@[i as int].name@;
            assert forall|name: Seq<char>| texts(names@).contains(name) <==> is_tag_name(
                next,
                name,
            ) by {
                if is_tag_name(next, name) {
                    let k = choose|k: int| 0 <= k < next.len() && (#[trigger] next[k]).name@ == name;
                    if k < i {
                        assert(head[k].name@ == name);
                    }
                }
                if is_tag_name(head, name) {
                    let k = choose|k: int| 0 <= k < head.len() && (#[trigger] head[k]).name@ == name;
                    assert(next[k].name@ == name);
                }
                if name == added {
                    assert(next[i as int].name@ == name);
                }
            }
        }
        i += 1;
    }
    proof {
        assert(db.tags@.take(i as int) =~= db.tags@);
    }
    Ok(names)
}

} // verus!
