//! Tag associations: the writes that link owners to tags, and which tags an
//! owner is linked to after a sequence of committed writes.
use vstd::prelude::*;
use crate::error::RepoError;
use crate::models::Tag;
use crate::sql::{Join, Op, Stmt, Table, Tx};

verus! {

/// The entity table whose rows own the links of a join table.
pub open spec fn owner_table(join: Join) -> Table {
    match join {
        Join::BookTags => Table::Books,
        Join::TaskTags => Table::Tasks,
        Join::DocumentTags => Table::Documents,
    }
}

/// The tags an owner is linked to after `ops`, counting from no links.
/// Deleting the owner or the tag removes the link, as the foreign keys cascade.
pub open spec fn links(ops: Seq<Op>, join: Join, owner: i64) -> Set<i64>
    decreases ops.len(),
{
    if ops.len() == 0 {
        Set::empty()
    } else {
        let before = links(ops.drop_last(), join, owner);
        match ops.last() {
            Op::Link(j, o, t) => if j == join && o == owner { before.insert(t) } else { before },
            Op::Unlink(j, o, t) => if j == join && o == owner { before.remove(t) } else { before },
            Op::UnlinkAll(j, o) => if j == join && o == owner { Set::empty() } else { before },
            Op::Delete(table, id) => if table == owner_table(join) && id == owner {
                Set::empty()
            } else if table == Table::Tags {
                before.remove(id)
            } else {
                before
            },
            _ => before,
        }
    }
}

/// The ids of the stored tags among `tags`; a tag without an id is skipped.
pub open spec fn tag_ids(tags: Seq<Tag>) -> Set<i64>
    decreases tags.len(),
{
    if tags.len() == 0 {
        Set::empty()
    } else {
        let before = tag_ids(tags.drop_last());
        match tags.last().id {
            Some(id) => before.insert(id),
            None => before,
        }
    }
}

/// One link from `owner` to each stored tag, in order.
pub open spec fn link_ops(join: Join, owner: i64, tags: Seq<Tag>) -> Seq<Op>
    decreases tags.len(),
{
    if tags.len() == 0 {
        Seq::empty()
    } else {
        let before = link_ops(join, owner, tags.drop_last());
        match tags.last().id {
            Some(id) => before.push(Op::Link(join, owner, id)),
            None => before,
        }
    }
}

/// The removal of the link from `owner` to each stored tag, in order.
pub open spec fn unlink_ops(join: Join, owner: i64, tags: Seq<Tag>) -> Seq<Op>
    decreases tags.len(),
{
    if tags.len() == 0 {
        Seq::empty()
    } else {
        let before = unlink_ops(join, owner, tags.drop_last());
        match tags.last().id {
            Some(id) => before.push(Op::Unlink(join, owner, id)),
            None => before,
        }
    }
}

/// The writes that replace every link of `owner` by links to `tags`.
pub open spec fn relink_ops(join: Join, owner: i64, tags: Seq<Tag>) -> Seq<Op> {
    seq![Op::UnlinkAll(join, owner)] + link_ops(join, owner, tags)
}

/// The writes that delete an owner: its links first, then its row.
pub open spec fn delete_owner_ops(join: Join, owner: i64) -> Seq<Op> {
    seq![Op::UnlinkAll(join, owner), Op::Delete(owner_table(join), owner)]
}

/// Runs `link_ops(join, owner, tags)` in the transaction.
pub fn link_all(tx: &mut Tx, join: Join, owner: i64, tags: &Vec<Tag>) -> (r: Result<(), RepoError>)
    ensures
        r is Ok ==> final(tx).ran() == old(tx).ran() + link_ops(join, owner, tags@),
        r is Err ==> r->Err_0 is DatabaseError,
{
    let ghost start = tx.ran();
    let mut i: usize = 0;
    while i < tags.len()
        invariant
            i <= tags@.len(),
            tx.ran() == start + link_ops(join, owner, tags@.subrange(0, i as int)),
        decreases tags@.len() - i,
    {
        assert(tags@.subrange(0, i + 1).drop_last() =~= tags@.subrange(0, i as int));
        match tags[i].id {
            Some(tag) => {
                tx.run(Stmt::Link { join, owner, tag })?;
                assert(start + link_ops(join, owner, tags@.subrange(0, i + 1)) =~= start + link_ops(join, owner, tags@.subrange(0, i as int)).push(Op::Link(join, owner, tag)));
            },
            None => {},
        }
        i = i + 1;
    }
    assert(tags@.subrange(0, tags@.len() as int) =~= tags@);
    Ok(())
}

/// Runs `unlink_ops(join, owner, tags)` in the transaction.
pub fn unlink_all(tx: &mut Tx, join: Join, owner: i64, tags: &Vec<Tag>) -> (r: Result<(), RepoError>)
    ensures
        r is Ok ==> final(tx).ran() == old(tx).ran() + unlink_ops(join, owner, tags@),
        r is Err ==> r->Err_0 is DatabaseError,
{
    let ghost start = tx.ran();
    let mut i: usize = 0;
    while i < tags.len()
        invariant
            i <= tags@.len(),
            tx.ran() == start + unlink_ops(join, owner, tags@.subrange(0, i as int)),
        decreases tags@.len() - i,
    {
        assert(tags@.subrange(0, i + 1).drop_last() =~= tags@.subrange(0, i as int));
        match tags[i].id {
            Some(tag) => {
                tx.run(Stmt::Unlink { join, owner, tag })?;
                assert(start + unlink_ops(join, owner, tags@.subrange(0, i + 1)) =~= start + unlink_ops(join, owner, tags@.subrange(0, i as int)).push(Op::Unlink(join, owner, tag)));
            },
            None => {},
        }
        i = i + 1;
    }
    assert(tags@.subrange(0, tags@.len() as int) =~= tags@);
    Ok(())
}

/// Linking adds exactly the ids of the stored tags.
pub proof fn lemma_link_ops_add(h: Seq<Op>, join: Join, owner: i64, tags: Seq<Tag>)
    ensures
        links(h + link_ops(join, owner, tags), join, owner) == links(h, join, owner) + tag_ids(tags),
    decreases tags.len(),
{
    if tags.len() == 0 {
        assert(h + link_ops(join, owner, tags) =~= h);
        assert(links(h, join, owner) + tag_ids(tags) =~= links(h, join, owner));
    } else {
        lemma_link_ops_add(h, join, owner, tags.drop_last());
        let prev = h + link_ops(join, owner, tags.drop_last());
        match tags.last().id {
            Some(id) => {
                assert((h + link_ops(join, owner, tags)).drop_last() =~= prev);
                assert(links(h + link_ops(join, owner, tags), join, owner) =~= links(h, join, owner) + tag_ids(tags));
            },
            None => {
                assert(h + link_ops(join, owner, tags) =~= prev);
            },
        }
    }
}

/// Unlinking removes exactly the ids of the stored tags.
pub proof fn lemma_unlink_ops_remove(h: Seq<Op>, join: Join, owner: i64, tags: Seq<Tag>)
    ensures
        links(h + unlink_ops(join, owner, tags), join, owner) == links(h, join, owner) - tag_ids(tags),
    decreases tags.len(),
{
    if tags.len() == 0 {
        assert(h + unlink_ops(join, owner, tags) =~= h);
        assert(links(h, join, owner) - tag_ids(tags) =~= links(h, join, owner));
    } else {
        lemma_unlink_ops_remove(h, join, owner, tags.drop_last());
        let prev = h + unlink_ops(join, owner, tags.drop_last());
        match tags.last().id {
            Some(id) => {
                assert((h + unlink_ops(join, owner, tags)).drop_last() =~= prev);
                assert(links(h + unlink_ops(join, owner, tags), join, owner) =~= links(h, join, owner) - tag_ids(tags));
            },
            None => {
                assert(h + unlink_ops(join, owner, tags) =~= prev);
            },
        }
    }
}

/// Replacing the links of an owner leaves it linked to exactly the new tags,
/// whatever it was linked to before: no duplicate and no old link remains.
pub proof fn lemma_relink_exact(h: Seq<Op>, join: Join, owner: i64, tags: Seq<Tag>)
    ensures
        links(h + relink_ops(join, owner, tags), join, owner) == tag_ids(tags),
{
    let cleared = h.push(Op::UnlinkAll(join, owner));
    assert(cleared.drop_last() =~= h);
    assert(links(cleared, join, owner) =~= Set::<i64>::empty());
    assert(h + relink_ops(join, owner, tags) =~= cleared + link_ops(join, owner, tags));
    lemma_link_ops_add(cleared, join, owner, tags);
    assert(Set::<i64>::empty() + tag_ids(tags) =~= tag_ids(tags));
}

/// After an owner is deleted it has no links left.
pub proof fn lemma_delete_clears(h: Seq<Op>, join: Join, owner: i64)
    ensures
        links(h + delete_owner_ops(join, owner), join, owner) == Set::<i64>::empty(),
{
    let all = h + delete_owner_ops(join, owner);
    assert(all.drop_last() =~= h.push(Op::UnlinkAll(join, owner)));
}

} // verus!
