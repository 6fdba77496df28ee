//! Tag commands: input checks in front of the tag repository.
use vstd::prelude::*;
use crate::codec::tag_row;
use crate::error::TagCommandError;
use crate::models::Tag;
use crate::sql::{text_of, Op, SqlValue, Table};
use crate::tag_repository::{tag_update_ops, TagRepository};
use crate::text::with_number;

verus! {

/// What a deletion that removed `n` tags reports: none removed is refused
/// as invalid input.
pub fn tag_delete_outcome(n: usize, id: i32) -> (r: Result<String, TagCommandError>)
    ensures
        n == 0 <==> r is Err,
        r is Err ==> r->Err_0 is InvalidInput,
{
    if n == 0 {
        Err(TagCommandError::InvalidInput(with_number("Tag with ID ", id as i64, " not found.")))
    } else {
        Ok(with_number("Tag with ID ", id as i64, " deleted successfully."))
    }
}

pub struct TagCommands<'a> {
    repository: TagRepository<'a>,
}

impl<'a> TagCommands<'a> {
    /// The writes committed through these commands, in order.
    pub closed spec fn history(&self) -> Seq<Op> {
        self.repository.history()
    }

    pub fn new(conn: &'a mut rusqlite::Connection) -> (r: Self)
        ensures
            r.history() == Seq::<Op>::empty(),
    {
        TagCommands { repository: TagRepository::new(conn) }
    }

    /// Stores a new tag. An empty title or color is refused before anything
    /// is written.
    pub fn create_tag_method(&mut self, title: String, color: String, icon: Option<String>) -> (r: Result<String, TagCommandError>)
        ensures
            title@.len() == 0 || color@.len() == 0 ==> r is Err && r->Err_0 is InvalidInput,
            r is Err ==> final(self).history() == old(self).history(),
            title@.len() > 0 && color@.len() > 0 && r is Err ==> r->Err_0 is DatabaseError,
            r is Ok ==> final(self).history() == old(self).history().push(
                Op::Insert(Table::Tags, seq![SqlValue::Text(title), SqlValue::Text(color), SqlValue::Null, text_of(icon)])),
    {
        if title.as_str().is_empty() {
            return Err(TagCommandError::InvalidInput("No title provided".to_string()));
        }
        if color.as_str().is_empty() {
            return Err(TagCommandError::InvalidInput("No color provided".to_string()));
        }
        let tag = Tag { id: None, title, color, description: None, icon, created_at: None };
        match self.repository.create_tag(&tag) {
            Ok(_) => {
                assert(tag_row(tag) =~= seq![SqlValue::Text(tag.title), SqlValue::Text(tag.color), SqlValue::Null, text_of(tag.icon)]);
                Ok("Tag created successfully".to_string())
            },
            Err(err) => Err(TagCommandError::from_repo(err)),
        }
    }

    /// Changes the given fields of a tag in one transaction, in the order
    /// title, color, icon. Giving no field, an empty title or an empty color
    /// is refused before anything is written; so is an id with no tag, and
    /// then nothing is kept.
    pub fn update_tag_method(&mut self, id: i32, title: Option<String>, color: Option<String>, icon: Option<Option<String>>) -> (r: Result<String, TagCommandError>)
        ensures
            title is None && color is None && icon is None ==> r is Err && r->Err_0 is InvalidInput,
            title is Some && title->Some_0@.len() == 0 ==> r is Err && r->Err_0 is InvalidInput,
            color is Some && color->Some_0@.len() == 0 ==> r is Err && r->Err_0 is InvalidInput,
            r is Err ==> final(self).history() == old(self).history(),
            !(r is Err && r->Err_0 is InvalidInput) ==> !(title is None && color is None && icon is None)
                && !(title is Some && title->Some_0@.len() == 0) && !(color is Some && color->Some_0@.len() == 0),
            r is Err && !(r->Err_0 is DatabaseError) ==> r->Err_0 is InvalidInput,
            r is Ok ==> final(self).history() == old(self).history() + tag_update_ops(id as i64, title, color, icon),
    {
        if title.is_none() && color.is_none() && icon.is_none() {
            return Err(TagCommandError::InvalidInput("At least one field must be provided for update".to_string()));
        }
        match &title {
            Some(t) => if t.as_str().is_empty() {
                return Err(TagCommandError::InvalidInput("Title cannot be empty".to_string()));
            },
            None => {},
        }
        match &color {
            Some(c) => if c.as_str().is_empty() {
                return Err(TagCommandError::InvalidInput("Color cannot be empty".to_string()));
            },
            None => {},
        }
        match self.repository.update_fields(id, title, color, icon) {
            Ok(()) => Ok("Tag updated successfully.".to_string()),
            Err(err) => Err(TagCommandError::from_repo(err)),
        }
    }

    /// Deletes a tag and its links. An id with no tag is reported as invalid
    /// input; the (empty) deletion is still committed.
    pub fn delete_tag_method(&mut self, id: i32) -> (r: Result<String, TagCommandError>)
        ensures
            r is Ok || (r is Err && r->Err_0 is InvalidInput) ==> final(self).history() == old(self).history().push(Op::Delete(Table::Tags, id as i64)),
            r is Err && !(r->Err_0 is InvalidInput) ==> final(self).history() == old(self).history(),
    {
        match self.repository.delete_tag(id) {
            Ok(n) => tag_delete_outcome(n, id),
            Err(err) => Err(TagCommandError::from_repo(err)),
        }
    }

    pub fn get_all_tags_method(&self) -> (r: Result<Vec<Tag>, TagCommandError>)
        ensures
            r is Err ==> !(r->Err_0 is InvalidInput),
    {
        match self.repository.get_all_tags() {
            Ok(tags) => Ok(tags),
            Err(err) => Err(TagCommandError::from_repo(err)),
        }
    }
}

} // verus!
