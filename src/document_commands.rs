//! Document commands: lookups, title search and access stamping in front of
//! the document repository. Errors are reported as their message.
use vstd::prelude::*;
use crate::document_repository::{create_document_ops, update_document_ops, DocumentRepository};
use crate::links::delete_owner_ops;
use crate::models::Document;
use crate::sql::{Join, Op};
use crate::text::{contains, lower_of, lowercase, occurs_in};

verus! {

/// Relies on `chrono::Utc::now` and `DateTime::to_rfc3339`: the current time
/// as ISO-8601 text. Nothing is promised of its value.
#[verifier::external_body]
fn now_rfc3339() -> (r: String) {
    chrono::Utc::now().to_rfc3339()
}

/// Whether a document's title contains `query`, both read in lower case.
pub open spec fn title_matches(query: Seq<char>, d: Document) -> bool {
    occurs_in(lower_of(query), lower_of(d.title@))
}

/// The documents whose title contains `title`, ignoring letter case, in
/// their order.
pub fn filter_by_title(documents: Vec<Document>, title: &str) -> (r: Vec<Document>)
    ensures
        r@ == documents@.filter(|d: Document| title_matches(title@, d)),
{
    let ghost all = documents@;
    let ghost pred = |d: Document| title_matches(title@, d);
    let query = lowercase(title);
    let mut rest = documents;
    let mut out: Vec<Document> = Vec::new();
    proof {
        reveal(Seq::filter);
        assert(all.subrange(0, 0).filter(pred) =~= Seq::<Document>::empty());
    }
    while rest.len() > 0
        invariant
            rest@.len() <= all.len(),
            pred == (|d: Document| title_matches(title@, d)),
            rest@ == all.subrange(all.len() - rest@.len(), all.len() as int),
            out@ == all.subrange(0, all.len() - rest@.len()).filter(pred),
            query@ == lower_of(title@),
        decreases rest@.len(),
    {
        let ghost k = all.len() - rest@.len();
        let d = rest.remove(0);
        assert(all.subrange(0, k + 1).drop_last() =~= all.subrange(0, k));
        assert(all.subrange(0, k + 1).last() == d);
        assert(rest@ =~= all.subrange(all.len() - rest@.len(), all.len() as int));
        let name = lowercase(d.title.as_str());
        let keep = contains(name.as_str(), query.as_str());
        let ghost dv = d;
        let ghost prev = out@;
        assert(keep == pred(dv));
        if keep {
            out.push(d);
        }
        proof {
            let s1 = all.subrange(0, k + 1);
            reveal(Seq::filter);
            assert(s1.filter(pred) == (if pred(s1.last()) {
                s1.drop_last().filter(pred).push(s1.last())
            } else {
                s1.drop_last().filter(pred)
            }));
            assert(all.len() - rest@.len() == k + 1);
        }
    }
    assert(all.subrange(0, all.len() as int) =~= all);
    out
}

/// The stored document with `when` as its last access; no stored document
/// is refused with "Document not found".
pub fn stamp_access(existing: Option<Document>, when: String) -> (r: Result<Document, String>)
    ensures
        existing is None ==> r is Err && r->Err_0@ == "Document not found"@,
        existing is Some ==> r == Ok::<Document, String>(Document { last_accessed: Some(when), ..existing->Some_0 }),
{
    match existing {
        Some(d) => Ok(Document { last_accessed: Some(when), ..d }),
        None => Err("Document not found".to_owned()),
    }
}

pub struct DocumentCommands<'a> {
    repo: DocumentRepository<'a>,
}

impl<'a> DocumentCommands<'a> {
    /// The writes committed through these commands, in order.
    pub closed spec fn history(&self) -> Seq<Op> {
        self.repo.history()
    }

    pub fn new(conn: &'a rusqlite::Connection) -> (r: Self)
        ensures
            r.history() == Seq::<Op>::empty(),
    {
        DocumentCommands { repo: DocumentRepository::new(conn) }
    }

    pub fn create_document(&mut self, document: Document) -> (r: Result<(), String>)
        ensures
            r is Ok ==> exists|id: i64| final(self).history() == old(self).history() + create_document_ops(document, id),
            r is Err ==> final(self).history() == old(self).history(),
    {
        match self.repo.create(&document) {
            Ok(_) => Ok(()),
            Err(e) => Err(e.message()),
        }
    }

    pub fn get_document_by_id(&self, id: i32) -> (r: Result<Option<Document>, String>)
        ensures
            r is Ok && r->Ok_0 is Some ==> r->Ok_0->Some_0.id == id,
    {
        match self.repo.get_by_id(id) {
            Ok(d) => Ok(d),
            Err(e) => Err(e.message()),
        }
    }

    pub fn update_document(&mut self, document: Document) -> (r: Result<(), String>)
        ensures
            r is Ok ==> final(self).history() == old(self).history() + update_document_ops(document),
            r is Err ==> final(self).history() == old(self).history(),
    {
        match self.repo.update(&document) {
            Ok(()) => Ok(()),
            Err(e) => Err(e.message()),
        }
    }

    pub fn delete_document(&mut self, id: i32) -> (r: Result<(), String>)
        ensures
            r is Ok ==> final(self).history() == old(self).history() + delete_owner_ops(Join::DocumentTags, id as i64),
            r is Err ==> final(self).history() == old(self).history(),
    {
        match self.repo.delete(id) {
            Ok(()) => Ok(()),
            Err(e) => Err(e.message()),
        }
    }

    pub fn list_all_documents(&self) -> (r: Result<Vec<Document>, String>) {
        match self.repo.get_all() {
            Ok(ds) => Ok(ds),
            Err(e) => Err(e.message()),
        }
    }

    /// The stored documents whose title contains `title`, ignoring letter case.
    pub fn search_documents_by_title(&self, title: &str) -> (r: Result<Vec<Document>, String>)
        ensures
            r is Ok ==> forall|i: int| 0 <= i < r->Ok_0@.len() ==> title_matches(title@, #[trigger] r->Ok_0@[i]),
    {
        let all = self.list_all_documents()?;
        let found = filter_by_title(all, title);
        proof {
            let pred = |d: Document| title_matches(title@, d);
            assert forall|i: int| 0 <= i < found@.len() implies title_matches(title@, #[trigger] found@[i]) by {
                all@.lemma_filter_pred(pred, i);
            }
        }
        Ok(found)
    }

    /// Records `when` as the last access of a stored document, keeping every
    /// other field. An id with no document is refused with "Document not
    /// found" and nothing is written.
    pub fn mark_document_as_accessed_at(&mut self, id: i32, when: String) -> (r: Result<(), String>)
        ensures
            r is Ok ==> exists|stored: Document| stored.id == id
                && final(self).history() == old(self).history() + update_document_ops(Document { last_accessed: Some(when), ..stored }),
            r is Err ==> final(self).history() == old(self).history(),
    {
        let existing = self.repo.get_by_id(id);
        let existing = match existing {
            Ok(found) => found,
            Err(e) => {
                return Err(e.message());
            },
        };
        let updated = stamp_access(existing, when)?;
        match self.repo.update(&updated) {
            Ok(()) => Ok(()),
            Err(e) => Err(e.message()),
        }
    }

    /// Records the current time as the last access of a stored document.
    pub fn mark_document_as_accessed(&mut self, id: i32) -> (r: Result<(), String>)
        ensures
            r is Ok ==> exists|d: Document| d.id == id && d.last_accessed is Some
                && final(self).history() == old(self).history() + update_document_ops(d),
            r is Err ==> final(self).history() == old(self).history(),
    {
        let now = now_rfc3339();
        self.mark_document_as_accessed_at(id, now)
    }
}

} // verus!
