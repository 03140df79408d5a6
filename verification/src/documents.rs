//! A user's generated documents: a small capped collection whose elements
//! own server-assigned field-ids, like the profile collections. One
//! request either updates the document its field-id names or, below the
//! cap, creates a fresh one.

use vstd::prelude::*;

use crate::errors::CoreError;
use crate::patch::{
    add_entry, entries_wf, find_by_id, has_id, idx_of, remove_entry, spec_add, spec_remove,
    spec_update, update_entry, FieldIdGen,
};
use crate::profile::{GetFieldId, UpdateFieldId};

verus! {

/// The cap on stored documents per account.
pub const MAX_DOCUMENTS: usize = 3;

/// A reader's judgement of a generated document.
#[derive(Clone, Copy, Debug, PartialEq, Eq, Structural)]
pub enum Rating {
    Unrated,
    Good,
    Bad,
}

/// One stored document.
#[derive(Debug, PartialEq)]
pub struct Document {
    /// Server-assigned identity; `None` only before the document is added.
    pub field_id: Option<u64>,
    pub title: String,
    pub prompt: String,
    pub content: String,
    pub rating: Rating,
    pub date_created: Option<u64>,
    pub date_updated: Option<u64>,
}

/// A client's request to create or update one document.
#[derive(Debug, PartialEq)]
pub struct DocumentRequest {
    pub field_id: Option<u64>,
    pub title: String,
    pub prompt: String,
    pub content: String,
    pub rating: Rating,
}

/// The wire shape of one document in an account response.
#[derive(Debug, PartialEq)]
pub struct DocumentInfo {
    pub title: String,
    pub prompt: String,
    pub content: String,
    pub rating: Option<i32>,
    pub date_created: Option<u64>,
    pub date_updated: Option<u64>,
}

impl GetFieldId for Document {
    open spec fn spec_field_id(&self) -> Option<u64> {
        self.field_id
    }

    fn get_field_id(&self) -> (r: Option<u64>) {
        self.field_id
    }
}

impl UpdateFieldId for Document {
    open spec fn with_field_id(self, new_id: Option<u64>) -> Self {
        Document { field_id: new_id, ..self }
    }

    open spec fn update_allowed(self, new_id: Option<u64>) -> bool {
        true
    }

    fn update_field_id(&mut self, new_id: Option<u64>) {
        self.field_id = new_id;
    }
}

/// Whether any stored document carries this field-id.
pub fn document_exists(docs: &Vec<Document>, field_id: u64) -> (r: bool)
    ensures
        r == has_id(docs@, field_id),
{
    match find_by_id(docs, field_id) {
        Some(_) => true,
        None => false,
    }
}

/// Append a fresh document under a new field-id, stamped at `now`, unless
/// the collection is at its cap.
pub fn add_document(
    docs: &mut Vec<Document>,
    gen: &mut FieldIdGen,
    req: DocumentRequest,
    now: u64,
) -> (r: Result<(), CoreError>)
    requires
        old(gen).spec_next() < u64::MAX,
    ensures
        match spec_add(
            old(docs)@,
            (Document {
                field_id: None,
                title: req.title,
                prompt: req.prompt,
                content: req.content,
                rating: req.rating,
                date_created: Some(now),
                date_updated: Some(now),
            }),
            old(gen).spec_next(),
            MAX_DOCUMENTS as int,
        ) {
            Ok(s) => r is Ok && final(docs)@ == s && final(gen).spec_next() == old(
                gen,
            ).spec_next() + 1,
            Err(e) => {
                &&& r == Err::<(), CoreError>(e)
                &&& final(docs)@ == old(docs)@
                &&& final(gen).spec_next() == old(gen).spec_next()
            },
        },
{
    let DocumentRequest { field_id: _, title, prompt, content, rating } = req;
    let doc = Document {
        field_id: None,
        title,
        prompt,
        content,
        rating,
        date_created: Some(now),
        date_updated: Some(now),
    };
    add_entry(docs, gen, doc, MAX_DOCUMENTS)
}

/// Replace the title, content, rating and update stamp of the document the
/// field-id names, keeping its prompt and creation stamp.
pub fn update_document(
    docs: &mut Vec<Document>,
    field_id: u64,
    title: &str,
    content: &str,
    rating: Rating,
    now: u64,
) -> (r: Result<(), CoreError>)
    requires
        entries_wf(old(docs)@, u64::MAX),
    ensures
        !has_id(old(docs)@, field_id) ==> ({
            &&& r == Err::<(), CoreError>(CoreError::NotFound)
            &&& final(docs)@ == old(docs)@
        }),
        has_id(old(docs)@, field_id) ==> r is Ok && ({
            let k = idx_of(old(docs)@, field_id);
            &&& final(docs)@.len() == old(docs)@.len()
            &&& final(docs)@[k].field_id == Some(field_id)
            &&& final(docs)@[k].title@ == title@
            &&& final(docs)@[k].prompt == old(docs)@[k].prompt
            &&& final(docs)@[k].content@ == content@
            &&& final(docs)@[k].rating == rating
            &&& final(docs)@[k].date_created == old(docs)@[k].date_created
            &&& final(docs)@[k].date_updated == Some(now)
            &&& (forall|j: int|
                0 <= j < old(docs)@.len() && j != k ==> final(docs)@[j] == old(docs)@[j])
        }),
{
    match find_by_id(docs, field_id) {
        Some(i) => {
            proof {
                let k = idx_of(old(docs)@, field_id);
                assert(old(docs)@[k].spec_field_id() == Some(field_id));
                assert(k == i);
            }
            let prompt = docs[i].prompt.clone();
            let date_created = docs[i].date_created;
            let doc = Document {
                field_id: Some(field_id),
                title: title.to_owned(),
                prompt,
                content: content.to_owned(),
                rating,
                date_created,
                date_updated: Some(now),
            };
            let r = update_entry(docs, doc, field_id);
            assert(r is Ok);
            Ok(())
        },
        None => Err(CoreError::NotFound),
    }
}

/// Delete the document the field-id names.
pub fn delete_document(docs: &mut Vec<Document>, field_id: u64) -> (r: Result<(), CoreError>)
    requires
        entries_wf(old(docs)@, u64::MAX),
    ensures
        match spec_remove(old(docs)@, field_id) {
            Ok(s) => r is Ok && final(docs)@ == s,
            Err(e) => r == Err::<(), CoreError>(e) && final(docs)@ == old(docs)@,
        },
{
    remove_entry(docs, field_id)
}

/// One request, one decision: a request naming an existing document
/// updates it in place; any other request creates a fresh document, cap
/// permitting.
pub fn create_update_document(
    docs: &mut Vec<Document>,
    gen: &mut FieldIdGen,
    req: DocumentRequest,
    now: u64,
) -> (r: Result<(), CoreError>)
    requires
        entries_wf(old(docs)@, u64::MAX),
        old(gen).spec_next() < u64::MAX,
    ensures
        (match req.field_id {
            Some(id) => has_id(old(docs)@, id),
            None => false,
        }) ==> ({
            let id = req.field_id->Some_0;
            let k = idx_of(old(docs)@, id);
            &&& r is Ok
            &&& final(docs)@.len() == old(docs)@.len()
            &&& final(docs)@[k].field_id == Some(id)
            &&& final(docs)@[k].title@ == req.title@
            &&& final(docs)@[k].prompt == old(docs)@[k].prompt
            &&& final(docs)@[k].content@ == req.content@
            &&& final(docs)@[k].rating == req.rating
            &&& final(docs)@[k].date_created == old(docs)@[k].date_created
            &&& final(docs)@[k].date_updated == Some(now)
            &&& (forall|j: int|
                0 <= j < old(docs)@.len() && j != k ==> final(docs)@[j] == old(docs)@[j])
            &&& final(gen).spec_next() == old(gen).spec_next()
        }),
        !(match req.field_id {
            Some(id) => has_id(old(docs)@, id),
            None => false,
        }) ==> match spec_add(
            old(docs)@,
            (Document {
                field_id: None,
                title: req.title,
                prompt: req.prompt,
                content: req.content,
                rating: req.rating,
                date_created: Some(now),
                date_updated: Some(now),
            }),
            old(gen).spec_next(),
            MAX_DOCUMENTS as int,
        ) {
            Ok(s) => r is Ok && final(docs)@ == s && final(gen).spec_next() == old(
                gen,
            ).spec_next() + 1,
            Err(e) => {
                &&& r == Err::<(), CoreError>(e)
                &&& final(docs)@ == old(docs)@
                &&& final(gen).spec_next() == old(gen).spec_next()
            },
        },
{
    let existing = match req.field_id {
        Some(id) => document_exists(docs, id),
        None => false,
    };
    if existing {
        let id = match req.field_id {
            Some(id) => id,
            None => 0,
        };
        let DocumentRequest { field_id: _, title, prompt: _, content, rating } = req;
        update_document(docs, id, title.as_str(), content.as_str(), rating, now)
    } else {
        add_document(docs, gen, req, now)
    }
}

} // verus!
