//! The document sanitizer: a total, depth-first transform that bounds the
//! size of a structured document by removing every oversized array.

use crate::document::{
    fields_well_formed, items_well_formed, view_fields, view_items, Document, DocumentView,
};
use vstd::prelude::*;

verus! {

/// The greatest number of elements that an array may have and stay.
pub const MAX_ARRAY_LEN: usize = 400;

/// What is left of a document once every oversized array is removed, or
/// `None` where the document itself is an oversized array.
///
/// A scalar stays as it is. An array of more than [`MAX_ARRAY_LEN`] elements
/// is removed whatever it holds. A smaller array and an object keep, in
/// order, what is left of each element or field that is not removed.
pub open spec fn pruned(document: DocumentView) -> Option<DocumentView>
    decreases document,
{
    match document {
        DocumentView::Object(fields) => Some(DocumentView::Object(pruned_fields(fields))),
        DocumentView::Array(items) => if items.len() > MAX_ARRAY_LEN {
            None
        } else {
            Some(DocumentView::Array(pruned_items(items)))
        },
        _ => Some(document),
    }
}

/// What is left of each element that is not removed, in order.
pub open spec fn pruned_items(items: Seq<DocumentView>) -> Seq<DocumentView>
    decreases items,
{
    if items.len() == 0 {
        Seq::empty()
    } else {
        let front = pruned_items(items.drop_last());
        match pruned(items.last()) {
            Some(kept) => front.push(kept),
            None => front,
        }
    }
}

/// Each field whose value is not removed, under its key and with what is left
/// of its value, in order.
pub open spec fn pruned_fields(fields: Seq<(Seq<char>, DocumentView)>) -> Seq<
    (Seq<char>, DocumentView),
>
    decreases fields,
{
    if fields.len() == 0 {
        Seq::empty()
    } else {
        let front = pruned_fields(fields.drop_last());
        match pruned(fields.last().1) {
            Some(kept) => front.push((fields.last().0, kept)),
            None => front,
        }
    }
}

/// The sanitized form of a document: what is left of it, or the null
/// document where nothing is left.
pub open spec fn sanitized(document: DocumentView) -> DocumentView {
    match pruned(document) {
        Some(kept) => kept,
        None => DocumentView::Null,
    }
}

/// Whether no array anywhere in the document has more than
/// [`MAX_ARRAY_LEN`] elements.
pub open spec fn within_bound(document: DocumentView) -> bool
    decreases document,
{
    match document {
        DocumentView::Object(fields) => fields_within_bound(fields),
        DocumentView::Array(items) => items.len() <= MAX_ARRAY_LEN && items_within_bound(items),
        _ => true,
    }
}

/// Whether no array anywhere in the documents has more than
/// [`MAX_ARRAY_LEN`] elements.
pub open spec fn items_within_bound(items: Seq<DocumentView>) -> bool
    decreases items,
{
    forall|i: int| #![trigger items[i]] 0 <= i < items.len() ==> within_bound(items[i])
}

/// Whether no array anywhere in the values of the fields has more than
/// [`MAX_ARRAY_LEN`] elements.
pub open spec fn fields_within_bound(fields: Seq<(Seq<char>, DocumentView)>) -> bool
    decreases fields,
{
    forall|i: int| #![trigger fields[i]] 0 <= i < fields.len() ==> within_bound(fields[i].1)
}

/// Removes every oversized array from a document.
///
/// Returns what is left, or `None` where the document itself is an oversized
/// array.
pub fn prune_document(document: Document) -> (kept: Option<Document>)
    ensures
        match kept {
            Some(d) => pruned(document@) == Some(d@),
            None => pruned(document@) is None,
        },
    decreases document,
{
    match document {
        Document::Object(fields) => {
            let ghost all = view_fields(fields@);
            let mut out: Vec<(String, Document)> = Vec::new();
            for field in it: fields
                invariant
                    it.seq() == fields@,
                    all == view_fields(fields@),
                    view_fields(out@) == pruned_fields(all.take(it.index() as int)),
                    decreases_to!(document => fields),
            {
                let (key, value) = field;
                assert(all.take(it.index() + 1).drop_last() == all.take(it.index() as int));
                match prune_document(value) {
                    Some(kept) => {
                        out.push((key, kept));
                    },
                    None => {},
                }
            }
            assert(all.take(fields@.len() as int) == all);
            Some(Document::Object(out))
        },
        Document::Array(items) => {
            if items.len() > MAX_ARRAY_LEN {
                assert(view_items(items@).len() == items@.len());
                None
            } else {
                let ghost all = view_items(items@);
                let mut out: Vec<Document> = Vec::new();
                for item in it: items
                    invariant
                        it.seq() == items@,
                        all == view_items(items@),
                        view_items(out@) == pruned_items(all.take(it.index() as int)),
                        decreases_to!(document => items),
                {
                    assert(all.take(it.index() + 1).drop_last() == all.take(it.index() as int));
                    match prune_document(item) {
                        Some(kept) => {
                            out.push(kept);
                        },
                        None => {},
                    }
                }
                assert(all.take(items@.len() as int) == all);
                Some(Document::Array(out))
            }
        },
        Document::Number(n) => Some(Document::Number(n)),
        Document::String(s) => Some(Document::String(s)),
        Document::Bool(b) => Some(Document::Bool(b)),
        Document::Null => Some(Document::Null),
    }
}

/// Sanitizes a document: removes every oversized array from it, and gives
/// the empty document, null, where the whole document is one.
///
/// No array in what is given has more than [`MAX_ARRAY_LEN`] elements, to
/// sanitize it again would change nothing, and it is well formed where the
/// document was.
pub fn sanitize(document: Document) -> (clean: Document)
    ensures
        clean@ == sanitized(document@),
        within_bound(clean@),
        sanitized(clean@) == clean@,
        document@.well_formed() ==> clean@.well_formed(),
{
    proof {
        lemma_sanitized_within_bound(document@);
        lemma_sanitized_idempotent(document@);
        if document@.well_formed() {
            lemma_sanitized_well_formed(document@);
        }
    }
    match prune_document(document) {
        Some(kept) => kept,
        None => Document::default(),
    }
}

/// What is left of a document holds no oversized array.
proof fn lemma_pruned_within_bound(document: DocumentView)
    ensures
        pruned(document) matches Some(kept) ==> within_bound(kept),
    decreases document,
{
    match document {
        DocumentView::Object(fields) => {
            lemma_pruned_fields_within_bound(fields);
        },
        DocumentView::Array(items) => {
            lemma_pruned_items_within_bound(items);
        },
        _ => {},
    }
}

/// What is left of a list of elements is no longer than the list, and none
/// of it holds an oversized array.
proof fn lemma_pruned_items_within_bound(items: Seq<DocumentView>)
    ensures
        pruned_items(items).len() <= items.len(),
        items_within_bound(pruned_items(items)),
    decreases items,
{
    if items.len() > 0 {
        lemma_pruned_items_within_bound(items.drop_last());
        lemma_pruned_within_bound(items.last());
    }
}

/// No value that is left of a list of fields holds an oversized array.
proof fn lemma_pruned_fields_within_bound(fields: Seq<(Seq<char>, DocumentView)>)
    ensures
        fields_within_bound(pruned_fields(fields)),
    decreases fields,
{
    if fields.len() > 0 {
        lemma_pruned_fields_within_bound(fields.drop_last());
        lemma_pruned_within_bound(fields.last().1);
    }
}

/// Nothing is removed from a document that holds no oversized array.
proof fn lemma_pruned_unchanged(document: DocumentView)
    requires
        within_bound(document),
    ensures
        pruned(document) == Some(document),
    decreases document,
{
    match document {
        DocumentView::Object(fields) => {
            lemma_pruned_fields_unchanged(fields);
        },
        DocumentView::Array(items) => {
            lemma_pruned_items_unchanged(items);
        },
        _ => {},
    }
}

/// Nothing is removed from a list of elements that hold no oversized array.
proof fn lemma_pruned_items_unchanged(items: Seq<DocumentView>)
    requires
        items_within_bound(items),
    ensures
        pruned_items(items) == items,
    decreases items,
{
    if items.len() > 0 {
        lemma_pruned_items_unchanged(items.drop_last());
        lemma_pruned_unchanged(items.last());
    }
}

/// Nothing is removed from a list of fields whose values hold no oversized
/// array.
proof fn lemma_pruned_fields_unchanged(fields: Seq<(Seq<char>, DocumentView)>)
    requires
        fields_within_bound(fields),
    ensures
        pruned_fields(fields) == fields,
    decreases fields,
{
    if fields.len() > 0 {
        lemma_pruned_fields_unchanged(fields.drop_last());
        lemma_pruned_unchanged(fields.last().1);
    }
}

/// What is left of a well-formed document is well formed.
proof fn lemma_pruned_well_formed(document: DocumentView)
    requires
        document.well_formed(),
    ensures
        pruned(document) matches Some(kept) ==> kept.well_formed(),
    decreases document,
{
    match document {
        DocumentView::Object(fields) => {
            lemma_pruned_fields_well_formed(fields);
        },
        DocumentView::Array(items) => {
            lemma_pruned_items_well_formed(items);
        },
        _ => {},
    }
}

/// What is left of a list of well-formed elements is well formed.
proof fn lemma_pruned_items_well_formed(items: Seq<DocumentView>)
    requires
        items_well_formed(items),
    ensures
        items_well_formed(pruned_items(items)),
    decreases items,
{
    if items.len() > 0 {
        lemma_pruned_items_well_formed(items.drop_last());
        lemma_pruned_well_formed(items.last());
    }
}

/// The fields that are left of a list of well-formed fields are well formed,
/// each under a key of the list.
proof fn lemma_pruned_fields_well_formed(fields: Seq<(Seq<char>, DocumentView)>)
    requires
        fields_well_formed(fields),
    ensures
        fields_well_formed(pruned_fields(fields)),
        forall|i: int|
            0 <= i < pruned_fields(fields).len() ==> exists|j: int|
                0 <= j < fields.len() && fields[j].0 == (#[trigger] pruned_fields(fields)[i]).0,
    decreases fields,
{
    if fields.len() > 0 {
        lemma_pruned_fields_well_formed(fields.drop_last());
        lemma_pruned_well_formed(fields.last().1);
    }
}

/// Well-formedness is kept: the sanitized form of a well-formed document is
/// well formed.
pub proof fn lemma_sanitized_well_formed(document: DocumentView)
    requires
        document.well_formed(),
    ensures
        sanitized(document).well_formed(),
{
    lemma_pruned_well_formed(document);
}

/// Size bound: no array anywhere in a sanitized document has more than
/// [`MAX_ARRAY_LEN`] elements.
pub proof fn lemma_sanitized_within_bound(document: DocumentView)
    ensures
        within_bound(sanitized(document)),
{
    lemma_pruned_within_bound(document);
}

/// Unchanged on compliance: a document in which no array has more than
/// [`MAX_ARRAY_LEN`] elements is its own sanitized form.
pub proof fn lemma_sanitized_unchanged(document: DocumentView)
    requires
        within_bound(document),
    ensures
        sanitized(document) == document,
{
    lemma_pruned_unchanged(document);
}

/// Idempotence: to sanitize a sanitized document changes nothing.
pub proof fn lemma_sanitized_idempotent(document: DocumentView)
    ensures
        sanitized(sanitized(document)) == sanitized(document),
{
    lemma_sanitized_within_bound(document);
    lemma_sanitized_unchanged(sanitized(document));
}

/// Removal at the root: only an oversized array leaves nothing behind.
pub proof fn lemma_pruned_none(document: DocumentView)
    ensures
        pruned(document) is None <==> (document matches DocumentView::Array(items)
            && items.len() > MAX_ARRAY_LEN),
{
}

} // verus!
