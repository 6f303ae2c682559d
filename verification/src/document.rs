//! Structured documents: the object / array / number / string / boolean / null
//! tree that every capability takes and returns.

use vstd::prelude::*;

verus! {

/// A number of a structured document.
///
/// A floating-point number is held by the bit pattern of its IEEE 754
/// double-precision form, so that a document can be compared and carried
/// without floating-point arithmetic.
#[derive(Clone, Copy, Debug, PartialEq, Eq, Structural)]
pub enum Number {
    /// A non-negative integer.
    PosInt(u64),
    /// A negative integer.
    NegInt(i64),
    /// A floating-point number, by its bits.
    Float(u64),
}

/// A structured document.
///
/// An object keeps its fields in a fixed order, as a list of key and value.
#[derive(Debug, PartialEq, Eq)]
pub enum Document {
    Null,
    Bool(bool),
    Number(Number),
    String(String),
    Array(Vec<Document>),
    Object(Vec<(String, Document)>),
}

/// The mathematical value of a [`Document`]: the same tree over sequences.
pub enum DocumentView {
    Null,
    Bool(bool),
    Number(Number),
    String(Seq<char>),
    Array(Seq<DocumentView>),
    Object(Seq<(Seq<char>, DocumentView)>),
}

/// The values of a list of documents, in order.
pub open spec fn view_items(items: Seq<Document>) -> Seq<DocumentView>
    decreases items,
{
    Seq::new(
        items.len(),
        |i: int|
            if 0 <= i < items.len() {
                items[i].view()
            } else {
                DocumentView::Null
            },
    )
}

/// The keys and values of a list of fields, in order.
pub open spec fn view_fields(fields: Seq<(String, Document)>) -> Seq<(Seq<char>, DocumentView)>
    decreases fields,
{
    Seq::new(
        fields.len(),
        |i: int|
            if 0 <= i < fields.len() {
                (fields[i].0@, fields[i].1.view())
            } else {
                (Seq::empty(), DocumentView::Null)
            },
    )
}

impl View for Document {
    type V = DocumentView;

    open spec fn view(&self) -> DocumentView
        decreases self,
    {
        match self {
            Document::Null => DocumentView::Null,
            Document::Bool(b) => DocumentView::Bool(*b),
            Document::Number(n) => DocumentView::Number(*n),
            Document::String(s) => DocumentView::String(s@),
            Document::Array(items) => DocumentView::Array(view_items(items@)),
            Document::Object(fields) => DocumentView::Object(view_fields(fields@)),
        }
    }
}

impl Number {
    /// Whether this is a number as a document holds it: a negative integer
    /// is below zero, and a floating-point number is finite.
    pub open spec fn well_formed(self) -> bool {
        match self {
            Number::PosInt(_) => true,
            Number::NegInt(value) => value < 0,
            Number::Float(bits) => bits & 0x7ff0_0000_0000_0000 != 0x7ff0_0000_0000_0000,
        }
    }
}

/// Whether no two fields have the same key.
pub open spec fn distinct_keys(fields: Seq<(Seq<char>, DocumentView)>) -> bool {
    forall|i: int, j: int| 0 <= i < j < fields.len() ==> fields[i].0 != fields[j].0
}

/// Whether each of the documents is well formed.
pub open spec fn items_well_formed(items: Seq<DocumentView>) -> bool
    decreases items,
{
    forall|i: int| #![trigger items[i]] 0 <= i < items.len() ==> items[i].well_formed()
}

/// Whether no two of the fields have the same key, and the value of each is
/// well formed.
pub open spec fn fields_well_formed(fields: Seq<(Seq<char>, DocumentView)>) -> bool
    decreases fields,
{
    &&& distinct_keys(fields)
    &&& forall|i: int| #![trigger fields[i]] 0 <= i < fields.len() ==> fields[i].1.well_formed()
}

impl DocumentView {
    /// Whether this is a document as JSON has it: every number in it is
    /// well formed, and no object in it has two fields under one key.
    pub open spec fn well_formed(self) -> bool
        decreases self,
    {
        match self {
            DocumentView::Number(number) => number.well_formed(),
            DocumentView::Array(items) => items_well_formed(items),
            DocumentView::Object(fields) => fields_well_formed(fields),
            _ => true,
        }
    }
}

/// The value of the first field under `key`, if there is one.
pub open spec fn field_value(fields: Seq<(Seq<char>, DocumentView)>, key: Seq<char>) -> Option<
    DocumentView,
>
    decreases fields.len(),
{
    if fields.len() == 0 {
        None
    } else if fields[0].0 == key {
        Some(fields[0].1)
    } else {
        field_value(fields.skip(1), key)
    }
}

/// A field that is appended is found under its key where no field before it
/// has that key, and hides none of them.
pub proof fn lemma_field_value_push(
    fields: Seq<(Seq<char>, DocumentView)>,
    field: (Seq<char>, DocumentView),
    key: Seq<char>,
)
    ensures
        field_value(fields.push(field), key) == match field_value(fields, key) {
            Some(value) => Some(value),
            None => if field.0 == key {
                Some(field.1)
            } else {
                None
            },
        },
    decreases fields.len(),
{
    if fields.len() == 0 {
        assert(field_value(fields.push(field).skip(1), key) is None);
    } else {
        assert(fields.push(field).skip(1) == fields.skip(1).push(field));
        lemma_field_value_push(fields.skip(1), field, key);
    }
}

/// Among fields with distinct keys, each field is the one found under its
/// key.
pub proof fn lemma_field_value_distinct(fields: Seq<(Seq<char>, DocumentView)>, i: int)
    requires
        distinct_keys(fields),
        0 <= i < fields.len(),
    ensures
        field_value(fields, fields[i].0) == Some(fields[i].1),
    decreases fields.len(),
{
    if i > 0 {
        let rest = fields.skip(1);
        lemma_field_value_distinct(rest, i - 1);
    }
}

impl DocumentView {
    /// The value of the first field under `key`, where this is an object that
    /// has one.
    pub open spec fn get(self, key: Seq<char>) -> Option<DocumentView> {
        match self {
            DocumentView::Object(fields) => field_value(fields, key),
            _ => None,
        }
    }
}

impl Number {
    /// Whether this is a number as a document holds it.
    pub fn is_well_formed(&self) -> (ok: bool)
        ensures
            ok == self.well_formed(),
    {
        match self {
            Number::PosInt(_) => true,
            Number::NegInt(value) => *value < 0,
            Number::Float(bits) => *bits & 0x7ff0_0000_0000_0000 != 0x7ff0_0000_0000_0000,
        }
    }
}

/// Whether no two of the fields have the same key.
fn has_distinct_keys(fields: &Vec<(String, Document)>) -> (ok: bool)
    ensures
        ok == distinct_keys(view_fields(fields@)),
{
    let ghost all = view_fields(fields@);
    let mut j: usize = 0;
    while j < fields.len()
        invariant
            j <= fields.len(),
            all == view_fields(fields@),
            forall|a: int, b: int| 0 <= a < b < j ==> all[a].0 != all[b].0,
        decreases fields.len() - j,
    {
        let mut i: usize = 0;
        while i < j
            invariant
                i <= j < fields.len(),
                all == view_fields(fields@),
                forall|a: int| 0 <= a < i ==> all[a].0 != all[j as int].0,
            decreases j - i,
        {
            if fields[i].0 == fields[j].0 {
                assert(all[i as int].0 == all[j as int].0);
                return false;
            }
            i += 1;
        }
        j += 1;
    }
    true
}

impl Document {
    /// Whether this is a document as JSON has it: every number in it is
    /// well formed, and no object in it has two fields under one key.
    pub fn is_well_formed(&self) -> (ok: bool)
        ensures
            ok == self@.well_formed(),
        decreases self,
    {
        match self {
            Document::Number(number) => number.is_well_formed(),
            Document::Array(items) => {
                let ghost all = view_items(items@);
                let mut i: usize = 0;
                while i < items.len()
                    invariant
                        i <= items.len(),
                        all == view_items(items@),
                        all.len() == items.len(),
                        self@ == DocumentView::Array(all),
                        forall|a: int| #![trigger all[a]] 0 <= a < i ==> all[a].well_formed(),
                        decreases_to!(self => items),
                    decreases items.len() - i,
                {
                    if !items[i].is_well_formed() {
                        assert(!all[i as int].well_formed());
                        return false;
                    }
                    i += 1;
                }
                true
            },
            Document::Object(fields) => {
                if !has_distinct_keys(fields) {
                    return false;
                }
                let ghost all = view_fields(fields@);
                let mut i: usize = 0;
                while i < fields.len()
                    invariant
                        i <= fields.len(),
                        all == view_fields(fields@),
                        all.len() == fields.len(),
                        self@ == DocumentView::Object(all),
                        forall|a: int| #![trigger all[a]] 0 <= a < i ==> all[a].1.well_formed(),
                        decreases_to!(self => fields),
                    decreases fields.len() - i,
                {
                    if !fields[i].1.is_well_formed() {
                        assert(!all[i as int].1.well_formed());
                        return false;
                    }
                    i += 1;
                }
                true
            },
            _ => true,
        }
    }

    /// The string document that holds `text`.
    pub fn string(text: &str) -> (document: Document)
        ensures
            document@ == DocumentView::String(text@),
    {
        Document::String(text.to_owned())
    }

    /// The non-negative integer document that holds `value`.
    pub fn integer(value: u64) -> (document: Document)
        ensures
            document@ == DocumentView::Number(Number::PosInt(value)),
    {
        Document::Number(Number::PosInt(value))
    }

    /// The array document of `items`.
    pub fn array(items: Vec<Document>) -> (document: Document)
        ensures
            document@ == DocumentView::Array(view_items(items@)),
    {
        Document::Array(items)
    }

    /// The object document of `fields`.
    pub fn object(fields: Vec<(String, Document)>) -> (document: Document)
        ensures
            document@ == DocumentView::Object(view_fields(fields@)),
    {
        Document::Object(fields)
    }

    /// The value of the first field under `key`, where this is an object that
    /// has one.
    pub fn get(&self, key: &str) -> (value: Option<&Document>)
        ensures
            match value {
                Some(found) => self@.get(key@) == Some(found@),
                None => self@.get(key@) is None,
            },
    {
        match self {
            Document::Object(fields) => {
                let wanted = key.to_owned();
                let ghost all = view_fields(fields@);
                let mut i: usize = 0;
                assert(all.skip(0) == all);
                while i < fields.len()
                    invariant
                        i <= fields.len(),
                        self@ == DocumentView::Object(all),
                        wanted@ == key@,
                        all == view_fields(fields@),
                        field_value(all, key@) == field_value(all.skip(i as int), key@),
                    decreases fields.len() - i,
                {
                    proof {
                        assert(all.skip(i as int).skip(1) == all.skip(i + 1));
                    }
                    if fields[i].0 == wanted {
                        return Some(&fields[i].1);
                    }
                    i += 1;
                }
                None
            },
            _ => None,
        }
    }
}

impl Default for Document {
    /// The empty document: null.
    fn default() -> (document: Document)
        ensures
            document@ == DocumentView::Null,
    {
        Document::Null
    }
}

impl Clone for Document {
    /// A copy of the document: the same tree.
    fn clone(&self) -> (copy: Document)
        ensures
            copy@ == self@,
        decreases self,
    {
        match self {
            Document::Null => Document::Null,
            Document::Bool(value) => Document::Bool(*value),
            Document::Number(value) => Document::Number(*value),
            Document::String(text) => Document::String(text.clone()),
            Document::Array(items) => {
                let mut copies: Vec<Document> = Vec::new();
                let mut i: usize = 0;
                while i < items.len()
                    invariant
                        i <= items.len(),
                        copies.len() == i,
                        forall|j: int| 0 <= j < i ==> copies[j]@ == items[j]@,
                        decreases_to!(self => items),
                    decreases items.len() - i,
                {
                    copies.push(items[i].clone());
                    i += 1;
                }
                assert(view_items(copies@) =~= view_items(items@));
                Document::Array(copies)
            },
            Document::Object(fields) => {
                let mut copies: Vec<(String, Document)> = Vec::new();
                let mut i: usize = 0;
                while i < fields.len()
                    invariant
                        i <= fields.len(),
                        copies.len() == i,
                        forall|j: int|
                            0 <= j < i ==> copies[j].0@ == fields[j].0@ && copies[j].1@
                                == fields[j].1@,
                        decreases_to!(self => fields),
                    decreases fields.len() - i,
                {
                    copies.push((fields[i].0.clone(), fields[i].1.clone()));
                    i += 1;
                }
                assert(view_fields(copies@) =~= view_fields(fields@));
                Document::Object(copies)
            },
        }
    }
}

/// Appends the field `key`: `value` to a list of fields.
pub fn push_field(fields: &mut Vec<(String, Document)>, key: &str, value: Document)
    ensures
        final(fields)@.len() == old(fields)@.len() + 1,
        view_fields(final(fields)@) == view_fields(old(fields)@).push((key@, value@)),
{
    fields.push((key.to_owned(), value));
}

/// Appends `value` to a list of documents.
pub fn push_item(items: &mut Vec<Document>, value: Document)
    ensures
        final(items)@.len() == old(items)@.len() + 1,
        view_items(final(items)@) == view_items(old(items)@).push(value@),
{
    items.push(value);
}

} // verus!
