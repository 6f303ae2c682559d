//! Retrieval as a capability: what the dynamic adapter answers for what a
//! retrieval backend found, and the decisions of a search call.

use crate::document::{
    field_value, lemma_field_value_push, push_field, push_item, view_fields, view_items, Document,
    DocumentView, Number,
};
use crate::sanitize::{sanitize, sanitized};
use crate::tool::{ArgsDecodeError, Argument, ToolDefinition};
use vstd::prelude::*;
use vstd::string::StringExecFns;

verus! {

/// The name under which a retrieval backend is called.
pub const VECTOR_STORE_TOOL_NAME: &'static str = "search_vector_store";

/// What a retrieval capability says of itself.
pub const VECTOR_STORE_TOOL_DESCRIPTION: &'static str =
    "Retrieves the most relevant documents from a vector store based on a query.";

/// The number of documents that a search asks for where its arguments name
/// none.
pub const DEFAULT_TOP_N: usize = 5;

/// `serde_json::Error`, the error of a JSON conversion. It is carried as it
/// is; nothing is claimed of what it holds.
#[verifier::external_type_specification]
#[verifier::external_body]
pub struct ExJsonError(serde_json::Error);

/// Why a search failed.
#[derive(Debug)]
pub enum VectorStoreError {
    /// The query could not be embedded; the cause, in words.
    EmbeddingError(String),
    /// A document could not be turned into a structured value, or back.
    JsonError(serde_json::Error),
    /// The datastore failed; the cause, in words.
    DatastoreError(String),
    /// A document that was found has no identifier.
    MissingIdError(String),
}

impl From<serde_json::Error> for VectorStoreError {
    fn from(error: serde_json::Error) -> (converted: VectorStoreError) {
        VectorStoreError::JsonError(error)
    }
}

impl vstd::std_specs::convert::FromSpecImpl<serde_json::Error> for VectorStoreError {
    open spec fn obeys_from_spec() -> bool {
        true
    }

    open spec fn from_spec(error: serde_json::Error) -> VectorStoreError {
        VectorStoreError::JsonError(error)
    }
}

impl VectorStoreError {
    /// The error in words: what failed, then the cause.
    pub fn message(&self) -> (text: String)
        ensures
            match self {
                VectorStoreError::EmbeddingError(cause) => text@ == "Embedding error: "@ + cause@,
                VectorStoreError::JsonError(cause) => exists|words: String|
                    vstd::string::to_string_from_display_ensures::<serde_json::Error>(cause, words)
                        && text@ == "Json error: "@ + words@,
                VectorStoreError::DatastoreError(cause) => text@ == "Datastore error: "@ + cause@,
                VectorStoreError::MissingIdError(id) => text@ == "Missing Id: "@ + id@,
            },
    {
        match self {
            VectorStoreError::EmbeddingError(cause) => "Embedding error: ".to_owned().concat(
                cause.as_str(),
            ),
            VectorStoreError::JsonError(cause) => "Json error: ".to_owned().concat(
                cause.to_string().as_str(),
            ),
            VectorStoreError::DatastoreError(cause) => "Datastore error: ".to_owned().concat(
                cause.as_str(),
            ),
            VectorStoreError::MissingIdError(id) => "Missing Id: ".to_owned().concat(id.as_str()),
        }
    }
}

/// The arguments of a search call.
#[derive(Debug, PartialEq, Eq)]
pub struct VectorStoreArgs {
    /// What to search for.
    pub query: String,
    /// How many documents to ask for, at most.
    pub top_n: Option<usize>,
}

/// One document that a search found.
#[derive(Debug, PartialEq)]
pub struct VectorStoreOutput<S> {
    /// How well the document matches, as the backend scored it.
    pub score: S,
    /// The document's identifier.
    pub id: String,
    /// The document.
    pub document: Document,
}

/// The values of a list of scored documents, in order.
pub open spec fn view_rows<S>(rows: Seq<(S, String, Document)>) -> Seq<
    (S, Seq<char>, DocumentView),
> {
    rows.map_values(|row: (S, String, Document)| (row.0, row.1@, row.2@))
}

/// The values of a list of scored identifiers, in order.
pub open spec fn view_ids<S>(ids: Seq<(S, String)>) -> Seq<(S, Seq<char>)> {
    ids.map_values(|row: (S, String)| (row.0, row.1@))
}

/// The values of a list of search outputs, in order.
pub open spec fn view_outputs<S>(outputs: Seq<VectorStoreOutput<S>>) -> Seq<
    (S, Seq<char>, DocumentView),
> {
    outputs.map_values(|row: VectorStoreOutput<S>| (row.score, row.id@, row.document@))
}

/// The same scored documents, each document in its sanitized form.
pub open spec fn sanitized_rows<S>(rows: Seq<(S, Seq<char>, DocumentView)>) -> Seq<
    (S, Seq<char>, DocumentView),
> {
    rows.map_values(|row: (S, Seq<char>, DocumentView)| (row.0, row.1, sanitized(row.2)))
}

/// The score and identifier of each scored document, in order.
pub open spec fn row_ids<S>(rows: Seq<(S, Seq<char>, DocumentView)>) -> Seq<(S, Seq<char>)> {
    rows.map_values(|row: (S, Seq<char>, DocumentView)| (row.0, row.1))
}

/// What the dynamic adapter answers for what the backend found: the same
/// scored documents in the same order, each document sanitized; or the
/// backend's error, as it is.
pub fn top_n_dyn<S>(found: Result<Vec<(S, String, Document)>, VectorStoreError>) -> (answer: Result<
    Vec<(S, String, Document)>,
    VectorStoreError,
>)
    ensures
        match found {
            Ok(rows) => answer matches Ok(clean) && view_rows(clean@) == sanitized_rows(
                view_rows(rows@),
            ),
            Err(error) => answer == Err::<Vec<(S, String, Document)>, VectorStoreError>(error),
        },
{
    match found {
        Ok(rows) => {
            let ghost all = view_rows(rows@);
            let mut clean: Vec<(S, String, Document)> = Vec::new();
            for row in it: rows
                invariant
                    it.seq() == rows@,
                    all == view_rows(rows@),
                    view_rows(clean@) == sanitized_rows(all.take(it.index() as int)),
            {
                let ghost before = clean@;
                let (score, id, document) = row;
                clean.push((score, id, sanitize(document)));
                assert(view_rows(clean@) =~= view_rows(before).push(
                    (score, id@, sanitized(document@)),
                ));
            }
            Ok(clean)
        },
        Err(error) => Err(error),
    }
}

/// What the dynamic adapter answers for the identifiers that the backend
/// found: the same, as they are.
pub fn top_n_ids_dyn<S>(found: Result<Vec<(S, String)>, VectorStoreError>) -> (answer: Result<
    Vec<(S, String)>,
    VectorStoreError,
>)
    ensures
        answer == found,
{
    found
}

/// Maps what a search found to its output records, in the backend's order,
/// or hands on the error, as it is.
pub fn call_output<S>(found: Result<Vec<(S, String, Document)>, VectorStoreError>) -> (output:
    Result<Vec<VectorStoreOutput<S>>, VectorStoreError>)
    ensures
        match found {
            Ok(rows) => output matches Ok(records) && view_outputs(records@) == view_rows(rows@),
            Err(error) => output == Err::<Vec<VectorStoreOutput<S>>, VectorStoreError>(error),
        },
{
    match found {
        Ok(rows) => {
            let ghost all = view_rows(rows@);
            let mut records: Vec<VectorStoreOutput<S>> = Vec::new();
            for row in it: rows
                invariant
                    it.seq() == rows@,
                    all == view_rows(rows@),
                    view_outputs(records@) == all.take(it.index() as int),
            {
                let ghost before = records@;
                let (score, id, document) = row;
                records.push(VectorStoreOutput { score, id, document });
                assert(view_outputs(records@) =~= view_outputs(before).push(
                    (score, id@, document@),
                ));
            }
            Ok(records)
        },
        Err(error) => Err(error),
    }
}

impl View for VectorStoreArgs {
    type V = (Seq<char>, Option<usize>);

    open spec fn view(&self) -> (Seq<char>, Option<usize>) {
        (self.query@, self.top_n)
    }
}

/// The arguments that a document decodes to: an object whose `query` is a
/// string and whose `top_n`, where it has one that is not null, is an
/// integer of at least 1 that the machine can count to.
pub open spec fn decoded_args(args: DocumentView) -> Result<
    (Seq<char>, Option<usize>),
    ArgsDecodeError,
> {
    match args {
        DocumentView::Object(_) => match args.get("query"@) {
            None => Err(ArgsDecodeError::Missing(Argument::Query)),
            Some(DocumentView::String(query)) => match args.get("top_n"@) {
                None | Some(DocumentView::Null) => Ok((query, None)),
                Some(DocumentView::Number(Number::PosInt(n))) => if 1 <= n <= usize::MAX {
                    Ok((query, Some(n as usize)))
                } else {
                    Err(ArgsDecodeError::Invalid(Argument::TopN))
                },
                Some(_) => Err(ArgsDecodeError::Invalid(Argument::TopN)),
            },
            Some(_) => Err(ArgsDecodeError::Invalid(Argument::Query)),
        },
        _ => Err(ArgsDecodeError::NotAnObject),
    }
}

/// The search that arguments ask for: the query, and the number of
/// documents, [`DEFAULT_TOP_N`] where the arguments name none.
pub open spec fn requested(args: (Seq<char>, Option<usize>)) -> (Seq<char>, usize) {
    match args.1 {
        Some(n) => (args.0, n),
        None => (args.0, DEFAULT_TOP_N),
    }
}

/// The search that a call with the arguments `args` makes, or why it makes
/// none.
pub open spec fn planned_search(args: DocumentView) -> Result<(Seq<char>, usize), ArgsDecodeError> {
    match decoded_args(args) {
        Ok(decoded) => Ok(requested(decoded)),
        Err(error) => Err(error),
    }
}

impl VectorStoreArgs {
    /// Decodes the arguments of a search call.
    pub fn decode(args: &Document) -> (decoded: Result<VectorStoreArgs, ArgsDecodeError>)
        ensures
            match decoded {
                Ok(value) => decoded_args(args@) == Ok::<_, ArgsDecodeError>(value@),
                Err(error) => decoded_args(args@) == Err::<(Seq<char>, Option<usize>), _>(error),
            },
    {
        match args {
            Document::Object(_) => {},
            _ => {
                return Err(ArgsDecodeError::NotAnObject);
            },
        }
        let query = match args.get("query") {
            None => {
                return Err(ArgsDecodeError::Missing(Argument::Query));
            },
            Some(Document::String(text)) => text.clone(),
            Some(_) => {
                return Err(ArgsDecodeError::Invalid(Argument::Query));
            },
        };
        let top_n = match args.get("top_n") {
            None | Some(Document::Null) => None,
            Some(Document::Number(Number::PosInt(n))) => {
                if 1 <= *n && *n <= usize::MAX as u64 {
                    Some(*n as usize)
                } else {
                    return Err(ArgsDecodeError::Invalid(Argument::TopN));
                }
            },
            Some(_) => {
                return Err(ArgsDecodeError::Invalid(Argument::TopN));
            },
        };
        Ok(VectorStoreArgs { query, top_n })
    }

    /// The search that these arguments ask for.
    pub fn request(self) -> (search: (String, usize))
        ensures
            (search.0@, search.1) == requested(self@),
    {
        match self.top_n {
            Some(n) => (self.query, n),
            None => (self.query, DEFAULT_TOP_N),
        }
    }
}

/// Decides what a call with the arguments `args` does: the search to make,
/// or the error of arguments that do not decode, in which case no search is
/// made.
pub fn plan_search(args: &Document) -> (plan: Result<(String, usize), ArgsDecodeError>)
    ensures
        match plan {
            Ok(search) => planned_search(args@) == Ok::<_, ArgsDecodeError>((search.0@, search.1)),
            Err(error) => planned_search(args@) == Err::<(Seq<char>, usize), _>(error),
        },
{
    match VectorStoreArgs::decode(args) {
        Ok(decoded) => Ok(decoded.request()),
        Err(error) => Err(error),
    }
}

/// The schema of the argument `query`: a string.
pub open spec fn query_parameter() -> DocumentView {
    DocumentView::Object(
        seq![
            ("type"@, DocumentView::String("string"@)),
            (
                "description"@,
                DocumentView::String(
                    "The query string to search for relevant documents in the vector store."@,
                ),
            ),
        ],
    )
}

/// The schema of the argument `top_n`: an integer of at least 1, 5 where it
/// is left out.
pub open spec fn top_n_parameter() -> DocumentView {
    DocumentView::Object(
        seq![
            ("type"@, DocumentView::String("integer"@)),
            (
                "description"@,
                DocumentView::String("The number of top matching documents to retrieve."@),
            ),
            ("default"@, DocumentView::Number(Number::PosInt(5))),
            ("minimum"@, DocumentView::Number(Number::PosInt(1))),
        ],
    )
}

/// The schemas of the arguments of a search call, each under its name.
pub open spec fn vector_store_properties() -> DocumentView {
    DocumentView::Object(seq![("query"@, query_parameter()), ("top_n"@, top_n_parameter())])
}

/// The schema of the arguments of a search call: an object of `query`, which
/// is required, and `top_n`.
pub open spec fn vector_store_parameters() -> DocumentView {
    DocumentView::Object(
        seq![
            ("type"@, DocumentView::String("object"@)),
            ("properties"@, vector_store_properties()),
            ("required"@, DocumentView::Array(seq![DocumentView::String("query"@)])),
        ],
    )
}

/// How a retrieval backend presents itself as a capability. Name and
/// description are the same for every backend.
pub fn definition(_prompt: String) -> (definition: ToolDefinition)
    ensures
        definition.name@ == VECTOR_STORE_TOOL_NAME@,
        definition.description@ == VECTOR_STORE_TOOL_DESCRIPTION@,
        definition.parameters@ == vector_store_parameters(),
{
    let mut query: Vec<(String, Document)> = Vec::new();
    push_field(&mut query, "type", Document::string("string"));
    push_field(
        &mut query,
        "description",
        Document::string("The query string to search for relevant documents in the vector store."),
    );
    assert(view_fields(query@) =~= query_parameter()->Object_0);
    let query = Document::object(query);

    let mut top_n: Vec<(String, Document)> = Vec::new();
    push_field(&mut top_n, "type", Document::string("integer"));
    push_field(
        &mut top_n,
        "description",
        Document::string("The number of top matching documents to retrieve."),
    );
    push_field(&mut top_n, "default", Document::integer(5));
    push_field(&mut top_n, "minimum", Document::integer(1));
    assert(view_fields(top_n@) =~= top_n_parameter()->Object_0);
    let top_n = Document::object(top_n);

    let mut properties: Vec<(String, Document)> = Vec::new();
    push_field(&mut properties, "query", query);
    push_field(&mut properties, "top_n", top_n);
    assert(view_fields(properties@) =~= vector_store_properties()->Object_0);
    let mut required: Vec<Document> = Vec::new();
    assert(view_items(required@) =~= Seq::empty());
    push_item(&mut required, Document::string("query"));

    let mut parameters: Vec<(String, Document)> = Vec::new();
    push_field(&mut parameters, "type", Document::string("object"));
    push_field(&mut parameters, "properties", Document::object(properties));
    push_field(&mut parameters, "required", Document::array(required));
    assert(view_fields(parameters@) =~= vector_store_parameters()->Object_0);
    ToolDefinition {
        name: VECTOR_STORE_TOOL_NAME.to_owned(),
        description: VECTOR_STORE_TOOL_DESCRIPTION.to_owned(),
        parameters: Document::object(parameters),
    }
}

/// The dynamic search agrees with the static one: it answers as many scored
/// documents, with the same scores and identifiers in the same order, each
/// document in its sanitized form.
pub proof fn lemma_top_n_dyn_agrees<S>(rows: Seq<(S, Seq<char>, DocumentView)>)
    ensures
        sanitized_rows(rows).len() == rows.len(),
        row_ids(sanitized_rows(rows)) == row_ids(rows),
        forall|i: int|
            0 <= i < rows.len() ==> (#[trigger] sanitized_rows(rows)[i]).2 == sanitized(rows[i].2),
{
}

/// The identifiers answered are those of the documents answered: where the
/// backend finds, for one query, the documents `rows` and their scores and
/// identifiers `ids`, what the dynamic search for identifiers answers,
/// which is `ids`, holds the scores and identifiers of what the dynamic
/// search for documents answers, which is `rows` sanitized, in the same
/// order and number.
pub proof fn lemma_ids_are_projection<S>(rows: Seq<(S, String, Document)>, ids: Seq<(S, String)>)
    requires
        view_ids(ids) == row_ids(view_rows(rows)),
    ensures
        view_ids(ids) == row_ids(sanitized_rows(view_rows(rows))),
        ids.len() == sanitized_rows(view_rows(rows)).len(),
{
    lemma_top_n_dyn_agrees(view_rows(rows));
    assert(view_ids(ids).len() == ids.len());
}

/// A call that names no `top_n` searches as the same call with `top_n` at
/// [`DEFAULT_TOP_N`] does.
pub proof fn lemma_default_top_n(fields: Seq<(Seq<char>, DocumentView)>)
    requires
        field_value(fields, "top_n"@) is None,
    ensures
        planned_search(DocumentView::Object(fields)) == planned_search(
            DocumentView::Object(
                fields.push(("top_n"@, DocumentView::Number(Number::PosInt(DEFAULT_TOP_N as u64)))),
            ),
        ),
{
    let named = ("top_n"@, DocumentView::Number(Number::PosInt(DEFAULT_TOP_N as u64)));
    lemma_field_value_push(fields, named, "top_n"@);
    lemma_field_value_push(fields, named, "query"@);
    assert("top_n"@ != "query"@) by {
        reveal_strlit("top_n");
        reveal_strlit("query");
        assert("top_n"@[0] != "query"@[0]);
    }
}

/// Arguments are decoded before anything is executed: a call whose
/// arguments have no `query` plans no search, and fails with the error of
/// arguments that do not decode.
pub proof fn lemma_missing_query(args: DocumentView)
    requires
        args.get("query"@) is None,
    ensures
        planned_search(args) == Err::<(Seq<char>, usize), ArgsDecodeError>(
            if args is Object {
                ArgsDecodeError::Missing(Argument::Query)
            } else {
                ArgsDecodeError::NotAnObject
            },
        ),
{
}

} // verus!
