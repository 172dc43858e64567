//! The generated contract, as far as the catalogs read it: which operations
//! stand at which path under which method, and the schema of a JSON request
//! body.

use crate::relate;
use crate::text::same_text;
use vstd::prelude::*;

verus! {

/// The schema of a request body: a reference, or one written in place.
#[derive(Debug, Clone, PartialEq, Eq)]
pub enum BodySchema {
    Reference(String),
    Inline,
}

/// What a request body holds under one media type.
#[derive(Debug, Clone, PartialEq, Eq)]
pub struct MediaContent {
    pub media_type: String,
    pub schema: Option<BodySchema>,
}

/// One operation.
#[derive(Debug, Clone, PartialEq, Eq)]
pub struct ApiOperation {
    pub operation_id: Option<String>,
    pub request_body: Option<Vec<MediaContent>>,
}

/// The operations at one path.
#[derive(Debug, Clone, PartialEq, Eq)]
pub struct ApiPath {
    pub path: String,
    pub get: Option<ApiOperation>,
    pub put: Option<ApiOperation>,
    pub post: Option<ApiOperation>,
    pub delete: Option<ApiOperation>,
    pub options: Option<ApiOperation>,
    pub head: Option<ApiOperation>,
    pub patch: Option<ApiOperation>,
    pub trace: Option<ApiOperation>,
}

/// The contract: its paths, in the document's order.
#[derive(Debug, Clone, PartialEq, Eq)]
pub struct ApiDocument {
    pub paths: Vec<ApiPath>,
}

/// The characters of an optional text.
pub open spec fn characters(text: Option<String>) -> Option<Seq<char>> {
    match text {
        Some(text) => Some(text@),
        None => None,
    }
}

impl ApiOperation {
    /// Whether the first content under a media type stands at an index.
    pub open spec fn is_first_content(
        contents: Seq<MediaContent>,
        media_type: Seq<char>,
        index: int,
    ) -> bool {
        &&& 0 <= index < contents.len()
        &&& contents[index].media_type@ == media_type
        &&& forall|i: int| 0 <= i < index ==> (#[trigger] contents[i]).media_type@ != media_type
    }

    /// The reference a JSON request body names, where it names one.
    pub open spec fn schema_reference(self) -> Option<Seq<char>> {
        match self.request_body {
            Some(contents) => if exists|i: int|
                #[trigger] Self::is_first_content(contents@, "application/json"@, i) {
                match contents@[choose|i: int|
                    #[trigger] Self::is_first_content(
                        contents@,
                        "application/json"@,
                        i,
                    )].schema {
                    Some(BodySchema::Reference(reference)) => Some(reference@),
                    _ => None,
                }
            } else {
                None
            },
            None => None,
        }
    }
}

/// The reference a JSON request body names. A body under another media type, a
/// body without a schema and a schema written in place name none.
pub fn request_schema(operation: &ApiOperation) -> (reference: Option<String>)
    ensures
        relate::says(reference, operation.schema_reference()),
{
    match &operation.request_body {
        Some(contents) => {
            let mut next: usize = 0;
            while next < contents.len()
                invariant
                    operation.request_body == Some(*contents),
                    next <= contents@.len(),
                    forall|i: int|
                        0 <= i < next ==> (#[trigger] contents@[i]).media_type@
                            != "application/json"@,
                decreases contents@.len() - next,
            {
                if same_text(contents[next].media_type.as_str(), "application/json") {
                    assert(ApiOperation::is_first_content(
                        contents@,
                        "application/json"@,
                        next as int,
                    ));
                    proof {
                        let first = choose|i: int|
                            #[trigger] ApiOperation::is_first_content(
                                contents@,
                                "application/json"@,
                                i,
                            );
                        assert(contents@[first].media_type@ == "application/json"@);
                        assert(contents@[next as int].media_type@ == "application/json"@);
                        assert(first == next);
                    }
                    return match &contents[next].schema {
                        Some(BodySchema::Reference(reference)) => Some(reference.clone()),
                        _ => None,
                    };
                }
                next = next + 1;
            }
            None
        },
        None => None,
    }
}

/// One operation where it stands, as characters.
pub struct ListedView {
    pub operation_id: Option<Seq<char>>,
    pub method: Seq<char>,
    pub path: Seq<char>,
    pub request_schema: Option<Seq<char>>,
}

/// One operation where it stands.
#[derive(Debug, Clone, PartialEq, Eq)]
pub struct ListedOperation {
    pub operation_id: Option<String>,
    pub method: String,
    pub path: String,
    pub request_schema: Option<String>,
}

impl View for ListedOperation {
    type V = ListedView;

    open spec fn view(&self) -> ListedView {
        ListedView {
            operation_id: characters(self.operation_id),
            method: self.method@,
            path: self.path@,
            request_schema: characters(self.request_schema),
        }
    }
}

/// The listing of one slot of a path: one operation, or nothing.
pub open spec fn slot(path: Seq<char>, method: Seq<char>, operation: Option<ApiOperation>) -> Seq<
    ListedView,
> {
    match operation {
        Some(operation) => seq![
            ListedView {
                operation_id: characters(operation.operation_id),
                method,
                path,
                request_schema: operation.schema_reference(),
            },
        ],
        None => seq![],
    }
}

impl ApiPath {
    /// A listing with the operations at the path behind it, in the order the
    /// methods are walked.
    pub open spec fn listed_after(self, before: Seq<ListedView>) -> Seq<ListedView> {
        before + slot(self.path@, "GET"@, self.get) + slot(self.path@, "PUT"@, self.put) + slot(
            self.path@,
            "POST"@,
            self.post,
        ) + slot(self.path@, "DELETE"@, self.delete) + slot(self.path@, "OPTIONS"@, self.options)
            + slot(self.path@, "HEAD"@, self.head) + slot(self.path@, "PATCH"@, self.patch) + slot(
            self.path@,
            "TRACE"@,
            self.trace,
        )
    }
}

/// The operations of several paths, one path after another.
pub open spec fn listing(paths: Seq<ApiPath>) -> Seq<ListedView>
    decreases paths.len(),
{
    if paths.len() == 0 {
        seq![]
    } else {
        paths.last().listed_after(listing(paths.drop_last()))
    }
}

/// The views of several listed operations.
pub open spec fn views(listed: Seq<ListedOperation>) -> Seq<ListedView> {
    Seq::new(listed.len(), |i: int| listed[i]@)
}

fn push_slot(
    listed: &mut Vec<ListedOperation>,
    path: &String,
    method: &str,
    operation: &Option<ApiOperation>,
)
    ensures
        views(final(listed)@) == views(old(listed)@) + slot(path@, method@, *operation),
{
    if let Some(operation) = operation {
        let entry = ListedOperation {
            operation_id: operation.operation_id.clone(),
            method: method.to_owned(),
            path: path.clone(),
            request_schema: request_schema(operation),
        };
        listed.push(entry);
    }
    assert(views(listed@) =~= views(old(listed)@) + slot(path@, method@, *operation));
}

impl ApiDocument {
    /// Every operation of the document, path by path and within a path in the
    /// order the methods are walked.
    pub fn listed(&self) -> (listed: Vec<ListedOperation>)
        ensures
            views(listed@) == listing(self.paths@),
    {
        let mut listed: Vec<ListedOperation> = Vec::new();
        let mut next: usize = 0;
        assert(views(listed@) =~= listing(self.paths@.take(0)));
        while next < self.paths.len()
            invariant
                next <= self.paths@.len(),
                views(listed@) == listing(self.paths@.take(next as int)),
            decreases self.paths@.len() - next,
        {
            let item = &self.paths[next];
            let ghost before = views(listed@);
            push_slot(&mut listed, &item.path, "GET", &item.get);
            push_slot(&mut listed, &item.path, "PUT", &item.put);
            push_slot(&mut listed, &item.path, "POST", &item.post);
            push_slot(&mut listed, &item.path, "DELETE", &item.delete);
            push_slot(&mut listed, &item.path, "OPTIONS", &item.options);
            push_slot(&mut listed, &item.path, "HEAD", &item.head);
            push_slot(&mut listed, &item.path, "PATCH", &item.patch);
            push_slot(&mut listed, &item.path, "TRACE", &item.trace);
            proof {
                let taken = self.paths@.take(next + 1);
                assert(taken.drop_last() =~= self.paths@.take(next as int));
                assert(taken.last() == self.paths@[next as int]);
                assert(views(listed@) == item.listed_after(before));
            }
            next = next + 1;
        }
        assert(self.paths@.take(next as int) =~= self.paths@);
        listed
    }
}

/// An optional text is its characters, absent where it is absent, and a listed operation
/// is read by its four texts.
pub proof fn law_a_listed_operation_is_its_texts(listed: ListedOperation)
    ensures
        listed@.method == listed.method@,
        listed@.path == listed.path@,
        match (listed@.operation_id, listed.operation_id) {
            (Some(told), Some(meant)) => told == meant@,
            (None, None) => true,
            _ => false,
        },
        match (listed@.request_schema, listed.request_schema) {
            (Some(told), Some(meant)) => told == meant@,
            (None, None) => true,
            _ => false,
        },
{
}

/// The reference of a request body is that of the first content it holds as JSON; a body
/// that is missing, that holds no JSON, or whose schema is no reference names none.
pub proof fn law_a_reference_is_that_of_the_json_body(
    operation: ApiOperation,
    contents: Vec<MediaContent>,
    index: int,
)
    ensures
        operation.request_body is None ==> operation.schema_reference() is None,
        operation.request_body == Some(contents) && (forall|i: int|
            0 <= i < contents@.len() ==> (#[trigger] contents@[i]).media_type@
                != "application/json"@) ==> operation.schema_reference() is None,
        operation.request_body == Some(contents) && 0 <= index < contents@.len()
            && contents@[index].media_type@ == "application/json"@ && (forall|i: int|
            0 <= i < index ==> (#[trigger] contents@[i]).media_type@ != "application/json"@)
            ==> match contents@[index].schema {
            Some(BodySchema::Reference(reference)) => operation.schema_reference() == Some(
                reference@,
            ),
            _ => operation.schema_reference() is None,
        },
{
    if operation.request_body == Some(contents) && 0 <= index < contents@.len()
        && contents@[index].media_type@ == "application/json"@ && (forall|i: int|
        0 <= i < index ==> (#[trigger] contents@[i]).media_type@ != "application/json"@) {
        assert(ApiOperation::is_first_content(contents@, "application/json"@, index));
        let first = choose|i: int|
            #[trigger] ApiOperation::is_first_content(contents@, "application/json"@, i);
        assert(contents@[first].media_type@ == "application/json"@);
        assert(first == index);
    }
}

/// What two runs hold is what either holds.
proof fn lemma_in_either(one: Seq<ListedView>, other: Seq<ListedView>, entry: ListedView)
    ensures
        (one + other).contains(entry) <==> one.contains(entry) || other.contains(entry),
{
    let all = one + other;
    if all.contains(entry) {
        let i = choose|i: int| 0 <= i < all.len() && all[i] == entry;
        if i < one.len() {
            assert(one[i] == entry);
        } else {
            assert(other[i - one.len()] == entry);
        }
    }
    if one.contains(entry) {
        let i = choose|i: int| 0 <= i < one.len() && one[i] == entry;
        assert(all[i] == entry);
    }
    if other.contains(entry) {
        let i = choose|i: int| 0 <= i < other.len() && other[i] == entry;
        assert(all[i + one.len()] == entry);
    }
}

/// A slot holds its one operation, or nothing.
proof fn lemma_in_slot(
    path: Seq<char>,
    method: Seq<char>,
    operation: Option<ApiOperation>,
    entry: ListedView,
)
    ensures
        slot(path, method, operation).contains(entry) <==> (operation matches Some(stated)
            && entry.path == path && entry.method == method && entry.operation_id == characters(
            stated.operation_id,
        ) && entry.request_schema == stated.schema_reference()),
{
    if operation is Some {
        let stated = operation->0;
        let only = ListedView {
            operation_id: characters(stated.operation_id),
            method,
            path,
            request_schema: stated.schema_reference(),
        };
        assert(slot(path, method, operation)[0] == only);
    }
}

/// The listing after a path holds what it held and the operations at the path.
proof fn lemma_in_path(item: ApiPath, before: Seq<ListedView>, entry: ListedView)
    ensures
        item.listed_after(before).contains(entry) <==> {
            ||| before.contains(entry)
            ||| slot(item.path@, "GET"@, item.get).contains(entry)
            ||| slot(item.path@, "PUT"@, item.put).contains(entry)
            ||| slot(item.path@, "POST"@, item.post).contains(entry)
            ||| slot(item.path@, "DELETE"@, item.delete).contains(entry)
            ||| slot(item.path@, "OPTIONS"@, item.options).contains(entry)
            ||| slot(item.path@, "HEAD"@, item.head).contains(entry)
            ||| slot(item.path@, "PATCH"@, item.patch).contains(entry)
            ||| slot(item.path@, "TRACE"@, item.trace).contains(entry)
        },
{
    let with_get = before + slot(item.path@, "GET"@, item.get);
    lemma_in_either(before, slot(item.path@, "GET"@, item.get), entry);
    let with_put = with_get + slot(item.path@, "PUT"@, item.put);
    lemma_in_either(with_get, slot(item.path@, "PUT"@, item.put), entry);
    let with_post = with_put + slot(item.path@, "POST"@, item.post);
    lemma_in_either(with_put, slot(item.path@, "POST"@, item.post), entry);
    let with_delete = with_post + slot(item.path@, "DELETE"@, item.delete);
    lemma_in_either(with_post, slot(item.path@, "DELETE"@, item.delete), entry);
    let with_options = with_delete + slot(item.path@, "OPTIONS"@, item.options);
    lemma_in_either(with_delete, slot(item.path@, "OPTIONS"@, item.options), entry);
    let with_head = with_options + slot(item.path@, "HEAD"@, item.head);
    lemma_in_either(with_options, slot(item.path@, "HEAD"@, item.head), entry);
    let with_patch = with_head + slot(item.path@, "PATCH"@, item.patch);
    lemma_in_either(with_head, slot(item.path@, "PATCH"@, item.patch), entry);
    let with_trace = with_patch + slot(item.path@, "TRACE"@, item.trace);
    lemma_in_either(with_patch, slot(item.path@, "TRACE"@, item.trace), entry);
    assert(item.listed_after(before) == with_trace);
}

/// A listing holds exactly the operations of the contract, each with its identifier and
/// its schema, under its own method and at its own path.
pub proof fn law_every_operation_is_listed_where_it_stands(
    paths: Seq<ApiPath>,
    entry: ListedView,
)
    ensures
        listing(paths).contains(entry) <==> exists|k: int|
            0 <= k < paths.len() && (#[trigger] paths[k]).path@ == entry.path && {
                ||| entry.method == "GET"@ && (paths[k].get matches Some(stated)
                    && entry.operation_id == characters(stated.operation_id) && entry.request_schema
                    == stated.schema_reference())
                ||| entry.method == "PUT"@ && (paths[k].put matches Some(stated)
                    && entry.operation_id == characters(stated.operation_id) && entry.request_schema
                    == stated.schema_reference())
                ||| entry.method == "POST"@ && (paths[k].post matches Some(stated)
                    && entry.operation_id == characters(stated.operation_id) && entry.request_schema
                    == stated.schema_reference())
                ||| entry.method == "DELETE"@ && (paths[k].delete matches Some(stated)
                    && entry.operation_id == characters(stated.operation_id) && entry.request_schema
                    == stated.schema_reference())
                ||| entry.method == "OPTIONS"@ && (paths[k].options matches Some(stated)
                    && entry.operation_id == characters(stated.operation_id) && entry.request_schema
                    == stated.schema_reference())
                ||| entry.method == "HEAD"@ && (paths[k].head matches Some(stated)
                    && entry.operation_id == characters(stated.operation_id) && entry.request_schema
                    == stated.schema_reference())
                ||| entry.method == "PATCH"@ && (paths[k].patch matches Some(stated)
                    && entry.operation_id == characters(stated.operation_id) && entry.request_schema
                    == stated.schema_reference())
                ||| entry.method == "TRACE"@ && (paths[k].trace matches Some(stated)
                    && entry.operation_id == characters(stated.operation_id) && entry.request_schema
                    == stated.schema_reference())
            },
    decreases paths.len(),
{
    if paths.len() > 0 {
        let shorter = paths.drop_last();
        let item = paths.last();
        let last = paths.len() - 1;
        law_every_operation_is_listed_where_it_stands(shorter, entry);
        lemma_in_path(item, listing(shorter), entry);
        lemma_in_slot(item.path@, "GET"@, item.get, entry);
        lemma_in_slot(item.path@, "PUT"@, item.put, entry);
        lemma_in_slot(item.path@, "POST"@, item.post, entry);
        lemma_in_slot(item.path@, "DELETE"@, item.delete, entry);
        lemma_in_slot(item.path@, "OPTIONS"@, item.options, entry);
        lemma_in_slot(item.path@, "HEAD"@, item.head, entry);
        lemma_in_slot(item.path@, "PATCH"@, item.patch, entry);
        lemma_in_slot(item.path@, "TRACE"@, item.trace, entry);
        assert(paths[last] == item);
        if listing(shorter).contains(entry) {
            let k = choose|k: int|
                0 <= k < shorter.len() && (#[trigger] shorter[k]).path@ == entry.path && {
                    ||| entry.method == "GET"@ && (shorter[k].get matches Some(stated)
                        && entry.operation_id == characters(stated.operation_id) && entry.request_schema
                        == stated.schema_reference())
                    ||| entry.method == "PUT"@ && (shorter[k].put matches Some(stated)
                        && entry.operation_id == characters(stated.operation_id) && entry.request_schema
                        == stated.schema_reference())
                    ||| entry.method == "POST"@ && (shorter[k].post matches Some(stated)
                        && entry.operation_id == characters(stated.operation_id) && entry.request_schema
                        == stated.schema_reference())
                    ||| entry.method == "DELETE"@ && (shorter[k].delete matches Some(stated)
                        && entry.operation_id == characters(stated.operation_id) && entry.request_schema
                        == stated.schema_reference())
                    ||| entry.method == "OPTIONS"@ && (shorter[k].options matches Some(stated)
                        && entry.operation_id == characters(stated.operation_id) && entry.request_schema
                        == stated.schema_reference())
                    ||| entry.method == "HEAD"@ && (shorter[k].head matches Some(stated)
                        && entry.operation_id == characters(stated.operation_id) && entry.request_schema
                        == stated.schema_reference())
                    ||| entry.method == "PATCH"@ && (shorter[k].patch matches Some(stated)
                        && entry.operation_id == characters(stated.operation_id) && entry.request_schema
                        == stated.schema_reference())
                    ||| entry.method == "TRACE"@ && (shorter[k].trace matches Some(stated)
                        && entry.operation_id == characters(stated.operation_id) && entry.request_schema
                        == stated.schema_reference())
                };
            assert(paths[k] == shorter[k]);
        }
        if exists|k: int|
            0 <= k < paths.len() && (#[trigger] paths[k]).path@ == entry.path && {
                ||| entry.method == "GET"@ && (paths[k].get matches Some(stated)
                    && entry.operation_id == characters(stated.operation_id) && entry.request_schema
                    == stated.schema_reference())
                ||| entry.method == "PUT"@ && (paths[k].put matches Some(stated)
                    && entry.operation_id == characters(stated.operation_id) && entry.request_schema
                    == stated.schema_reference())
                ||| entry.method == "POST"@ && (paths[k].post matches Some(stated)
                    && entry.operation_id == characters(stated.operation_id) && entry.request_schema
                    == stated.schema_reference())
                ||| entry.method == "DELETE"@ && (paths[k].delete matches Some(stated)
                    && entry.operation_id == characters(stated.operation_id) && entry.request_schema
                    == stated.schema_reference())
                ||| entry.method == "OPTIONS"@ && (paths[k].options matches Some(stated)
                    && entry.operation_id == characters(stated.operation_id) && entry.request_schema
                    == stated.schema_reference())
                ||| entry.method == "HEAD"@ && (paths[k].head matches Some(stated)
                    && entry.operation_id == characters(stated.operation_id) && entry.request_schema
                    == stated.schema_reference())
                ||| entry.method == "PATCH"@ && (paths[k].patch matches Some(stated)
                    && entry.operation_id == characters(stated.operation_id) && entry.request_schema
                    == stated.schema_reference())
                ||| entry.method == "TRACE"@ && (paths[k].trace matches Some(stated)
                    && entry.operation_id == characters(stated.operation_id) && entry.request_schema
                    == stated.schema_reference())
            } {
            let k = choose|k: int|
                0 <= k < paths.len() && (#[trigger] paths[k]).path@ == entry.path && {
                    ||| entry.method == "GET"@ && (paths[k].get matches Some(stated)
                        && entry.operation_id == characters(stated.operation_id) && entry.request_schema
                        == stated.schema_reference())
                    ||| entry.method == "PUT"@ && (paths[k].put matches Some(stated)
                        && entry.operation_id == characters(stated.operation_id) && entry.request_schema
                        == stated.schema_reference())
                    ||| entry.method == "POST"@ && (paths[k].post matches Some(stated)
                        && entry.operation_id == characters(stated.operation_id) && entry.request_schema
                        == stated.schema_reference())
                    ||| entry.method == "DELETE"@ && (paths[k].delete matches Some(stated)
                        && entry.operation_id == characters(stated.operation_id) && entry.request_schema
                        == stated.schema_reference())
                    ||| entry.method == "OPTIONS"@ && (paths[k].options matches Some(stated)
                        && entry.operation_id == characters(stated.operation_id) && entry.request_schema
                        == stated.schema_reference())
                    ||| entry.method == "HEAD"@ && (paths[k].head matches Some(stated)
                        && entry.operation_id == characters(stated.operation_id) && entry.request_schema
                        == stated.schema_reference())
                    ||| entry.method == "PATCH"@ && (paths[k].patch matches Some(stated)
                        && entry.operation_id == characters(stated.operation_id) && entry.request_schema
                        == stated.schema_reference())
                    ||| entry.method == "TRACE"@ && (paths[k].trace matches Some(stated)
                        && entry.operation_id == characters(stated.operation_id) && entry.request_schema
                        == stated.schema_reference())
                };
            if k < last {
                assert(shorter[k] == paths[k]);
            }
        }
    }
}

/// Paths are walked in the document's order, and the methods of a path in this one.
pub proof fn law_the_contract_is_walked_in_order(
    paths: Seq<ApiPath>,
    another: ApiPath,
)
    ensures
        listing(seq![]).len() == 0,
        listing(paths.push(another)) == listing(paths) + slot(another.path@, "GET"@, another.get)
            + slot(another.path@, "PUT"@, another.put) + slot(
            another.path@,
            "POST"@,
            another.post,
        ) + slot(another.path@, "DELETE"@, another.delete) + slot(
            another.path@,
            "OPTIONS"@,
            another.options,
        ) + slot(another.path@, "HEAD"@, another.head) + slot(
            another.path@,
            "PATCH"@,
            another.patch,
        ) + slot(another.path@, "TRACE"@, another.trace),
{
    assert(paths.push(another).drop_last() =~= paths);
}

} // verus!
