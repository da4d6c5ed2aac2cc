//! What is sent to the backend, and what comes back.
//!
//! This library sends nothing itself. It says what to send, as a [`Form`] or
//! an [`Upload`], and judges what came back; the caller does the sending.
//! What came back is a [`Reply`], with the bytes of the body, as long as
//! nobody has looked into it, and an [`Answer`], with the document that the
//! body spells, from then on. [`read`] leads from the one to the other: it
//! is where the body of a reply is parsed, and everything that judges what
//! the backend said works on answers.

use vstd::prelude::*;
use crate::json::{json_of, parse, parsed, Json};

verus! {

/// A request whose body is a form of names and values.
#[derive(Debug, Clone, PartialEq, Eq)]
pub struct Form {
    pub url: String,
    pub params: Vec<(String, String)>,
}

/// The content of a [`Form`].
pub struct FormView {
    pub url: Seq<char>,
    pub params: Seq<(Seq<char>, Seq<char>)>,
}

/// The names and values of a form's fields, in order.
pub open spec fn pairs_of(params: Seq<(String, String)>) -> Seq<(Seq<char>, Seq<char>)> {
    params.map_values(|p: (String, String)| (p.0@, p.1@))
}

impl View for Form {
    type V = FormView;

    open spec fn view(&self) -> FormView {
        FormView { url: self.url@, params: pairs_of(self.params@) }
    }
}

/// A request that carries a file beside the fields of a form.
#[derive(Debug, Clone, PartialEq, Eq)]
pub struct Upload {
    pub url: String,
    pub fields: Vec<(String, String)>,
    /// The name of the field that carries the file.
    pub part: String,
    pub file_name: String,
    pub mime_type: String,
    pub content: Vec<u8>,
}

/// The content of an [`Upload`].
pub struct UploadView {
    pub url: Seq<char>,
    pub fields: Seq<(Seq<char>, Seq<char>)>,
    pub part: Seq<char>,
    pub file_name: Seq<char>,
    pub mime_type: Seq<char>,
    pub content: Seq<u8>,
}

impl View for Upload {
    type V = UploadView;

    open spec fn view(&self) -> UploadView {
        UploadView {
            url: self.url@,
            fields: pairs_of(self.fields@),
            part: self.part@,
            file_name: self.file_name@,
            mime_type: self.mime_type@,
            content: self.content@,
        }
    }
}

/// What came of sending a request.
#[derive(Debug, Clone, PartialEq, Eq)]
pub enum Reply {
    /// The request could not be delivered, or no answer came.
    Unreachable,
    /// The backend answered. `body` is `None` where the answer's body could
    /// not be read.
    Received { status: u16, body: Option<Vec<u8>> },
}

/// The body of an answer.
pub enum Content {
    /// The body could not be read.
    Unreadable,
    /// The body is not JSON.
    Garbled,
    /// The body spells this document.
    Document(serde_json::Value),
}

/// The content of a [`Content`].
pub enum ContentView {
    Unreadable,
    Garbled,
    Document(Json),
}

impl View for Content {
    type V = ContentView;

    open spec fn view(&self) -> ContentView {
        match self {
            Content::Unreadable => ContentView::Unreadable,
            Content::Garbled => ContentView::Garbled,
            Content::Document(v) => ContentView::Document(json_of(*v)),
        }
    }
}

/// What came of sending a request, with the body read.
pub enum Answer {
    /// The request could not be delivered, or no answer came.
    Unreachable,
    /// The backend answered.
    Received { status: u16, content: Content },
}

/// The content of an [`Answer`].
pub enum AnswerView {
    Unreachable,
    Received { status: u16, content: ContentView },
}

impl View for Answer {
    type V = AnswerView;

    open spec fn view(&self) -> AnswerView {
        match self {
            Answer::Unreachable => AnswerView::Unreachable,
            Answer::Received { status, content } => AnswerView::Received {
                status: *status,
                content: content@,
            },
        }
    }
}

/// The answer that a reply holds: the same, with the body parsed.
pub open spec fn reading(reply: Reply) -> AnswerView {
    match reply {
        Reply::Unreachable => AnswerView::Unreachable,
        Reply::Received { status, body } => AnswerView::Received {
            status,
            content: match body {
                None => ContentView::Unreadable,
                Some(bytes) => match parsed(bytes@) {
                    Some(doc) => ContentView::Document(doc),
                    None => ContentView::Garbled,
                },
            },
        },
    }
}

/// Reads a reply: parses its body, where it has one.
pub fn read(reply: &Reply) -> (r: Answer)
    ensures
        r@ == reading(*reply),
{
    match reply {
        Reply::Unreachable => Answer::Unreachable,
        Reply::Received { status, body } => Answer::Received {
            status: *status,
            content: match body {
                None => Content::Unreadable,
                Some(bytes) => match parse(bytes.as_slice()) {
                    Ok(doc) => Content::Document(doc),
                    Err(_) => Content::Garbled,
                },
            },
        },
    }
}

/// Whether an HTTP status stands for success: one from 200 to 299.
pub open spec fn is_success(status: u16) -> bool {
    200 <= status < 300
}

/// Whether an HTTP status stands for success.
pub fn succeeded(status: u16) -> (r: bool)
    ensures
        r == is_success(status),
{
    200 <= status && status < 300
}

/// Adds a field to the fields of a form.
pub fn put(params: &mut Vec<(String, String)>, name: &str, value: &str)
    ensures
        pairs_of(final(params)@) == pairs_of(old(params)@).push((name@, value@)),
{
    params.push((name.to_owned(), value.to_owned()));
    assert(pairs_of(params@) =~= pairs_of(old(params)@).push((name@, value@)));
}

/// Adds a field to the fields of a form where there is a value for it.
pub fn put_some(params: &mut Vec<(String, String)>, name: &str, value: &Option<String>)
    ensures
        pairs_of(final(params)@) == pairs_of(old(params)@) + optional_field(
            name@,
            crate::text::text_of(*value),
        ),
{
    match value {
        Some(v) => {
            put(params, name, v.as_str());
            assert(pairs_of(params@) =~= pairs_of(old(params)@) + seq![(name@, v@)]);
        },
        None => {
            assert(pairs_of(params@) =~= pairs_of(old(params)@) + Seq::empty());
        },
    }
}

/// A field that is sent only where there is a value for it.
pub open spec fn optional_field(name: Seq<char>, value: Option<Seq<char>>) -> Seq<
    (Seq<char>, Seq<char>),
> {
    match value {
        Some(v) => seq![(name, v)],
        None => Seq::empty(),
    }
}

} // verus!
