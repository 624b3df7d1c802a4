//! A request to the server, as the client prepares it for sending.
use vstd::prelude::*;

verus! {

/// The HTTP method of a request.
#[derive(Debug, Clone, Copy, PartialEq, Eq, Structural)]
pub enum HttpMethod {
    Get,
    Post,
}

/// A name and a value, as text.
pub type TextPair = (Seq<char>, Seq<char>);

/// The text view of name/value pairs.
pub open spec fn pairs_view(v: Seq<(String, String)>) -> Seq<TextPair> {
    v.map_values(|p: (String, String)| (p.0@, p.1@))
}

/// The view of optional name/value pairs.
pub open spec fn opt_pairs_view(v: Option<Vec<(String, String)>>) -> Option<Seq<TextPair>> {
    match v {
        Some(p) => Some(pairs_view(p@)),
        None => None,
    }
}

/// The view of uploaded files: a file name and the file's bytes.
pub open spec fn files_view(v: Seq<(String, Vec<u8>)>) -> Seq<(Seq<char>, Seq<u8>)> {
    v.map_values(|f: (String, Vec<u8>)| (f.0@, f.1@))
}

/// A `multipart/form-data` body: text fields, and files sent as parts named `torrents`.
pub struct MultipartBody {
    pub text: Vec<(String, String)>,
    pub files: Vec<(String, Vec<u8>)>,
}

/// What a multipart body holds.
pub struct MultipartView {
    pub text: Seq<TextPair>,
    pub files: Seq<(Seq<char>, Seq<u8>)>,
}

impl View for MultipartBody {
    type V = MultipartView;

    open spec fn view(&self) -> MultipartView {
        MultipartView { text: pairs_view(self.text@), files: files_view(self.files@) }
    }
}

/// The view of an optional multipart body.
pub open spec fn opt_multipart_view(m: Option<MultipartBody>) -> Option<MultipartView> {
    match m {
        Some(b) => Some(b@),
        None => None,
    }
}

/// Everything that is sent: method, absolute URL, the `Referer` header, the query,
/// and the form or multipart body.
pub struct PreparedRequest {
    pub method: HttpMethod,
    pub url: String,
    pub referer: String,
    pub query: Option<Vec<(String, String)>>,
    pub form: Option<Vec<(String, String)>>,
    pub multipart: Option<MultipartBody>,
}

/// What a prepared request holds.
pub struct PreparedView {
    pub method: HttpMethod,
    pub url: Seq<char>,
    pub referer: Seq<char>,
    pub query: Option<Seq<TextPair>>,
    pub form: Option<Seq<TextPair>>,
    pub multipart: Option<MultipartView>,
}

impl View for PreparedRequest {
    type V = PreparedView;

    open spec fn view(&self) -> PreparedView {
        PreparedView {
            method: self.method,
            url: self.url@,
            referer: self.referer@,
            query: opt_pairs_view(self.query),
            form: opt_pairs_view(self.form),
            multipart: opt_multipart_view(self.multipart),
        }
    }
}

/// Appends the pair `(name, value)`.
pub fn push_param(v: &mut Vec<(String, String)>, name: &str, value: String)
    ensures
        pairs_view(final(v)@) == pairs_view(old(v)@).push((name@, value@)),
{
    v.push((name.to_owned(), value));
    proof {
        assert(pairs_view(v@) =~= pairs_view(old(v)@).push((name@, value@)));
    }
}

} // verus!
