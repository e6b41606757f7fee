//! What a file server answers for one path.
//!
//! Looking at the disk and talking to the network is the caller's part. It
//! tells this module what it found under the path; the status, the content
//! type and the body of the answer are decided here.
use vstd::prelude::*;
use vstd::string::StringExecFns;

verus! {

/// What lies under a requested path.
#[derive(Debug, Clone, PartialEq, Eq)]
pub enum FileProbe {
    /// Nothing.
    Missing,
    /// A directory, with the names of its entries.
    Directory(Vec<String>),
    /// A file, with the text that it holds.
    Text(String),
    /// A file that could not be read as text, with the reading error's words.
    Unreadable(String),
}

/// The answer to a request.
#[derive(Debug, Clone, PartialEq, Eq)]
pub struct FileResponse {
    /// The HTTP status code.
    pub status: u16,
    /// The value of the `Content-Type` header.
    pub content_type: &'static str,
    /// The body.
    pub body: String,
}

/// The status of an answer that carries what was asked for.
pub const STATUS_OK: u16 = 200;

/// The status of the answer for a path under which nothing lies.
pub const STATUS_NOT_FOUND: u16 = 404;

/// The status of the answer for a file that could not be read.
pub const STATUS_INTERNAL_SERVER_ERROR: u16 = 500;

/// The list item that links to the entry `name`.
pub open spec fn entry_item(name: Seq<char>) -> Seq<char> {
    "<li><a href=\""@ + name + "\">"@ + name + "</a></li>"@
}

/// The list items of `names`, one behind the other.
pub open spec fn entry_items(names: Seq<Seq<char>>) -> Seq<char>
    decreases names.len(),
{
    if names.len() == 0 {
        Seq::empty()
    } else {
        entry_items(names.drop_last()) + entry_item(names.last())
    }
}

/// The page that lists a directory's entries.
pub open spec fn listing_page(names: Seq<Seq<char>>) -> Seq<char> {
    "<html><body><ul>"@ + entry_items(names) + "</ul></body></html>"@
}

/// The status of the answer for `probe`.
pub open spec fn response_status(probe: FileProbe) -> u16 {
    match probe {
        FileProbe::Missing => STATUS_NOT_FOUND,
        FileProbe::Directory(_) => STATUS_OK,
        FileProbe::Text(_) => STATUS_OK,
        FileProbe::Unreadable(_) => STATUS_INTERNAL_SERVER_ERROR,
    }
}

/// The content type of the answer for `probe`: a directory is answered with
/// a page, everything else with plain text.
pub open spec fn response_content_type(probe: FileProbe) -> Seq<char> {
    match probe {
        FileProbe::Directory(_) => "text/html"@,
        _ => "text/plain"@,
    }
}

/// The body of the answer for `probe` under the path shown as `shown_path`.
pub open spec fn response_body(shown_path: Seq<char>, probe: FileProbe) -> Seq<char> {
    match probe {
        FileProbe::Missing => "File not found: "@ + shown_path,
        FileProbe::Directory(names) => listing_page(names.deep_view()),
        FileProbe::Text(content) => content@,
        FileProbe::Unreadable(reason) => "Failed to read file: "@ + reason@,
    }
}

/// The page that lists the entries `names` of a directory, each as a link to
/// itself.
pub fn directory_listing(names: &Vec<String>) -> (page: String)
    ensures
        page@ == listing_page(names.deep_view()),
{
    let mut page = String::from_str("<html><body><ul>");
    let mut i: usize = 0;
    while i < names.len()
        invariant
            i <= names@.len(),
            page@ == "<html><body><ul>"@ + entry_items(names.deep_view().take(i as int)),
        decreases names@.len() - i,
    {
        let name = names[i].as_str();
        let ghost before = page@;
        page.append("<li><a href=\"");
        page.append(name);
        page.append("\">");
        page.append(name);
        page.append("</a></li>");
        proof {
            let shown = names.deep_view().take(i + 1);
            assert(shown.drop_last() =~= names.deep_view().take(i as int));
            assert(shown.last() == name@);
            assert(page@ =~= before + entry_item(name@));
        }
        i += 1;
    }
    assert(names.deep_view().take(i as int) =~= names.deep_view());
    page.append("</ul></body></html>");
    page
}

/// The answer for `probe`, found under the path shown as `shown_path`.
pub fn file_response(shown_path: &str, probe: FileProbe) -> (response: FileResponse)
    ensures
        response.status == response_status(probe),
        response.content_type@ == response_content_type(probe),
        response.body@ == response_body(shown_path@, probe),
{
    match probe {
        FileProbe::Missing => {
            let mut body = String::from_str("File not found: ");
            body.append(shown_path);
            FileResponse { status: STATUS_NOT_FOUND, content_type: "text/plain", body }
        },
        FileProbe::Directory(names) => {
            let body = directory_listing(&names);
            FileResponse { status: STATUS_OK, content_type: "text/html", body }
        },
        FileProbe::Text(content) => {
            FileResponse { status: STATUS_OK, content_type: "text/plain", body: content }
        },
        FileProbe::Unreadable(reason) => {
            let mut body = String::from_str("Failed to read file: ");
            body.append(reason.as_str());
            FileResponse { status: STATUS_INTERNAL_SERVER_ERROR, content_type: "text/plain", body }
        },
    }
}

} // verus!
