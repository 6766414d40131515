//! Serves the static ui files, and redirects other page requests to the portal page.

use vstd::prelude::*;
use crate::text::{
    concat, decimal, file_name_of, find_last, ipv4_text, last_index_of, owned, spec_contains, str_contains, str_eq,
    suffix, u64_to_decimal, Ipv4Address,
};

verus! {

/// A file of the portal page: its path and contents.
#[derive(Debug, PartialEq)]
pub struct FileWrapper {
    path: String,
    contents: Vec<u8>,
}

impl FileWrapper {
    /// A file with the given path and contents.
    pub fn new(path: String, contents: Vec<u8>) -> (r: FileWrapper)
        ensures
            r.path_view() == path@,
            r.contents_view() == contents@,
    {
        FileWrapper { path, contents }
    }

    pub closed spec fn path_view(&self) -> Seq<char> {
        self.path@
    }

    pub closed spec fn contents_view(&self) -> Seq<u8> {
        self.contents@
    }

    /// The file's path.
    pub fn path(&self) -> (r: &str)
        ensures
            r@ == self.path_view(),
    {
        self.path.as_str()
    }

    /// The file's raw contents.
    /// This method consumes the file wrapper
    pub fn contents(self) -> (r: Vec<u8>)
        ensures
            r@ == self.contents_view(),
    {
        self.contents
    }
}

/// The media type for a file extension.
pub open spec fn mime_of(ext: Seq<char>) -> Seq<char> {
    if ext == "html"@ {
        "text/html"@
    } else if ext == "js"@ {
        "application/javascript"@
    } else if ext == "png"@ {
        "image/png"@
    } else if ext == "css"@ {
        "text/css"@
    } else {
        "application/octet-stream"@
    }
}

/// The media type for a file extension: html, js, png, css; anything else is binary.
pub fn mime_type_from_ext(ext: &str) -> (r: &'static str)
    ensures
        r@ == mime_of(ext@),
{
    if str_eq(ext, "html") {
        "text/html"
    } else if str_eq(ext, "js") {
        "application/javascript"
    } else if str_eq(ext, "png") {
        "image/png"
    } else if str_eq(ext, "css") {
        "text/css"
    } else {
        "application/octet-stream"
    }
}

/// The extension of a path: the part of the file name after its last dot, unless the
/// name has no dot or its only dot is the first character.
pub open spec fn extension_of(path: Seq<char>) -> Option<Seq<char>> {
    let name = file_name_of(path);
    match last_index_of(name, '.') {
        Some(i) => if i > 0 {
            Some(name.subrange(i + 1, name.len() as int))
        } else {
            None
        },
        None => None,
    }
}

/// The extension of a path.
pub fn extension(path: &str) -> (r: Option<String>)
    ensures
        match r {
            Some(e) => extension_of(path@) == Some(e@),
            None => extension_of(path@) is None,
        },
{
    let name = match find_last(path, '/') {
        Some(i) => suffix(path, i + 1),
        None => owned(path),
    };
    assert(name@ == file_name_of(path@));
    match find_last(name.as_str(), '.') {
        Some(i) => if i > 0 {
            Some(suffix(name.as_str(), i + 1))
        } else {
            None
        },
        None => None,
    }
}

/// The media type of a file: by its extension, binary if it has none.
pub fn mime_type_of_file(file: &FileWrapper) -> (r: &'static str)
    ensures
        r@ == match extension_of(file.path_view()) {
            Some(e) => mime_of(e),
            None => "application/octet-stream"@,
        },
{
    match extension(file.path()) {
        Some(ext) => mime_type_from_ext(ext.as_str()),
        None => "application/octet-stream",
    }
}

/// The requested file's path: the request path without its leading slash.
pub fn requested_file(uri_path: &str) -> (r: String)
    requires
        uri_path@.len() >= 1,
    ensures
        r@ == uri_path@.subrange(1, uri_path@.len() as int),
{
    suffix(uri_path, 1)
}

/// The address of the portal page.
pub open spec fn portal_location(ip: Ipv4Address, port: u16) -> Seq<char> {
    "http://"@ + ipv4_text(ip) + ":"@ + decimal(port as nat) + "/index.html"@
}

/// The response of the file service.
#[derive(Debug, PartialEq)]
pub enum FileResponse {
    /// 302 Found, to the portal page
    Redirect { location: String },
    /// 200 OK, with the file's media type and contents
    Serve { mime: &'static str, contents: Vec<u8> },
    /// 404 Not Found
    NotFound,
}

/// A captive portal catches all page requests (that accept any type or text) for which
/// there is no file and redirects them to the main page. Existing files are served with
/// their media type. Anything else is not found.
pub fn serve_file(
    file: Option<FileWrapper>,
    accept: Option<&str>,
    server_ip: Ipv4Address,
    server_port: u16,
) -> (r: FileResponse)
    ensures
        match file {
            None => match accept {
                Some(a) => if spec_contains(a@, "text"@) || spec_contains(a@, "*/*"@) {
                    r matches FileResponse::Redirect { location } && location@ == portal_location(server_ip, server_port)
                } else {
                    r is NotFound
                },
                None => r is NotFound,
            },
            Some(f) => r matches FileResponse::Serve { mime, contents } && contents@ == f.contents_view()
                && mime@ == match extension_of(f.path_view()) {
                    Some(e) => mime_of(e),
                    None => "application/octet-stream"@,
                },
        },
{
    match file {
        None => {
            match accept {
                Some(accept) => {
                    if str_contains(accept, "text") || str_contains(accept, "*/*") {
                        let mut location = concat("http://", server_ip.to_text().as_str());
                        location.append(":");
                        location.append(u64_to_decimal(server_port as u64).as_str());
                        location.append("/index.html");
                        return FileResponse::Redirect { location };
                    }
                },
                None => {},
            }
            FileResponse::NotFound
        },
        Some(file) => {
            let mime = mime_type_of_file(&file);
            FileResponse::Serve { mime, contents: file.contents() }
        },
    }
}

} // verus!
