//! The CurseForge REST client: its data model, its errors, and the pure
//! parts of its request logic (URL building, status classification, error
//! messages), all verified. The HTTP exchange itself and the JSON value
//! walk go through the trusted wrappers of [`crate::http`]; what the
//! network decides, the contracts here leave open, and everything decided
//! on this side is pinned down.

use vstd::prelude::*;
use vstd::string::StringExecFns;

use crate::http::json_as_str;
use crate::http::json_error_text;
use crate::http::json_get;
use crate::http::json_parse;
use crate::http::minreq_error_text;
use crate::http::request_get;
use crate::http::request_send;
use crate::http::request_with_header;
use crate::http::response_into_bytes;
use crate::http::response_status;
use crate::http::utf8_error_text;

verus! {

/// The decimal digit character for `d` (0 to 9).
pub open spec fn digit_char(d: int) -> char {
    if d == 0 {
        '0'
    } else if d == 1 {
        '1'
    } else if d == 2 {
        '2'
    } else if d == 3 {
        '3'
    } else if d == 4 {
        '4'
    } else if d == 5 {
        '5'
    } else if d == 6 {
        '6'
    } else if d == 7 {
        '7'
    } else if d == 8 {
        '8'
    } else {
        '9'
    }
}

/// The decimal digits of a non-negative number, most significant first.
pub open spec fn spec_udigits(n: int) -> Seq<char>
    decreases n,
{
    if n < 10 {
        seq![digit_char(n)]
    } else {
        spec_udigits(n / 10) + seq![digit_char(n % 10)]
    }
}

/// The decimal rendering of an integer, with a leading minus sign when it
/// is negative.
pub open spec fn spec_int_str(n: int) -> Seq<char> {
    if n < 0 {
        seq!['-'] + spec_udigits(-n)
    } else {
        spec_udigits(n)
    }
}

/// The one-character string for a decimal digit.
fn digit_str(d: u8) -> (r: &'static str)
    requires
        d < 10,
    ensures
        r@ == seq![digit_char(d as int)],
{
    proof {
        reveal_strlit("0");
        reveal_strlit("1");
        reveal_strlit("2");
        reveal_strlit("3");
        reveal_strlit("4");
        reveal_strlit("5");
        reveal_strlit("6");
        reveal_strlit("7");
        reveal_strlit("8");
        reveal_strlit("9");
    }
    match d {
        0 => "0",
        1 => "1",
        2 => "2",
        3 => "3",
        4 => "4",
        5 => "5",
        6 => "6",
        7 => "7",
        8 => "8",
        _ => "9",
    }
}

/// Appends the decimal digits of `n` to `s`, most significant first.
fn push_digits(n: u64, s: &mut String)
    ensures
        final(s)@ == old(s)@ + spec_udigits(n as int),
    decreases n,
{
    if n >= 10 {
        push_digits(n / 10, s);
    }
    s.append(digit_str((n % 10) as u8));
}

/// Renders an integer in decimal, exactly as [`spec_int_str`] says.
pub fn i32_to_string(n: i32) -> (s: String)
    ensures
        s@ == spec_int_str(n as int),
{
    let mut s = String::new();
    if n < 0 {
        proof {
            reveal_strlit("-");
        }
        s.append("-");
        let mag: u64 = (-(n as i64)) as u64;
        push_digits(mag, &mut s);
    } else {
        push_digits(n as u64, &mut s);
    }
    s
}

/// What the client can report: each variant carries the query URL it
/// happened on, and where an outside crate said why, its error too.
pub enum ApiError {
    /// The HTTP exchange itself failed (connection, TLS, I/O).
    HTTPError(minreq::Error, String),
    /// The response was not the JSON the API promises.
    ResponseParseError(serde_json::Error, String, String),
    /// The response body was not valid UTF-8.
    MalformedResponse(core::str::Utf8Error, String),
    /// A non-2xx status other than the specially reported ones.
    BadHTTPResponse(String, i32),
    /// The URL answered 403 Forbidden.
    ForbiddenError(String),
    /// The URL answered 404 Not Found.
    NotFoundError(String),
    /// The URL answered 500 Server Error.
    ServerError(String),
    /// Any other failure, described as text.
    OtherError(String, String),
}

/// The query URL an error happened on.
pub open spec fn error_url(e: ApiError) -> Seq<char> {
    match e {
        ApiError::HTTPError(_, u) => u@,
        ApiError::ResponseParseError(_, u, _) => u@,
        ApiError::MalformedResponse(_, u) => u@,
        ApiError::BadHTTPResponse(u, _) => u@,
        ApiError::ForbiddenError(u) => u@,
        ApiError::NotFoundError(u) => u@,
        ApiError::ServerError(u) => u@,
        ApiError::OtherError(u, _) => u@,
    }
}

/// Whether an HTTP status code reports success.
pub open spec fn status_is_success(code: u16) -> bool {
    200 <= code < 300
}

/// Classifies an HTTP status code for the query URL it came from: success
/// passes the code through, and each failure becomes the error the
/// original status deserves, 403, 404 and 500 by name.
pub fn check_status(code: u16, url: &str) -> (r: Result<u16, ApiError>)
    ensures
        status_is_success(code) <==> (r matches Ok(c) && c == code),
        code == 403 ==> (r matches Err(e) && e matches ApiError::ForbiddenError(u) && u@
            == url@),
        code == 404 ==> (r matches Err(e) && e matches ApiError::NotFoundError(u) && u@ == url@),
        code == 500 ==> (r matches Err(e) && e matches ApiError::ServerError(u) && u@ == url@),
        !status_is_success(code) && code != 403 && code != 404 && code != 500 ==> (r matches Err(e)
            && e matches ApiError::BadHTTPResponse(u, c) && u@ == url@ && c == code as i32),
        r matches Err(e) ==> (e matches ApiError::BadHTTPResponse(u, c) ==> (u@ == url@
            && c == code as i32 && !status_is_success(c as u16) && c != 403 && c != 404 && c
            != 500)),
{
    if code / 100 == 2 {
        Ok(code)
    } else {
        Err(
            match code {
                403 => ApiError::ForbiddenError(url.to_owned()),
                404 => ApiError::NotFoundError(url.to_owned()),
                500 => ApiError::ServerError(url.to_owned()),
                _ => ApiError::BadHTTPResponse(url.to_owned(), code as i32),
            },
        )
    }
}

/// The message shape of an HTTP transport failure, around the outside
/// error's own text.
pub open spec fn spec_http_error_message(url: Seq<char>, detail: Seq<char>) -> Seq<char> {
    "Error contacting "@ + url + ": "@ + detail
}

/// The message shape of a malformed JSON response, around the outside
/// error's own text.
pub open spec fn spec_parse_error_message(
    url: Seq<char>,
    detail: Seq<char>,
    response: Seq<char>,
) -> Seq<char> {
    "Received invalid API data from "@ + url + ": "@ + detail + "\nResponse:"@ + response
}

/// The message shape of a response that was not UTF-8, around the outside
/// error's own text.
pub open spec fn spec_utf8_error_message(url: Seq<char>, detail: Seq<char>) -> Seq<char> {
    "URL "@ + url + " responded with malformed UTF-8: "@ + detail
}

impl ApiError {
    /// One line of text saying what went wrong, for the user. For the
    /// variants that carry an outside crate's error, the error's own
    /// description is spliced into the stated shape.
    pub fn message(&self) -> (r: String)
        ensures
            self matches ApiError::HTTPError(_, u) ==> exists|t: Seq<char>| r@
                == #[trigger] spec_http_error_message(u@, t),
            self matches ApiError::ResponseParseError(_, u, resp) ==> exists|t: Seq<char>| r@
                == #[trigger] spec_parse_error_message(u@, t, resp@),
            self matches ApiError::MalformedResponse(_, u) ==> exists|t: Seq<char>| r@
                == #[trigger] spec_utf8_error_message(u@, t),
            self matches ApiError::BadHTTPResponse(u, c) ==> r@ == "URL "@ + u@
                + " returned HTTP error "@ + spec_int_str(c as int),
            self matches ApiError::ForbiddenError(u) ==> r@ == "URL "@ + u@
                + " returned 403 Forbidden"@,
            self matches ApiError::NotFoundError(u) ==> r@ == "URL "@ + u@
                + " returned 404 Not Found"@,
            self matches ApiError::ServerError(u) ==> r@ == "URL "@ + u@
                + " returned 500 Server Error"@,
            self matches ApiError::OtherError(u, d) ==> r@ == "Error requesting API at "@ + u@
                + ": "@ + d@,
    {
        match self {
            ApiError::HTTPError(error, url) => {
                let mut s = "Error contacting ".to_owned();
                s.append(url.as_str());
                s.append(": ");
                let text = minreq_error_text(error);
                s.append(text.as_str());
                proof {
                    assert(s@ == spec_http_error_message(url@, text@));
                }
                s
            },
            ApiError::ResponseParseError(error, url, response) => {
                let mut s = "Received invalid API data from ".to_owned();
                s.append(url.as_str());
                s.append(": ");
                let text = json_error_text(error);
                s.append(text.as_str());
                s.append("\nResponse:");
                s.append(response.as_str());
                proof {
                    assert(s@ == spec_parse_error_message(url@, text@, response@));
                }
                s
            },
            ApiError::MalformedResponse(error, url) => {
                let mut s = "URL ".to_owned();
                s.append(url.as_str());
                s.append(" responded with malformed UTF-8: ");
                let text = utf8_error_text(error);
                s.append(text.as_str());
                proof {
                    assert(s@ == spec_utf8_error_message(url@, text@));
                }
                s
            },
            ApiError::BadHTTPResponse(url, code) => {
                let mut s = "URL ".to_owned();
                s.append(url.as_str());
                s.append(" returned HTTP error ");
                let num = i32_to_string(*code);
                s.append(num.as_str());
                s
            },
            ApiError::ForbiddenError(url) => {
                let mut s = "URL ".to_owned();
                s.append(url.as_str());
                s.append(" returned 403 Forbidden");
                s
            },
            ApiError::NotFoundError(url) => {
                let mut s = "URL ".to_owned();
                s.append(url.as_str());
                s.append(" returned 404 Not Found");
                s
            },
            ApiError::ServerError(url) => {
                let mut s = "URL ".to_owned();
                s.append(url.as_str());
                s.append(" returned 500 Server Error");
                s
            },
            ApiError::OtherError(url, detail) => {
                let mut s = "Error requesting API at ".to_owned();
                s.append(url.as_str());
                s.append(": ");
                s.append(detail.as_str());
                s
            },
        }
    }
}

/// Turns a result's error side into a prefixed line of text.
pub trait ErrorStringify {
    type Stringified;

    fn stringify_error(self, prefix: &str) -> Self::Stringified;
}

impl<T> ErrorStringify for Result<T, ApiError> {
    type Stringified = Result<T, String>;

    /// `Ok` passes through; an error becomes `"{prefix}: {message}"`.
    fn stringify_error(self, prefix: &str) -> Result<T, String> {
        match self {
            Ok(v) => Ok(v),
            Err(e) => {
                let mut s = prefix.to_owned();
                s.append(": ");
                let m = e.message();
                s.append(m.as_str());
                Err(s)
            },
        }
    }
}

/// A file of a project, as the API reports it.
#[derive(Clone, Debug)]
pub struct File {
    pub id: i32,
    pub game_id: i32,
    pub mod_id: i32,
    pub is_available: bool,
    pub display_name: String,
    pub file_name: String,
    pub release_type: FileReleaseType,
    pub file_status: FileStatus,
    pub hashes: Vec<FileHash>,
    pub file_date: String,
    pub file_length: i64,
    pub download_count: i64,
    pub download_url: String,
    pub game_versions: Vec<String>,
    pub sortable_game_versions: Vec<SortableGameVersion>,
    pub dependencies: Vec<FileDependency>,
    pub expose_as_alternative: Option<bool>,
    pub parent_project_file_id: Option<i32>,
    pub alternate_file_id: Option<i32>,
    pub is_server_pack: Option<bool>,
    pub server_pack_file_id: Option<i32>,
    pub file_fingerprint: i64,
    pub modules: Vec<FileModule>,
}

/// A category a mod is filed under.
#[derive(Clone, Debug)]
pub struct Category {
    pub id: i32,
    pub game_id: i32,
    pub name: String,
    pub slug: String,
    pub url: String,
    pub icon_url: String,
    pub date_modified: String,
    pub is_class: Option<bool>,
    pub class_id: Option<i32>,
    pub parent_category_id: Option<i32>,
    pub display_index: Option<i32>,
}

/// A pointer from a mod to one of its latest files per game version.
#[derive(Clone, Debug)]
pub struct FileIndex {
    pub game_version: String,
    pub file_id: i32,
    pub filename: String,
    pub release_type: FileReleaseType,
    pub game_version_type_id: Option<i32>,
    pub mod_loader: Option<ModLoaderType>,
}

/// An image attached to a mod (logo or screenshot).
#[derive(Clone, Debug)]
pub struct ModAsset {
    pub id: i32,
    pub mod_id: i32,
    pub title: String,
    pub description: String,
    pub thumbnail_url: String,
    pub url: String,
}

/// An author of a mod.
#[derive(Clone, Debug)]
pub struct ModAuthor {
    pub id: i32,
    pub name: String,
    pub url: String,
}

/// The links a mod page advertises.
#[derive(Clone, Debug)]
pub struct ModLinks {
    pub website_url: Option<String>,
    pub wiki_url: Option<String>,
    pub issues_url: Option<String>,
    pub source_url: Option<String>,
}

/// One module inside a file archive, with its fingerprint.
#[derive(Clone, Debug)]
pub struct FileModule {
    pub name: String,
    pub fingerprint: i64,
}

/// A dependency edge from a file to another mod.
#[derive(Clone, Debug)]
pub struct FileDependency {
    pub mod_id: i32,
    pub relation_type: FileRelationType,
}

/// A game version a file applies to, in sortable form.
#[derive(Clone, Debug)]
pub struct SortableGameVersion {
    pub game_version_name: String,
    pub game_version_padded: String,
    pub game_version: String,
    pub game_version_release_date: String,
    pub game_version_type_id: Option<i32>,
}

/// A checksum of a file's content.
#[derive(Clone, Debug)]
pub struct FileHash {
    pub value: String,
    pub algo: HashAlgo,
}

/// The mod loader a file targets.
#[derive(Clone, Copy, Debug, PartialEq, Eq, Structural)]
pub enum ModLoaderType {
    Any,
    Forge,
    Cauldron,
    LiteLoader,
    Fabric,
}

/// The review status of a mod.
#[derive(Clone, Copy, Debug, PartialEq, Eq, Structural)]
pub enum ModStatus {
    New,
    ChangesRequired,
    UnderSoftReview,
    Approved,
    Rejected,
    ChangesMade,
    Inactive,
    Abandoned,
    Deleted,
    UnderReview,
}

/// How a dependency relates a file to another mod.
#[derive(Clone, Copy, Debug, PartialEq, Eq, Structural)]
pub enum FileRelationType {
    EmbeddedLibrary,
    OptionalDependency,
    RequiredDependency,
    Tool,
    Incompatible,
    Include,
}

/// The maturity of a released file.
#[derive(Clone, Copy, Debug, PartialEq, Eq, Structural)]
pub enum FileReleaseType {
    Release,
    Beta,
    Alpha,
}

/// The review status of a file.
#[derive(Clone, Copy, Debug, PartialEq, Eq, Structural)]
pub enum FileStatus {
    Processing,
    ChangesRequired,
    UnderReview,
    Approved,
    Rejected,
    MalwareDetected,
    Deleted,
    Archived,
    Testing,
    Released,
    ReadyForReview,
    Deprecated,
    Baking,
    AwaitingPublishing,
    FailedPublishing,
}

/// Which algorithm a file hash uses.
#[derive(Clone, Copy, Debug, PartialEq, Eq, Structural)]
pub enum HashAlgo {
    Sha1,
    Md5,
}

/// The query URL of a file's download-url endpoint.
pub open spec fn spec_download_url(project_id: int, file_id: int) -> Seq<char> {
    "https://api.curseforge.com/v1/"@ + "mods/"@ + spec_int_str(project_id) + "/files/"@
        + spec_int_str(file_id) + "/download-url"@
}

/// A CurseForge API client: the API key it authenticates with.
#[derive(Clone)]
pub struct Curseforge {
    key: String,
}

impl Curseforge {
    /// The API key this client sends with every request.
    pub closed spec fn spec_key(&self) -> Seq<char> {
        self.key@
    }

    /// A client using the given API key.
    pub fn new(key: String) -> (r: Self)
        ensures
            r.spec_key() == key@,
    {
        Self { key }
    }

    /// Asks the API for the download URL of one file of one project.
    ///
    /// The network decides the outcome; what this side decides is exact:
    /// the query URL is built from the two ids as [`spec_download_url`]
    /// says, every error reports that URL, and a status failure becomes
    /// the error [`check_status`] gives it. On success the returned string
    /// is the `data` member of the JSON the API answered with.
    pub fn get_download_url(&self, project_id: i32, file_id: i32) -> (r: Result<String, ApiError>)
        ensures
            r matches Err(e) ==> error_url(e) == spec_download_url(
                project_id as int,
                file_id as int,
            ),
            r matches Err(e) ==> (e matches ApiError::BadHTTPResponse(u, c)
                ==> (!status_is_success(c as u16) && c != 403 && c != 404 && c != 500)),
    {
        let mut query_url = "https://api.curseforge.com/v1/".to_owned();
        query_url.append("mods/");
        let p = i32_to_string(project_id);
        query_url.append(p.as_str());
        query_url.append("/files/");
        let f = i32_to_string(file_id);
        query_url.append(f.as_str());
        query_url.append("/download-url");

        let request = request_with_header(request_get(query_url.as_str()), "x-api-key",
            self.key.as_str());
        let response = match request_send(request) {
            Ok(resp) => resp,
            Err(e) => {
                return Err(ApiError::HTTPError(e, query_url));
            },
        };

        let status = response_status(&response);
        if let Err(e) = check_status(status, query_url.as_str()) {
            return Err(e);
        }

        let body = match String::from_utf8(response_into_bytes(response)) {
            Ok(text) => text,
            Err(e) => {
                return Err(ApiError::MalformedResponse(e.utf8_error(), query_url));
            },
        };

        let value = match json_parse(body.as_str()) {
            Ok(v) => v,
            Err(e) => {
                return Err(ApiError::ResponseParseError(e, query_url, body));
            },
        };

        let data = match json_get(&value, "data") {
            Some(d) => d,
            None => {
                let detail = "response JSON has no data member".to_owned();
                return Err(ApiError::OtherError(query_url, detail));
            },
        };
        match json_as_str(data) {
            Some(s) => Ok(s.to_owned()),
            None => {
                let detail = "response data member is not a string".to_owned();
                Err(ApiError::OtherError(query_url, detail))
            },
        }
    }
}

} // verus!
