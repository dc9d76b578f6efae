use vstd::prelude::*;

verus! {

/// Where the web front end finds the LED controller's API.
pub const GPIO_API_URL: &'static str = "http://127.0.0.1:8080";

/// The page served for the bare root path.
pub const INDEX_PAGE: &'static str = "index.html";

/// Body of the reply to a path with no asset behind it.
pub const NOT_FOUND_BODY: &'static str = "404 Not Found";

/// Body of the reply when the LED controller cannot be reached.
pub const PROXY_ERROR_BODY: &'static str = "GPIO Service Unavailable";

/// Message of the health check.
pub const HEALTH_MESSAGE: &'static str = "Serverul e bine, sanatos";

/// The URL a request for `/api/{path}` with query `query` is forwarded to:
/// the same path and query under the controller's API.
pub open spec fn spec_proxy_target_url(path: Seq<char>, query: Option<Seq<char>>) -> Seq<char> {
    GPIO_API_URL@ + "/api/"@ + path + match query {
        Some(q) => "?"@ + q,
        None => Seq::empty(),
    }
}

/// The URL a request for `/api/{path}` with query `query` is forwarded to.
pub fn proxy_target_url(path: &str, query: Option<&str>) -> (url: String)
    ensures
        url@ == spec_proxy_target_url(path@, match query {
            Some(q) => Some(q@),
            None => None,
        }),
{
    let mut url = String::from_str(GPIO_API_URL);
    url.append("/api/");
    url.append(path);
    match query {
        Some(q) => {
            url.append("?");
            url.append(q);
            proof {
                assert(url@ =~= spec_proxy_target_url(path@, Some(q@)));
            }
        },
        None => {
            proof {
                assert(url@ =~= spec_proxy_target_url(path@, None));
            }
        },
    }
    url
}

/// `s` without the slashes it starts with.
pub open spec fn spec_trim_leading_slashes(s: Seq<char>) -> Seq<char>
    decreases s.len(),
{
    if s.len() > 0 && s[0] == '/' {
        spec_trim_leading_slashes(s.drop_first())
    } else {
        s
    }
}

/// The asset a request path names: the path without its leading slashes,
/// or the index page when nothing is left.
pub open spec fn spec_asset_path(uri_path: Seq<char>) -> Seq<char> {
    let trimmed = spec_trim_leading_slashes(uri_path);
    if trimmed.len() == 0 {
        INDEX_PAGE@
    } else {
        trimmed
    }
}

/// The asset a request path names.
pub fn asset_path(uri_path: &str) -> (path: String)
    ensures
        path@ == spec_asset_path(uri_path@),
{
    let len = uri_path.unicode_len();
    let mut start: usize = 0;
    assert(uri_path@.subrange(0, len as int) =~= uri_path@);
    while start < len && uri_path.get_char(start) == '/'
        invariant
            start <= len,
            len == uri_path@.len(),
            spec_trim_leading_slashes(uri_path@) == spec_trim_leading_slashes(
                uri_path@.subrange(start as int, len as int),
            ),
        decreases len - start,
    {
        assert(uri_path@.subrange(start as int, len as int).drop_first() =~= uri_path@.subrange(
            start + 1,
            len as int,
        ));
        start = start + 1;
    }
    let trimmed = uri_path.substring_char(start, len);
    if start < len {
        assert(trimmed@[0] != '/');
    }
    if start == len {
        String::from_str(INDEX_PAGE)
    } else {
        String::from_str(trimmed)
    }
}

/// Trimming leaves no leading slash, and trimming again changes nothing.
proof fn lemma_trim_leaves_no_leading_slash(s: Seq<char>)
    ensures
        spec_trim_leading_slashes(s).len() > 0 ==> spec_trim_leading_slashes(s)[0] != '/',
        spec_trim_leading_slashes(spec_trim_leading_slashes(s)) == spec_trim_leading_slashes(s),
    decreases s.len(),
{
    if s.len() > 0 && s[0] == '/' {
        lemma_trim_leaves_no_leading_slash(s.drop_first());
    }
}

/// The asset a request names is never empty and never starts with a
/// slash, so it names a file of the asset store; and a path that already
/// names an asset names that same asset.
pub proof fn lemma_asset_path_is_clean(uri_path: Seq<char>)
    ensures
        spec_asset_path(uri_path).len() > 0,
        spec_asset_path(uri_path)[0] != '/',
        spec_asset_path(spec_asset_path(uri_path)) == spec_asset_path(uri_path),
{
    reveal_strlit("index.html");
    lemma_trim_leaves_no_leading_slash(uri_path);
    lemma_trim_leaves_no_leading_slash(INDEX_PAGE@);
}

/// A request for `/api/{path}?{query}` goes to
/// `http://127.0.0.1:8080/api/{path}?{query}`, and one without a query to
/// the same URL without the `?`: path and query reach the controller
/// unchanged.
pub proof fn lemma_proxy_keeps_path_and_query(path: Seq<char>, query: Seq<char>)
    ensures
        spec_proxy_target_url(path, None) == "http://127.0.0.1:8080/api/"@ + path,
        spec_proxy_target_url(path, Some(query)) == "http://127.0.0.1:8080/api/"@ + path + "?"@
            + query,
{
    reveal_strlit("http://127.0.0.1:8080");
    reveal_strlit("/api/");
    reveal_strlit("http://127.0.0.1:8080/api/");
    assert(GPIO_API_URL@ + "/api/"@ =~= "http://127.0.0.1:8080/api/"@);
    assert(spec_proxy_target_url(path, None) =~= "http://127.0.0.1:8080/api/"@ + path);
    assert(spec_proxy_target_url(path, Some(query)) =~= "http://127.0.0.1:8080/api/"@ + path
        + "?"@ + query);
}

/// The root path, and a path of slashes alone, name `index.html`; a path
/// with a leading slash names what follows the slash; a path without one
/// names itself.
pub proof fn lemma_asset_path_cases(p: Seq<char>)
    ensures
        spec_asset_path(Seq::empty()) == "index.html"@,
        spec_asset_path(seq!['/']) == "index.html"@,
        spec_asset_path(seq!['/'] + p) == spec_asset_path(p),
        p.len() > 0 && p[0] != '/' ==> spec_asset_path(p) == p,
{
    assert((seq!['/'] + p).drop_first() =~= p);
    assert(seq!['/'].drop_first() =~= Seq::<char>::empty());
    assert(spec_trim_leading_slashes(Seq::<char>::empty()) == Seq::<char>::empty());
}

/// The content type `mime_guess` gives for `path`, judged by its extension.
pub uninterp spec fn guessed_content_type(path: Seq<char>) -> Seq<char>;

/// Calls `mime_guess::from_path(path).first_or_octet_stream()`. Trusted:
/// the result is the crate's guess for `path`, a function of the path
/// alone, and a path with no dot, which has no extension, gets
/// `application/octet-stream`.
#[verifier::external_body]
fn guess_content_type(path: &str) -> (content_type: String)
    ensures
        content_type@ == guessed_content_type(path@),
        !path@.contains('.') ==> content_type@ == "application/octet-stream"@,
{
    mime_guess::from_path(path).first_or_octet_stream().as_ref().to_string()
}

/// What the front end serves for a request path.
pub enum StaticReply {
    /// The asset's bytes, with the content type guessed from its path.
    Asset { content_type: String, data: Vec<u8> },
    /// No asset behind the path.
    NotFound,
}

impl StaticReply {
    /// The HTTP status of the reply.
    pub open spec fn spec_status(&self) -> u16 {
        match self {
            StaticReply::Asset { .. } => 200,
            StaticReply::NotFound => 404,
        }
    }

    /// The HTTP status of the reply.
    pub fn status(&self) -> (code: u16)
        ensures
            code == self.spec_status(),
    {
        match self {
            StaticReply::Asset { .. } => 200,
            StaticReply::NotFound => 404,
        }
    }
}

/// The reply for asset `path`, given what the asset store holds under it.
pub fn static_reply(path: &str, asset: Option<Vec<u8>>) -> (reply: StaticReply)
    ensures
        match asset {
            Some(data) => reply matches StaticReply::Asset { content_type, data: d } && content_type@
                == guessed_content_type(path@) && d@ == data@ && (!path@.contains('.')
                ==> content_type@ == "application/octet-stream"@),
            None => reply is NotFound,
        },
{
    match asset {
        Some(data) => StaticReply::Asset { content_type: guess_content_type(path), data },
        None => StaticReply::NotFound,
    }
}

} // verus!
