//! Articles published in the mini program, and reading the title and cover
//! of a linked WeChat article.
use vstd::prelude::*;

use crate::text::same_text;

verus! {

/// The review status of an article. Stored as 0 to 2.
#[derive(Debug, Clone, Copy, PartialEq, Eq, Structural)]
pub enum ZhihuStatus {
    /// Waiting for a decision.
    Pending,
    /// Published.
    Accepted,
    /// Declined.
    Rejected,
}

/// The stored code of a article status.
pub open spec fn zhihu_status_code(s: ZhihuStatus) -> u32 {
    match s {
        ZhihuStatus::Pending => 0,
        ZhihuStatus::Accepted => 1,
        ZhihuStatus::Rejected => 2,
    }
}

/// The value a stored code names, if it names one.
pub open spec fn zhihu_status_decoded(code: u32) -> Option<ZhihuStatus> {
    if code == 0 {
        Some(ZhihuStatus::Pending)
    } else if code == 1 {
        Some(ZhihuStatus::Accepted)
    } else if code == 2 {
        Some(ZhihuStatus::Rejected)
    } else {
        None
    }
}

/// Decoding with the fallback: an unknown code reads as `Pending`, so that the article is not published unseen.
pub open spec fn zhihu_status_or_default(code: u32) -> ZhihuStatus {
    match zhihu_status_decoded(code) {
        Some(s) => s,
        None => ZhihuStatus::Pending,
    }
}

impl ZhihuStatus {
    /// The value a stored code names, or `None` for any other code.
    pub fn decode(code: u32) -> (r: Option<ZhihuStatus>)
        ensures
            r == zhihu_status_decoded(code),
    {
        if code == 0 {
            Some(ZhihuStatus::Pending)
        } else if code == 1 {
            Some(ZhihuStatus::Accepted)
        } else if code == 2 {
            Some(ZhihuStatus::Rejected)
        } else {
            None
        }
    }

    /// The stored code of this value.
    pub fn code(self) -> (r: u32)
        ensures
            r == zhihu_status_code(self),
    {
        match self {
            ZhihuStatus::Pending => 0,
            ZhihuStatus::Accepted => 1,
            ZhihuStatus::Rejected => 2,
        }
    }
}

impl From<u32> for ZhihuStatus {
    /// Decodes with the `Pending` fallback for unknown codes.
    fn from(code: u32) -> (r: ZhihuStatus) {
        match ZhihuStatus::decode(code) {
            Some(s) => s,
            None => ZhihuStatus::Pending,
        }
    }
}

impl vstd::std_specs::convert::FromSpecImpl<u32> for ZhihuStatus {
    open spec fn obeys_from_spec() -> bool {
        true
    }

    open spec fn from_spec(code: u32) -> ZhihuStatus {
        zhihu_status_or_default(code)
    }
}

impl From<ZhihuStatus> for u32 {
    fn from(s: ZhihuStatus) -> (r: u32) {
        s.code()
    }
}

impl vstd::std_specs::convert::FromSpecImpl<ZhihuStatus> for u32 {
    open spec fn obeys_from_spec() -> bool {
        true
    }

    open spec fn from_spec(s: ZhihuStatus) -> u32 {
        zhihu_status_code(s)
    }
}

/// The kind of an article. Written as `article` or `link`.
#[derive(Debug, Clone, Copy, PartialEq, Eq, Structural)]
pub enum ZhihuType {
    /// Written in place.
    Article,
    /// A link to an article elsewhere.
    Link,
}

/// The text form of an article kind.
pub open spec fn zhihu_type_text(t: ZhihuType) -> Seq<char> {
    match t {
        ZhihuType::Article => "article"@,
        ZhihuType::Link => "link"@,
    }
}

/// The article kind that a text names, if it names one.
pub open spec fn zhihu_type_decoded(s: Seq<char>) -> Option<ZhihuType> {
    if s == "article"@ {
        Some(ZhihuType::Article)
    } else if s == "link"@ {
        Some(ZhihuType::Link)
    } else {
        None
    }
}

impl ZhihuType {
    /// The text form of this kind.
    pub fn as_str(self) -> (r: &'static str)
        ensures
            r@ == zhihu_type_text(self),
    {
        match self {
            ZhihuType::Article => "article",
            ZhihuType::Link => "link",
        }
    }

    /// The kind that `s` names, if it names one.
    pub fn decode(s: &str) -> (r: Option<ZhihuType>)
        ensures
            r == zhihu_type_decoded(s@),
    {
        if same_text(s, "article") {
            Some(ZhihuType::Article)
        } else if same_text(s, "link") {
            Some(ZhihuType::Link)
        } else {
            None
        }
    }

    /// Decoding with the fallback: an unknown text reads as `Article`.
    pub fn from_text(s: &str) -> (r: ZhihuType)
        ensures
            r == match zhihu_type_decoded(s@) {
                Some(t) => t,
                None => ZhihuType::Article,
            },
    {
        match ZhihuType::decode(s) {
            Some(t) => t,
            None => ZhihuType::Article,
        }
    }
}

/// The title and cover image read from a WeChat article page.
pub struct WxUrlResolve {
    pub title: String,
    pub cover: String,
}

/// The pattern that finds an article's title in its page.
pub const WX_TITLE_PATTERN: &'static str = "var msg_title = '(.+?)'";

/// The pattern that finds an article's cover image in its page.
pub const WX_COVER_PATTERN: &'static str = "var cdn_url_1_1 = \"(.+?)\"";

/// The text of the first capture group in the leftmost-first match of the
/// regular expression `pattern` in `text`, if there is such a match.
pub uninterp spec fn first_group_of(pattern: Seq<char>, text: Seq<char>) -> Option<Seq<char>>;

/// Relies on `regex::Regex::captures`, after `Regex::new` compiled the
/// pattern: the text of capture group 1 of the leftmost-first match, or
/// `None` when the pattern does not compile, nothing matches, or the group
/// took no part in the match.
#[verifier::external_body]
fn first_group(pattern: &str, text: &str) -> (r: Option<String>)
    ensures
        r matches Some(g) ==> first_group_of(pattern@, text@) == Some(g@),
        r is None ==> first_group_of(pattern@, text@) is None,
{
    let re = regex::Regex::new(pattern).ok()?;
    let caps = re.captures(text)?;
    caps.get(1).map(|m| m.as_str().to_string())
}

/// Why no title and cover could be read from an article page.
#[derive(Debug, Clone, Copy, PartialEq, Eq, Structural)]
pub enum WxArticleError {
    /// The page holds no title.
    MissingTitle,
    /// The page holds a title but no cover image.
    MissingCover,
}

/// Builds the article summary from the title and cover found in its page;
/// the title is looked at first.
pub fn article_from_groups(title: Option<String>, cover: Option<String>) -> (r: Result<
    WxUrlResolve,
    WxArticleError,
>)
    ensures
        title is None ==> r == Err::<WxUrlResolve, WxArticleError>(WxArticleError::MissingTitle),
        title is Some && cover is None ==> r == Err::<WxUrlResolve, WxArticleError>(
            WxArticleError::MissingCover,
        ),
        title is Some && cover is Some ==> r == Ok::<WxUrlResolve, WxArticleError>(
            (WxUrlResolve { title: title->0, cover: cover->0 }),
        ),
{
    match title {
        None => Err(WxArticleError::MissingTitle),
        Some(t) => match cover {
            None => Err(WxArticleError::MissingCover),
            Some(c) => Ok(WxUrlResolve { title: t, cover: c }),
        },
    }
}

/// Reads the title and cover image out of the page of a WeChat article.
pub fn resolve_wx_article(page: &str) -> (r: Result<WxUrlResolve, WxArticleError>)
    ensures
        first_group_of(WX_TITLE_PATTERN@, page@) is None ==> r == Err::<
            WxUrlResolve,
            WxArticleError,
        >(WxArticleError::MissingTitle),
        first_group_of(WX_TITLE_PATTERN@, page@) is Some && first_group_of(
            WX_COVER_PATTERN@,
            page@,
        ) is None ==> r == Err::<WxUrlResolve, WxArticleError>(WxArticleError::MissingCover),
        first_group_of(WX_TITLE_PATTERN@, page@) is Some && first_group_of(
            WX_COVER_PATTERN@,
            page@,
        ) is Some ==> r is Ok && r->Ok_0.title@ == first_group_of(WX_TITLE_PATTERN@, page@)->0
            && r->Ok_0.cover@ == first_group_of(WX_COVER_PATTERN@, page@)->0,
{
    let title = first_group(WX_TITLE_PATTERN, page);
    let cover = first_group(WX_COVER_PATTERN, page);
    article_from_groups(title, cover)
}

/// A resource fetched on behalf of the mini program.
pub struct WxUrlProxy {
    pub content_type: Option<String>,
    pub bytes: Vec<u8>,
}

} // verus!
