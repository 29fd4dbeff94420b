//! The feed generator's records, responses and error bodies.
use vstd::prelude::*;

verus! {

/// Codes of an internal error body.
#[derive(Clone, Copy, Debug, PartialEq, Eq, Structural, Hash)]
pub enum InternalErrorCode {
    NoInternalError,
    InternalError,
    Cancelled,
    DeadlineExceeded,
    AlreadyExists,
    ResourceExhausted,
    FailedPrecondition,
    Aborted,
    OutOfRange,
    Unavailable,
    DataLoss,
}

impl InternalErrorCode {
    /// The wire name of the code.
    pub open spec fn spec_text(self) -> Seq<char> {
        match self {
            InternalErrorCode::NoInternalError => "no_internal_error"@,
            InternalErrorCode::InternalError => "internal_error"@,
            InternalErrorCode::Cancelled => "cancelled"@,
            InternalErrorCode::DeadlineExceeded => "deadline_exceeded"@,
            InternalErrorCode::AlreadyExists => "already_exists"@,
            InternalErrorCode::ResourceExhausted => "resource_exhausted"@,
            InternalErrorCode::FailedPrecondition => "failed_precondition"@,
            InternalErrorCode::Aborted => "aborted"@,
            InternalErrorCode::OutOfRange => "out_of_range"@,
            InternalErrorCode::Unavailable => "unavailable"@,
            InternalErrorCode::DataLoss => "data_loss"@,
        }
    }

    /// The wire name of the code.
    pub fn display_text(&self) -> (s: String)
        ensures
            s@ == self.spec_text(),
    {
        match self {
            InternalErrorCode::NoInternalError => String::from_str("no_internal_error"),
            InternalErrorCode::InternalError => String::from_str("internal_error"),
            InternalErrorCode::Cancelled => String::from_str("cancelled"),
            InternalErrorCode::DeadlineExceeded => String::from_str("deadline_exceeded"),
            InternalErrorCode::AlreadyExists => String::from_str("already_exists"),
            InternalErrorCode::ResourceExhausted => String::from_str("resource_exhausted"),
            InternalErrorCode::FailedPrecondition => String::from_str("failed_precondition"),
            InternalErrorCode::Aborted => String::from_str("aborted"),
            InternalErrorCode::OutOfRange => String::from_str("out_of_range"),
            InternalErrorCode::Unavailable => String::from_str("unavailable"),
            InternalErrorCode::DataLoss => String::from_str("data_loss"),
        }
    }
}

/// Codes of a not-found error body.
#[derive(Clone, Copy, Debug, PartialEq, Eq, Structural, Hash)]
pub enum NotFoundErrorCode {
    NotFoundError,
    UndefinedEndpoint,
    Unimplemented,
}

impl NotFoundErrorCode {
    /// The wire name of the code.
    pub open spec fn spec_text(self) -> Seq<char> {
        match self {
            NotFoundErrorCode::NotFoundError => "not_found_error"@,
            NotFoundErrorCode::UndefinedEndpoint => "undefined_endpoint"@,
            NotFoundErrorCode::Unimplemented => "unimplemented"@,
        }
    }

    /// The wire name of the code.
    pub fn display_text(&self) -> (s: String)
        ensures
            s@ == self.spec_text(),
    {
        match self {
            NotFoundErrorCode::NotFoundError => String::from_str("not_found_error"),
            NotFoundErrorCode::UndefinedEndpoint => String::from_str("undefined_endpoint"),
            NotFoundErrorCode::Unimplemented => String::from_str("unimplemented"),
        }
    }
}

/// Codes of a validation error body.
#[derive(Clone, Copy, Debug, PartialEq, Eq, Structural, Hash)]
pub enum ErrorCode {
    ValidationError,
    InvalidUser,
}

/// The body of a response to a request that failed inside the service.
#[derive(Clone, Debug, PartialEq)]
pub struct InternalErrorMessageResponse {
    pub code: Option<InternalErrorCode>,
    pub message: Option<String>,
}

impl InternalErrorMessageResponse {
    /// A body with neither code nor message.
    pub fn new() -> (r: InternalErrorMessageResponse)
        ensures
            r.code is None,
            r.message is None,
    {
        InternalErrorMessageResponse { code: None, message: None }
    }

    /// A body with the given code and message.
    pub fn with(code: InternalErrorCode, message: &str) -> (r: InternalErrorMessageResponse)
        ensures
            r.code == Some(code),
            r.message matches Some(m) && m@ == message@,
    {
        InternalErrorMessageResponse { code: Some(code), message: Some(String::from_str(message)) }
    }
}

/// The body of a response to a request that did not pass validation.
#[derive(Clone, Debug, PartialEq)]
pub struct ValidationErrorMessageResponse {
    pub code: Option<ErrorCode>,
    pub message: Option<String>,
}

impl ValidationErrorMessageResponse {
    /// A body with neither code nor message.
    pub fn new() -> (r: ValidationErrorMessageResponse)
        ensures
            r.code is None,
            r.message is None,
    {
        ValidationErrorMessageResponse { code: None, message: None }
    }

    /// A validation error body with the given message.
    pub fn validation(message: &str) -> (r: ValidationErrorMessageResponse)
        ensures
            r.code == Some(ErrorCode::ValidationError),
            r.message matches Some(m) && m@ == message@,
    {
        ValidationErrorMessageResponse { code: Some(ErrorCode::ValidationError), message: Some(String::from_str(message)) }
    }

    /// The human-readable text of the error: `validation_error: ` and the
    /// message, if any.
    pub open spec fn spec_display(&self) -> Seq<char> {
        "validation_error: "@ + match self.message {
            Some(m) => m@,
            None => Seq::empty(),
        }
    }

    /// The human-readable text of the error.
    pub fn display_text(&self) -> (s: String)
        ensures
            s@ == self.spec_display(),
    {
        let mut s = String::from_str("validation_error: ");
        match &self.message {
            Some(m) => s.append(m.as_str()),
            None => {},
        }
        assert(s@ =~= self.spec_display());
        s
    }
}

/// The body of a response to a request for an unknown path.
#[derive(Clone, Debug, PartialEq)]
pub struct PathUnknownErrorMessageResponse {
    pub code: Option<NotFoundErrorCode>,
    pub message: Option<String>,
}

/// Why a post stands in a feed: a repost of it.
#[derive(Clone, Debug, PartialEq)]
pub struct PostResultReason {
    pub reason_type: String,
    pub repost_uri: String,
}

/// One entry of a feed skeleton.
#[derive(Clone, Debug, PartialEq)]
pub struct PostResult {
    pub post: String,
    pub reason: Option<PostResultReason>,
}

/// A feed skeleton and the cursor of its next page.
#[derive(Clone, Debug, PartialEq)]
pub struct AlgoResponse {
    pub cursor: Option<String>,
    pub feed: Vec<PostResult>,
}

/// One feed that the generator serves.
#[derive(Clone, Debug, PartialEq)]
pub struct FeedDescription {
    pub uri: String,
}

/// The generator's DID and the feeds it serves.
#[derive(Clone, Debug, PartialEq)]
pub struct DescribeFeedGenerator {
    pub did: String,
    pub feeds: Vec<FeedDescription>,
}

/// A service entry of the generator's DID document.
#[derive(Clone, Debug, PartialEq)]
pub struct KnownService {
    pub id: String,
    pub type_: String,
    pub service_endpoint: String,
}

/// The generator's DID document.
#[derive(Clone, Debug, PartialEq)]
pub struct WellKnown {
    pub context: Vec<String>,
    pub id: String,
    pub service: Vec<KnownService>,
}

/// Visit counts of the feeds.
#[derive(Clone, Debug, PartialEq)]
pub struct UsageStats {
    pub total_visits: i64,
    pub unique_visitors: i64,
    pub weekly_unique_visitors: i64,
}

impl Default for UsageStats {
    fn default() -> (r: UsageStats)
        ensures
            r.total_visits == 0,
            r.unique_visitors == 0,
            r.weekly_unique_visitors == 0,
    {
        UsageStats { total_visits: 0, unique_visitors: 0, weekly_unique_visitors: 0 }
    }
}

/// The claims of a feed request's JWT: issuer, audience and expiry in
/// seconds since the Unix epoch.
#[derive(Clone, Debug, PartialEq)]
pub struct JwtParts {
    pub iss: String,
    pub aud: String,
    pub exp: u128,
}

/// The header of a JWT.
#[derive(Clone, Debug, PartialEq)]
pub struct JwtHeader {
    pub typ: Option<String>,
    pub alg: String,
}

/// An indexed post or repost row.
#[derive(Clone, Debug, PartialEq)]
pub struct Post {
    pub uri: String,
    pub cid: String,
    pub reply_parent: Option<String>,
    pub reply_root: Option<String>,
    pub indexed_at: String,
    pub prev: Option<String>,
    pub sequence: Option<i64>,
    pub text: Option<String>,
    pub lang: Option<String>,
    pub author: String,
    pub external_uri: Option<String>,
    pub external_title: Option<String>,
    pub external_description: Option<String>,
    pub external_thumb: Option<String>,
    pub quote_cid: Option<String>,
    pub quote_uri: Option<String>,
    pub media: bool,
    pub alt: Option<String>,
}

impl Default for Post {
    fn default() -> (r: Post)
        ensures
            r.uri@.len() == 0 && r.cid@.len() == 0 && r.indexed_at@.len() == 0 && r.author@.len() == 0,
            r.reply_parent is None && r.reply_root is None && r.prev is None && r.sequence is None,
            r.text is None && r.lang is None && r.external_uri is None && r.external_title is None,
            r.external_description is None && r.external_thumb is None,
            r.quote_cid is None && r.quote_uri is None && !r.media && r.alt is None,
    {
        Post {
            uri: String::new(),
            cid: String::new(),
            reply_parent: None,
            reply_root: None,
            indexed_at: String::new(),
            prev: None,
            sequence: None,
            text: None,
            lang: None,
            author: String::new(),
            external_uri: None,
            external_title: None,
            external_description: None,
            external_thumb: None,
            quote_cid: None,
            quote_uri: None,
            media: false,
            alt: None,
        }
    }
}

/// An indexed follow row.
#[derive(Clone, Debug, PartialEq)]
pub struct Follow {
    pub uri: String,
    pub cid: String,
    pub author: String,
    pub subject: String,
    pub created_at: String,
    pub indexed_at: String,
    pub prev: Option<String>,
    pub sequence: Option<i64>,
}

/// A user's feed settings.
#[derive(Clone, Debug, PartialEq)]
pub struct UserFeedPreference {
    pub did: String,
    pub show_replies: bool,
    pub reply_filter_likes: i32,
    pub reply_filter_followed_only: bool,
    pub show_reposts: bool,
    pub show_quote_posts: bool,
    pub hide_seen_posts: bool,
    pub hide_no_alt_text: bool,
}

impl Default for UserFeedPreference {
    fn default() -> (r: UserFeedPreference)
        ensures
            r.did@.len() == 0,
            !r.show_replies && r.reply_filter_likes == 0 && !r.reply_filter_followed_only,
            !r.show_reposts && !r.show_quote_posts && !r.hide_seen_posts && !r.hide_no_alt_text,
    {
        UserFeedPreference {
            did: String::new(),
            show_replies: false,
            reply_filter_likes: 0,
            reply_filter_followed_only: false,
            show_reposts: false,
            show_quote_posts: false,
            hide_seen_posts: false,
            hide_no_alt_text: false,
        }
    }
}

/// A post served to a user, remembered until it counts as seen.
#[derive(Clone, Debug, PartialEq)]
pub struct FetchedPost {
    pub did: String,
    pub uri: String,
}

/// A user's setting for one account they follow: whether that account's
/// reposts show in the user's feed.
#[derive(Clone, Debug, PartialEq)]
pub struct FollowingPreference {
    pub author: String,
    pub did: String,
    pub show_reposts: bool,
}

/// The query parameters of a feed skeleton request.
#[derive(Clone, Debug, PartialEq)]
pub struct FeedSkeletonParams {
    pub feed: Option<String>,
    pub limit: Option<i64>,
    pub cursor: Option<String>,
}

/// The response to a fetch of a user's following preferences.
#[derive(Clone, Debug, PartialEq)]
pub struct FollowingPrefFetchResponse {
    pub did: String,
    pub preferences: Vec<FollowingPreference>,
}

/// The query parameters of a login request.
#[derive(Clone, Debug, PartialEq)]
pub struct LoginParams {
    pub handle: String,
}

/// The query parameters of an OAuth callback.
#[derive(Clone, Debug, PartialEq)]
pub struct CallbackParams {
    pub code: String,
    pub state: String,
    pub iss: String,
}

} // verus!
