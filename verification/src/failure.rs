//! What can go wrong in a harvest, and what a failed request means.

use vstd::prelude::*;

verus! {

/// The platform's error code for a video whose comments are switched off.
pub const COMMENTS_DISABLED_CODE: u64 = 403;

/// Why a harvest stopped. Every one of these ends the whole harvest: there
/// is no partial result.
#[derive(Debug, Clone, Copy, PartialEq, Eq, Structural)]
pub enum HarvestError {
    /// A playlist page came without a list of items.
    MissingPlaylistItems,
    /// A playlist entry came without a video id or without a title.
    MalformedPlaylistItem,
    /// The platform refused a comment-threads request as a bad request, with
    /// a code other than that of switched-off comments.
    BadRequest { code: u64 },
    /// The platform refused a comment-threads request as a bad request, and
    /// the error it sent could not be read.
    UnreadableBadRequest,
    /// A comment-threads request failed for any other reason.
    RequestFailed,
}

/// How a comment-threads request failed, as far as the harvest cares.
#[derive(Debug, Clone, Copy, PartialEq, Eq, Structural)]
pub enum ThreadFailure {
    /// The platform called the request a bad request. `code` is the numeric
    /// code inside the error it sent, `None` if the error could not be read.
    BadRequest { code: Option<u64> },
    /// Anything else: the network, the credentials, another platform error.
    Other,
}

/// What a failed comment-threads request means for the video.
#[derive(Debug, Clone, Copy, PartialEq, Eq, Structural)]
pub enum Consequence {
    /// Comments are switched off for the video: it has the comments gathered
    /// so far, and the harvest goes on.
    Disabled,
    /// The harvest stops with this error.
    Fatal(HarvestError),
}

/// What a failure means: only a bad request that carries the code of
/// switched-off comments is forgiven.
pub open spec fn spec_consequence(failure: ThreadFailure) -> Consequence {
    match failure {
        ThreadFailure::BadRequest { code: Some(code) } => if code == COMMENTS_DISABLED_CODE {
            Consequence::Disabled
        } else {
            Consequence::Fatal(HarvestError::BadRequest { code })
        },
        ThreadFailure::BadRequest { code: None } => Consequence::Fatal(
            HarvestError::UnreadableBadRequest,
        ),
        ThreadFailure::Other => Consequence::Fatal(HarvestError::RequestFailed),
    }
}

/// The mathematical value of a result whose error is a [`HarvestError`].
pub open spec fn spec_result_view<T: DeepView>(result: Result<T, HarvestError>) -> Result<
    T::V,
    HarvestError,
> {
    match result {
        Ok(value) => Ok(value.deep_view()),
        Err(error) => Err(error),
    }
}

/// What to tell the user about an error.
pub open spec fn spec_harvest_message(error: HarvestError) -> Seq<char> {
    match error {
        HarvestError::MissingPlaylistItems => "Playlist page holds no list of items"@,
        HarvestError::MalformedPlaylistItem => "Playlist item lacks its video id or its title"@,
        HarvestError::BadRequest { .. } =>
            "Unable to parse error response from comment_threads request"@,
        HarvestError::UnreadableBadRequest =>
            "Unable to read the error response from comment_threads request"@,
        HarvestError::RequestFailed => "The comment_threads request failed"@,
    }
}

impl HarvestError {
    /// What to tell the user about the error.
    pub fn message(&self) -> (message: String)
        ensures
            message@ == spec_harvest_message(*self),
    {
        match self {
            HarvestError::MissingPlaylistItems => "Playlist page holds no list of items".to_owned(),
            HarvestError::MalformedPlaylistItem =>
                "Playlist item lacks its video id or its title".to_owned(),
            HarvestError::BadRequest { .. } =>
                "Unable to parse error response from comment_threads request".to_owned(),
            HarvestError::UnreadableBadRequest =>
                "Unable to read the error response from comment_threads request".to_owned(),
            HarvestError::RequestFailed => "The comment_threads request failed".to_owned(),
        }
    }
}

impl ThreadFailure {
    /// Decides what the failure means for the video.
    pub fn consequence(&self) -> (consequence: Consequence)
        ensures
            consequence == spec_consequence(*self),
    {
        match self {
            ThreadFailure::BadRequest { code: Some(code) } => {
                if *code == COMMENTS_DISABLED_CODE {
                    Consequence::Disabled
                } else {
                    Consequence::Fatal(HarvestError::BadRequest { code: *code })
                }
            },
            ThreadFailure::BadRequest { code: None } => Consequence::Fatal(
                HarvestError::UnreadableBadRequest,
            ),
            ThreadFailure::Other => Consequence::Fatal(HarvestError::RequestFailed),
        }
    }
}

/// Switched-off comments are recognised by their code and by nothing else:
/// the consequence is `Disabled` exactly for a bad request with code 403.
pub proof fn law_only_code_403_is_forgiven(failure: ThreadFailure)
    ensures
        spec_consequence(failure) == Consequence::Disabled <==> failure == (ThreadFailure::BadRequest {
            code: Some(403),
        }),
        spec_consequence(failure) is Fatal <==> failure != (ThreadFailure::BadRequest {
            code: Some(403),
        }),
{
}

} // verus!
