//! From a channel's handle to its uploads playlist: where to look the
//! handle up, and what to take from the two answers.

use crate::wire::{ChannelPage, ChannelPageView, HandleLookup, HandleLookupView};
use vstd::prelude::*;
use vstd::string::{StrSliceExecFns, StringExecFns};

verus! {

/// Why a channel's uploads playlist could not be named.
#[derive(Debug, Clone, Copy, PartialEq, Eq, Structural)]
pub enum ChannelError {
    /// The lookup service knows no channel for the handle.
    HandleNotFound,
    /// The platform's answer names no uploads playlist for the channel.
    NoUploadPlaylist,
}

/// A handle without the `@` that may stand in front of it. Only one `@` is
/// taken off.
pub open spec fn spec_bare_handle(handle: Seq<char>) -> Seq<char> {
    if handle.len() > 0 && handle[0] == '@' {
        handle.subrange(1, handle.len() as int)
    } else {
        handle
    }
}

/// The address at which the lookup service answers for a handle, up to the
/// handle itself.
pub open spec fn spec_lookup_prefix() -> Seq<char> {
    "https://yt.lemnoslife.com/channels?handle=@"@
}

/// The address at which the lookup service answers for `handle`. The handle
/// goes into the address as it is, behind one `@`.
pub open spec fn spec_lookup_url(handle: Seq<char>) -> Seq<char> {
    spec_lookup_prefix() + spec_bare_handle(handle)
}

/// The id of the channel that a lookup found: that of its first item.
pub open spec fn spec_channel_id(lookup: HandleLookupView) -> Result<Seq<char>, ChannelError> {
    if lookup.items.len() > 0 {
        Ok(lookup.items[0].id)
    } else {
        Err(ChannelError::HandleNotFound)
    }
}

/// The uploads playlist of the first channel of the platform's answer. Any
/// missing link on the way to it gives `NoUploadPlaylist`.
pub open spec fn spec_upload_playlist_id(page: ChannelPageView) -> Result<
    Seq<char>,
    ChannelError,
> {
    match page.items {
        Some(items) => if items.len() > 0 {
            match items[0].content_details {
                Some(details) => match details.related_playlists {
                    Some(playlists) => match playlists.uploads {
                        Some(uploads) => Ok(uploads),
                        None => Err(ChannelError::NoUploadPlaylist),
                    },
                    None => Err(ChannelError::NoUploadPlaylist),
                },
                None => Err(ChannelError::NoUploadPlaylist),
            }
        } else {
            Err(ChannelError::NoUploadPlaylist)
        },
        None => Err(ChannelError::NoUploadPlaylist),
    }
}

/// The text of a result whose value is a string.
pub open spec fn spec_text_result(result: Result<String, ChannelError>) -> Result<
    Seq<char>,
    ChannelError,
> {
    match result {
        Ok(text) => Ok(text@),
        Err(error) => Err(error),
    }
}

/// What to tell the user about an error.
pub open spec fn spec_channel_message(error: ChannelError) -> Seq<char> {
    match error {
        ChannelError::HandleNotFound => "Unable to find channel id given handle"@,
        ChannelError::NoUploadPlaylist => "Unable to get upload playlist id"@,
    }
}

impl ChannelError {
    /// What to tell the user about the error.
    pub fn message(&self) -> (message: String)
        ensures
            message@ == spec_channel_message(*self),
    {
        match self {
            ChannelError::HandleNotFound => "Unable to find channel id given handle".to_owned(),
            ChannelError::NoUploadPlaylist => "Unable to get upload playlist id".to_owned(),
        }
    }
}

/// Takes the `@` off the front of a handle, if there is one.
pub fn bare_handle(handle: &str) -> (bare: &str)
    ensures
        bare@ == spec_bare_handle(handle@),
{
    let length = handle.unicode_len();
    if length > 0 && handle.get_char(0) == '@' {
        handle.substring_char(1, length)
    } else {
        handle
    }
}

/// The address at which the lookup service answers for `handle`.
pub fn lookup_url(handle: &str) -> (url: String)
    ensures
        url@ == spec_lookup_url(handle@),
{
    let prefix = "https://yt.lemnoslife.com/channels?handle=@".to_owned();
    prefix.concat(bare_handle(handle))
}

/// The id of the channel that the lookup service found.
pub fn channel_id(lookup: &HandleLookup) -> (result: Result<String, ChannelError>)
    ensures
        spec_text_result(result) == spec_channel_id(lookup.deep_view()),
{
    if lookup.items.len() > 0 {
        Ok(lookup.items[0].id.clone())
    } else {
        Err(ChannelError::HandleNotFound)
    }
}

/// The uploads playlist of the channel that the platform answered with.
pub fn upload_playlist_id(page: &ChannelPage) -> (result: Result<String, ChannelError>)
    ensures
        spec_text_result(result) == spec_upload_playlist_id(page.deep_view()),
{
    let items = match &page.items {
        Some(items) => items,
        None => {
            return Err(ChannelError::NoUploadPlaylist);
        },
    };
    if items.len() == 0 {
        return Err(ChannelError::NoUploadPlaylist);
    }
    let uploads = match &items[0].content_details {
        Some(details) => match &details.related_playlists {
            Some(playlists) => &playlists.uploads,
            None => {
                return Err(ChannelError::NoUploadPlaylist);
            },
        },
        None => {
            return Err(ChannelError::NoUploadPlaylist);
        },
    };
    match uploads {
        Some(uploads) => Ok(uploads.clone()),
        None => Err(ChannelError::NoUploadPlaylist),
    }
}

} // verus!
