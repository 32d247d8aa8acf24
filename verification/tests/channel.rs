use comment_harvest::channel::{bare_handle, channel_id, lookup_url, upload_playlist_id, ChannelError};
use comment_harvest::failure::HarvestError;
use comment_harvest::model::{ParentComment, PlaylistItem, Video};
use comment_harvest::request::{
    channel_parts, playlist_parts, reply_parts, text_format, thread_parts, COMMENT_PAGE_SIZE,
    PLAYLIST_PAGE_SIZE,
};
use comment_harvest::wire::{
    ChannelPage, HandleLookup, HandleLookupItem, RawChannel, RawChannelDetails,
    RawRelatedPlaylists,
};

fn channel(uploads: Option<&str>) -> RawChannel {
    RawChannel {
        content_details: Some(RawChannelDetails {
            related_playlists: Some(RawRelatedPlaylists { uploads: uploads.map(|u| u.to_string()) }),
        }),
    }
}

#[test]
fn handle_loses_one_leading_at() {
    assert_eq!(bare_handle("@smartereveryday"), "smartereveryday");
    assert_eq!(bare_handle("smartereveryday"), "smartereveryday");
    assert_eq!(bare_handle("@@twice"), "@twice");
    assert_eq!(bare_handle("mid@dle"), "mid@dle");
    assert_eq!(bare_handle("@"), "");
    assert_eq!(bare_handle(""), "");
}

#[test]
fn handle_with_wide_characters_is_cut_at_a_character() {
    assert_eq!(bare_handle("@żółw"), "żółw");
    assert_eq!(bare_handle("żółw@"), "żółw@");
}

#[test]
fn lookup_url_holds_the_bare_handle_behind_one_at() {
    assert_eq!(
        lookup_url("@smartereveryday"),
        "https://yt.lemnoslife.com/channels?handle=@smartereveryday"
    );
    assert_eq!(
        lookup_url("smartereveryday"),
        "https://yt.lemnoslife.com/channels?handle=@smartereveryday"
    );
    assert_eq!(lookup_url(""), "https://yt.lemnoslife.com/channels?handle=@");
    assert_eq!(lookup_url("@@x"), "https://yt.lemnoslife.com/channels?handle=@@x");
}

#[test]
fn channel_id_is_that_of_the_first_item() {
    let lookup = HandleLookup {
        items: vec![
            HandleLookupItem { id: "UC-first".to_string() },
            HandleLookupItem { id: "UC-second".to_string() },
        ],
    };
    assert_eq!(channel_id(&lookup), Ok("UC-first".to_string()));
}

#[test]
fn channel_id_of_an_empty_lookup_is_an_error() {
    assert_eq!(channel_id(&HandleLookup { items: vec![] }), Err(ChannelError::HandleNotFound));
}

#[test]
fn upload_playlist_is_that_of_the_first_channel() {
    let page = ChannelPage { items: Some(vec![channel(Some("UU-1")), channel(Some("UU-2"))]) };
    assert_eq!(upload_playlist_id(&page), Ok("UU-1".to_string()));
}

#[test]
fn upload_playlist_needs_every_link() {
    let missing = Err(ChannelError::NoUploadPlaylist);
    assert_eq!(upload_playlist_id(&ChannelPage { items: None }), missing);
    assert_eq!(upload_playlist_id(&ChannelPage { items: Some(vec![]) }), missing);
    assert_eq!(
        upload_playlist_id(&ChannelPage { items: Some(vec![RawChannel { content_details: None }]) }),
        missing
    );
    assert_eq!(
        upload_playlist_id(&ChannelPage {
            items: Some(vec![RawChannel {
                content_details: Some(RawChannelDetails { related_playlists: None })
            }])
        }),
        missing
    );
    assert_eq!(upload_playlist_id(&ChannelPage { items: Some(vec![channel(None)]) }), missing);
}

#[test]
fn upload_playlist_is_not_taken_from_a_later_channel() {
    let page = ChannelPage { items: Some(vec![channel(None), channel(Some("UU-2"))]) };
    assert_eq!(upload_playlist_id(&page), Err(ChannelError::NoUploadPlaylist));
}

#[test]
fn channel_errors_have_their_messages() {
    assert_eq!(ChannelError::HandleNotFound.message(), "Unable to find channel id given handle");
    assert_eq!(ChannelError::NoUploadPlaylist.message(), "Unable to get upload playlist id");
}

#[test]
fn harvest_errors_have_their_messages() {
    assert_eq!(
        HarvestError::BadRequest { code: 400 }.message(),
        "Unable to parse error response from comment_threads request"
    );
    assert_eq!(
        HarvestError::UnreadableBadRequest.message(),
        "Unable to read the error response from comment_threads request"
    );
    assert_eq!(HarvestError::RequestFailed.message(), "The comment_threads request failed");
    assert_eq!(HarvestError::MissingPlaylistItems.message(), "Playlist page holds no list of items");
    assert_eq!(
        HarvestError::MalformedPlaylistItem.message(),
        "Playlist item lacks its video id or its title"
    );
}

#[test]
fn requests_ask_for_the_documented_pages_and_parts() {
    assert_eq!(PLAYLIST_PAGE_SIZE, 50);
    assert_eq!(COMMENT_PAGE_SIZE, 100);
    assert_eq!(text_format(), "plainText");
    assert_eq!(channel_parts(), vec!["contentDetails".to_string()]);
    assert_eq!(playlist_parts(), vec!["snippet".to_string(), "contentDetails".to_string()]);
    assert_eq!(thread_parts(), vec!["snippet".to_string(), "replies".to_string()]);
    assert_eq!(reply_parts(), vec!["snippet".to_string()]);
}

#[test]
fn video_is_assembled_from_its_item_and_comments() {
    let item = PlaylistItem { title: "A title".to_string(), video_id: "an id".to_string() };
    let comments = vec![ParentComment {
        text: "t".to_string(),
        author_name: "a".to_string(),
        children: vec![],
    }];
    let video = Video::assemble(&item, comments.clone());
    assert_eq!(video, Video { title: "A title".to_string(), id: "an id".to_string(), comments });
}

#[test]
fn first_page_is_asked_for_with_an_empty_token() {
    assert_eq!(comment_harvest::request::token_parameter(&None), "");
    assert_eq!(comment_harvest::request::token_parameter(&Some("CAUQAA".to_string())), "CAUQAA");
    assert_eq!(comment_harvest::request::token_parameter(&Some(String::new())), "");
}
