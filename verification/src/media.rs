use vstd::prelude::*;

use crate::content::ContentFormat;
use crate::edit_details::opt_view;
use crate::members_list::LoadingState;
use crate::text::str_equal;

verus! {

/// What a row of a call event says.
#[derive(Clone, Copy, Debug, PartialEq, Eq, Structural)]
pub enum CallLabel {
    OutgoingVideo,
    IncomingVideo,
    Outgoing,
    Incoming,
}

/// What a row of a call event says: video or not, and outgoing when the own
/// user started the call, incoming otherwise.
pub fn call_label(is_video: bool, sender_is_own_user: bool) -> (res: CallLabel)
    ensures
        res == (if is_video {
            if sender_is_own_user {
                CallLabel::OutgoingVideo
            } else {
                CallLabel::IncomingVideo
            }
        } else if sender_is_own_user {
            CallLabel::Outgoing
        } else {
            CallLabel::Incoming
        }),
{
    if is_video {
        if sender_is_own_user {
            CallLabel::OutgoingVideo
        } else {
            CallLabel::IncomingVideo
        }
    } else if sender_is_own_user {
        CallLabel::Outgoing
    } else {
        CallLabel::Incoming
    }
}

/// The icon of a row of a call event.
pub fn call_icon(is_video: bool) -> (res: &'static str)
    ensures
        is_video ==> res == "video-symbolic",
        !is_video ==> res == "phone-right-facing-symbolic",
{
    if is_video {
        "video-symbolic"
    } else {
        "phone-right-facing-symbolic"
    }
}

/// The minimum number of items that a history viewer loads.
pub const MIN_N_ITEMS: u32 = 20;

/// The page of a history viewer.
#[derive(Clone, Copy, Debug, PartialEq, Eq, Structural)]
pub enum ViewerPage {
    Loading,
    Error,
    Empty,
    Content,
}

/// The page of a history viewer for the loading state of its timeline and
/// its items: while loading, the content shows once there is an item other
/// than the loading row.
pub fn update_state(state: LoadingState, n_items: u32, only_item_is_loading_row: bool) -> (res: ViewerPage)
    ensures
        res == (match state {
            LoadingState::Initial => ViewerPage::Loading,
            LoadingState::Error => ViewerPage::Error,
            LoadingState::Ready => if n_items == 0 {
                ViewerPage::Empty
            } else {
                ViewerPage::Content
            },
            LoadingState::Loading => if n_items == 0 || (n_items == 1 && only_item_is_loading_row) {
                ViewerPage::Loading
            } else {
                ViewerPage::Content
            },
        }),
{
    match state {
        LoadingState::Initial => ViewerPage::Loading,
        LoadingState::Error => ViewerPage::Error,
        LoadingState::Ready => if n_items == 0 {
            ViewerPage::Empty
        } else {
            ViewerPage::Content
        },
        LoadingState::Loading => if n_items == 0 || (n_items == 1 && only_item_is_loading_row) {
            ViewerPage::Loading
        } else {
            ViewerPage::Content
        },
    }
}

/// Whether a history viewer needs more items: fewer than the minimum, or the
/// view is near its end.
pub fn needs_more_items(n_items: u32, near_end: bool) -> (res: bool)
    ensures
        res == (n_items < MIN_N_ITEMS || near_end),
{
    n_items < MIN_N_ITEMS || near_end
}

/// What the button of a file row does: open the file once it was saved,
/// save it otherwise.
#[derive(Clone, Copy, Debug, PartialEq, Eq, Structural)]
pub enum FileButton {
    Open,
    Save,
}

/// What the button of a file row does.
pub fn file_button(saved: bool) -> (res: FileButton)
    ensures
        res == (if saved {
            FileButton::Open
        } else {
            FileButton::Save
        }),
{
    if saved {
        FileButton::Open
    } else {
        FileButton::Save
    }
}

/// The preview that a visual media item shows.
#[derive(Clone, Copy, Debug, PartialEq, Eq, Structural)]
pub enum MediaPreview {
    /// Nothing yet.
    Empty,
    Placeholder,
    Thumbnail,
}

/// What a visual media item loads for its event.
#[derive(Clone, Copy, Debug, PartialEq, Eq, Structural)]
pub struct MediaItemPlan {
    /// Whether the play icon shows (a video).
    pub play_icon: bool,
    /// Whether to load the placeholder from the Blurhash.
    pub load_placeholder: bool,
    /// Whether to load the thumbnail.
    pub load_thumbnail: bool,
}

/// What a visual media item loads: the placeholder when the media has a
/// Blurhash, the thumbnail when the room's media previews show.
pub fn media_item_plan(is_video: bool, has_blurhash: bool, has_session: bool, show_previews: bool) -> (res:
    MediaItemPlan)
    ensures
        res == (MediaItemPlan {
            play_icon: is_video,
            load_placeholder: has_blurhash,
            load_thumbnail: has_session && show_previews,
        }),
{
    MediaItemPlan { play_icon: is_video, load_placeholder: has_blurhash, load_thumbnail: has_session && show_previews }
}

/// The preview once the placeholder is loaded: it does not replace a
/// thumbnail.
pub fn placeholder_loaded(current: MediaPreview) -> (res: MediaPreview)
    ensures
        res == (if current is Thumbnail {
            MediaPreview::Thumbnail
        } else {
            MediaPreview::Placeholder
        }),
{
    if current == MediaPreview::Thumbnail {
        MediaPreview::Thumbnail
    } else {
        MediaPreview::Placeholder
    }
}

/// The size that a visual media item asks for: square, at least its
/// minimum.
pub fn media_item_measure(min: i32, for_size: i32) -> (res: (i32, i32))
    ensures
        res == (min, if for_size > min {
            for_size
        } else {
            min
        }),
{
    (min, if for_size > min {
        for_size
    } else {
        min
    })
}

/// The file of a file message: its name, none when it is empty, and whether
/// it shows in a compact format.
#[derive(Debug)]
pub struct MessageFile {
    pub filename: Option<String>,
    pub compact: bool,
}

/// A file name, `None` when it is missing or empty.
pub open spec fn spec_filename(filename: Option<Seq<char>>) -> Option<Seq<char>> {
    match filename {
        Some(f) => if f.len() > 0 {
            Some(f)
        } else {
            None
        },
        None => None,
    }
}

impl MessageFile {
    /// A file without a name, in the natural format.
    pub fn new() -> (res: Self)
        ensures
            res.filename is None,
            !res.compact,
    {
        MessageFile { filename: None, compact: false }
    }

    /// Sets the name of the file, an empty name counting as none; returns
    /// whether it changed.
    pub fn set_filename(&mut self, filename: Option<String>) -> (changed: bool)
        ensures
            opt_view(final(self).filename) == spec_filename(opt_view(filename)),
            changed == (spec_filename(opt_view(filename)) != opt_view(old(self).filename)),
            final(self).compact == old(self).compact,
    {
        let filename = match filename {
            Some(f) => if f.as_str().is_empty() {
                None
            } else {
                Some(f)
            },
            None => None,
        };
        let same = match (&filename, &self.filename) {
            (Some(a), Some(b)) => str_equal(a.as_str(), b.as_str()),
            (None, None) => true,
            _ => false,
        };
        if same {
            return false;
        }
        self.filename = filename;
        true
    }

    /// Sets the format of the content: the file is compact in the compact
    /// and ellipsized formats.
    pub fn set_format(&mut self, format: ContentFormat)
        ensures
            final(self).compact == !(format is Natural),
            opt_view(final(self).filename) == opt_view(old(self).filename),
    {
        self.compact = format == ContentFormat::Compact || format == ContentFormat::Ellipsized;
    }
}

} // verus!
