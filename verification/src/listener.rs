//! What the callbacks of a capture stream remember, and what they make of a changed
//! parameter.
use crate::format::VideoFormat;
use vstd::prelude::*;

verus! {

/// The kind of a stream parameter.
#[derive(Clone, Copy, Debug, PartialEq, Eq, Structural)]
pub enum ParamType {
    /// The configured format.
    Format,
    /// Any other parameter, by its code.
    Other(u32),
}

/// The media type of a format.
#[derive(Clone, Copy, Debug, PartialEq, Eq, Structural)]
pub enum MediaType {
    Video,
    Other(u32),
}

/// The media subtype of a format.
#[derive(Clone, Copy, Debug, PartialEq, Eq, Structural)]
pub enum MediaSubtype {
    Raw,
    Other(u32),
}

/// What a negotiated raw video format says of the frames to come.
#[derive(Clone, Copy, Debug, PartialEq, Eq, Structural)]
pub struct VideoInfo {
    pub format: VideoFormat,
    pub width: u32,
    pub height: u32,
}

/// What to do next about a changed stream parameter.
#[derive(Clone, Copy, Debug, PartialEq, Eq, Structural)]
pub enum ParamAction {
    /// Nothing: the change is of no interest.
    Ignore,
    /// Read the media type and the media subtype of the parameter.
    ParseFormat,
    /// Read the video format, and take it over by
    /// [`ListenerUserData::format_negotiated`].
    ParseVideoInfo,
}

/// A changed parameter is of interest when it is there and is the configured format.
pub open spec fn on_param(id: ParamType, has_param: bool) -> ParamAction {
    if has_param && id == ParamType::Format {
        ParamAction::ParseFormat
    } else {
        ParamAction::Ignore
    }
}

/// A format is of interest when it could be read and is raw video.
pub open spec fn on_media(media: Option<(MediaType, MediaSubtype)>) -> ParamAction {
    if media == Some((MediaType::Video, MediaSubtype::Raw)) {
        ParamAction::ParseVideoInfo
    } else {
        ParamAction::Ignore
    }
}

/// Decides what to do when the parameter `id` has changed. `has_param` tells whether the
/// stream handed a value over.
pub fn param_changed(id: ParamType, has_param: bool) -> (action: ParamAction)
    ensures
        action == on_param(id, has_param),
        action is ParseFormat <==> has_param && id is Format,
        action is Ignore <==> !has_param || id is Other,
{
    if !has_param {
        return ParamAction::Ignore;
    }
    if id != ParamType::Format {
        return ParamAction::Ignore;
    }
    ParamAction::ParseFormat
}

/// Decides what to do with a format whose media type and media subtype were read; `None`
/// stands for a format that could not be read.
pub fn format_parsed(media: Option<(MediaType, MediaSubtype)>) -> (action: ParamAction)
    ensures
        action == on_media(media),
        action is ParseVideoInfo <==> media is Some && (media->0).0 is Video && (media->0).1 is Raw,
        action is Ignore <==> media is None || (media->0).0 is Other || (media->0).1 is Other,
{
    match media {
        Some((media_type, media_subtype)) => {
            if media_type != MediaType::Video || media_subtype != MediaSubtype::Raw {
                ParamAction::Ignore
            } else {
                ParamAction::ParseVideoInfo
            }
        },
        None => ParamAction::Ignore,
    }
}

/// What the callbacks of a stream remember between two calls.
#[derive(Clone, Copy, Debug, PartialEq, Eq, Structural)]
pub struct ListenerUserData {
    /// The format that was negotiated last.
    pub format: VideoInfo,
    /// Whether a format that cannot be used was reported since it was negotiated.
    pub unsupported_format_reported: bool,
}

impl ListenerUserData {
    /// The memory after a report.
    pub open spec fn reported(self) -> ListenerUserData {
        ListenerUserData { format: self.format, unsupported_format_reported: true }
    }

    /// The memory after a format was negotiated: a report may be due again.
    pub open spec fn on_format(self, format: VideoInfo) -> ListenerUserData {
        ListenerUserData { format, unsupported_format_reported: false }
    }

    /// The memory before any callback, with the format that stands until one is
    /// negotiated.
    pub fn new(format: VideoInfo) -> (data: ListenerUserData)
        ensures
            data.format == format,
            !data.unsupported_format_reported,
    {
        ListenerUserData { format, unsupported_format_reported: false }
    }

    /// Takes a newly negotiated format over, and allows one more report.
    pub fn format_negotiated(&mut self, format: VideoInfo)
        ensures
            *final(self) == old(self).on_format(format),
            final(self).format == format,
            !final(self).unsupported_format_reported,
    {
        self.format = format;
        self.unsupported_format_reported = false;
    }
}

/// A changed parameter leads to a new format exactly when it is there, is the configured
/// format, can be read, and is raw video.
pub proof fn law_format_taken_iff_raw_video(
    id: ParamType,
    has_param: bool,
    media: Option<(MediaType, MediaSubtype)>,
)
    ensures
        (on_param(id, has_param) is ParseFormat && on_media(media) is ParseVideoInfo) <==> (has_param
            && id == ParamType::Format && media == Some((MediaType::Video, MediaSubtype::Raw))),
        on_param(id, has_param) is ParseFormat <==> has_param && id is Format,
        on_param(id, has_param) is Ignore <==> !has_param || id is Other,
        on_media(media) is ParseVideoInfo <==> media is Some && (media->0).0 is Video && (media->0).1
            is Raw,
        on_media(media) is Ignore <==> media is None || (media->0).0 is Other || (media->0).1 is Other,
{
}

/// After a negotiation, what is remembered is the negotiated format with its width and its
/// height, whatever was remembered before, and a report is open again.
pub proof fn law_negotiated_is_remembered(data: ListenerUserData, format: VideoInfo)
    ensures
        data.on_format(format).format == format,
        data.on_format(format).format.format == format.format,
        data.on_format(format).format.width == format.width,
        data.on_format(format).format.height == format.height,
        !data.on_format(format).unsupported_format_reported,
{
}

/// The last negotiation counts: nothing of an earlier memory outlives it.
pub proof fn law_last_negotiation_counts(
    first: ListenerUserData,
    second: ListenerUserData,
    earlier: VideoInfo,
    format: VideoInfo,
)
    ensures
        first.on_format(format) == second.on_format(format),
        first.on_format(earlier).on_format(format) == first.on_format(format),
{
}

/// A report is noted, and the format stays as it was negotiated.
pub proof fn law_report_is_noted(data: ListenerUserData)
    ensures
        data.reported().unsupported_format_reported,
        data.reported().format == data.format,
{
}

} // verus!
