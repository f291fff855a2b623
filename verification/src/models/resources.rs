//! Playable resources and the encodings they are offered in.

use crate::error::Error;
use crate::json::{
    int_of, items_of, lemma_field_is_part, not_given, optional_int_of, optional_text_of, text_of, Json,
};
use crate::text::{is_prefix, starts_with, same_text};
use vstd::prelude::*;

verus! {

/// The protocol name of an encoding that is one directly streamable file.
pub const PROGRESSIVE: &'static str = "progressive";

/// How the MIME type of an MPEG-4 audio encoding begins.
pub const M4A_MIME_PREFIX: &'static str = r#"audio/mp4; codecs="mp4a""#;

/// The file name suffix that goes with an encoding.
#[derive(Clone, Copy, Debug, PartialEq, Eq, Structural)]
pub enum FileExtension {
    M4A,
    MP3,
}

impl FileExtension {
    /// The suffix as text, with its leading dot.
    pub open spec fn suffix(self) -> Seq<char> {
        match self {
            FileExtension::M4A => ".m4a"@,
            FileExtension::MP3 => ".mp3"@,
        }
    }

    /// The suffix as text, with its leading dot.
    pub fn to_string(&self) -> (s: String)
        ensures
            s@ == self.suffix(),
    {
        match self {
            FileExtension::M4A => ".m4a".to_owned(),
            FileExtension::MP3 => ".mp3".to_owned(),
        }
    }
}

/// How an encoding is delivered and what it holds.
#[derive(Debug)]
pub struct TranscodingFormat {
    protocol: String,
    mime_type: String,
}

/// What a `TranscodingFormat` holds.
pub struct TranscodingFormatView {
    pub protocol: Seq<char>,
    pub mime_type: Seq<char>,
}

impl View for TranscodingFormat {
    type V = TranscodingFormatView;

    closed spec fn view(&self) -> TranscodingFormatView {
        TranscodingFormatView { protocol: self.protocol@, mime_type: self.mime_type@ }
    }
}

impl TranscodingFormatView {
    /// The file name suffix that goes with this format.
    pub open spec fn file_extension(self) -> FileExtension {
        if is_prefix(M4A_MIME_PREFIX@, self.mime_type) {
            FileExtension::M4A
        } else {
            FileExtension::MP3
        }
    }

    /// The format that the JSON value `json` describes, if it describes one:
    /// an object whose members `protocol` and `mime_type` are strings.
    pub open spec fn of(json: Json) -> Option<TranscodingFormatView> {
        match (text_of(json.field("protocol"@)), text_of(json.field("mime_type"@))) {
            (Some(protocol), Some(mime_type)) => Some(
                TranscodingFormatView { protocol, mime_type },
            ),
            _ => None,
        }
    }
}

impl Clone for TranscodingFormat {
    fn clone(&self) -> (copy: Self)
        ensures
            copy@ == self@,
    {
        TranscodingFormat { protocol: self.protocol.clone(), mime_type: self.mime_type.clone() }
    }
}

impl TranscodingFormat {
    /// Decodes a format from a JSON value.
    pub fn from_json(json: &Json) -> (decoded: Result<TranscodingFormat, Error>)
        ensures
            decoded matches Ok(format) ==> TranscodingFormatView::of(*json) == Some(format@),
            decoded matches Err(e) ==> TranscodingFormatView::of(*json) is None && e.is_wrong_shape(),
    {
        let protocol = match json.text("protocol") {
            Some(text) => text,
            None => return Err(Error::wrong_shape()),
        };
        let mime_type = match json.text("mime_type") {
            Some(text) => text,
            None => return Err(Error::wrong_shape()),
        };
        Ok(TranscodingFormat { protocol, mime_type })
    }

    /// The name of the delivery protocol.
    pub fn protocol(&self) -> (protocol: String)
        ensures
            protocol@ == self@.protocol,
    {
        self.protocol.clone()
    }

    /// The MIME type of the media.
    pub fn mime_type(&self) -> (mime_type: String)
        ensures
            mime_type@ == self@.mime_type,
    {
        self.mime_type.clone()
    }

    /// The file name suffix that goes with this format: `.m4a` where the
    /// MIME type begins with `audio/mp4; codecs="mp4a"`, `.mp3` otherwise.
    pub fn file_extension(&self) -> (extension: FileExtension)
        ensures
            extension == self@.file_extension(),
    {
        if starts_with(self.mime_type.as_str(), M4A_MIME_PREFIX) {
            FileExtension::M4A
        } else {
            FileExtension::MP3
        }
    }

    /// Whether this format is delivered as one directly streamable file.
    pub fn is_progressive(&self) -> (yes: bool)
        ensures
            yes == (self@.protocol == PROGRESSIVE@),
    {
        same_text(self.protocol.as_str(), PROGRESSIVE)
    }
}

/// One streamable encoding of a track.
///
/// Its URL is an API endpoint that leads to the media, not the media itself.
#[derive(Debug)]
pub struct Transcoding {
    url: String,
    preset: String,
    duration: i64,
    format: TranscodingFormat,
    quality: String,
}

/// What a `Transcoding` holds.
pub struct TranscodingView {
    pub url: Seq<char>,
    pub preset: Seq<char>,
    pub duration: i64,
    pub format: TranscodingFormatView,
    pub quality: Seq<char>,
}

impl View for Transcoding {
    type V = TranscodingView;

    closed spec fn view(&self) -> TranscodingView {
        TranscodingView {
            url: self.url@,
            preset: self.preset@,
            duration: self.duration,
            format: self.format@,
            quality: self.quality@,
        }
    }
}

impl TranscodingView {
    /// The encoding that the JSON value `json` describes, if it describes
    /// one: an object with string members `url`, `preset` and `quality`, an
    /// integer member `duration` and a member `format` that is a format.
    pub open spec fn of(json: Json) -> Option<TranscodingView> {
        match (
            text_of(json.field("url"@)),
            text_of(json.field("preset"@)),
            int_of(json.field("duration"@)),
            json.field("format"@),
            text_of(json.field("quality"@)),
        ) {
            (Some(url), Some(preset), Some(duration), Some(inner), Some(quality)) => {
                match TranscodingFormatView::of(inner) {
                    Some(format) => Some(
                        TranscodingView { url, preset, duration, format, quality },
                    ),
                    None => None,
                }
            },
            _ => None,
        }
    }

    /// The encodings that the JSON values `items` describe, if each of them
    /// describes one.
    pub open spec fn all_of(items: Seq<Json>) -> Option<Seq<TranscodingView>> {
        if forall|i: int| 0 <= i < items.len() ==> (#[trigger] TranscodingView::of(items[i])) is Some {
            Some(Seq::new(items.len(), |i: int| TranscodingView::of(items[i]).unwrap()))
        } else {
            None
        }
    }
}

impl Clone for Transcoding {
    fn clone(&self) -> (copy: Self)
        ensures
            copy@ == self@,
    {
        Transcoding {
            url: self.url.clone(),
            preset: self.preset.clone(),
            duration: self.duration,
            format: self.format.clone(),
            quality: self.quality.clone(),
        }
    }
}

impl Transcoding {
    /// Decodes an encoding from a JSON value.
    pub fn from_json(json: &Json) -> (decoded: Result<Transcoding, Error>)
        ensures
            decoded matches Ok(transcoding) ==> TranscodingView::of(*json) == Some(transcoding@),
            decoded matches Err(e) ==> TranscodingView::of(*json) is None && e.is_wrong_shape(),
    {
        let url = match json.text("url") {
            Some(text) => text,
            None => return Err(Error::wrong_shape()),
        };
        let preset = match json.text("preset") {
            Some(text) => text,
            None => return Err(Error::wrong_shape()),
        };
        let duration = match json.integer("duration") {
            Some(number) => number,
            None => return Err(Error::wrong_shape()),
        };
        let format = match json.get("format") {
            Some(inner) => TranscodingFormat::from_json(inner)?,
            None => return Err(Error::wrong_shape()),
        };
        let quality = match json.text("quality") {
            Some(text) => text,
            None => return Err(Error::wrong_shape()),
        };
        Ok(Transcoding { url, preset, duration, format, quality })
    }

    /// The API endpoint that leads to the media of this encoding.
    pub fn url(&self) -> (url: String)
        ensures
            url@ == self@.url,
    {
        self.url.clone()
    }

    /// The name of the encoding preset.
    pub fn preset(&self) -> (preset: String)
        ensures
            preset@ == self@.preset,
    {
        self.preset.clone()
    }

    /// The playing time in milliseconds.
    pub fn duration(&self) -> (duration: i64)
        ensures
            duration == self@.duration,
    {
        self.duration
    }

    /// How this encoding is delivered and what it holds.
    pub fn format(&self) -> (format: TranscodingFormat)
        ensures
            format@ == self@.format,
    {
        self.format.clone()
    }

    /// The quality label.
    pub fn quality(&self) -> (quality: String)
        ensures
            quality@ == self@.quality,
    {
        self.quality.clone()
    }
}

/// What each of a list of encodings holds.
pub open spec fn transcoding_views(list: Seq<Transcoding>) -> Seq<TranscodingView> {
    Seq::new(list.len(), |i: int| list[i]@)
}

/// Copies a list of encodings.
fn copy_transcodings(list: &Vec<Transcoding>) -> (copy: Vec<Transcoding>)
    ensures
        transcoding_views(copy@) == transcoding_views(list@),
{
    let mut copy: Vec<Transcoding> = Vec::new();
    let mut i: usize = 0;
    while i < list.len()
        invariant
            i <= list.len(),
            copy@.len() == i,
            forall|k: int| 0 <= k < i ==> copy@[k]@ == list@[k]@,
        decreases list.len() - i,
    {
        copy.push(list[i].clone());
        i += 1;
    }
    assert(transcoding_views(copy@) =~= transcoding_views(list@));
    copy
}

/// The encodings a track is offered in, in the order the service lists them.
#[derive(Debug)]
pub struct Media {
    transcodings: Vec<Transcoding>,
}

/// What a `Media` holds.
pub struct MediaView {
    pub transcodings: Seq<TranscodingView>,
}

impl View for Media {
    type V = MediaView;

    closed spec fn view(&self) -> MediaView {
        MediaView { transcodings: transcoding_views(self.transcodings@) }
    }
}

impl MediaView {
    /// Position `i` holds the first encoding whose protocol is exactly
    /// `progressive`.
    pub open spec fn first_progressive_at(self, i: int) -> bool {
        &&& 0 <= i < self.transcodings.len()
        &&& self.transcodings[i].format.protocol == PROGRESSIVE@
        &&& forall|j: int|
            0 <= j < i ==> (#[trigger] self.transcodings[j]).format.protocol
                != PROGRESSIVE@
    }

    /// No encoding has the protocol `progressive`.
    pub open spec fn no_progressive(self) -> bool {
        forall|j: int|
            0 <= j < self.transcodings.len() ==> (#[trigger] self.transcodings[j]).format.protocol
                != PROGRESSIVE@
    }

    /// The media that the JSON value `json` describes, if it describes one:
    /// an object whose member `transcodings` is an array of encodings.
    pub open spec fn of(json: Json) -> Option<MediaView> {
        match items_of(json.field("transcodings"@)) {
            Some(items) => match TranscodingView::all_of(items) {
                Some(transcodings) => Some(MediaView { transcodings }),
                None => None,
            },
            None => None,
        }
    }
}

impl Clone for Media {
    fn clone(&self) -> (copy: Self)
        ensures
            copy@ == self@,
    {
        Media { transcodings: copy_transcodings(&self.transcodings) }
    }
}

impl Media {
    /// Decodes a media description from a JSON value.
    pub fn from_json(json: &Json) -> (decoded: Result<Media, Error>)
        ensures
            decoded matches Ok(media) ==> MediaView::of(*json) == Some(media@),
            decoded matches Err(e) ==> MediaView::of(*json) is None && e.is_wrong_shape(),
    {
        let items = match json.get("transcodings") {
            Some(Json::Array(items)) => items,
            _ => return Err(Error::wrong_shape()),
        };
        let mut transcodings: Vec<Transcoding> = Vec::new();
        let mut i: usize = 0;
        while i < items.len()
            invariant
                items_of(json.field("transcodings"@)) == Some(items@),
                i <= items.len(),
                transcodings@.len() == i,
                forall|k: int|
                    0 <= k < i ==> (#[trigger] TranscodingView::of(items@[k])) == Some(
                        transcodings@[k]@,
                    ),
            decreases items.len() - i,
        {
            match Transcoding::from_json(&items[i]) {
                Ok(transcoding) => transcodings.push(transcoding),
                Err(e) => {
                    assert(TranscodingView::of(items@[i as int]) is None);
                    return Err(e);
                },
            }
            i += 1;
        }
        assert(TranscodingView::all_of(items@).unwrap() =~= transcoding_views(transcodings@));
        Ok(Media { transcodings })
    }

    /// The encodings, in the order the service lists them.
    pub fn transcodings(&self) -> (list: Vec<Transcoding>)
        ensures
            transcoding_views(list@) == self@.transcodings,
    {
        copy_transcodings(&self.transcodings)
    }

    /// The first encoding whose protocol is exactly `progressive`.
    ///
    /// A track that is offered only in segmented encodings has none; that is
    /// an ordinary outcome.
    pub fn progressive(&self) -> (found: Option<Transcoding>)
        ensures
            found matches Some(transcoding) ==> exists|i: int|
                self@.first_progressive_at(i) && self@.transcodings[i] == transcoding@,
            found is None ==> self@.no_progressive(),
    {
        let mut i: usize = 0;
        while i < self.transcodings.len()
            invariant
                i <= self.transcodings.len(),
                forall|j: int|
                    0 <= j < i ==> (#[trigger] self@.transcodings[j]).format.protocol
                        != PROGRESSIVE@,
            decreases self.transcodings.len() - i,
        {
            if self.transcodings[i].format.is_progressive() {
                assert(self@.first_progressive_at(i as int));
                return Some(self.transcodings[i].clone());
            }
            i += 1;
        }
        None
    }
}

/// What a resource is.
#[derive(Clone, Copy, Debug, PartialEq, Eq, Structural)]
pub enum ResourceKind {
    Track,
    User,
    Playlist,
}

impl ResourceKind {
    /// The name the service gives this kind.
    pub open spec fn name(self) -> Seq<char> {
        match self {
            ResourceKind::Track => "track"@,
            ResourceKind::User => "user"@,
            ResourceKind::Playlist => "playlist"@,
        }
    }

    /// The kind that the service calls `name`, if there is one.
    pub open spec fn named(name: Seq<char>) -> Option<ResourceKind> {
        if name == "track"@ {
            Some(ResourceKind::Track)
        } else if name == "user"@ {
            Some(ResourceKind::User)
        } else if name == "playlist"@ {
            Some(ResourceKind::Playlist)
        } else {
            None
        }
    }

    /// Finds the kind that the service calls `name`.
    pub fn from_name(name: &str) -> (kind: Option<ResourceKind>)
        ensures
            kind == ResourceKind::named(name@),
    {
        if same_text(name, "track") {
            Some(ResourceKind::Track)
        } else if same_text(name, "user") {
            Some(ResourceKind::User)
        } else if same_text(name, "playlist") {
            Some(ResourceKind::Playlist)
        } else {
            None
        }
    }
}

/// A track, a user or a playlist.
///
/// One shape serves all three kinds, so every field but `id` and `kind` may
/// be unknown. A field that the service did not give is `None`, never a
/// stand-in value.
#[derive(Debug)]
pub struct Resource {
    artwork_url: Option<String>,
    avatar_url: Option<String>,
    created_at: Option<String>,
    duration: Option<i64>,
    followers_count: Option<i64>,
    followings_count: Option<i64>,
    full_duration: Option<i64>,
    genre: Option<String>,
    id: i64,
    kind: ResourceKind,
    likes_count: Option<i64>,
    permalink_url: Option<String>,
    playback_count: Option<i64>,
    tag_list: Option<String>,
    title: Option<String>,
    tracks: Option<Vec<Resource>>,
    media: Option<Media>,
    user: Option<Box<Resource>>,
    username: Option<String>,
}

/// What a `Resource` holds.
pub struct ResourceView {
    pub artwork_url: Option<Seq<char>>,
    pub avatar_url: Option<Seq<char>>,
    pub created_at: Option<Seq<char>>,
    pub duration: Option<i64>,
    pub followers_count: Option<i64>,
    pub followings_count: Option<i64>,
    pub full_duration: Option<i64>,
    pub genre: Option<Seq<char>>,
    pub id: i64,
    pub kind: ResourceKind,
    pub likes_count: Option<i64>,
    pub permalink_url: Option<Seq<char>>,
    pub playback_count: Option<i64>,
    pub tag_list: Option<Seq<char>>,
    pub title: Option<Seq<char>>,
    pub tracks: Option<Seq<ResourceView>>,
    pub media: Option<MediaView>,
    pub user: Option<Box<ResourceView>>,
    pub username: Option<Seq<char>>,
}

/// What each of a list of resources holds.
pub open spec fn resource_views(list: Seq<Resource>) -> Seq<ResourceView> {
    Seq::new(list.len(), |i: int| list[i]@)
}

impl Resource {
    /// What this resource holds.
    pub closed spec fn model(self) -> ResourceView
        decreases self,
    {
        ResourceView {
            artwork_url: self.artwork_url.deep_view(),
            avatar_url: self.avatar_url.deep_view(),
            created_at: self.created_at.deep_view(),
            duration: self.duration,
            followers_count: self.followers_count,
            followings_count: self.followings_count,
            full_duration: self.full_duration,
            genre: self.genre.deep_view(),
            id: self.id,
            kind: self.kind,
            likes_count: self.likes_count,
            permalink_url: self.permalink_url.deep_view(),
            playback_count: self.playback_count,
            tag_list: self.tag_list.deep_view(),
            title: self.title.deep_view(),
            tracks: match self.tracks {
                Some(list) => Some(
                    Seq::new(
                        list@.len(),
                        |i: int|
                            if 0 <= i < list@.len() {
                                list@[i].model()
                            } else {
                                arbitrary()
                            },
                    ),
                ),
                None => None,
            },
            media: match self.media {
                Some(media) => Some(media@),
                None => None,
            },
            user: match self.user {
                Some(owner) => Some(Box::new((*owner).model())),
                None => None,
            },
            username: self.username.deep_view(),
        }
    }
}

impl View for Resource {
    type V = ResourceView;

    closed spec fn view(&self) -> ResourceView {
        self.model()
    }
}

impl MediaView {
    /// The media description in a member that may be left out: `Some(None)`
    /// when it is not given, `None` when it is given and describes none.
    pub open spec fn optional_of(value: Option<Json>) -> Option<Option<MediaView>> {
        if not_given(value) {
            Some(None)
        } else {
            match MediaView::of(value.unwrap()) {
                Some(media) => Some(Some(media)),
                None => None,
            }
        }
    }
}

impl ResourceView {
    /// The kind that the member `kind` of `json` names.
    pub open spec fn kind_of(json: Json) -> Option<ResourceKind> {
        match text_of(json.field("kind"@)) {
            Some(name) => ResourceKind::named(name),
            None => None,
        }
    }

    /// Every member of `json` that holds no further resource is of the type
    /// asked of it: `id` is an integer, `kind` names a kind, and each other
    /// one is left out or of its type.
    pub open spec fn well_typed(json: Json) -> bool {
        &&& optional_text_of(json.field("artwork_url"@)) is Some
        &&& optional_text_of(json.field("avatar_url"@)) is Some
        &&& optional_text_of(json.field("created_at"@)) is Some
        &&& optional_int_of(json.field("duration"@)) is Some
        &&& optional_int_of(json.field("followers_count"@)) is Some
        &&& optional_int_of(json.field("followings_count"@)) is Some
        &&& optional_int_of(json.field("full_duration"@)) is Some
        &&& optional_text_of(json.field("genre"@)) is Some
        &&& int_of(json.field("id"@)) is Some
        &&& ResourceView::kind_of(json) is Some
        &&& optional_int_of(json.field("likes_count"@)) is Some
        &&& optional_text_of(json.field("permalink_url"@)) is Some
        &&& optional_int_of(json.field("playback_count"@)) is Some
        &&& optional_text_of(json.field("tag_list"@)) is Some
        &&& optional_text_of(json.field("title"@)) is Some
        &&& MediaView::optional_of(json.field("media"@)) is Some
        &&& optional_text_of(json.field("username"@)) is Some
    }

    /// The owner in the member `user` of `json`: `Some(None)` when it is not
    /// given, `None` when it is given and describes no resource.
    pub open spec fn owner_of(json: Json) -> Option<Option<Box<ResourceView>>>
        decreases json, 0nat,
    {
        let user = json.field("user"@);
        if not_given(user) {
            Some(None)
        } else {
            proof {
                lemma_field_is_part(json, "user"@);
            }
            match ResourceView::of(user.unwrap()) {
                Some(owner) => Some(Some(Box::new(owner))),
                None => None,
            }
        }
    }

    /// The resources in the member `tracks` of `json`: `Some(None)` when it
    /// is not given, `None` when it is given and is no array of resources.
    pub open spec fn nested_of(json: Json) -> Option<Option<Seq<ResourceView>>>
        decreases json, 0nat,
    {
        let tracks = json.field("tracks"@);
        if not_given(tracks) {
            Some(None)
        } else {
            match tracks {
                Some(Json::Array(items)) => {
                    proof {
                        lemma_field_is_part(json, "tracks"@);
                    }
                    match ResourceView::all_of(items@) {
                        Some(list) => Some(Some(list)),
                        None => None,
                    }
                },
                _ => None,
            }
        }
    }

    /// The resources that the JSON values `items` describe, if each of them
    /// describes one.
    pub open spec fn all_of(items: Seq<Json>) -> Option<Seq<ResourceView>>
        decreases items, 2nat,
    {
        if forall|i: int| 0 <= i < items.len() ==> ResourceView::of(#[trigger] items[i]) is Some {
            Some(
                Seq::new(
                    items.len(),
                    |i: int|
                        if 0 <= i < items.len() {
                            ResourceView::of(items[i]).unwrap()
                        } else {
                            arbitrary()
                        },
                ),
            )
        } else {
            None
        }
    }

    /// The resource that the JSON value `json` describes, if it describes
    /// one.
    ///
    /// It does when it is an object whose member `id` is an integer and whose
    /// member `kind` is one of `track`, `user` and `playlist`, and each other
    /// member that a resource has is left out, `null`, or of its type. Members
    /// that a resource does not have are passed over.
    pub open spec fn of(json: Json) -> Option<ResourceView>
        decreases json, 1nat,
    {
        if ResourceView::well_typed(json) && ResourceView::owner_of(json) is Some
            && ResourceView::nested_of(json) is Some {
            Some(
                ResourceView {
                    artwork_url: optional_text_of(json.field("artwork_url"@)).unwrap(),
                    avatar_url: optional_text_of(json.field("avatar_url"@)).unwrap(),
                    created_at: optional_text_of(json.field("created_at"@)).unwrap(),
                    duration: optional_int_of(json.field("duration"@)).unwrap(),
                    followers_count: optional_int_of(json.field("followers_count"@)).unwrap(),
                    followings_count: optional_int_of(json.field("followings_count"@)).unwrap(),
                    full_duration: optional_int_of(json.field("full_duration"@)).unwrap(),
                    genre: optional_text_of(json.field("genre"@)).unwrap(),
                    id: int_of(json.field("id"@)).unwrap(),
                    kind: ResourceView::kind_of(json).unwrap(),
                    likes_count: optional_int_of(json.field("likes_count"@)).unwrap(),
                    permalink_url: optional_text_of(json.field("permalink_url"@)).unwrap(),
                    playback_count: optional_int_of(json.field("playback_count"@)).unwrap(),
                    tag_list: optional_text_of(json.field("tag_list"@)).unwrap(),
                    title: optional_text_of(json.field("title"@)).unwrap(),
                    tracks: ResourceView::nested_of(json).unwrap(),
                    media: MediaView::optional_of(json.field("media"@)).unwrap(),
                    user: ResourceView::owner_of(json).unwrap(),
                    username: optional_text_of(json.field("username"@)).unwrap(),
                },
            )
        } else {
            None
        }
    }
}

/// What an owner that may be missing holds.
pub open spec fn owner_view(owner: Option<Box<Resource>>) -> Option<Box<ResourceView>> {
    match owner {
        Some(resource) => Some(Box::new((*resource)@)),
        None => None,
    }
}

/// What a list of resources that may be missing holds.
pub open spec fn nested_views(list: Option<Vec<Resource>>) -> Option<Seq<ResourceView>> {
    match list {
        Some(resources) => Some(resource_views(resources@)),
        None => None,
    }
}

/// What a media description that may be missing holds.
pub open spec fn media_view(media: Option<Media>) -> Option<MediaView> {
    match media {
        Some(inner) => Some(inner@),
        None => None,
    }
}

/// Decodes a media description that may be left out.
fn optional_media(value: Option<&Json>) -> (decoded: Result<Option<Media>, Error>)
    ensures
        decoded matches Ok(media) ==> MediaView::optional_of(
            match value {
                Some(json) => Some(*json),
                None => None,
            },
        ) == Some(media_view(media)),
        decoded matches Err(e) ==> MediaView::optional_of(
            match value {
                Some(json) => Some(*json),
                None => None,
            },
        ) is None && e.is_wrong_shape(),
{
    match value {
        None => Ok(None),
        Some(Json::Null) => Ok(None),
        Some(json) => {
            let media = Media::from_json(json)?;
            Ok(Some(media))
        },
    }
}

impl Resource {
    /// Decodes the owner in the member `user`.
    fn owner_from(json: &Json) -> (decoded: Result<Option<Box<Resource>>, Error>)
        ensures
            decoded matches Ok(owner) ==> ResourceView::owner_of(*json) == Some(owner_view(owner)),
            decoded matches Err(e) ==> ResourceView::owner_of(*json) is None && e.is_wrong_shape(),
        decreases *json, 0nat,
    {
        match json.get("user") {
            None => Ok(None),
            Some(Json::Null) => Ok(None),
            Some(inner) => {
                proof {
                    lemma_field_is_part(*json, "user"@);
                }
                let owner = Resource::from_json(inner)?;
                Ok(Some(Box::new(owner)))
            },
        }
    }

    /// Decodes the resources in the member `tracks`.
    fn nested_from(json: &Json) -> (decoded: Result<Option<Vec<Resource>>, Error>)
        ensures
            decoded matches Ok(list) ==> ResourceView::nested_of(*json) == Some(nested_views(list)),
            decoded matches Err(e) ==> ResourceView::nested_of(*json) is None && e.is_wrong_shape(),
        decreases *json, 0nat,
    {
        match json.get("tracks") {
            None => Ok(None),
            Some(Json::Null) => Ok(None),
            Some(Json::Array(items)) => {
                proof {
                    lemma_field_is_part(*json, "tracks"@);
                }
                let list = Resource::all_from_json(items)?;
                Ok(Some(list))
            },
            Some(_) => Err(Error::wrong_shape()),
        }
    }

    /// Decodes a resource from each of `items`, in order.
    pub fn all_from_json(items: &Vec<Json>) -> (decoded: Result<Vec<Resource>, Error>)
        ensures
            decoded matches Ok(list) ==> ResourceView::all_of(items@) == Some(
                resource_views(list@),
            ),
            decoded matches Err(e) ==> ResourceView::all_of(items@) is None && e.is_wrong_shape(),
        decreases items@, 2nat,
    {
        let mut list: Vec<Resource> = Vec::new();
        let mut i: usize = 0;
        while i < items.len()
            invariant
                i <= items.len(),
                list@.len() == i,
                forall|k: int|
                    0 <= k < i ==> ResourceView::of(#[trigger] items@[k]) == Some(list@[k]@),
            decreases items.len() - i,
        {
            match Resource::from_json(&items[i]) {
                Ok(resource) => list.push(resource),
                Err(e) => {
                    assert(ResourceView::of(items@[i as int]) is None);
                    assert(ResourceView::all_of(items@) is None);
                    return Err(e);
                },
            }
            i += 1;
        }
        assert(ResourceView::all_of(items@) is Some);
        assert(ResourceView::all_of(items@).unwrap() =~= resource_views(list@));
        Ok(list)
    }

    /// Decodes a resource from a JSON value.
    ///
    /// Only `id` and `kind` have to be there. A member that is left out or
    /// `null` gives a field that is `None`.
    pub fn from_json(json: &Json) -> (decoded: Result<Resource, Error>)
        ensures
            decoded matches Ok(resource) ==> ResourceView::of(*json) == Some(resource@),
            decoded matches Err(e) ==> ResourceView::of(*json) is None && e.is_wrong_shape(),
        decreases *json, 1nat,
    {
        let artwork_url = match json.optional_text("artwork_url") {
            Some(value) => value,
            None => return Err(Error::wrong_shape()),
        };
        let avatar_url = match json.optional_text("avatar_url") {
            Some(value) => value,
            None => return Err(Error::wrong_shape()),
        };
        let created_at = match json.optional_text("created_at") {
            Some(value) => value,
            None => return Err(Error::wrong_shape()),
        };
        let duration = match json.optional_integer("duration") {
            Some(value) => value,
            None => return Err(Error::wrong_shape()),
        };
        let followers_count = match json.optional_integer("followers_count") {
            Some(value) => value,
            None => return Err(Error::wrong_shape()),
        };
        let followings_count = match json.optional_integer("followings_count") {
            Some(value) => value,
            None => return Err(Error::wrong_shape()),
        };
        let full_duration = match json.optional_integer("full_duration") {
            Some(value) => value,
            None => return Err(Error::wrong_shape()),
        };
        let genre = match json.optional_text("genre") {
            Some(value) => value,
            None => return Err(Error::wrong_shape()),
        };
        let id = match json.integer("id") {
            Some(value) => value,
            None => return Err(Error::wrong_shape()),
        };
        let kind = match json.text("kind") {
            Some(name) => match ResourceKind::from_name(name.as_str()) {
                Some(kind) => kind,
                None => return Err(Error::wrong_shape()),
            },
            None => return Err(Error::wrong_shape()),
        };
        let likes_count = match json.optional_integer("likes_count") {
            Some(value) => value,
            None => return Err(Error::wrong_shape()),
        };
        let permalink_url = match json.optional_text("permalink_url") {
            Some(value) => value,
            None => return Err(Error::wrong_shape()),
        };
        let playback_count = match json.optional_integer("playback_count") {
            Some(value) => value,
            None => return Err(Error::wrong_shape()),
        };
        let tag_list = match json.optional_text("tag_list") {
            Some(value) => value,
            None => return Err(Error::wrong_shape()),
        };
        let title = match json.optional_text("title") {
            Some(value) => value,
            None => return Err(Error::wrong_shape()),
        };
        let media = optional_media(json.get("media"))?;
        let username = match json.optional_text("username") {
            Some(value) => value,
            None => return Err(Error::wrong_shape()),
        };
        let tracks = Resource::nested_from(json)?;
        let user = Resource::owner_from(json)?;
        let resource = Resource {
            artwork_url,
            avatar_url,
            created_at,
            duration,
            followers_count,
            followings_count,
            full_duration,
            genre,
            id,
            kind,
            likes_count,
            permalink_url,
            playback_count,
            tag_list,
            title,
            tracks,
            media,
            user,
            username,
        };
        proof {
            assert(ResourceView::well_typed(*json));
            assert(resource@.tracks =~= nested_views(resource.tracks));
            assert(resource@ == ResourceView::of(*json).unwrap());
        }
        Ok(resource)
    }
}

/// Copies a list of resources.
pub(crate) fn copy_resources(list: &Vec<Resource>) -> (copy: Vec<Resource>)
    ensures
        resource_views(copy@) == resource_views(list@),
    decreases list@, 0nat,
{
    let mut copy: Vec<Resource> = Vec::new();
    let mut i: usize = 0;
    while i < list.len()
        invariant
            i <= list.len(),
            copy@.len() == i,
            forall|k: int| 0 <= k < i ==> copy@[k]@ == list@[k]@,
        decreases list.len() - i,
    {
        copy.push(list[i].clone());
        i += 1;
    }
    assert(resource_views(copy@) =~= resource_views(list@));
    copy
}

impl Clone for Resource {
    fn clone(&self) -> (copy: Self)
        ensures
            copy@ == self@,
        decreases *self, 1nat,
    {
        let tracks = match &self.tracks {
            Some(list) => Some(copy_resources(list)),
            None => None,
        };
        let user = match &self.user {
            Some(owner) => Some(Box::new((**owner).clone())),
            None => None,
        };
        let media = match &self.media {
            Some(media) => Some(media.clone()),
            None => None,
        };
        let copy = Resource {
            artwork_url: self.artwork_url.clone(),
            avatar_url: self.avatar_url.clone(),
            created_at: self.created_at.clone(),
            duration: self.duration,
            followers_count: self.followers_count,
            followings_count: self.followings_count,
            full_duration: self.full_duration,
            genre: self.genre.clone(),
            id: self.id,
            kind: self.kind,
            likes_count: self.likes_count,
            permalink_url: self.permalink_url.clone(),
            playback_count: self.playback_count,
            tag_list: self.tag_list.clone(),
            title: self.title.clone(),
            tracks,
            media,
            user,
            username: self.username.clone(),
        };
        assert(copy@.tracks =~= nested_views(copy.tracks));
        assert(self@.tracks =~= nested_views(self.tracks));
        copy
    }
}

impl Resource {
    /// Where the cover image is found.
    pub fn artwork_url(&self) -> (artwork_url: Option<String>)
        ensures
            artwork_url.deep_view() == self@.artwork_url,
    {
        self.artwork_url.clone()
    }

    /// Where a user's picture is found.
    pub fn avatar_url(&self) -> (avatar_url: Option<String>)
        ensures
            avatar_url.deep_view() == self@.avatar_url,
    {
        self.avatar_url.clone()
    }

    /// When the resource was made, as the service writes it.
    pub fn created_at(&self) -> (created_at: Option<String>)
        ensures
            created_at.deep_view() == self@.created_at,
    {
        self.created_at.clone()
    }

    /// The playing time in milliseconds.
    pub fn duration(&self) -> (duration: Option<i64>)
        ensures
            duration == self@.duration,
    {
        self.duration
    }

    /// How many follow a user.
    pub fn followers_count(&self) -> (followers_count: Option<i64>)
        ensures
            followers_count == self@.followers_count,
    {
        self.followers_count
    }

    /// How many a user follows.
    pub fn followings_count(&self) -> (followings_count: Option<i64>)
        ensures
            followings_count == self@.followings_count,
    {
        self.followings_count
    }

    /// The playing time of the whole track in milliseconds.
    pub fn full_duration(&self) -> (full_duration: Option<i64>)
        ensures
            full_duration == self@.full_duration,
    {
        self.full_duration
    }

    /// The genre, as the uploader named it.
    pub fn genre(&self) -> (genre: Option<String>)
        ensures
            genre.deep_view() == self@.genre,
    {
        self.genre.clone()
    }

    /// The number by which the service knows the resource.
    pub fn id(&self) -> (id: i64)
        ensures
            id == self@.id,
    {
        self.id
    }

    /// What the resource is.
    pub fn kind(&self) -> (kind: ResourceKind)
        ensures
            kind == self@.kind,
    {
        self.kind
    }

    /// How many liked the resource.
    pub fn likes_count(&self) -> (likes_count: Option<i64>)
        ensures
            likes_count == self@.likes_count,
    {
        self.likes_count
    }

    /// The page of the resource on the service's site.
    pub fn permalink_url(&self) -> (permalink_url: Option<String>)
        ensures
            permalink_url.deep_view() == self@.permalink_url,
    {
        self.permalink_url.clone()
    }

    /// How often the resource was played.
    pub fn playback_count(&self) -> (playback_count: Option<i64>)
        ensures
            playback_count == self@.playback_count,
    {
        self.playback_count
    }

    /// The tags, as one text.
    pub fn tag_list(&self) -> (tag_list: Option<String>)
        ensures
            tag_list.deep_view() == self@.tag_list,
    {
        self.tag_list.clone()
    }

    /// The title.
    pub fn title(&self) -> (title: Option<String>)
        ensures
            title.deep_view() == self@.title,
    {
        self.title.clone()
    }

    /// The resources a playlist holds, in order.
    pub fn tracks(&self) -> (tracks: Option<Vec<Resource>>)
        ensures
            nested_views(tracks) == self@.tracks,
    {
        let tracks = match &self.tracks {
            Some(list) => Some(copy_resources(list)),
            None => None,
        };
        assert(nested_views(tracks) =~= self@.tracks);
        tracks
    }

    /// The encodings a track is offered in.
    pub fn media(&self) -> (media: Option<Media>)
        ensures
            media_view(media) == self@.media,
    {
        match &self.media {
            Some(media) => Some(media.clone()),
            None => None,
        }
    }

    /// The resource's owner.
    pub fn user(&self) -> (user: Option<Resource>)
        ensures
            user matches Some(owner) ==> self@.user == Some(Box::new(owner@)),
            user is None ==> self@.user is None,
    {
        match &self.user {
            Some(owner) => Some((**owner).clone()),
            None => None,
        }
    }

    /// A user's name.
    pub fn username(&self) -> (username: Option<String>)
        ensures
            username.deep_view() == self@.username,
    {
        self.username.clone()
    }
}

impl ResourceView {
    /// The resource that holds `id` and `kind` and reports every other field
    /// as absent.
    pub open spec fn bare(id: i64, kind: ResourceKind) -> ResourceView {
        ResourceView {
            artwork_url: None,
            avatar_url: None,
            created_at: None,
            duration: None,
            followers_count: None,
            followings_count: None,
            full_duration: None,
            genre: None,
            id,
            kind,
            likes_count: None,
            permalink_url: None,
            playback_count: None,
            tag_list: None,
            title: None,
            tracks: None,
            media: None,
            user: None,
            username: None,
        }
    }
}

/// The names of the members that a resource may leave out.
pub open spec fn optional_members() -> Seq<Seq<char>> {
    seq![
        "artwork_url"@,
        "avatar_url"@,
        "created_at"@,
        "duration"@,
        "followers_count"@,
        "followings_count"@,
        "full_duration"@,
        "genre"@,
        "likes_count"@,
        "permalink_url"@,
        "playback_count"@,
        "tag_list"@,
        "title"@,
        "tracks"@,
        "media"@,
        "user"@,
        "username"@,
    ]
}

/// Each kind is found again under its own name.
pub proof fn lemma_kind_names_are_distinct(kind: ResourceKind)
    ensures
        ResourceKind::named(kind.name()) == Some(kind),
{
    reveal_strlit("track");
    reveal_strlit("user");
    reveal_strlit("playlist");
    assert("track"@.len() == 5);
    assert("user"@.len() == 4);
    assert("playlist"@.len() == 8);
}

/// Whatever the kind, a JSON object that gives `id` and `kind` and none of
/// the members that a resource may leave out decodes, and the resource it
/// decodes to reports every one of those fields as absent.
pub proof fn lemma_bare_resource_decodes(json: Json, id: i64, kind: ResourceKind)
    requires
        json.field("id"@) == Some(Json::Int(id)),
        text_of(json.field("kind"@)) == Some(kind.name()),
        forall|i: int|
            0 <= i < optional_members().len() ==> json.field(#[trigger] optional_members()[i])
                is None,
    ensures
        ResourceView::of(json) == Some(ResourceView::bare(id, kind)),
{
    lemma_kind_names_are_distinct(kind);
    assert(json.field(optional_members()[0]) is None);
    assert(json.field(optional_members()[1]) is None);
    assert(json.field(optional_members()[2]) is None);
    assert(json.field(optional_members()[3]) is None);
    assert(json.field(optional_members()[4]) is None);
    assert(json.field(optional_members()[5]) is None);
    assert(json.field(optional_members()[6]) is None);
    assert(json.field(optional_members()[7]) is None);
    assert(json.field(optional_members()[8]) is None);
    assert(json.field(optional_members()[9]) is None);
    assert(json.field(optional_members()[10]) is None);
    assert(json.field(optional_members()[11]) is None);
    assert(json.field(optional_members()[12]) is None);
    assert(json.field(optional_members()[13]) is None);
    assert(json.field(optional_members()[14]) is None);
    assert(json.field(optional_members()[15]) is None);
    assert(json.field(optional_members()[16]) is None);
    assert(ResourceView::well_typed(json));
    assert(ResourceView::owner_of(json) == Some(None::<Box<ResourceView>>));
    assert(ResourceView::nested_of(json) == Some(None::<Seq<ResourceView>>));
}

} // verus!
