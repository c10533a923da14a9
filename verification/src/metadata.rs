//! Core data model: the canonical metadata record, the raw tag entries the
//! decoder hands over, and the closed enumeration of recognized tag roles.

use vstd::prelude::*;

verus! {

/// A recognized musical-metadata role attached to a decoded tag.
///
/// The decoder assigns one of these to a tag whose raw key string it
/// recognizes; tags with unrecognized keys carry no standard key.  Only a
/// small fixed subset of these roles is copied into the canonical record;
/// every other role is deliberately ignored by normalization.
#[derive(Clone, Copy, Debug, PartialEq, Eq, Structural)]
pub enum StandardKey {
    AcoustidFingerprint,
    AcoustidId,
    Album,
    AlbumArtist,
    Arranger,
    Artist,
    Bpm,
    Comment,
    Compilation,
    Composer,
    Conductor,
    ContentGroup,
    Copyright,
    Date,
    Description,
    DiscNumber,
    DiscSubtitle,
    DiscTotal,
    EncodedBy,
    Encoder,
    EncoderSettings,
    EncodingDate,
    Engineer,
    Ensemble,
    Genre,
    IdentAsin,
    IdentBarcode,
    IdentCatalogNumber,
    IdentEanUpn,
    IdentIsrc,
    IdentPn,
    IdentPodcast,
    IdentUpc,
    Label,
    Language,
    License,
    Lyricist,
    Lyrics,
    MediaFormat,
    MixDj,
    MixEngineer,
    Mood,
    MovementName,
    MovementNumber,
    MusicBrainzAlbumArtistId,
    MusicBrainzAlbumId,
    MusicBrainzArtistId,
    MusicBrainzDiscId,
    MusicBrainzGenreId,
    MusicBrainzLabelId,
    MusicBrainzOriginalAlbumId,
    MusicBrainzOriginalArtistId,
    MusicBrainzRecordingId,
    MusicBrainzReleaseGroupId,
    MusicBrainzReleaseStatus,
    MusicBrainzReleaseTrackId,
    MusicBrainzReleaseType,
    MusicBrainzTrackId,
    MusicBrainzWorkId,
    Opus,
    OriginalAlbum,
    OriginalArtist,
    OriginalDate,
    OriginalFile,
    OriginalWriter,
    Owner,
    Part,
    PartTotal,
    Performer,
    Podcast,
    PodcastCategory,
    PodcastDescription,
    PodcastKeywords,
    Producer,
    PurchaseDate,
    Rating,
    ReleaseCountry,
    ReleaseDate,
    Remixer,
    ReplayGainAlbumGain,
    ReplayGainAlbumPeak,
    ReplayGainTrackGain,
    ReplayGainTrackPeak,
    Script,
    SortAlbum,
    SortAlbumArtist,
    SortArtist,
    SortComposer,
    SortTrackTitle,
    TaggingDate,
    TrackNumber,
    TrackSubtitle,
    TrackTitle,
    TrackTotal,
    TvEpisode,
    TvEpisodeTitle,
    TvNetwork,
    TvSeason,
    TvShowTitle,
    Url,
    UrlArtist,
    UrlCopyright,
    UrlInternetRadio,
    UrlLabel,
    UrlOfficial,
    UrlPayment,
    UrlPodcast,
    UrlPurchase,
    UrlSource,
    Version,
    Writer,
}

/// One decoded tag entry: an optional recognized role, the raw key string as
/// it appeared in the file's comment block (absent when the decoder exposes
/// no raw key), and the tag's textual value.
#[derive(Clone, Debug)]
pub struct RawTag {
    pub std_key: Option<StandardKey>,
    pub vendor_key: Option<String>,
    pub value: String,
}

/// The mathematical value of a [`RawTag`].
pub ghost struct TagView {
    pub std_key: Option<StandardKey>,
    pub vendor_key: Option<Seq<char>>,
    pub value: Seq<char>,
}

impl View for RawTag {
    type V = TagView;

    open spec fn view(&self) -> TagView {
        TagView {
            std_key: self.std_key,
            vendor_key: self.vendor_key.deep_view(),
            value: self.value@,
        }
    }
}

impl DeepView for RawTag {
    type V = TagView;

    open spec fn deep_view(&self) -> TagView {
        self.view()
    }
}

/// The canonical metadata record.  Every field has a defined default, so the
/// record is always fully constructed even from incomplete tag sets: absence
/// is encoded as the default value, never as a missing field.
#[derive(Clone, Debug, PartialEq, Eq)]
pub struct AudioMetadata {
    pub name: String,
    pub artist: String,
    pub album: String,
    pub album_artist: String,
    pub year: u32,
    pub disc_number: String,
    pub composer: String,
    pub track: u32,
    pub path: String,
    pub lossless: bool,
    pub duration: u64,
    pub genres: String,
    pub comment: String,
}

/// The mathematical value of an [`AudioMetadata`] record.
pub ghost struct MetaView {
    pub name: Seq<char>,
    pub artist: Seq<char>,
    pub album: Seq<char>,
    pub album_artist: Seq<char>,
    pub year: u32,
    pub disc_number: Seq<char>,
    pub composer: Seq<char>,
    pub track: u32,
    pub path: Seq<char>,
    pub lossless: bool,
    pub duration: u64,
    pub genres: Seq<char>,
    pub comment: Seq<char>,
}

impl View for AudioMetadata {
    type V = MetaView;

    open spec fn view(&self) -> MetaView {
        MetaView {
            name: self.name@,
            artist: self.artist@,
            album: self.album@,
            album_artist: self.album_artist@,
            year: self.year,
            disc_number: self.disc_number@,
            composer: self.composer@,
            track: self.track,
            path: self.path@,
            lossless: self.lossless,
            duration: self.duration,
            genres: self.genres@,
            comment: self.comment@,
        }
    }
}

/// The all-defaults record: empty text, zero numbers, `lossless` false.
pub open spec fn default_meta() -> MetaView {
    MetaView {
        name: Seq::<char>::empty(),
        artist: Seq::<char>::empty(),
        album: Seq::<char>::empty(),
        album_artist: Seq::<char>::empty(),
        year: 0,
        disc_number: Seq::<char>::empty(),
        composer: Seq::<char>::empty(),
        track: 0,
        path: Seq::<char>::empty(),
        lossless: false,
        duration: 0,
        genres: Seq::<char>::empty(),
        comment: Seq::<char>::empty(),
    }
}

impl Default for AudioMetadata {
    /// Builds the all-defaults record.
    fn default() -> (m: AudioMetadata)
        ensures
            m@ == default_meta(),
    {
        AudioMetadata {
            name: String::new(),
            artist: String::new(),
            album: String::new(),
            album_artist: String::new(),
            year: 0,
            disc_number: String::new(),
            composer: String::new(),
            track: 0,
            path: String::new(),
            lossless: false,
            duration: 0,
            genres: String::new(),
            comment: String::new(),
        }
    }
}

impl AudioMetadata {
    /// Fills in the caller-supplied source facts that do not come from the
    /// generic tag list: the file path, the lossless flag, and the decoder's
    /// separately reported duration and track number.
    pub fn with_source(self, path: String, lossless: bool, duration: u64, track: u32) -> (m:
        AudioMetadata)
        ensures
            m@ == (MetaView { path: path@, lossless, duration, track, ..self@ }),
    {
        AudioMetadata { path, lossless, duration, track, ..self }
    }
}

} // verus!
