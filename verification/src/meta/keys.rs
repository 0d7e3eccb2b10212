//! Standardized keys for the common kinds of tags and visuals.

use vstd::prelude::*;

verus! {

/// `StandardVisualKey` names the common dispositions of a visual. A reader
/// may assign one to a `Visual` when the disposition of the attached picture
/// is known and maps to a standard key.
///
/// The dispositions listed here are derived from, though do not entirely
/// cover, the ID3v2 APIC frame.
#[derive(Copy, Clone, Debug, PartialEq, Eq, Structural)]
pub enum StandardVisualKey {
    FileIcon,
    OtherIcon,
    FrontCover,
    BackCover,
    Leaflet,
    Media,
    LeadArtistPerformerSoloist,
    ArtistPerformer,
    Conductor,
    BandOrchestra,
    Composer,
    Lyricist,
    RecordingLocation,
    RecordingSession,
    Performance,
    ScreenCapture,
    Illustration,
    BandArtistLogo,
    PublisherStudioLogo,
}

/// `StandardTagKey` names the common kinds of tags. A reader may assign one
/// to a `Tag` when the tag's key is generally accepted to map to a specific
/// usage.
#[derive(Copy, Clone, Debug, PartialEq, Eq, Structural)]
pub enum StandardTagKey {
    AcoustidFingerprint,
    AcoustidId,
    Album,
    AlbumArtist,
    Arranger,
    Artist,
    Bpm,
    Comment,
    Compilation,
    Composer,
    Conductor,
    ContentGroup,
    Copyright,
    Date,
    Description,
    DiscNumber,
    DiscSubtitle,
    DiscTotal,
    EncodedBy,
    Encoder,
    EncoderSettings,
    EncodingDate,
    Engineer,
    Ensemble,
    Genre,
    IdentBarcode,
    IdentCatalogNumber,
    IdentEanUpn,
    IdentIsrc,
    IdentPn,
    IdentPodcast,
    IdentUpc,
    Label,
    Language,
    License,
    Lyricist,
    Lyrics,
    MediaFormat,
    MixDj,
    MixEngineer,
    Mood,
    MovementName,
    MovementNumber,
    MusicBrainzAlbumArtistId,
    MusicBrainzAlbumId,
    MusicBrainzArtistId,
    MusicBrainzDiscId,
    MusicBrainzGenreId,
    MusicBrainzLabelId,
    MusicBrainzOriginalAlbumId,
    MusicBrainzOriginalArtistId,
    MusicBrainzRecordingId,
    MusicBrainzReleaseGroupId,
    MusicBrainzReleaseTrackId,
    MusicBrainzTrackId,
    MusicBrainzWorkId,
    Opus,
    OriginalAlbum,
    OriginalArtist,
    OriginalDate,
    OriginalFile,
    OriginalWriter,
    Part,
    PartTotal,
    Performer,
    Podcast,
    PodcastCategory,
    PodcastDescription,
    PodcastKeywords,
    Producer,
    Rating,
    ReleaseCountry,
    ReleaseDate,
    Remixer,
    ReplayGainAlbumGain,
    ReplayGainAlbumPeak,
    ReplayGainTrackGain,
    ReplayGainTrackPeak,
    Script,
    SortAlbum,
    SortAlbumArtist,
    SortArtist,
    SortComposer,
    SortTrackTitle,
    TaggingDate,
    TrackNumber,
    TrackSubtitle,
    TrackTitle,
    TrackTotal,
    Url,
    UrlArtist,
    UrlCopyright,
    UrlInternetRadio,
    UrlLabel,
    UrlOfficial,
    UrlPayment,
    UrlPodcast,
    UrlPurchase,
    UrlSource,
    Version,
    Writer,
}

impl StandardTagKey {
    /// The name of the key as it is written in source, which is also how a
    /// tag shows it.
    pub open spec fn name_spec(self) -> Seq<char> {
        match self {
            StandardTagKey::AcoustidFingerprint => "AcoustidFingerprint"@,
            StandardTagKey::AcoustidId => "AcoustidId"@,
            StandardTagKey::Album => "Album"@,
            StandardTagKey::AlbumArtist => "AlbumArtist"@,
            StandardTagKey::Arranger => "Arranger"@,
            StandardTagKey::Artist => "Artist"@,
            StandardTagKey::Bpm => "Bpm"@,
            StandardTagKey::Comment => "Comment"@,
            StandardTagKey::Compilation => "Compilation"@,
            StandardTagKey::Composer => "Composer"@,
            StandardTagKey::Conductor => "Conductor"@,
            StandardTagKey::ContentGroup => "ContentGroup"@,
            StandardTagKey::Copyright => "Copyright"@,
            StandardTagKey::Date => "Date"@,
            StandardTagKey::Description => "Description"@,
            StandardTagKey::DiscNumber => "DiscNumber"@,
            StandardTagKey::DiscSubtitle => "DiscSubtitle"@,
            StandardTagKey::DiscTotal => "DiscTotal"@,
            StandardTagKey::EncodedBy => "EncodedBy"@,
            StandardTagKey::Encoder => "Encoder"@,
            StandardTagKey::EncoderSettings => "EncoderSettings"@,
            StandardTagKey::EncodingDate => "EncodingDate"@,
            StandardTagKey::Engineer => "Engineer"@,
            StandardTagKey::Ensemble => "Ensemble"@,
            StandardTagKey::Genre => "Genre"@,
            StandardTagKey::IdentBarcode => "IdentBarcode"@,
            StandardTagKey::IdentCatalogNumber => "IdentCatalogNumber"@,
            StandardTagKey::IdentEanUpn => "IdentEanUpn"@,
            StandardTagKey::IdentIsrc => "IdentIsrc"@,
            StandardTagKey::IdentPn => "IdentPn"@,
            StandardTagKey::IdentPodcast => "IdentPodcast"@,
            StandardTagKey::IdentUpc => "IdentUpc"@,
            StandardTagKey::Label => "Label"@,
            StandardTagKey::Language => "Language"@,
            StandardTagKey::License => "License"@,
            StandardTagKey::Lyricist => "Lyricist"@,
            StandardTagKey::Lyrics => "Lyrics"@,
            StandardTagKey::MediaFormat => "MediaFormat"@,
            StandardTagKey::MixDj => "MixDj"@,
            StandardTagKey::MixEngineer => "MixEngineer"@,
            StandardTagKey::Mood => "Mood"@,
            StandardTagKey::MovementName => "MovementName"@,
            StandardTagKey::MovementNumber => "MovementNumber"@,
            StandardTagKey::MusicBrainzAlbumArtistId => "MusicBrainzAlbumArtistId"@,
            StandardTagKey::MusicBrainzAlbumId => "MusicBrainzAlbumId"@,
            StandardTagKey::MusicBrainzArtistId => "MusicBrainzArtistId"@,
            StandardTagKey::MusicBrainzDiscId => "MusicBrainzDiscId"@,
            StandardTagKey::MusicBrainzGenreId => "MusicBrainzGenreId"@,
            StandardTagKey::MusicBrainzLabelId => "MusicBrainzLabelId"@,
            StandardTagKey::MusicBrainzOriginalAlbumId => "MusicBrainzOriginalAlbumId"@,
            StandardTagKey::MusicBrainzOriginalArtistId => "MusicBrainzOriginalArtistId"@,
            StandardTagKey::MusicBrainzRecordingId => "MusicBrainzRecordingId"@,
            StandardTagKey::MusicBrainzReleaseGroupId => "MusicBrainzReleaseGroupId"@,
            StandardTagKey::MusicBrainzReleaseTrackId => "MusicBrainzReleaseTrackId"@,
            StandardTagKey::MusicBrainzTrackId => "MusicBrainzTrackId"@,
            StandardTagKey::MusicBrainzWorkId => "MusicBrainzWorkId"@,
            StandardTagKey::Opus => "Opus"@,
            StandardTagKey::OriginalAlbum => "OriginalAlbum"@,
            StandardTagKey::OriginalArtist => "OriginalArtist"@,
            StandardTagKey::OriginalDate => "OriginalDate"@,
            StandardTagKey::OriginalFile => "OriginalFile"@,
            StandardTagKey::OriginalWriter => "OriginalWriter"@,
            StandardTagKey::Part => "Part"@,
            StandardTagKey::PartTotal => "PartTotal"@,
            StandardTagKey::Performer => "Performer"@,
            StandardTagKey::Podcast => "Podcast"@,
            StandardTagKey::PodcastCategory => "PodcastCategory"@,
            StandardTagKey::PodcastDescription => "PodcastDescription"@,
            StandardTagKey::PodcastKeywords => "PodcastKeywords"@,
            StandardTagKey::Producer => "Producer"@,
            StandardTagKey::Rating => "Rating"@,
            StandardTagKey::ReleaseCountry => "ReleaseCountry"@,
            StandardTagKey::ReleaseDate => "ReleaseDate"@,
            StandardTagKey::Remixer => "Remixer"@,
            StandardTagKey::ReplayGainAlbumGain => "ReplayGainAlbumGain"@,
            StandardTagKey::ReplayGainAlbumPeak => "ReplayGainAlbumPeak"@,
            StandardTagKey::ReplayGainTrackGain => "ReplayGainTrackGain"@,
            StandardTagKey::ReplayGainTrackPeak => "ReplayGainTrackPeak"@,
            StandardTagKey::Script => "Script"@,
            StandardTagKey::SortAlbum => "SortAlbum"@,
            StandardTagKey::SortAlbumArtist => "SortAlbumArtist"@,
            StandardTagKey::SortArtist => "SortArtist"@,
            StandardTagKey::SortComposer => "SortComposer"@,
            StandardTagKey::SortTrackTitle => "SortTrackTitle"@,
            StandardTagKey::TaggingDate => "TaggingDate"@,
            StandardTagKey::TrackNumber => "TrackNumber"@,
            StandardTagKey::TrackSubtitle => "TrackSubtitle"@,
            StandardTagKey::TrackTitle => "TrackTitle"@,
            StandardTagKey::TrackTotal => "TrackTotal"@,
            StandardTagKey::Url => "Url"@,
            StandardTagKey::UrlArtist => "UrlArtist"@,
            StandardTagKey::UrlCopyright => "UrlCopyright"@,
            StandardTagKey::UrlInternetRadio => "UrlInternetRadio"@,
            StandardTagKey::UrlLabel => "UrlLabel"@,
            StandardTagKey::UrlOfficial => "UrlOfficial"@,
            StandardTagKey::UrlPayment => "UrlPayment"@,
            StandardTagKey::UrlPodcast => "UrlPodcast"@,
            StandardTagKey::UrlPurchase => "UrlPurchase"@,
            StandardTagKey::UrlSource => "UrlSource"@,
            StandardTagKey::Version => "Version"@,
            StandardTagKey::Writer => "Writer"@,
        }
    }

    /// Gets the name of the key.
    pub fn name(&self) -> (name: &'static str)
        ensures
            name@ == self.name_spec(),
    {
        match self {
            StandardTagKey::AcoustidFingerprint => "AcoustidFingerprint",
            StandardTagKey::AcoustidId => "AcoustidId",
            StandardTagKey::Album => "Album",
            StandardTagKey::AlbumArtist => "AlbumArtist",
            StandardTagKey::Arranger => "Arranger",
            StandardTagKey::Artist => "Artist",
            StandardTagKey::Bpm => "Bpm",
            StandardTagKey::Comment => "Comment",
            StandardTagKey::Compilation => "Compilation",
            StandardTagKey::Composer => "Composer",
            StandardTagKey::Conductor => "Conductor",
            StandardTagKey::ContentGroup => "ContentGroup",
            StandardTagKey::Copyright => "Copyright",
            StandardTagKey::Date => "Date",
            StandardTagKey::Description => "Description",
            StandardTagKey::DiscNumber => "DiscNumber",
            StandardTagKey::DiscSubtitle => "DiscSubtitle",
            StandardTagKey::DiscTotal => "DiscTotal",
            StandardTagKey::EncodedBy => "EncodedBy",
            StandardTagKey::Encoder => "Encoder",
            StandardTagKey::EncoderSettings => "EncoderSettings",
            StandardTagKey::EncodingDate => "EncodingDate",
            StandardTagKey::Engineer => "Engineer",
            StandardTagKey::Ensemble => "Ensemble",
            StandardTagKey::Genre => "Genre",
            StandardTagKey::IdentBarcode => "IdentBarcode",
            StandardTagKey::IdentCatalogNumber => "IdentCatalogNumber",
            StandardTagKey::IdentEanUpn => "IdentEanUpn",
            StandardTagKey::IdentIsrc => "IdentIsrc",
            StandardTagKey::IdentPn => "IdentPn",
            StandardTagKey::IdentPodcast => "IdentPodcast",
            StandardTagKey::IdentUpc => "IdentUpc",
            StandardTagKey::Label => "Label",
            StandardTagKey::Language => "Language",
            StandardTagKey::License => "License",
            StandardTagKey::Lyricist => "Lyricist",
            StandardTagKey::Lyrics => "Lyrics",
            StandardTagKey::MediaFormat => "MediaFormat",
            StandardTagKey::MixDj => "MixDj",
            StandardTagKey::MixEngineer => "MixEngineer",
            StandardTagKey::Mood => "Mood",
            StandardTagKey::MovementName => "MovementName",
            StandardTagKey::MovementNumber => "MovementNumber",
            StandardTagKey::MusicBrainzAlbumArtistId => "MusicBrainzAlbumArtistId",
            StandardTagKey::MusicBrainzAlbumId => "MusicBrainzAlbumId",
            StandardTagKey::MusicBrainzArtistId => "MusicBrainzArtistId",
            StandardTagKey::MusicBrainzDiscId => "MusicBrainzDiscId",
            StandardTagKey::MusicBrainzGenreId => "MusicBrainzGenreId",
            StandardTagKey::MusicBrainzLabelId => "MusicBrainzLabelId",
            StandardTagKey::MusicBrainzOriginalAlbumId => "MusicBrainzOriginalAlbumId",
            StandardTagKey::MusicBrainzOriginalArtistId => "MusicBrainzOriginalArtistId",
            StandardTagKey::MusicBrainzRecordingId => "MusicBrainzRecordingId",
            StandardTagKey::MusicBrainzReleaseGroupId => "MusicBrainzReleaseGroupId",
            StandardTagKey::MusicBrainzReleaseTrackId => "MusicBrainzReleaseTrackId",
            StandardTagKey::MusicBrainzTrackId => "MusicBrainzTrackId",
            StandardTagKey::MusicBrainzWorkId => "MusicBrainzWorkId",
            StandardTagKey::Opus => "Opus",
            StandardTagKey::OriginalAlbum => "OriginalAlbum",
            StandardTagKey::OriginalArtist => "OriginalArtist",
            StandardTagKey::OriginalDate => "OriginalDate",
            StandardTagKey::OriginalFile => "OriginalFile",
            StandardTagKey::OriginalWriter => "OriginalWriter",
            StandardTagKey::Part => "Part",
            StandardTagKey::PartTotal => "PartTotal",
            StandardTagKey::Performer => "Performer",
            StandardTagKey::Podcast => "Podcast",
            StandardTagKey::PodcastCategory => "PodcastCategory",
            StandardTagKey::PodcastDescription => "PodcastDescription",
            StandardTagKey::PodcastKeywords => "PodcastKeywords",
            StandardTagKey::Producer => "Producer",
            StandardTagKey::Rating => "Rating",
            StandardTagKey::ReleaseCountry => "ReleaseCountry",
            StandardTagKey::ReleaseDate => "ReleaseDate",
            StandardTagKey::Remixer => "Remixer",
            StandardTagKey::ReplayGainAlbumGain => "ReplayGainAlbumGain",
            StandardTagKey::ReplayGainAlbumPeak => "ReplayGainAlbumPeak",
            StandardTagKey::ReplayGainTrackGain => "ReplayGainTrackGain",
            StandardTagKey::ReplayGainTrackPeak => "ReplayGainTrackPeak",
            StandardTagKey::Script => "Script",
            StandardTagKey::SortAlbum => "SortAlbum",
            StandardTagKey::SortAlbumArtist => "SortAlbumArtist",
            StandardTagKey::SortArtist => "SortArtist",
            StandardTagKey::SortComposer => "SortComposer",
            StandardTagKey::SortTrackTitle => "SortTrackTitle",
            StandardTagKey::TaggingDate => "TaggingDate",
            StandardTagKey::TrackNumber => "TrackNumber",
            StandardTagKey::TrackSubtitle => "TrackSubtitle",
            StandardTagKey::TrackTitle => "TrackTitle",
            StandardTagKey::TrackTotal => "TrackTotal",
            StandardTagKey::Url => "Url",
            StandardTagKey::UrlArtist => "UrlArtist",
            StandardTagKey::UrlCopyright => "UrlCopyright",
            StandardTagKey::UrlInternetRadio => "UrlInternetRadio",
            StandardTagKey::UrlLabel => "UrlLabel",
            StandardTagKey::UrlOfficial => "UrlOfficial",
            StandardTagKey::UrlPayment => "UrlPayment",
            StandardTagKey::UrlPodcast => "UrlPodcast",
            StandardTagKey::UrlPurchase => "UrlPurchase",
            StandardTagKey::UrlSource => "UrlSource",
            StandardTagKey::Version => "Version",
            StandardTagKey::Writer => "Writer",
        }
    }
}

} // verus!
