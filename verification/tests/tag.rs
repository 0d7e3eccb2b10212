use sonata_core::meta::{NonZeroU32, StandardTagKey, Tag};

#[test]
fn new_tag_copies_key_and_value() {
    let key = String::from("TITLE");
    let value = String::from("Blue in Green");
    let tag = Tag::new(Some(StandardTagKey::TrackTitle), &key, &value);
    drop(key);
    drop(value);
    assert_eq!(tag.std_key, Some(StandardTagKey::TrackTitle));
    assert_eq!(tag.key, "TITLE");
    assert_eq!(tag.value, "Blue in Green");
}

#[test]
fn new_tag_takes_empty_strings() {
    let tag = Tag::new(None, "", "");
    assert_eq!(tag.std_key, None);
    assert_eq!(tag.key, "");
    assert_eq!(tag.value, "");
}

#[test]
fn tag_is_known_iff_it_has_a_standard_key() {
    assert!(Tag::new(Some(StandardTagKey::Album), "ALBUM", "Kind of Blue").is_known());
    assert!(!Tag::new(None, "X-CUSTOM", "1").is_known());
}

#[test]
fn known_tag_shows_its_standard_key() {
    let tag = Tag::new(Some(StandardTagKey::Album), "ALBUM", "Kind of Blue");
    assert_eq!(tag.to_string(), "{ std_key=Album, key=\"ALBUM\", value=\"Kind of Blue\" }");
}

#[test]
fn unknown_tag_omits_the_standard_key() {
    let tag = Tag::new(None, "X-CUSTOM", "1");
    assert_eq!(tag.to_string(), "{ key=\"X-CUSTOM\", value=\"1\" }");
}

#[test]
fn tag_shows_key_and_value_verbatim() {
    let tag = Tag::new(None, "a\"b", "caf\u{e9} \u{266b}");
    assert_eq!(tag.to_string(), "{ key=\"a\"b\", value=\"caf\u{e9} \u{266b}\" }");
    let empty = Tag::new(Some(StandardTagKey::Url), "", "");
    assert_eq!(empty.to_string(), "{ std_key=Url, key=\"\", value=\"\" }");
}

#[test]
fn standard_key_is_named_as_it_is_written() {
    assert_eq!(StandardTagKey::AcoustidFingerprint.name(), "AcoustidFingerprint");
    assert_eq!(StandardTagKey::MusicBrainzReleaseGroupId.name(), "MusicBrainzReleaseGroupId");
    assert_eq!(StandardTagKey::TrackNumber.name(), "TrackNumber");
    assert_eq!(StandardTagKey::Writer.name(), "Writer");
}

#[test]
fn standard_key_name_is_its_debug_form() {
    let keys = [
        StandardTagKey::AcoustidFingerprint,
        StandardTagKey::AcoustidId,
        StandardTagKey::Album,
        StandardTagKey::AlbumArtist,
        StandardTagKey::Arranger,
        StandardTagKey::Artist,
        StandardTagKey::Bpm,
        StandardTagKey::Comment,
        StandardTagKey::Compilation,
        StandardTagKey::Composer,
        StandardTagKey::Conductor,
        StandardTagKey::ContentGroup,
        StandardTagKey::Copyright,
        StandardTagKey::Date,
        StandardTagKey::Description,
        StandardTagKey::DiscNumber,
        StandardTagKey::DiscSubtitle,
        StandardTagKey::DiscTotal,
        StandardTagKey::EncodedBy,
        StandardTagKey::Encoder,
        StandardTagKey::EncoderSettings,
        StandardTagKey::EncodingDate,
        StandardTagKey::Engineer,
        StandardTagKey::Ensemble,
        StandardTagKey::Genre,
        StandardTagKey::IdentBarcode,
        StandardTagKey::IdentCatalogNumber,
        StandardTagKey::IdentEanUpn,
        StandardTagKey::IdentIsrc,
        StandardTagKey::IdentPn,
        StandardTagKey::IdentPodcast,
        StandardTagKey::IdentUpc,
        StandardTagKey::Label,
        StandardTagKey::Language,
        StandardTagKey::License,
        StandardTagKey::Lyricist,
        StandardTagKey::Lyrics,
        StandardTagKey::MediaFormat,
        StandardTagKey::MixDj,
        StandardTagKey::MixEngineer,
        StandardTagKey::Mood,
        StandardTagKey::MovementName,
        StandardTagKey::MovementNumber,
        StandardTagKey::MusicBrainzAlbumArtistId,
        StandardTagKey::MusicBrainzAlbumId,
        StandardTagKey::MusicBrainzArtistId,
        StandardTagKey::MusicBrainzDiscId,
        StandardTagKey::MusicBrainzGenreId,
        StandardTagKey::MusicBrainzLabelId,
        StandardTagKey::MusicBrainzOriginalAlbumId,
        StandardTagKey::MusicBrainzOriginalArtistId,
        StandardTagKey::MusicBrainzRecordingId,
        StandardTagKey::MusicBrainzReleaseGroupId,
        StandardTagKey::MusicBrainzReleaseTrackId,
        StandardTagKey::MusicBrainzTrackId,
        StandardTagKey::MusicBrainzWorkId,
        StandardTagKey::Opus,
        StandardTagKey::OriginalAlbum,
        StandardTagKey::OriginalArtist,
        StandardTagKey::OriginalDate,
        StandardTagKey::OriginalFile,
        StandardTagKey::OriginalWriter,
        StandardTagKey::Part,
        StandardTagKey::PartTotal,
        StandardTagKey::Performer,
        StandardTagKey::Podcast,
        StandardTagKey::PodcastCategory,
        StandardTagKey::PodcastDescription,
        StandardTagKey::PodcastKeywords,
        StandardTagKey::Producer,
        StandardTagKey::Rating,
        StandardTagKey::ReleaseCountry,
        StandardTagKey::ReleaseDate,
        StandardTagKey::Remixer,
        StandardTagKey::ReplayGainAlbumGain,
        StandardTagKey::ReplayGainAlbumPeak,
        StandardTagKey::ReplayGainTrackGain,
        StandardTagKey::ReplayGainTrackPeak,
        StandardTagKey::Script,
        StandardTagKey::SortAlbum,
        StandardTagKey::SortAlbumArtist,
        StandardTagKey::SortArtist,
        StandardTagKey::SortComposer,
        StandardTagKey::SortTrackTitle,
        StandardTagKey::TaggingDate,
        StandardTagKey::TrackNumber,
        StandardTagKey::TrackSubtitle,
        StandardTagKey::TrackTitle,
        StandardTagKey::TrackTotal,
        StandardTagKey::Url,
        StandardTagKey::UrlArtist,
        StandardTagKey::UrlCopyright,
        StandardTagKey::UrlInternetRadio,
        StandardTagKey::UrlLabel,
        StandardTagKey::UrlOfficial,
        StandardTagKey::UrlPayment,
        StandardTagKey::UrlPodcast,
        StandardTagKey::UrlPurchase,
        StandardTagKey::UrlSource,
        StandardTagKey::Version,
        StandardTagKey::Writer,
    ];
    assert_eq!(keys.len(), 101);
    for key in keys {
        assert_eq!(key.name(), format!("{:?}", key));
        let tag = Tag::new(Some(key), "k", "v");
        assert_eq!(tag.to_string(), format!("{{ std_key={:?}, key=\"k\", value=\"v\" }}", key));
    }
}

#[test]
fn non_zero_rejects_zero_only() {
    assert_eq!(NonZeroU32::new(0), None);
    assert_eq!(NonZeroU32::new(1).unwrap().get(), 1);
    assert_eq!(NonZeroU32::new(256).unwrap().get(), 256);
    assert_eq!(NonZeroU32::new(u32::MAX).unwrap().get(), u32::MAX);
}
