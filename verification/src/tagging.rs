//! The ID3 tag written into an exported recording.
use vstd::prelude::*;
use id3::frame::PictureType;
use id3::TagLike;
use crate::control::or_default;
use crate::text::decimal;
use crate::track::{opt_view, TrackInfo};

verus! {

#[verifier::external_type_specification]
#[verifier::external_body]
pub struct ExTag(id3::Tag);

/// The IDs of all frames of an ID3 tag.
pub uninterp spec fn tag_frame_ids(tag: id3::Tag) -> Set<Seq<char>>;

/// The text of the frames of an ID3 tag: each frame ID mapped to the text
/// of the first frame with that ID, where that frame holds text.
pub uninterp spec fn tag_texts(tag: id3::Tag) -> Map<Seq<char>, Seq<char>>;

/// The picture frames of an ID3 tag, in order: picture type code, MIME
/// type, description and image data.
pub uninterp spec fn tag_pictures(tag: id3::Tag) -> Seq<(u8, Seq<char>, Seq<char>, Seq<u8>)>;

/// `id3::Tag::new`: a tag without frames.
#[verifier::external_body]
fn new_tag() -> (fresh: id3::Tag)
    ensures
        tag_frame_ids(fresh) == Set::<Seq<char>>::empty(),
        tag_texts(fresh).dom() == Set::<Seq<char>>::empty(),
        tag_pictures(fresh).len() == 0,
{
    id3::Tag::new()
}

/// `TagLike::set_title`: adds a "TIT2" text frame, replacing the first one
/// there was. Other frames stay; what the title reads as when a "TIT2"
/// frame was there before is not stated.
#[verifier::external_body]
fn set_title(tag: &mut id3::Tag, title: &str)
    ensures
        tag_frame_ids(*final(tag)) == tag_frame_ids(*old(tag)).insert("TIT2"@),
        tag_pictures(*final(tag)) == tag_pictures(*old(tag)),
        !tag_frame_ids(*old(tag)).contains("TIT2"@) ==> tag_texts(*final(tag)) == tag_texts(
            *old(tag),
        ).insert("TIT2"@, title@),
{
    tag.set_title(title)
}

/// `TagLike::set_artist`: adds a "TPE1" text frame, as `set_title` does
/// for "TIT2".
#[verifier::external_body]
fn set_artist(tag: &mut id3::Tag, artist: &str)
    ensures
        tag_frame_ids(*final(tag)) == tag_frame_ids(*old(tag)).insert("TPE1"@),
        tag_pictures(*final(tag)) == tag_pictures(*old(tag)),
        !tag_frame_ids(*old(tag)).contains("TPE1"@) ==> tag_texts(*final(tag)) == tag_texts(
            *old(tag),
        ).insert("TPE1"@, artist@),
{
    tag.set_artist(artist)
}

/// `TagLike::set_album`: adds a "TALB" text frame, as `set_title` does for
/// "TIT2".
#[verifier::external_body]
fn set_album(tag: &mut id3::Tag, album: &str)
    ensures
        tag_frame_ids(*final(tag)) == tag_frame_ids(*old(tag)).insert("TALB"@),
        tag_pictures(*final(tag)) == tag_pictures(*old(tag)),
        !tag_frame_ids(*old(tag)).contains("TALB"@) ==> tag_texts(*final(tag)) == tag_texts(
            *old(tag),
        ).insert("TALB"@, album@),
{
    tag.set_album(album)
}

/// `TagLike::set_album_artist`: adds a "TPE2" text frame, as `set_title`
/// does for "TIT2".
#[verifier::external_body]
fn set_album_artist(tag: &mut id3::Tag, album_artist: &str)
    ensures
        tag_frame_ids(*final(tag)) == tag_frame_ids(*old(tag)).insert("TPE2"@),
        tag_pictures(*final(tag)) == tag_pictures(*old(tag)),
        !tag_frame_ids(*old(tag)).contains("TPE2"@) ==> tag_texts(*final(tag)) == tag_texts(
            *old(tag),
        ).insert("TPE2"@, album_artist@),
{
    tag.set_album_artist(album_artist)
}

/// `TagLike::set_track`: adds a "TRCK" text frame. Without a "TRCK" frame
/// before, its text is the number in decimal; with one, it would keep the
/// total that frame held, which is not stated.
#[verifier::external_body]
fn set_track(tag: &mut id3::Tag, track: u32)
    ensures
        tag_frame_ids(*final(tag)) == tag_frame_ids(*old(tag)).insert("TRCK"@),
        tag_pictures(*final(tag)) == tag_pictures(*old(tag)),
        !tag_frame_ids(*old(tag)).contains("TRCK"@) ==> tag_texts(*final(tag)) == tag_texts(
            *old(tag),
        ).insert("TRCK"@, decimal(track as nat)),
{
    tag.set_track(track)
}

/// `TagLike::set_disc`: adds a "TPOS" text frame, as `set_track` does for
/// "TRCK".
#[verifier::external_body]
fn set_disc(tag: &mut id3::Tag, disc: u32)
    ensures
        tag_frame_ids(*final(tag)) == tag_frame_ids(*old(tag)).insert("TPOS"@),
        tag_pictures(*final(tag)) == tag_pictures(*old(tag)),
        !tag_frame_ids(*old(tag)).contains("TPOS"@) ==> tag_texts(*final(tag)) == tag_texts(
            *old(tag),
        ).insert("TPOS"@, decimal(disc as nat)),
{
    tag.set_disc(disc)
}

#[verifier::external_type_specification]
#[verifier::external_body]
pub struct ExPictureType(PictureType);

/// The ID3 picture type with code `code` (the inverse of id3's
/// `From<PictureType> for u8`): codes 0 to 20 are the named types, other
/// codes are undefined types that keep the code.
#[verifier::external_body]
fn picture_type(code: u8) -> PictureType {
    match code {
        0 => PictureType::Other, 1 => PictureType::Icon, 2 => PictureType::OtherIcon,
        3 => PictureType::CoverFront, 4 => PictureType::CoverBack, 5 => PictureType::Leaflet,
        6 => PictureType::Media, 7 => PictureType::LeadArtist, 8 => PictureType::Artist,
        9 => PictureType::Conductor, 10 => PictureType::Band, 11 => PictureType::Composer,
        12 => PictureType::Lyricist, 13 => PictureType::RecordingLocation,
        14 => PictureType::DuringRecording, 15 => PictureType::DuringPerformance,
        16 => PictureType::ScreenCapture, 17 => PictureType::BrightFish,
        18 => PictureType::Illustration, 19 => PictureType::BandLogo,
        20 => PictureType::PublisherLogo, n => PictureType::Undefined(n),
    }
}

/// `TagLike::add_frame` with a picture of picture type code `picture_type`:
/// adds an "APIC" frame, replacing the first picture frame of the same type
/// there was. Without an "APIC" frame before, the text frames stay and the
/// picture frames are the old ones and this one after them; with one,
/// which frames remain is not stated.
#[verifier::external_body]
fn add_picture(
    tag: &mut id3::Tag,
    picture_type_code: u8,
    mime_type: &str,
    description: &str,
    data: Vec<u8>,
)
    ensures
        tag_frame_ids(*final(tag)) == tag_frame_ids(*old(tag)).insert("APIC"@),
        !tag_frame_ids(*old(tag)).contains("APIC"@) ==> tag_texts(*final(tag)) == tag_texts(
            *old(tag),
        ),
        !tag_frame_ids(*old(tag)).contains("APIC"@) ==> tag_pictures(*final(tag)) == tag_pictures(
            *old(tag),
        ).push((picture_type_code, mime_type@, description@, data@)),
{
    tag.add_frame(
        id3::frame::Picture {
            mime_type: mime_type.to_string(),
            picture_type: picture_type(picture_type_code),
            description: description.to_string(),
            data,
        },
    );
}

/// The picture type code of a front cover.
pub open spec fn front_cover_code() -> u8 {
    3
}

/// The text frames of the tag of a track: title, artist and album (with
/// "Unknown ..." for what is missing), and album artist, track number and
/// disc number where known. Numbers are taken as unsigned 32-bit values.
pub open spec fn track_texts(t: TrackInfo) -> Map<Seq<char>, Seq<char>> {
    let base = Map::<Seq<char>, Seq<char>>::empty().insert(
        "TIT2"@,
        or_default(opt_view(t.title), "Unknown Title"@),
    ).insert("TPE1"@, or_default(opt_view(t.artist), "Unknown Artist"@)).insert(
        "TALB"@,
        or_default(opt_view(t.album), "Unknown Album"@),
    );
    let with_album_artist = match t.album_artist {
        Some(a) => base.insert("TPE2"@, a@),
        None => base,
    };
    let with_track = match t.track_number {
        Some(n) => with_album_artist.insert("TRCK"@, decimal((n as u32) as nat)),
        None => with_album_artist,
    };
    match t.disc_number {
        Some(n) => with_track.insert("TPOS"@, decimal((n as u32) as nat)),
        None => with_track,
    }
}

/// The picture frames of the tag of a track: the cover art, when there is
/// one, as a JPEG front cover described as "Album Art".
pub open spec fn track_pictures(cover_art: Option<Vec<u8>>) -> Seq<
    (u8, Seq<char>, Seq<char>, Seq<u8>),
> {
    match cover_art {
        Some(data) => seq![(front_cover_code(), "image/jpeg"@, "Album Art"@, data@)],
        None => seq![],
    }
}

proof fn lemma_frame_ids_distinct()
    ensures
        "TIT2"@[1] == 'I' && "TPE1"@[1] == 'P' && "TALB"@[1] == 'A' && "TPE2"@[1] == 'P'
            && "TRCK"@[1] == 'R' && "TPOS"@[1] == 'P' && "APIC"@[1] == 'P',
        "TPE1"@[2] == 'E' && "TPE2"@[2] == 'E' && "TPOS"@[2] == 'O' && "APIC"@[2] == 'I',
        "TPE1"@[3] == '1' && "TPE2"@[3] == '2',
{
    reveal_strlit("TIT2");
    reveal_strlit("TPE1");
    reveal_strlit("TALB");
    reveal_strlit("TPE2");
    reveal_strlit("TRCK");
    reveal_strlit("TPOS");
    reveal_strlit("APIC");
}

/// The ID3 tag for the recording of `track`, with `cover_art` as its front
/// cover when given.
pub fn build_tag(track: &TrackInfo, cover_art: Option<Vec<u8>>) -> (tag: id3::Tag)
    ensures
        tag_texts(tag) == track_texts(*track),
        tag_pictures(tag) == track_pictures(cover_art),
        tag_frame_ids(tag) == track_texts(*track).dom() + (if cover_art is Some {
            set!["APIC"@]
        } else {
            Set::empty()
        }),
{
    let ghost pictures = track_pictures(cover_art);
    let mut tag = new_tag();
    proof {
        lemma_frame_ids_distinct();
    }
    match &track.title {
        Some(t) => set_title(&mut tag, t.as_str()),
        None => set_title(&mut tag, "Unknown Title"),
    }
    match &track.artist {
        Some(a) => set_artist(&mut tag, a.as_str()),
        None => set_artist(&mut tag, "Unknown Artist"),
    }
    match &track.album {
        Some(a) => set_album(&mut tag, a.as_str()),
        None => set_album(&mut tag, "Unknown Album"),
    }
    if let Some(a) = &track.album_artist {
        set_album_artist(&mut tag, a.as_str());
    }
    if let Some(n) = track.track_number {
        set_track(&mut tag, #[verifier::truncate] (n as u32));
    }
    if let Some(n) = track.disc_number {
        set_disc(&mut tag, #[verifier::truncate] (n as u32));
    }
    assert(tag_texts(tag) =~= track_texts(*track));
    assert(tag_frame_ids(tag) =~= track_texts(*track).dom());
    match cover_art {
        Some(data) => {
            add_picture(&mut tag, 3, "image/jpeg", "Album Art", data);
            assert(tag_pictures(tag) =~= pictures);
        },
        None => {},
    }
    assert(tag_frame_ids(tag) =~= track_texts(*track).dom() + (if cover_art is Some {
        set!["APIC"@]
    } else {
        Set::empty()
    }));
    tag
}

} // verus!
