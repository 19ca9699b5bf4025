//! Where a finished recording goes: a directory per artist and album, and a
//! file named after track number and title.
use vstd::prelude::*;
use crate::control::or_default;
use crate::text::{chars_of, decimal, digit_char, push_char, zero_padded2, zero_padded2_string};
use crate::track::{opt_view, TrackInfo};

verus! {

/// The place of an exported recording below the music directory:
/// `artist/album/file_name`, each part a plain name.
#[derive(Debug, PartialEq, Eq)]
pub struct ExportTarget {
    pub artist: String,
    pub album: String,
    pub file_name: String,
}

/// A character that may stand in a file name: a path separator or a NUL
/// becomes '_'.
pub open spec fn file_char(c: char) -> char {
    if c == '/' || c == '\0' {
        '_'
    } else {
        c
    }
}

/// `s` with every path separator and NUL replaced by '_'.
pub open spec fn without_separators(s: Seq<char>) -> Seq<char> {
    s.map_values(|c: char| file_char(c))
}

/// `s` made into one directory name: separators replaced, and the names
/// that stand for no new directory ("", "." and "..") replaced by
/// underscores.
pub open spec fn path_component(s: Seq<char>) -> Seq<char> {
    let r = without_separators(s);
    if r.len() == 0 || r == "."@ {
        "_"@
    } else if r == ".."@ {
        "__"@
    } else {
        r
    }
}

/// A name that, joined to a directory, names an entry directly inside it:
/// not empty, not "." or "..", without separator or NUL.
pub open spec fn is_plain_name(s: Seq<char>) -> bool {
    &&& s.len() > 0
    &&& s != "."@
    &&& s != ".."@
    &&& forall|i: int| 0 <= i < s.len() ==> s[i] != '/' && s[i] != '\0'
}

/// The artist directory of a track.
pub open spec fn artist_dir(t: TrackInfo) -> Seq<char> {
    path_component(or_default(opt_view(t.artist), "Unknown Artist"@))
}

/// The album directory of a track.
pub open spec fn album_dir(t: TrackInfo) -> Seq<char> {
    path_component(or_default(opt_view(t.album), "Unknown Album"@))
}

/// The file a track is exported to: two-digit track number (0 when
/// unknown), " - ", the title ("Unknown Title" when unknown) without path
/// separators, ".wav".
pub open spec fn export_file_name(t: TrackInfo) -> Seq<char> {
    let n: i32 = match t.track_number {
        Some(n) => n,
        None => 0,
    };
    zero_padded2(n as int) + " - "@ + without_separators(
        or_default(opt_view(t.title), "Unknown Title"@),
    ) + ".wav"@
}

fn text_or(s: &Option<String>, default: &str) -> (res: String)
    ensures
        res@ == or_default(opt_view(*s), default@),
{
    match s {
        Some(v) => v.clone(),
        None => String::from_str(default),
    }
}

/// Appends `s` to `out` with path separators and NULs replaced by '_'.
fn append_without_separators(out: &mut String, s: &str)
    ensures
        final(out)@ == old(out)@ + without_separators(s@),
{
    let v = chars_of(s);
    let mut i: usize = 0;
    while i < v.len()
        invariant
            i <= v@.len(),
            v@ == s@,
            out@ == old(out)@ + without_separators(v@.take(i as int)),
        decreases v.len() - i,
    {
        let c = v[i];
        let mapped = if c == '/' || c == '\0' {
            '_'
        } else {
            c
        };
        push_char(out, mapped);
        assert(without_separators(v@.take(i + 1)) =~= without_separators(v@.take(i as int)).push(
            mapped,
        ));
        assert(old(out)@ + without_separators(v@.take(i + 1)) =~= old(out)@ + without_separators(
            v@.take(i as int),
        ).push(mapped));
        i += 1;
    }
    assert(v@.take(v@.len() as int) =~= v@);
}

/// `s` made into one directory name.
pub fn to_path_component(s: &str) -> (res: String)
    ensures
        res@ == path_component(s@),
        is_plain_name(res@),
{
    let mut out = String::new();
    append_without_separators(&mut out, s);
    assert(out@ =~= without_separators(s@));
    proof {
        lemma_path_component_is_plain(s@);
    }
    let dot = String::from_str(".");
    let dots = String::from_str("..");
    if s.unicode_len() == 0 || out == dot {
        String::from_str("_")
    } else if out == dots {
        String::from_str("__")
    } else {
        out
    }
}

/// Every directory name made from a text is a plain name.
pub proof fn lemma_path_component_is_plain(s: Seq<char>)
    ensures
        is_plain_name(path_component(s)),
{
    reveal_strlit(".");
    reveal_strlit("..");
    reveal_strlit("_");
    reveal_strlit("__");
    let r = without_separators(s);
    assert(forall|i: int| 0 <= i < r.len() ==> r[i] == file_char(s[i]));
    if r.len() == 0 || r == "."@ {
        assert("_"@.len() == 1 && "_"@[0] == '_');
        assert("."@[0] == '.');
        assert("_"@ != "."@);
    } else if r == ".."@ {
        assert("__"@[0] == '_');
        assert(".."@[0] == '.');
        assert("__"@ != "."@);
    }
}

proof fn lemma_decimal_chars(n: nat)
    ensures
        forall|i: int|
            0 <= i < decimal(n).len() ==> #[trigger] decimal(n)[i] != '/' && decimal(n)[i] != '\0',
    decreases n,
{
    assert(digit_char(n % 10) as u32 == 48 + n % 10);
    if n >= 10 {
        lemma_decimal_chars(n / 10);
        let d = decimal(n / 10);
        assert(forall|i: int| 0 <= i < d.len() ==> decimal(n)[i] == d[i]);
    }
}

/// An exported file name is a plain name: it stays directly in its album
/// directory.
pub proof fn lemma_file_name_is_plain(t: TrackInfo)
    ensures
        is_plain_name(export_file_name(t)),
{
    reveal_strlit(" - ");
    reveal_strlit(".wav");
    reveal_strlit(".");
    reveal_strlit("..");
    let n: i32 = match t.track_number {
        Some(n) => n,
        None => 0,
    };
    let title = without_separators(or_default(opt_view(t.title), "Unknown Title"@));
    let z = zero_padded2(n as int);
    if n < 0 {
        lemma_decimal_chars((-n) as nat);
        assert(forall|i: int| 0 < i < z.len() ==> z[i] == decimal((-n) as nat)[i - 1]);
    } else if n < 10 {
        lemma_decimal_chars(n as nat);
        assert(forall|i: int| 0 < i < z.len() ==> z[i] == decimal(n as nat)[i - 1]);
    } else {
        lemma_decimal_chars(n as nat);
    }
    assert(forall|i: int| 0 <= i < title.len() ==> title[i] != '/' && title[i] != '\0');
    let f = export_file_name(t);
    assert(f.len() > 2);
    assert forall|i: int| 0 <= i < f.len() implies f[i] != '/' && f[i] != '\0' by {
        if i < z.len() {
            assert(f[i] == z[i]);
        } else if i < z.len() + 3 {
            assert(f[i] == " - "@[i - z.len()]);
        } else if i < z.len() + 3 + title.len() {
            assert(f[i] == title[i - z.len() - 3]);
        } else {
            assert(f[i] == ".wav"@[i - z.len() - 3 - title.len()]);
        }
    }
}

/// Where the recording of `track` is exported to. Each of the three parts
/// is a plain name, so the file lands exactly two directories below the
/// music directory.
pub fn export_target(track: &TrackInfo) -> (res: ExportTarget)
    ensures
        res.artist@ == artist_dir(*track),
        res.album@ == album_dir(*track),
        res.file_name@ == export_file_name(*track),
        is_plain_name(res.artist@),
        is_plain_name(res.album@),
        is_plain_name(res.file_name@),
{
    let number: i32 = match track.track_number {
        Some(n) => n,
        None => 0,
    };
    let mut file_name = zero_padded2_string(number);
    file_name.append(" - ");
    match &track.title {
        Some(title) => append_without_separators(&mut file_name, title.as_str()),
        None => append_without_separators(&mut file_name, "Unknown Title"),
    }
    file_name.append(".wav");
    proof {
        lemma_file_name_is_plain(*track);
    }
    let artist = text_or(&track.artist, "Unknown Artist");
    let album = text_or(&track.album, "Unknown Album");
    ExportTarget {
        artist: to_path_component(artist.as_str()),
        album: to_path_component(album.as_str()),
        file_name,
    }
}

/// The operating system's code for a rename across file systems.
pub open spec fn cross_device_code() -> i32 {
    18
}

/// Whether a failed rename is to be replaced by a copy and a removal: only
/// when it failed because source and destination lie on different file
/// systems.
pub fn rename_needs_copy(os_error: Option<i32>) -> (res: bool)
    ensures
        res == (os_error == Some(cross_device_code())),
{
    match os_error {
        Some(code) => code == 18,
        None => false,
    }
}

} // verus!
