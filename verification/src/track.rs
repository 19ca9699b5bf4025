//! Track metadata as the media player announces it, and the track
//! information the recorder keeps from it.
use vstd::prelude::*;

verus! {

/// The value of one metadata entry, reduced to what the recorder reads: a
/// string, a 32-bit integer, an array whose string items are kept in place
/// (`None` for an item that is not a string), or anything else.
#[derive(Debug, PartialEq, Eq)]
pub enum MetaValue {
    Text(String),
    Int32(i32),
    TextList(Vec<Option<String>>),
    Other,
}

/// Metadata of a track: keys with values. A later entry for a key hides an
/// earlier one.
#[derive(Debug)]
pub struct Metadata {
    entries: Vec<(String, MetaValue)>,
}

/// The map that a list of entries stands for: the last entry for a key wins.
pub open spec fn entries_map(entries: Seq<(String, MetaValue)>) -> Map<Seq<char>, MetaValue>
    decreases entries.len(),
{
    if entries.len() == 0 {
        Map::empty()
    } else {
        entries_map(entries.drop_last()).insert(entries.last().0@, entries.last().1)
    }
}

proof fn lemma_entries_map_absent(entries: Seq<(String, MetaValue)>, key: Seq<char>)
    requires
        forall|j: int| 0 <= j < entries.len() ==> entries[j].0@ != key,
    ensures
        !entries_map(entries).contains_key(key),
    decreases entries.len(),
{
    if entries.len() > 0 {
        lemma_entries_map_absent(entries.drop_last(), key);
    }
}

proof fn lemma_entries_map_last(entries: Seq<(String, MetaValue)>, key: Seq<char>, i: int)
    requires
        0 <= i < entries.len(),
        entries[i].0@ == key,
        forall|j: int| i < j < entries.len() ==> entries[j].0@ != key,
    ensures
        entries_map(entries).contains_key(key),
        entries_map(entries)[key] == entries[i].1,
    decreases entries.len(),
{
    if i < entries.len() - 1 {
        lemma_entries_map_last(entries.drop_last(), key, i);
    }
}

impl View for Metadata {
    type V = Map<Seq<char>, MetaValue>;

    closed spec fn view(&self) -> Map<Seq<char>, MetaValue> {
        entries_map(self.entries@)
    }
}

impl Metadata {
    /// The value of `key`, if it has one.
    pub open spec fn lookup(&self, key: Seq<char>) -> Option<MetaValue> {
        if self@.contains_key(key) {
            Some(self@[key])
        } else {
            None
        }
    }

    /// Metadata with no entries.
    pub fn new() -> (res: Metadata)
        ensures
            res@ == Map::<Seq<char>, MetaValue>::empty(),
    {
        Metadata { entries: Vec::new() }
    }

    /// Sets the value of `key`.
    pub fn insert(&mut self, key: String, value: MetaValue)
        ensures
            final(self)@ == old(self)@.insert(key@, value),
    {
        let ghost before = self.entries@;
        self.entries.push((key, value));
        assert(self.entries@.drop_last() =~= before);
    }

    /// The value of `key`, if it has one.
    pub fn get(&self, key: &String) -> (res: Option<&MetaValue>)
        ensures
            match res {
                Some(v) => self.lookup(key@) == Some(*v),
                None => self.lookup(key@) is None,
            },
    {
        let mut i = self.entries.len();
        while i > 0
            invariant
                i <= self.entries@.len(),
                forall|j: int| i <= j < self.entries@.len() ==> self.entries@[j].0@ != key@,
            decreases i,
        {
            i -= 1;
            if self.entries[i].0 == *key {
                proof {
                    lemma_entries_map_last(self.entries@, key@, i as int);
                }
                return Some(&self.entries[i].1);
            }
        }
        proof {
            lemma_entries_map_absent(self.entries@, key@);
        }
        None
    }
}

/// What the recorder keeps of a track.
#[derive(Debug, PartialEq, Eq)]
pub struct TrackInfo {
    pub track_id: String,
    pub title: Option<String>,
    pub album: Option<String>,
    pub artist: Option<String>,
    pub album_artist: Option<String>,
    pub art_url: Option<String>,
    pub track_number: Option<i32>,
    pub disc_number: Option<i32>,
}

/// The characters of an optional string.
pub open spec fn opt_view(s: Option<String>) -> Option<Seq<char>> {
    match s {
        Some(s) => Some(s@),
        None => None,
    }
}

/// A track with its text fields taken as characters.
pub struct TrackView {
    pub track_id: Seq<char>,
    pub title: Option<Seq<char>>,
    pub album: Option<Seq<char>>,
    pub artist: Option<Seq<char>>,
    pub album_artist: Option<Seq<char>>,
    pub art_url: Option<Seq<char>>,
    pub track_number: Option<i32>,
    pub disc_number: Option<i32>,
}

impl View for TrackInfo {
    type V = TrackView;

    open spec fn view(&self) -> TrackView {
        TrackView {
            track_id: self.track_id@,
            title: opt_view(self.title),
            album: opt_view(self.album),
            artist: opt_view(self.artist),
            album_artist: opt_view(self.album_artist),
            art_url: opt_view(self.art_url),
            track_number: self.track_number,
            disc_number: self.disc_number,
        }
    }
}

fn clone_opt_string(s: &Option<String>) -> (res: Option<String>)
    ensures
        res == *s,
{
    match s {
        Some(v) => Some(v.clone()),
        None => None,
    }
}

impl Clone for TrackInfo {
    fn clone(&self) -> (res: Self)
        ensures
            res == *self,
    {
        TrackInfo {
            track_id: self.track_id.clone(),
            title: clone_opt_string(&self.title),
            album: clone_opt_string(&self.album),
            artist: clone_opt_string(&self.artist),
            album_artist: clone_opt_string(&self.album_artist),
            art_url: clone_opt_string(&self.art_url),
            track_number: self.track_number,
            disc_number: self.disc_number,
        }
    }
}

impl Default for TrackInfo {
    fn default() -> (res: Self)
        ensures
            res.track_id@ == Seq::<char>::empty(),
            res.title is None,
            res.album is None,
            res.artist is None,
            res.album_artist is None,
            res.art_url is None,
            res.track_number is None,
            res.disc_number is None,
    {
        TrackInfo {
            track_id: String::new(),
            title: None,
            album: None,
            artist: None,
            album_artist: None,
            art_url: None,
            track_number: None,
            disc_number: None,
        }
    }
}

/// The string items of an array value, in order.
pub open spec fn text_items(items: Seq<Option<String>>) -> Seq<Seq<char>>
    decreases items.len(),
{
    if items.len() == 0 {
        seq![]
    } else {
        match items.last() {
            Some(s) => text_items(items.drop_last()).push(s@),
            None => text_items(items.drop_last()),
        }
    }
}

/// `parts` joined with `sep` between neighbours.
pub open spec fn join(parts: Seq<Seq<char>>, sep: Seq<char>) -> Seq<char>
    decreases parts.len(),
{
    if parts.len() == 0 {
        seq![]
    } else if parts.len() == 1 {
        parts[0]
    } else {
        join(parts.drop_last(), sep) + sep + parts.last()
    }
}

/// The string value of `key`, if it has one.
pub open spec fn text_value(m: Map<Seq<char>, MetaValue>, key: Seq<char>) -> Option<Seq<char>> {
    if m.contains_key(key) {
        match m[key] {
            MetaValue::Text(s) => Some(s@),
            _ => None,
        }
    } else {
        None
    }
}

/// The 32-bit integer value of `key`, if it has one.
pub open spec fn int_value(m: Map<Seq<char>, MetaValue>, key: Seq<char>) -> Option<i32> {
    if m.contains_key(key) {
        match m[key] {
            MetaValue::Int32(n) => Some(n),
            _ => None,
        }
    } else {
        None
    }
}

/// The string items of the array value of `key` joined with ", ", if it
/// has an array value.
pub open spec fn names_value(m: Map<Seq<char>, MetaValue>, key: Seq<char>) -> Option<Seq<char>> {
    if m.contains_key(key) {
        match m[key] {
            MetaValue::TextList(items) => Some(join(text_items(items@), ", "@)),
            _ => None,
        }
    } else {
        None
    }
}

/// The track described by metadata `m`.
pub open spec fn track_of(m: Map<Seq<char>, MetaValue>) -> TrackView {
    TrackView {
        track_id: match text_value(m, "mpris:trackid"@) {
            Some(id) => id,
            None => Seq::empty(),
        },
        title: text_value(m, "xesam:title"@),
        album: text_value(m, "xesam:album"@),
        artist: names_value(m, "xesam:artist"@),
        album_artist: names_value(m, "xesam:albumArtist"@),
        art_url: text_value(m, "mpris:artUrl"@),
        track_number: int_value(m, "xesam:trackNumber"@),
        disc_number: int_value(m, "xesam:discNumber"@),
    }
}

fn text_entry(metadata: &Metadata, key: &str) -> (res: Option<String>)
    ensures
        opt_view(res) == text_value(metadata@, key@),
{
    let k = String::from_str(key);
    match metadata.get(&k) {
        Some(MetaValue::Text(s)) => Some(s.clone()),
        _ => None,
    }
}

fn int_entry(metadata: &Metadata, key: &str) -> (res: Option<i32>)
    ensures
        res == int_value(metadata@, key@),
{
    let k = String::from_str(key);
    match metadata.get(&k) {
        Some(MetaValue::Int32(n)) => Some(*n),
        _ => None,
    }
}

/// The string items of `items` joined with ", ".
pub fn join_names(items: &Vec<Option<String>>) -> (res: String)
    ensures
        res@ == join(text_items(items@), ", "@),
{
    let mut res = String::new();
    let mut count: usize = 0;
    let mut i: usize = 0;
    while i < items.len()
        invariant
            i <= items@.len(),
            count == text_items(items@.take(i as int)).len(),
            count <= i,
            res@ == join(text_items(items@.take(i as int)), ", "@),
        decreases items.len() - i,
    {
        let ghost before = text_items(items@.take(i as int));
        assert(items@.take(i + 1).drop_last() =~= items@.take(i as int));
        match &items[i] {
            Some(name) => {
                if count > 0 {
                    res.append(", ");
                }
                res.append(name.as_str());
                count += 1;
                proof {
                    assert(text_items(items@.take(i + 1)) == before.push(name@));
                    assert(before.push(name@).drop_last() =~= before);
                    if before.len() == 0 {
                        assert(res@ =~= join(before.push(name@), ", "@));
                    }
                }
            },
            None => {},
        }
        i += 1;
    }
    assert(items@.take(items@.len() as int) =~= items@);
    res
}

fn names_entry(metadata: &Metadata, key: &str) -> (res: Option<String>)
    ensures
        opt_view(res) == names_value(metadata@, key@),
{
    let k = String::from_str(key);
    match metadata.get(&k) {
        Some(MetaValue::TextList(items)) => Some(join_names(items)),
        _ => None,
    }
}

/// The track described by `metadata`: its id (empty when the metadata has
/// none), title, album, artists and album artists (each list joined with
/// ", "), cover art location, track and disc number.
pub fn parse_track_info(metadata: &Metadata) -> (track: TrackInfo)
    ensures
        track@ == track_of(metadata@),
{
    let track_id = match text_entry(metadata, "mpris:trackid") {
        Some(id) => id,
        None => String::new(),
    };
    TrackInfo {
        track_id,
        title: text_entry(metadata, "xesam:title"),
        album: text_entry(metadata, "xesam:album"),
        artist: names_entry(metadata, "xesam:artist"),
        album_artist: names_entry(metadata, "xesam:albumArtist"),
        art_url: text_entry(metadata, "mpris:artUrl"),
        track_number: int_entry(metadata, "xesam:trackNumber"),
        disc_number: int_entry(metadata, "xesam:discNumber"),
    }
}

} // verus!
