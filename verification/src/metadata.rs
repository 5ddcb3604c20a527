use vstd::prelude::*;

use crate::tags::{
    album_key, artist_key, group_key, last_text, lemma_last_text_none, tag_views, title_key,
    track_number_key, TagEntry, TagEntryView, TagValue, TagValueView,
};

verus! {

/// An image embedded in an audio file: its media type and its encoded bytes.
#[derive(Debug, PartialEq, Eq)]
pub struct MetaDataVisual {
    /// The MIME type the image is encoded as, such as `image/jpeg`.
    pub media_type: String,
    /// The encoded image.
    pub data: Vec<u8>,
}

/// The mathematical value of a `MetaDataVisual`.
pub struct VisualView {
    pub media_type: Seq<char>,
    pub data: Seq<u8>,
}

impl View for MetaDataVisual {
    type V = VisualView;

    open spec fn view(&self) -> VisualView {
        VisualView { media_type: self.media_type@, data: self.data@ }
    }
}

impl Clone for MetaDataVisual {
    fn clone(&self) -> (copy: Self)
        ensures
            copy@ == self@,
    {
        MetaDataVisual { media_type: self.media_type.clone(), data: copy_bytes(&self.data) }
    }
}

/// A copy of `bytes`.
pub fn copy_bytes(bytes: &Vec<u8>) -> (copy: Vec<u8>)
    ensures
        copy@ == bytes@,
{
    let mut copy: Vec<u8> = Vec::with_capacity(bytes.len());
    let mut i: usize = 0;
    while i < bytes.len()
        invariant
            i <= bytes.len(),
            copy@ == bytes@.take(i as int),
        decreases bytes.len() - i,
    {
        copy.push(bytes[i]);
        i += 1;
    }
    copy
}

/// The views of a sequence of images, in the same order.
pub open spec fn visual_views(visuals: Seq<MetaDataVisual>) -> Seq<VisualView> {
    Seq::new(visuals.len(), |i: int| visuals[i]@)
}

/// The view of an optional text.
pub open spec fn text_view(text: Option<String>) -> Option<Seq<char>> {
    match text {
        Some(s) => Some(s@),
        None => None,
    }
}

/// The view of an optional image.
pub open spec fn cover_view(visual: Option<MetaDataVisual>) -> Option<VisualView> {
    match visual {
        Some(v) => Some(v@),
        None => None,
    }
}

/// The display data of one audio file. It is made anew on every read and
/// never empty in `path`; every other field may be absent on its own.
#[derive(Debug, PartialEq, Eq)]
pub struct MetaData {
    path: String,
    title: Option<String>,
    artist: Option<String>,
    group: Option<String>,
    album: Option<String>,
    track_number: Option<String>,
    visual: Option<MetaDataVisual>,
}

/// The mathematical value of a `MetaData`.
pub struct MetaDataView {
    pub path: Seq<char>,
    pub title: Option<Seq<char>>,
    pub artist: Option<Seq<char>>,
    pub group: Option<Seq<char>>,
    pub album: Option<Seq<char>>,
    pub track_number: Option<Seq<char>>,
    pub visual: Option<VisualView>,
}

impl MetaDataView {
    /// The record of a file without tags: only the path is set.
    pub open spec fn bare(path: Seq<char>) -> MetaDataView {
        MetaDataView {
            path,
            title: None,
            artist: None,
            group: None,
            album: None,
            track_number: None,
            visual: None,
        }
    }

    /// The record that a tag block gives for the file at `path`: each text
    /// field is the text of the last entry for its key, and the cover art is
    /// the last of the embedded images.
    pub open spec fn from_block(
        path: Seq<char>,
        tags: Seq<TagEntryView>,
        visuals: Seq<VisualView>,
    ) -> MetaDataView {
        MetaDataView {
            path,
            title: last_text(tags, title_key()),
            artist: last_text(tags, artist_key()),
            group: last_text(tags, group_key()),
            album: last_text(tags, album_key()),
            track_number: last_text(tags, track_number_key()),
            visual: if visuals.len() == 0 {
                None
            } else {
                Some(visuals.last())
            },
        }
    }

    /// Whether only the path is set.
    pub open spec fn is_bare(self) -> bool {
        self == MetaDataView::bare(self.path)
    }

    /// The record after one more entry of the tag block: an entry with one
    /// of the five known keys and a text sets the field of its key, any
    /// other entry changes nothing.
    pub open spec fn with_entry(self, entry: TagEntryView) -> MetaDataView {
        match entry.value {
            TagValueView::Text(text) => if entry.key == title_key() {
                MetaDataView { title: Some(text), ..self }
            } else if entry.key == album_key() {
                MetaDataView { album: Some(text), ..self }
            } else if entry.key == artist_key() {
                MetaDataView { artist: Some(text), ..self }
            } else if entry.key == group_key() {
                MetaDataView { group: Some(text), ..self }
            } else if entry.key == track_number_key() {
                MetaDataView { track_number: Some(text), ..self }
            } else {
                self
            },
            _ => self,
        }
    }
}

impl View for MetaData {
    type V = MetaDataView;

    closed spec fn view(&self) -> MetaDataView {
        MetaDataView {
            path: self.path@,
            title: text_view(self.title),
            artist: text_view(self.artist),
            group: text_view(self.group),
            album: text_view(self.album),
            track_number: text_view(self.track_number),
            visual: cover_view(self.visual),
        }
    }
}

impl MetaData {
    #[verifier::type_invariant]
    spec fn path_is_set(&self) -> bool {
        self.path@.len() > 0
    }

    /// The record of the file at `path` with every optional field absent.
    pub fn new(path: &String) -> (record: MetaData)
        requires
            path@.len() > 0,
        ensures
            record@ == MetaDataView::bare(path@),
    {
        MetaData {
            path: path.clone(),
            title: None,
            artist: None,
            group: None,
            album: None,
            track_number: None,
            visual: None,
        }
    }

    /// The record with the given fields.
    pub fn with_fields(
        path: String,
        title: Option<String>,
        artist: Option<String>,
        group: Option<String>,
        album: Option<String>,
        track_number: Option<String>,
        visual: Option<MetaDataVisual>,
    ) -> (record: MetaData)
        requires
            path@.len() > 0,
        ensures
            record@ == (MetaDataView {
                path: path@,
                title: text_view(title),
                artist: text_view(artist),
                group: text_view(group),
                album: text_view(album),
                track_number: text_view(track_number),
                visual: cover_view(visual),
            }),
    {
        MetaData { path, title, artist, group, album, track_number, visual }
    }

    /// The record of the file at `path` whose first metadata block holds
    /// `tags` and `visuals`, both in container order.
    ///
    /// Five frame keys fill the text fields: `TIT2` the title, `TALB` the
    /// album, `TPE1` the artist, `TPE2` the group or album artist, `TRCK`
    /// the track number. An entry with another key, or whose value is no
    /// text, changes nothing. Of several images the last one is kept.
    pub fn from_block(path: &String, tags: &Vec<TagEntry>, visuals: &Vec<MetaDataVisual>) -> (record:
        MetaData)
        requires
            path@.len() > 0,
        ensures
            record@ == MetaDataView::from_block(path@, tag_views(tags@), visual_views(visuals@)),
    {
        let title_name = String::from_str("TIT2");
        let album_name = String::from_str("TALB");
        let artist_name = String::from_str("TPE1");
        let group_name = String::from_str("TPE2");
        let track_number_name = String::from_str("TRCK");
        let mut title: Option<String> = None;
        let mut artist: Option<String> = None;
        let mut group: Option<String> = None;
        let mut album: Option<String> = None;
        let mut track_number: Option<String> = None;
        let ghost entries = tag_views(tags@);
        let mut i: usize = 0;
        while i < tags.len()
            invariant
                i <= tags.len(),
                entries == tag_views(tags@),
                title_name@ == title_key(),
                album_name@ == album_key(),
                artist_name@ == artist_key(),
                group_name@ == group_key(),
                track_number_name@ == track_number_key(),
                text_view(title) == last_text(entries.take(i as int), title_key()),
                text_view(artist) == last_text(entries.take(i as int), artist_key()),
                text_view(group) == last_text(entries.take(i as int), group_key()),
                text_view(album) == last_text(entries.take(i as int), album_key()),
                text_view(track_number) == last_text(entries.take(i as int), track_number_key()),
            decreases tags.len() - i,
        {
            let tag = &tags[i];
            assert(entries.take(i + 1).drop_last() == entries.take(i as int));
            if let TagValue::Text(text) = &tag.value {
                if tag.key == title_name {
                    title = Some(text.clone());
                }
                if tag.key == album_name {
                    album = Some(text.clone());
                }
                if tag.key == artist_name {
                    artist = Some(text.clone());
                }
                if tag.key == group_name {
                    group = Some(text.clone());
                }
                if tag.key == track_number_name {
                    track_number = Some(text.clone());
                }
            }
            i += 1;
        }
        assert(entries.take(tags.len() as int) == entries);
        let visual = if visuals.len() == 0 {
            None
        } else {
            let last = &visuals[visuals.len() - 1];
            Some(last.clone())
        };
        MetaData { path: path.clone(), title, artist, group, album, track_number, visual }
    }

    /// The file's location.
    pub fn path(&self) -> (path: &String)
        ensures
            path@ == self@.path,
            path@.len() > 0,
    {
        proof {
            use_type_invariant(self);
        }
        &self.path
    }

    /// The track title, where the file has one.
    pub fn title(&self) -> (title: &Option<String>)
        ensures
            text_view(*title) == self@.title,
    {
        &self.title
    }

    /// The lead artist, where the file names one.
    pub fn artist(&self) -> (artist: &Option<String>)
        ensures
            text_view(*artist) == self@.artist,
    {
        &self.artist
    }

    /// The group or album artist, where the file names one.
    pub fn group(&self) -> (group: &Option<String>)
        ensures
            text_view(*group) == self@.group,
    {
        &self.group
    }

    /// The album, where the file names one.
    pub fn album(&self) -> (album: &Option<String>)
        ensures
            text_view(*album) == self@.album,
    {
        &self.album
    }

    /// The track number as the file writes it, where it has one.
    pub fn track_number(&self) -> (track_number: &Option<String>)
        ensures
            text_view(*track_number) == self@.track_number,
    {
        &self.track_number
    }

    /// The cover art, where the file embeds an image.
    pub fn visual(&self) -> (visual: &Option<MetaDataVisual>)
        ensures
            cover_view(*visual) == self@.visual,
    {
        &self.visual
    }
}

/// A block in which no entry is recognized, and which holds no image, gives
/// the record with only the path set.
pub proof fn lemma_unrecognized_block_is_bare(
    path: Seq<char>,
    tags: Seq<TagEntryView>,
    visuals: Seq<VisualView>,
)
    requires
        forall|i: int| 0 <= i < tags.len() ==> !(#[trigger] tags[i]).is_recognized(),
        visuals.len() == 0,
    ensures
        MetaDataView::from_block(path, tags, visuals) == MetaDataView::bare(path),
        MetaDataView::from_block(path, tags, visuals).is_bare(),
{
    lemma_last_text_none(tags, title_key());
    lemma_last_text_none(tags, artist_key());
    lemma_last_text_none(tags, group_key());
    lemma_last_text_none(tags, album_key());
    lemma_last_text_none(tags, track_number_key());
}

/// The five known keys differ from one another, so that no entry sets two fields.
pub proof fn lemma_known_keys_differ()
    ensures
        title_key() != album_key(),
        title_key() != artist_key(),
        title_key() != group_key(),
        title_key() != track_number_key(),
        album_key() != artist_key(),
        album_key() != group_key(),
        album_key() != track_number_key(),
        artist_key() != group_key(),
        artist_key() != track_number_key(),
        group_key() != track_number_key(),
{
    reveal_strlit("TIT2");
    reveal_strlit("TALB");
    reveal_strlit("TPE1");
    reveal_strlit("TPE2");
    reveal_strlit("TRCK");
    assert(title_key()[1] == 'I');
    assert(album_key()[1] == 'A');
    assert(artist_key()[1] == 'P' && artist_key()[3] == '1');
    assert(group_key()[1] == 'P' && group_key()[3] == '2');
    assert(track_number_key()[1] == 'R');
}

/// A block is read entry by entry: the record of a block with one more
/// entry at its end is the record of the block before, changed by that entry
/// alone. The images have no part in it.
pub proof fn lemma_block_is_read_entry_by_entry(
    path: Seq<char>,
    tags: Seq<TagEntryView>,
    entry: TagEntryView,
    visuals: Seq<VisualView>,
)
    ensures
        MetaDataView::from_block(path, tags.push(entry), visuals) == MetaDataView::from_block(
            path,
            tags,
            visuals,
        ).with_entry(entry),
        MetaDataView::from_block(path, Seq::empty(), Seq::empty()) == MetaDataView::bare(path),
{
    lemma_known_keys_differ();
    assert(tags.push(entry).drop_last() == tags);
}

/// Of the images of a block the last one in container order is the cover
/// art, whatever stands before it; a block without images gives none.
pub proof fn lemma_cover_art_is_last_image(
    path: Seq<char>,
    tags: Seq<TagEntryView>,
    visuals: Seq<VisualView>,
)
    ensures
        visuals.len() > 0 ==> MetaDataView::from_block(path, tags, visuals).visual == Some(
            visuals[visuals.len() - 1],
        ),
        visuals.len() == 0 ==> MetaDataView::from_block(path, tags, visuals).visual is None,
        forall|earlier: Seq<VisualView>, last: VisualView|
            MetaDataView::from_block(path, tags, #[trigger] earlier.push(last)).visual == Some(last),
{
}

/// The path of a record is the path it was made for; the tags and images
/// never touch it.
pub proof fn lemma_path_is_kept(path: Seq<char>, tags: Seq<TagEntryView>, visuals: Seq<VisualView>)
    ensures
        MetaDataView::from_block(path, tags, visuals).path == path,
        MetaDataView::bare(path).path == path,
{
}

} // verus!
