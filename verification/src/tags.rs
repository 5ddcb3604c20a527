use vstd::prelude::*;

verus! {

/// The value of one container tag frame.
///
/// A floating-point value is recorded without its number: no field of a
/// track record is ever taken from one.
#[derive(Debug, PartialEq, Eq)]
pub enum TagValue {
    /// A binary buffer.
    Binary(Vec<u8>),
    /// A boolean.
    Boolean(bool),
    /// A flag: the presence of the frame is its whole meaning.
    Flag,
    /// A floating-point number.
    Float,
    /// A signed integer.
    SignedInt(i64),
    /// A text.
    Text(String),
    /// An unsigned integer.
    UnsignedInt(u64),
}

/// The mathematical value of a `TagValue`.
pub enum TagValueView {
    Binary(Seq<u8>),
    Boolean(bool),
    Flag,
    Float,
    SignedInt(i64),
    Text(Seq<char>),
    UnsignedInt(u64),
}

impl View for TagValue {
    type V = TagValueView;

    open spec fn view(&self) -> TagValueView {
        match self {
            TagValue::Binary(bytes) => TagValueView::Binary(bytes@),
            TagValue::Boolean(b) => TagValueView::Boolean(*b),
            TagValue::Flag => TagValueView::Flag,
            TagValue::Float => TagValueView::Float,
            TagValue::SignedInt(n) => TagValueView::SignedInt(*n),
            TagValue::Text(text) => TagValueView::Text(text@),
            TagValue::UnsignedInt(n) => TagValueView::UnsignedInt(*n),
        }
    }
}

/// One keyed entry of a container's tag block.
#[derive(Debug, PartialEq, Eq)]
pub struct TagEntry {
    /// The frame key, such as `TIT2`.
    pub key: String,
    /// The frame's value.
    pub value: TagValue,
}

/// The mathematical value of a `TagEntry`.
pub struct TagEntryView {
    pub key: Seq<char>,
    pub value: TagValueView,
}

impl View for TagEntry {
    type V = TagEntryView;

    open spec fn view(&self) -> TagEntryView {
        TagEntryView { key: self.key@, value: self.value@ }
    }
}

/// The views of a sequence of tag entries, in the same order.
pub open spec fn tag_views(entries: Seq<TagEntry>) -> Seq<TagEntryView> {
    Seq::new(entries.len(), |i: int| entries[i]@)
}

/// The frame key of the track title.
pub open spec fn title_key() -> Seq<char> {
    "TIT2"@
}

/// The frame key of the album.
pub open spec fn album_key() -> Seq<char> {
    "TALB"@
}

/// The frame key of the lead artist.
pub open spec fn artist_key() -> Seq<char> {
    "TPE1"@
}

/// The frame key of the group or album artist.
pub open spec fn group_key() -> Seq<char> {
    "TPE2"@
}

/// The frame key of the track number.
pub open spec fn track_number_key() -> Seq<char> {
    "TRCK"@
}

/// Whether `key` is one of the five frame keys that a track record is filled from.
pub open spec fn is_known_key(key: Seq<char>) -> bool {
    ||| key == title_key()
    ||| key == album_key()
    ||| key == artist_key()
    ||| key == group_key()
    ||| key == track_number_key()
}

impl TagEntryView {
    /// Whether this entry has the key `key` and a textual value.
    pub open spec fn gives_text_for(self, key: Seq<char>) -> bool {
        self.key == key && self.value is Text
    }

    /// Whether this entry sets a field of a track record: its key is one of
    /// the five known ones and its value is a text.
    pub open spec fn is_recognized(self) -> bool {
        is_known_key(self.key) && self.value is Text
    }
}

/// The text that the entries give for `key`: that of the last entry with
/// this key and a textual value, or `None` where there is no such entry.
/// Entries with another key, or with a value that is no text, are passed over.
pub open spec fn last_text(entries: Seq<TagEntryView>, key: Seq<char>) -> Option<Seq<char>>
    decreases entries.len(),
{
    if entries.len() == 0 {
        None
    } else if entries.last().gives_text_for(key) {
        Some(entries.last().value->Text_0)
    } else {
        last_text(entries.drop_last(), key)
    }
}

/// `last_text` is `None` exactly when no entry gives a text for the key.
pub proof fn lemma_last_text_none(entries: Seq<TagEntryView>, key: Seq<char>)
    ensures
        last_text(entries, key) is None <==> forall|i: int|
            0 <= i < entries.len() ==> !(#[trigger] entries[i]).gives_text_for(key),
    decreases entries.len(),
{
    if entries.len() > 0 {
        let earlier = entries.drop_last();
        lemma_last_text_none(earlier, key);
        assert(forall|i: int| 0 <= i < earlier.len() ==> earlier[i] == #[trigger] entries[i]);
    }
}

/// Where `last_text` finds a text, it is that of an entry for the key after
/// which no other entry gives a text for the key: the last one wins.
pub proof fn lemma_last_text_some(entries: Seq<TagEntryView>, key: Seq<char>) -> (at: int)
    requires
        last_text(entries, key) is Some,
    ensures
        0 <= at < entries.len(),
        entries[at].gives_text_for(key),
        last_text(entries, key) == Some(entries[at].value->Text_0),
        forall|j: int| at < j < entries.len() ==> !(#[trigger] entries[j]).gives_text_for(key),
    decreases entries.len(),
{
    if entries.last().gives_text_for(key) {
        entries.len() - 1
    } else {
        let earlier = entries.drop_last();
        let at = lemma_last_text_some(earlier, key);
        assert(forall|j: int| 0 <= j < earlier.len() ==> earlier[j] == #[trigger] entries[j]);
        at
    }
}

/// Where one entry gives a text for the key and no other entry has the key,
/// `last_text` is the text of that entry.
pub proof fn lemma_only_entry_gives_its_text(entries: Seq<TagEntryView>, key: Seq<char>, at: int)
    requires
        0 <= at < entries.len(),
        entries[at].gives_text_for(key),
        forall|j: int| 0 <= j < entries.len() && j != at ==> (#[trigger] entries[j]).key != key,
    ensures
        last_text(entries, key) == Some(entries[at].value->Text_0),
{
    lemma_last_text_none(entries, key);
    let winner = lemma_last_text_some(entries, key);
    assert(winner == at);
}

} // verus!
